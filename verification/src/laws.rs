//! Laws the codec and the mutator obey, stated across function boundaries
//! and proved from the specifications the functions themselves carry.

use vstd::prelude::*;

use crate::catalog::PropertyType;
use crate::chars::{chars_eq_ci, is_digit_char, lower_code};
use crate::codec::{
    format_value_spec, is_on_off, is_powerline, label_value_spec, parse_value_spec,
};
use crate::error::CamError;
use crate::model::{DeviceInfo, PropertyInfo};
use crate::mutate::{located_property, plan_set_spec, SetRequestSpec};
use crate::numerals::{
    dec_string_of, digits_of, lemma_digits_of_len, lemma_digits_of_shape,
    lemma_numeral_round_trip, pow10,
};

verus! {

/// A value string that spells "auto" in any ASCII case asks for automatic
/// mode, whatever the property: parsing yields `is_auto == true`.
pub proof fn lemma_parse_auto_any_case(name: Seq<char>, s: Seq<char>)
    requires
        chars_eq_ci(s, "auto"@),
    ensures
        parse_value_spec(name, s) == Ok::<(i32, bool), CamError>((0i32, true)),
{
    reveal_strlit("auto");
    assert(s.len() == 4);
    assert forall|i: int| 0 <= i < s.len() implies crate::chars::is_value_char(
        #[trigger] s[i],
    ) by {
        assert(lower_code(s[i]) == lower_code("auto"@[i]));
        assert(lower_code("auto"@[0]) == 'a' as int);
        assert(lower_code("auto"@[1]) == 'u' as int);
        assert(lower_code("auto"@[2]) == 't' as int);
        assert(lower_code("auto"@[3]) == 'o' as int);
    }
}

/// Formatting a value and parsing the result gives the value back, in manual
/// mode, for every property and every value the formatter assigns a
/// re-readable rendering to: any value of a plain numeric property, and the
/// labelled values of the special properties short of the powerline
/// frequency's "Auto" code, which parses back as an automatic-mode request.
pub proof fn lemma_format_parse_round_trip(name: Seq<char>, v: i32)
    requires
        is_powerline(name) ==> 0 <= v <= 2,
        is_on_off(name) ==> 0 <= v <= 1,
    ensures
        parse_value_spec(name, format_value_spec(name, v as int)) == Ok::<(i32, bool), CamError>(
            (v, false),
        ),
{
    reveal_strlit("auto");
    reveal_strlit("Disabled");
    reveal_strlit("50Hz");
    reveal_strlit("50");
    reveal_strlit("60Hz");
    reveal_strlit("60");
    reveal_strlit("Off");
    reveal_strlit("On");
    reveal_strlit("0");
    reveal_strlit("1");
    if is_powerline(name) {
        let s = format_value_spec(name, v as int);
        if v == 0 {
            assert(s == "Disabled"@);
            assert(!chars_eq_ci(s, "auto"@));
            assert(chars_eq_ci(s, "Disabled"@));
            assert(crate::chars::all_value_chars(s));
        } else if v == 1 {
            assert(s == "50Hz"@);
            assert(lower_code(s[0]) != lower_code("auto"@[0]));
            assert(!chars_eq_ci(s, "auto"@));
            assert(!chars_eq_ci(s, "Disabled"@));
            assert(chars_eq_ci(s, "50Hz"@));
            assert(crate::chars::all_value_chars(s));
        } else {
            assert(s == "60Hz"@);
            assert(lower_code(s[0]) != lower_code("auto"@[0]));
            assert(!chars_eq_ci(s, "auto"@));
            assert(!chars_eq_ci(s, "Disabled"@));
            assert(lower_code(s[0]) != lower_code("50Hz"@[0]));
            assert(!chars_eq_ci(s, "50Hz"@));
            assert(!chars_eq_ci(s, "50"@));
            assert(chars_eq_ci(s, "60Hz"@));
            assert(crate::chars::all_value_chars(s));
        }
    } else if is_on_off(name) {
        let s = format_value_spec(name, v as int);
        if v == 0 {
            assert(s == "Off"@);
            assert(!chars_eq_ci(s, "auto"@));
            assert(chars_eq_ci(s, "Off"@));
            assert(crate::chars::all_value_chars(s));
        } else {
            assert(s == "On"@);
            assert(!chars_eq_ci(s, "auto"@));
            assert(!chars_eq_ci(s, "Off"@));
            assert(!chars_eq_ci(s, "0"@));
            assert(chars_eq_ci(s, "On"@));
            assert(crate::chars::all_value_chars(s));
        }
    } else {
        let s = dec_string_of(v as int);
        assert(format_value_spec(name, v as int) == s);
        lemma_numeral_round_trip(v as int);
        proof_dec_string_well_formed(v);
        assert(label_value_spec(name, s) is None);
        assert(parse_value_spec(name, s) == Ok::<(i32, bool), CamError>((v, false)));
    }
}

/// The decimal string of an `i32` is short, uses only value characters, and
/// does not spell "auto".
proof fn proof_dec_string_well_formed(v: i32)
    ensures
        dec_string_of(v as int).len() <= 32,
        crate::chars::all_value_chars(dec_string_of(v as int)),
        !chars_eq_ci(dec_string_of(v as int), "auto"@),
{
    reveal_strlit("auto");
    reveal_with_fuel(pow10, 12);
    let s = dec_string_of(v as int);
    if v >= 0 {
        lemma_digits_of_shape(v as int);
        lemma_digits_of_len(v as int, 10);
        assert(s == digits_of(v as int));
        assert(is_digit_char(s[0]));
        assert(lower_code(s[0]) == s[0] as int);
        assert(lower_code("auto"@[0]) == 'a' as int);
        assert(forall|i: int|
            0 <= i < s.len() ==> crate::chars::is_value_char(#[trigger] s[i]));
    } else {
        lemma_digits_of_shape(-(v as int));
        lemma_digits_of_len(-(v as int), 10);
        assert(s == seq!['-'] + digits_of(-(v as int)));
        assert(s[0] == '-');
        assert(lower_code(s[0]) == '-' as int);
        assert forall|i: int| 0 <= i < s.len() implies crate::chars::is_value_char(
            #[trigger] s[i],
        ) by {
            if i >= 1 {
                assert(s[i] == digits_of(-(v as int))[i - 1]);
                assert(is_digit_char(s[i]));
            }
        }
    }
}

/// A write of a value one above the reported maximum is rejected as out of
/// range, and the error carries the attempted value and both bounds the
/// device reported.
pub proof fn lemma_above_max_rejected(
    device: DeviceInfo,
    name: Seq<char>,
    p: PropertyInfo,
    group: PropertyType,
    v: i32,
)
    requires
        located_property(device, name) == Some((p, group)),
        p.min is Some,
        p.max is Some,
        p.max->0 < i32::MAX,
        v == p.max->0 + 1,
    ensures
        plan_set_spec(device, name, v, false) == Err::<SetRequestSpec, CamError>(
            CamError::OutOfRange { value: v, min: p.min->0, max: p.max->0 },
        ),
{
}

} // verus!
