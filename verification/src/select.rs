//! Resolving a user-supplied camera selector against the enumerated device
//! list: the literal "all" (any ASCII case) expands to every index, a string
//! of digits names one index.

use vstd::prelude::*;

use crate::chars::{all_digit_chars, chars_eq_ci, check_digit_chars, str_eq_ci};
use crate::error::CamError;
use crate::numerals::{
    digit_char_val, digits_val, lemma_digits_val_upper, lemma_pow10_mono, pow10,
};
use crate::chars::is_digit_char;

verus! {

/// What `parse_camera_selection` resolves a selector to: every index for
/// "all", the named index when it is in range, and otherwise the error that
/// says what was wrong with the selector.
pub open spec fn selection_spec(s: Seq<char>, device_count: int) -> Result<Seq<int>, CamError> {
    if s.len() > 16 {
        Err(CamError::InvalidSelector)
    } else if chars_eq_ci(s, "all"@) {
        Ok(Seq::new(device_count as nat, |i: int| i))
    } else if !(s.len() >= 1 && all_digit_chars(s)) {
        Err(CamError::InvalidSelector)
    } else if digits_val(s) >= device_count {
        Err(CamError::DeviceNotFound)
    } else {
        Ok(seq![digits_val(s)])
    }
}

/// Resolves a camera selector against the number of enumerated devices.
///
/// "all" (case-insensitive) yields every index `0..device_count`; a digit
/// string yields that single index if it is below `device_count`.
pub fn parse_camera_selection(camera: &str, device_count: usize) -> (r: Result<
    Vec<usize>,
    CamError,
>)
    ensures
        match r {
            Ok(v) => selection_spec(camera@, device_count as int) matches Ok(s) && v@.len()
                == s.len() && forall|i: int| 0 <= i < s.len() ==> v@[i] as int == s[i],
            Err(e) => selection_spec(camera@, device_count as int) == Err::<Seq<int>, CamError>(e),
        },
{
    let len = camera.unicode_len();
    if len > 16 {
        return Err(CamError::InvalidSelector);
    }
    if str_eq_ci(camera, "all") {
        let mut v: Vec<usize> = Vec::new();
        for idx in 0..device_count
            invariant
                v@.len() == idx,
                forall|i: int| 0 <= i < idx ==> v@[i] == i,
        {
            v.push(idx);
        }
        return Ok(v);
    }
    if len == 0 || !check_digit_chars(camera) {
        return Err(CamError::InvalidSelector);
    }
    let mut acc: u64 = 0;
    let mut i: usize = 0;
    while i < len
        invariant
            0 <= i <= len,
            len == camera@.len(),
            len <= 16,
            all_digit_chars(camera@),
            acc == digits_val(camera@.subrange(0, i as int)),
        decreases len - i,
    {
        let c = camera.get_char(i);
        assert(is_digit_char(camera@[i as int]));
        let d: u64 = (c as u32 - 48) as u64;
        assert(d == digit_char_val(camera@[i as int]));
        let ghost prev = camera@.subrange(0, i as int);
        proof {
            assert(all_digit_chars(prev));
            lemma_digits_val_upper(prev);
            lemma_pow10_mono(prev.len(), 15);
            reveal_with_fuel(pow10, 16);
            assert(pow10(15) == 1000000000000000);
            assert(acc < 1000000000000000);
        }
        acc = acc * 10 + d;
        proof {
            let cur = camera@.subrange(0, i + 1);
            assert(cur.drop_last() =~= prev);
            assert(cur.last() == camera@[i as int]);
        }
        i = i + 1;
    }
    proof {
        assert(camera@.subrange(0, len as int) =~= camera@);
    }
    if acc >= device_count as u64 {
        Err(CamError::DeviceNotFound)
    } else {
        let mut v: Vec<usize> = Vec::new();
        v.push(acc as usize);
        Ok(v)
    }
}

} // verus!
