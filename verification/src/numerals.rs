//! Decimal numerals: converting `i32` values to their decimal strings and
//! strict parsing of decimal strings back to `i32`.
//!
//! The spec-level model is `dec_string_of` (the canonical numeral of an
//! integer) and `numeral_val` (the value of a numeral); the two executable
//! functions are proved against them, and `lemma_numeral_round_trip` ties
//! them together.

use vstd::prelude::*;

use crate::chars::{all_digit_chars, is_digit_char};

verus! {

/// The digit character for `d` in `0..=9`.
pub open spec fn digit_char(d: int) -> char {
    if d == 0 {
        '0'
    } else if d == 1 {
        '1'
    } else if d == 2 {
        '2'
    } else if d == 3 {
        '3'
    } else if d == 4 {
        '4'
    } else if d == 5 {
        '5'
    } else if d == 6 {
        '6'
    } else if d == 7 {
        '7'
    } else if d == 8 {
        '8'
    } else {
        '9'
    }
}

/// The numeric value of a digit character.
pub open spec fn digit_char_val(c: char) -> int {
    c as int - '0' as int
}

/// The decimal digit string of `n >= 0`, most significant digit first.
pub open spec fn digits_of(n: int) -> Seq<char>
    decreases n,
{
    if n < 10 {
        seq![digit_char(n)]
    } else {
        digits_of(n / 10).push(digit_char(n % 10))
    }
}

/// The decimal string of any integer: a `'-'` sign for negatives, then digits.
pub open spec fn dec_string_of(n: int) -> Seq<char> {
    if n < 0 {
        seq!['-'] + digits_of(-n)
    } else {
        digits_of(n)
    }
}

/// The value of a digit string, most significant digit first.
pub open spec fn digits_val(s: Seq<char>) -> int
    decreases s.len(),
{
    if s.len() == 0 {
        0
    } else {
        digits_val(s.drop_last()) * 10 + digit_char_val(s.last())
    }
}

/// `s` is a decimal numeral: an optional leading `'-'`, then one or more digits.
pub open spec fn is_numeral(s: Seq<char>) -> bool {
    if s.len() > 0 && s[0] == '-' {
        s.len() >= 2 && all_digit_chars(s.skip(1))
    } else {
        s.len() >= 1 && all_digit_chars(s)
    }
}

/// The integer value of a numeral.
pub open spec fn numeral_val(s: Seq<char>) -> int {
    if s.len() > 0 && s[0] == '-' {
        -digits_val(s.skip(1))
    } else {
        digits_val(s)
    }
}

/// `s` is a numeral whose value fits in `i32`.
pub open spec fn numeral_fits_i32(s: Seq<char>) -> bool {
    is_numeral(s) && i32::MIN <= numeral_val(s) <= i32::MAX
}

/// The digits of a nonnegative integer are digits, and there is at least one.
pub proof fn lemma_digits_of_shape(n: int)
    requires
        n >= 0,
    ensures
        digits_of(n).len() >= 1,
        all_digit_chars(digits_of(n)),
        is_digit_char(digits_of(n)[0]),
    decreases n,
{
    if n >= 10 {
        lemma_digits_of_shape(n / 10);
        let prev = digits_of(n / 10);
        let whole = digits_of(n);
        assert(whole == prev.push(digit_char(n % 10)));
        assert forall|i: int| 0 <= i < whole.len() implies is_digit_char(#[trigger] whole[i]) by {
            if i < prev.len() {
                assert(whole[i] == prev[i]);
            } else {
                assert(whole[i] == digit_char(n % 10));
            }
        }
    }
}

/// Reading back the digit string of `n` gives `n`.
pub proof fn lemma_digits_of_val(n: int)
    requires
        n >= 0,
    ensures
        digits_val(digits_of(n)) == n,
    decreases n,
{
    if n < 10 {
        let s = digits_of(n);
        assert(s.drop_last() =~= Seq::<char>::empty());
        assert(digits_val(Seq::<char>::empty()) == 0);
        assert(s.last() == digit_char(n));
        assert(digit_char_val(digit_char(n)) == n);
    } else {
        lemma_digits_of_val(n / 10);
        let prev = digits_of(n / 10);
        let whole = digits_of(n);
        assert(whole.drop_last() =~= prev);
        assert(whole.last() == digit_char(n % 10));
    }
}

/// The value of a digit string is nonnegative.
pub proof fn lemma_digits_val_nonneg(s: Seq<char>)
    requires
        all_digit_chars(s),
    ensures
        digits_val(s) >= 0,
    decreases s.len(),
{
    if s.len() > 0 {
        assert(all_digit_chars(s.drop_last()));
        lemma_digits_val_nonneg(s.drop_last());
    }
}

/// Extending a digit string on the right never shrinks its value.
pub proof fn lemma_digits_val_prefix_le(s: Seq<char>, i: int)
    requires
        all_digit_chars(s),
        0 <= i <= s.len(),
    ensures
        digits_val(s.take(i)) <= digits_val(s),
    decreases s.len() - i,
{
    if i < s.len() {
        let a = s.take(i);
        let b = s.take(i + 1);
        assert(b.drop_last() =~= a);
        assert(b.last() == s[i]);
        assert(all_digit_chars(a));
        lemma_digits_val_nonneg(a);
        assert(digits_val(b) == digits_val(a) * 10 + digit_char_val(s[i]));
        lemma_digits_val_prefix_le(s, i + 1);
        assert(s.take(s.len() as int) =~= s);
    } else {
        assert(s.take(i) =~= s);
    }
}

/// Ten to the `n`.
pub open spec fn pow10(n: nat) -> int
    decreases n,
{
    if n == 0 {
        1
    } else {
        10 * pow10((n - 1) as nat)
    }
}

/// A digit string of length `n` is worth less than ten to the `n`.
pub proof fn lemma_digits_val_upper(s: Seq<char>)
    requires
        all_digit_chars(s),
    ensures
        digits_val(s) < pow10(s.len()),
    decreases s.len(),
{
    if s.len() > 0 {
        assert(all_digit_chars(s.drop_last()));
        lemma_digits_val_upper(s.drop_last());
        assert(digit_char_val(s.last()) <= 9);
    }
}

/// `pow10` is monotone.
pub proof fn lemma_pow10_mono(a: nat, b: nat)
    requires
        a <= b,
    ensures
        pow10(a) <= pow10(b),
    decreases b,
{
    if a < b {
        lemma_pow10_mono(a, (b - 1) as nat);
        lemma_pow10_pos((b - 1) as nat);
    }
}

/// `pow10` is positive.
pub proof fn lemma_pow10_pos(n: nat)
    ensures
        pow10(n) >= 1,
    decreases n,
{
    if n > 0 {
        lemma_pow10_pos((n - 1) as nat);
    }
}

/// A nonnegative integer below ten to the `k` has at most `k` digits.
pub proof fn lemma_digits_of_len(n: int, k: nat)
    requires
        n >= 0,
        k >= 1,
        n < pow10(k),
    ensures
        digits_of(n).len() <= k,
    decreases n,
{
    if n >= 10 {
        lemma_pow10_pos((k - 1) as nat);
        assert(pow10(k) == 10 * pow10((k - 1) as nat));
        assert(10 * (n / 10) <= n);
        lemma_digits_of_len(n / 10, (k - 1) as nat);
    }
}

/// The canonical decimal string of an `i32` parses back to the same value.
pub proof fn lemma_numeral_round_trip(v: int)
    requires
        i32::MIN <= v <= i32::MAX,
    ensures
        numeral_fits_i32(dec_string_of(v)),
        numeral_val(dec_string_of(v)) == v,
{
    if v >= 0 {
        lemma_digits_of_shape(v);
        lemma_digits_of_val(v);
        let s = dec_string_of(v);
        assert(s[0] != '-');
    } else {
        lemma_digits_of_shape(-v);
        lemma_digits_of_val(-v);
        let s = dec_string_of(v);
        assert(s[0] == '-');
        assert(s.skip(1) =~= digits_of(-v));
    }
}

/// The digit characters as string slices, for assembling decimal strings.
fn digit_str(d: u8) -> (r: &'static str)
    requires
        d < 10,
    ensures
        r@ =~= seq![digit_char(d as int)],
{
    proof {
        reveal_strlit("0");
        reveal_strlit("1");
        reveal_strlit("2");
        reveal_strlit("3");
        reveal_strlit("4");
        reveal_strlit("5");
        reveal_strlit("6");
        reveal_strlit("7");
        reveal_strlit("8");
        reveal_strlit("9");
    }
    match d {
        0 => "0",
        1 => "1",
        2 => "2",
        3 => "3",
        4 => "4",
        5 => "5",
        6 => "6",
        7 => "7",
        8 => "8",
        _ => "9",
    }
}

/// The digit string of a byte sequence of digit values, read in reverse
/// (least significant digit value first, most significant character first).
pub open spec fn rev_digit_chars(b: Seq<u8>) -> Seq<char> {
    Seq::new(b.len(), |i: int| digit_char(b[b.len() - 1 - i] as int))
}

/// Renders `v` as its decimal string.
pub fn i32_to_string(v: i32) -> (r: String)
    ensures
        r@ == dec_string_of(v as int),
{
    let mag: u64 = if v >= 0 {
        v as u64
    } else {
        (-((v + 1) as i64)) as u64 + 1
    };
    assert(mag == if v >= 0 { v as int } else { -(v as int) });

    let mut ds: Vec<u8> = Vec::new();
    let mut m = mag;
    ds.push((m % 10) as u8);
    m = m / 10;
    proof {
        if m > 0 {
            assert(digits_of(mag as int) =~= digits_of(m as int) + rev_digit_chars(ds@));
        } else {
            assert(digits_of(mag as int) =~= rev_digit_chars(ds@));
        }
    }
    while m > 0
        invariant
            forall|j: int| 0 <= j < ds@.len() ==> ds@[j] < 10,
            ds@.len() >= 1,
            m > 0 ==> digits_of(mag as int) =~= digits_of(m as int) + rev_digit_chars(ds@),
            m == 0 ==> digits_of(mag as int) =~= rev_digit_chars(ds@),
        decreases m,
    {
        let ghost old_ds = ds@;
        let ghost old_m = m as int;
        ds.push((m % 10) as u8);
        m = m / 10;
        proof {
            assert(rev_digit_chars(ds@) =~= seq![digit_char(old_m % 10)] + rev_digit_chars(
                old_ds,
            ));
            if old_m >= 10 {
                assert(digits_of(old_m) == digits_of(old_m / 10).push(digit_char(old_m % 10)));
                assert(digits_of(old_m / 10) + rev_digit_chars(ds@) =~= digits_of(old_m)
                    + rev_digit_chars(old_ds));
            } else {
                assert(digits_of(old_m) =~= seq![digit_char(old_m)]);
                assert(rev_digit_chars(ds@) =~= digits_of(old_m) + rev_digit_chars(old_ds));
            }
            if m > 0 {
                assert(digits_of(mag as int) =~= digits_of(m as int) + rev_digit_chars(ds@));
            } else {
                assert(digits_of(mag as int) =~= rev_digit_chars(ds@));
            }
        }
    }

    let ghost target = dec_string_of(v as int);
    let mut out = String::new();
    if v < 0 {
        proof {
            reveal_strlit("-");
        }
        out.append("-");
    }
    let ghost sign_len: int = if v < 0 { 1 } else { 0 };
    proof {
        assert(target =~= out@ + digits_of(mag as int));
    }
    let n = ds.len();
    let mut i = n;
    while i > 0
        invariant
            0 <= i <= n,
            n == ds@.len(),
            forall|j: int| 0 <= j < ds@.len() ==> ds@[j] < 10,
            digits_of(mag as int) =~= rev_digit_chars(ds@),
            target == dec_string_of(v as int),
            target.len() == sign_len + n,
            out@ =~= target.take(sign_len + (n - i)),
            target =~= target.take(sign_len as int) + digits_of(mag as int),
        decreases i,
    {
        let d = ds[i - 1];
        out.append(digit_str(d));
        i = i - 1;
        proof {
            let k = sign_len + (n - i);
            let j = n - i - 1;
            assert(rev_digit_chars(ds@)[j] == digit_char(ds@[i as int] as int));
            assert(target[sign_len + j] == digits_of(mag as int)[j]);
            assert(target[k - 1] == digit_char(ds@[i as int] as int));
            assert(out@ =~= target.take(k));
        }
    }
    proof {
        assert(out@ =~= target);
    }
    out
}

/// Parses `s` as a strict decimal numeral with optional leading `'-'`.
///
/// Returns `None` exactly when `s` is not such a numeral or its value does
/// not fit in `i32`.
pub fn parse_i32_str(s: &str) -> (r: Option<i32>)
    ensures
        match r {
            Some(v) => numeral_fits_i32(s@) && v as int == numeral_val(s@),
            None => !numeral_fits_i32(s@),
        },
{
    let len = s.unicode_len();
    if len == 0 {
        return None;
    }
    let neg = s.get_char(0) == '-';
    let start: usize = if neg {
        1
    } else {
        0
    };
    if start >= len {
        return None;
    }
    let mut acc: u64 = 0;
    let mut i = start;
    while i < len
        invariant
            start <= i <= len,
            len == s@.len(),
            start < len,
            neg == (s@[0] == '-'),
            start == if neg { 1int } else { 0int },
            all_digit_chars(s@.subrange(start as int, i as int)),
            acc == digits_val(s@.subrange(start as int, i as int)),
            acc <= 0x8000_0000,
        decreases len - i,
    {
        let c = s.get_char(i);
        if !('0' <= c && c <= '9') {
            proof {
                if neg {
                    assert(!is_digit_char(s@.skip(1)[i - 1]));
                } else {
                    assert(!is_digit_char(s@[i as int]));
                }
            }
            return None;
        }
        let ghost prev = s@.subrange(start as int, i as int);
        let d: u64 = (c as u32 - 48) as u64;
        assert(d == digit_char_val(s@[i as int]));
        acc = acc * 10 + d;
        proof {
            let cur = s@.subrange(start as int, i + 1);
            assert(cur.drop_last() =~= prev);
            assert(cur.last() == s@[i as int]);
        }
        i = i + 1;
        if acc > 0x8000_0000 {
            proof {
                let digits = s@.skip(start as int);
                if all_digit_chars(digits) {
                    assert(s@.subrange(start as int, i as int) =~= digits.take(i - start));
                    lemma_digits_val_prefix_le(digits, i - start);
                    assert(digits_val(digits) > 0x8000_0000);
                    if neg {
                        assert(numeral_val(s@) == -digits_val(digits));
                    } else {
                        assert(digits =~= s@);
                        assert(numeral_val(s@) == digits_val(digits));
                    }
                } else {
                    if neg {
                        assert(!is_numeral(s@));
                    } else {
                        assert(digits =~= s@);
                        assert(!all_digit_chars(s@));
                    }
                }
            }
            return None;
        }
    }
    proof {
        let digits = s@.skip(start as int);
        assert(s@.subrange(start as int, len as int) =~= digits);
        assert(all_digit_chars(digits));
        assert(acc == digits_val(digits));
        lemma_digits_val_nonneg(digits);
        if neg {
            assert(is_numeral(s@));
            assert(numeral_val(s@) == -digits_val(digits));
        } else {
            assert(digits =~= s@);
            assert(is_numeral(s@));
            assert(numeral_val(s@) == digits_val(digits));
        }
    }
    if neg {
        if acc == 0x8000_0000 {
            Some(i32::MIN)
        } else {
            Some(-(acc as i32))
        }
    } else {
        if acc > 0x7FFF_FFFF {
            None
        } else {
            Some(acc as i32)
        }
    }
}

} // verus!
