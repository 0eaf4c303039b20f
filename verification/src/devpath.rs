//! Pure string work around device paths and driver metadata.
//!
//! Two jobs live here: extracting a device-installation instance identifier
//! out of a provider device path, and the fallback applied to indirect
//! driver strings whose resolution failed (keep the text after the last
//! semicolon, or the raw string unchanged).

use vstd::prelude::*;

use crate::chars::{chars_eq_ci, is_lower_char, lower_code, lower_code_of};

verus! {

/// The index of the last occurrence of `c` in `s`.
pub open spec fn rfind_char(s: Seq<char>, c: char) -> Option<int>
    decreases s.len(),
{
    if s.len() == 0 {
        None
    } else if s.last() == c {
        Some(s.len() - 1)
    } else {
        rfind_char(s.drop_last(), c)
    }
}

/// What the indirect-string fallback keeps: the text after the last
/// semicolon, or the whole string when it has none.
pub open spec fn fallback_spec(s: Seq<char>) -> Seq<char> {
    match rfind_char(s, ';') {
        Some(i) => s.skip(i + 1),
        None => s,
    }
}

/// The fallback for an indirect driver string whose resolution failed:
/// keeps the text after the last semicolon, or the string unchanged.
pub fn indirect_string_fallback(s: &str) -> (r: String)
    ensures
        r@ == fallback_spec(s@),
{
    let len = s.unicode_len();
    let mut k = len;
    proof {
        assert(s@.take(len as int) =~= s@);
    }
    while k > 0
        invariant
            0 <= k <= len,
            len == s@.len(),
            rfind_char(s@, ';') == rfind_char(s@.take(k as int), ';'),
        decreases k,
    {
        let c = s.get_char(k - 1);
        proof {
            let t = s@.take(k as int);
            assert(t.last() == s@[k - 1]);
            assert(t.drop_last() =~= s@.take(k - 1));
        }
        if c == ';' {
            let rest = s.substring_char(k, len);
            return String::from_str(rest);
        }
        k = k - 1;
    }
    proof {
        assert(s@.take(0) =~= Seq::<char>::empty());
    }
    String::from_str(s)
}

/// `pat` occurs at position `i` of `s`, up to ASCII case.
pub open spec fn match_at(s: Seq<char>, pat: Seq<char>, i: int) -> bool {
    0 <= i && i + pat.len() <= s.len() && chars_eq_ci(s.subrange(i, i + pat.len()), pat)
}

/// The first occurrence of `pat` in `s` at or after `i`, up to ASCII case.
pub open spec fn find_ci_from(s: Seq<char>, pat: Seq<char>, i: int) -> Option<int>
    decreases s.len() - i,
{
    if i < 0 || i + pat.len() > s.len() {
        None
    } else if match_at(s, pat, i) {
        Some(i)
    } else {
        find_ci_from(s, pat, i + 1)
    }
}

/// The first occurrence of `pat` in `s`, up to ASCII case.
pub open spec fn find_ci(s: Seq<char>, pat: Seq<char>) -> Option<int> {
    find_ci_from(s, pat, 0)
}

/// A found occurrence really is one: it lies at or after the start of the
/// search and the pattern matches there.
pub proof fn lemma_find_ci_some(s: Seq<char>, pat: Seq<char>, i: int, j: int)
    requires
        find_ci_from(s, pat, i) == Some(j),
    ensures
        i <= j,
        match_at(s, pat, j),
    decreases s.len() - i,
{
    if !(i < 0 || i + pat.len() > s.len()) {
        if !match_at(s, pat, i) {
            lemma_find_ci_some(s, pat, i + 1, j);
        }
    }
}

/// Does `pat` occur at position `i` of `s`, up to ASCII case?
fn match_at_exec(s: &str, pat: &str, i: usize) -> (r: bool)
    requires
        i + pat@.len() <= s@.len(),
        s@.len() <= usize::MAX,
    ensures
        r == match_at(s@, pat@, i as int),
{
    let m = pat.unicode_len();
    let ghost sub = s@.subrange(i as int, i + pat@.len());
    let mut j: usize = 0;
    while j < m
        invariant
            0 <= j <= m,
            m == pat@.len(),
            i + m <= s@.len(),
            s@.len() <= usize::MAX,
            sub == s@.subrange(i as int, i + pat@.len()),
            forall|t: int| 0 <= t < j ==> lower_code(sub[t]) == lower_code(pat@[t]),
        decreases m - j,
    {
        let a = s.get_char(i + j);
        let b = pat.get_char(j);
        proof {
            assert(sub[j as int] == s@[i + j]);
        }
        if lower_code_of(a) != lower_code_of(b) {
            return false;
        }
        j = j + 1;
    }
    true
}

/// Finds the first occurrence of `pat` in `s`, up to ASCII case.
fn find_ci_in(s: &str, pat: &str) -> (r: Option<usize>)
    requires
        pat@.len() >= 1,
    ensures
        match r {
            Some(i) => find_ci(s@, pat@) == Some(i as int),
            None => find_ci(s@, pat@) is None,
        },
{
    let n = s.unicode_len();
    let m = pat.unicode_len();
    if m > n {
        return None;
    }
    let mut i: usize = 0;
    while i <= n - m
        invariant
            1 <= m <= n,
            n == s@.len(),
            m == pat@.len(),
            0 <= i <= n - m + 1,
            find_ci_from(s@, pat@, 0) == find_ci_from(s@, pat@, i as int),
        decreases n - i,
    {
        if match_at_exec(s, pat, i) {
            return Some(i);
        }
        i = i + 1;
    }
    None
}

/// The ASCII upper-case form of one character; everything but a lower-case
/// letter passes through unchanged.
pub open spec fn upper_char(c: char) -> char {
    if c == 'a' {
        'A'
    } else if c == 'b' {
        'B'
    } else if c == 'c' {
        'C'
    } else if c == 'd' {
        'D'
    } else if c == 'e' {
        'E'
    } else if c == 'f' {
        'F'
    } else if c == 'g' {
        'G'
    } else if c == 'h' {
        'H'
    } else if c == 'i' {
        'I'
    } else if c == 'j' {
        'J'
    } else if c == 'k' {
        'K'
    } else if c == 'l' {
        'L'
    } else if c == 'm' {
        'M'
    } else if c == 'n' {
        'N'
    } else if c == 'o' {
        'O'
    } else if c == 'p' {
        'P'
    } else if c == 'q' {
        'Q'
    } else if c == 'r' {
        'R'
    } else if c == 's' {
        'S'
    } else if c == 't' {
        'T'
    } else if c == 'u' {
        'U'
    } else if c == 'v' {
        'V'
    } else if c == 'w' {
        'W'
    } else if c == 'x' {
        'X'
    } else if c == 'y' {
        'Y'
    } else if c == 'z' {
        'Z'
    } else {
        c
    }
}

/// `s` with ASCII lower case folded to upper case.
pub open spec fn upper_chars(s: Seq<char>) -> Seq<char> {
    Seq::new(s.len(), |i: int| upper_char(s[i]))
}

/// The upper-case string slice of one lower-case letter.
fn upper_str(c: char) -> (r: &'static str)
    requires
        is_lower_char(c),
    ensures
        r@ =~= seq![upper_char(c)],
{
    proof {
        reveal_strlit("A");
        reveal_strlit("B");
        reveal_strlit("C");
        reveal_strlit("D");
        reveal_strlit("E");
        reveal_strlit("F");
        reveal_strlit("G");
        reveal_strlit("H");
        reveal_strlit("I");
        reveal_strlit("J");
        reveal_strlit("K");
        reveal_strlit("L");
        reveal_strlit("M");
        reveal_strlit("N");
        reveal_strlit("O");
        reveal_strlit("P");
        reveal_strlit("Q");
        reveal_strlit("R");
        reveal_strlit("S");
        reveal_strlit("T");
        reveal_strlit("U");
        reveal_strlit("V");
        reveal_strlit("W");
        reveal_strlit("X");
        reveal_strlit("Y");
        reveal_strlit("Z");
    }
    match c {
        'a' => "A",
        'b' => "B",
        'c' => "C",
        'd' => "D",
        'e' => "E",
        'f' => "F",
        'g' => "G",
        'h' => "H",
        'i' => "I",
        'j' => "J",
        'k' => "K",
        'l' => "L",
        'm' => "M",
        'n' => "N",
        'o' => "O",
        'p' => "P",
        'q' => "Q",
        'r' => "R",
        's' => "S",
        't' => "T",
        'u' => "U",
        'v' => "V",
        'w' => "W",
        'x' => "X",
        'y' => "Y",
        _ => "Z",
    }
}

/// `s` with ASCII lower case folded to upper case.
fn to_upper_ascii(s: &str) -> (r: String)
    ensures
        r@ == upper_chars(s@),
{
    let len = s.unicode_len();
    let mut out = String::new();
    let mut i: usize = 0;
    proof {
        assert(out@ =~= upper_chars(s@).take(0));
    }
    while i < len
        invariant
            0 <= i <= len,
            len == s@.len(),
            out@ == upper_chars(s@).take(i as int),
        decreases len - i,
    {
        let c = s.get_char(i);
        if 'a' <= c && c <= 'z' {
            out.append(upper_str(c));
        } else {
            let piece = s.substring_char(i, i + 1);
            out.append(piece);
            proof {
                assert(piece@ =~= seq![s@[i as int]]);
                assert(upper_char(s@[i as int]) == s@[i as int]);
            }
        }
        proof {
            assert(out@ =~= upper_chars(s@).take(i + 1));
        }
        i = i + 1;
    }
    proof {
        assert(upper_chars(s@).take(len as int) =~= upper_chars(s@));
    }
    out
}

/// What `parse_device_instance_id` extracts from a provider device path:
/// the text after the "usb#" marker, cut at the interface-class brace, split
/// at its first two `'#'` separators, becomes
/// `USB\<hardware id, upper-cased>\<instance id>`.
pub open spec fn instance_id_spec(s: Seq<char>) -> Option<Seq<char>> {
    match find_ci(s, "usb#"@) {
        None => None,
        Some(u) => {
            let rest = s.skip(u + 4);
            match find_ci(rest, "#{"@) {
                None => None,
                Some(g) => {
                    let dev_id = rest.take(g);
                    match find_ci(dev_id, "#"@) {
                        None => None,
                        Some(h) => {
                            let p0 = dev_id.take(h);
                            let after = dev_id.skip(h + 1);
                            let p1 = match find_ci(after, "#"@) {
                                Some(h2) => after.take(h2),
                                None => after,
                            };
                            Some("USB\\"@ + upper_chars(p0) + "\\"@ + p1)
                        },
                    }
                },
            }
        },
    }
}

/// Extracts the device-installation instance identifier out of a provider
/// device path, like `USB\VID_0000&PID_0000&MI_00\<instance>` out of
/// `\\?\usb#vid_0000&pid_0000&mi_00#<instance>#{<class>}`; `None` when the
/// path does not have that shape.
pub fn parse_device_instance_id(device_path: &str) -> (r: Option<String>)
    ensures
        match r {
            Some(id) => instance_id_spec(device_path@) == Some(id@),
            None => instance_id_spec(device_path@) is None,
        },
{
    proof {
        reveal_strlit("usb#");
        reveal_strlit("#{");
        reveal_strlit("#");
    }
    let u = match find_ci_in(device_path, "usb#") {
        Some(u) => u,
        None => {
            return None;
        },
    };
    let len = device_path.unicode_len();
    proof {
        lemma_find_ci_some(device_path@, "usb#"@, 0, u as int);
    }
    let rest = device_path.substring_char(u + 4, len);
    proof {
        assert(rest@ =~= device_path@.skip(u + 4));
    }
    let g = match find_ci_in(rest, "#{") {
        Some(g) => g,
        None => {
            return None;
        },
    };
    proof {
        lemma_find_ci_some(rest@, "#{"@, 0, g as int);
    }
    let dev_id = rest.substring_char(0, g);
    proof {
        assert(dev_id@ =~= rest@.take(g as int));
    }
    let h = match find_ci_in(dev_id, "#") {
        Some(h) => h,
        None => {
            return None;
        },
    };
    proof {
        lemma_find_ci_some(dev_id@, "#"@, 0, h as int);
    }
    let p0 = dev_id.substring_char(0, h);
    proof {
        assert(p0@ =~= dev_id@.take(h as int));
    }
    let dlen = dev_id.unicode_len();
    let after = dev_id.substring_char(h + 1, dlen);
    proof {
        assert(after@ =~= dev_id@.skip(h + 1));
    }
    let p1 = match find_ci_in(after, "#") {
        Some(h2) => {
            proof {
                lemma_find_ci_some(after@, "#"@, 0, h2 as int);
            }
            after.substring_char(0, h2)
        },
        None => after,
    };
    proof {
        assert(p1@ == (match find_ci(after@, "#"@) {
            Some(h2) => after@.take(h2),
            None => after@,
        }));
    }
    let mut out = String::from_str("USB\\");
    let up = to_upper_ascii(p0);
    out.append(up.as_str());
    out.append("\\");
    out.append(p1);
    proof {
        assert(out@ =~= "USB\\"@ + upper_chars(p0@) + "\\"@ + p1@);
    }
    Some(out)
}

} // verus!
