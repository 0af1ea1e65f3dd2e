//! Reading a short decimal numeral out of a symbol. A few enumerated
//! identifiers carry a slot or channel number in the value position of a
//! `type:value` token; the protocol's numerals there are one or two decimal
//! digits, which is ample for every bounded domain the protocol has.

use vstd::prelude::*;
use vstd::string::StrSliceExecFns;

verus! {

/// Whether the character is a decimal digit.
pub open spec fn is_digit(c: char) -> bool {
    '0' <= c && c <= '9'
}

/// The value of a decimal digit.
pub open spec fn digit_val(c: char) -> int {
    (c as int) - 48
}

/// The value of a one- or two-digit decimal numeral, if the sequence is one.
pub open spec fn small_dec_value(s: Seq<char>) -> Option<i64> {
    if s.len() == 1 && is_digit(s[0]) {
        Some(digit_val(s[0]) as i64)
    } else if s.len() == 2 && is_digit(s[0]) && is_digit(s[1]) {
        Some((10 * digit_val(s[0]) + digit_val(s[1])) as i64)
    } else {
        None
    }
}

/// Reads a one- or two-digit decimal numeral from a symbol.
pub fn parse_small_dec(s: &String) -> (r: Option<i64>)
    ensures
        r == small_dec_value(s@),
{
    let st = s.as_str();
    if !st.is_ascii() {
        proof {
            assert forall|i: int| 0 <= i < s@.len() && is_digit(s@[i]) implies '\0' <= s@[i]
                <= '\u{7f}' by {}
            if s@.len() == 1 && is_digit(s@[0]) {
                assert(vstd::utf8::is_ascii_chars(s@));
            }
            if s@.len() == 2 && is_digit(s@[0]) && is_digit(s@[1]) {
                assert(vstd::utf8::is_ascii_chars(s@));
            }
        }
        return None;
    }
    let n = st.unicode_len();
    if n == 1 {
        let b0 = st.get_ascii(0);
        if 48 <= b0 && b0 <= 57 {
            assert(s@[0] as u8 == b0 && '\0' <= s@[0] <= '\u{7f}');
            Some((b0 - 48) as i64)
        } else {
            assert(s@[0] as u8 == b0 && '\0' <= s@[0] <= '\u{7f}');
            assert(!is_digit(s@[0]));
            None
        }
    } else if n == 2 {
        let b0 = st.get_ascii(0);
        let b1 = st.get_ascii(1);
        assert(s@[0] as u8 == b0 && '\0' <= s@[0] <= '\u{7f}');
        assert(s@[1] as u8 == b1 && '\0' <= s@[1] <= '\u{7f}');
        if 48 <= b0 && b0 <= 57 && 48 <= b1 && b1 <= 57 {
            Some((10 * ((b0 - 48) as i64) + ((b1 - 48) as i64)) as i64)
        } else {
            None
        }
    } else {
        None
    }
}

} // verus!
