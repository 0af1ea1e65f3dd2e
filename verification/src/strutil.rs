//! Symbol utilities: the authoritative `type:value` separator check of the
//! enumerated-identifier grammar, and the hardware's object-name constraint.

use vstd::prelude::*;
use vstd::string::StrSliceExecFns;

verus! {

/// The first position of `:` in the sequence at or after `i`.
pub open spec fn find_colon_from(s: Seq<char>, i: int) -> Option<int>
    decreases s.len() - i,
    when 0 <= i <= s.len()
{
    if i >= s.len() {
        None
    } else if s[i] == ':' {
        Some(i)
    } else {
        find_colon_from(s, i + 1)
    }
}

/// The split of a symbol at its first `:`, where it has one: the `type`
/// part before it and the `value` part after it.
pub open spec fn enum_split(s: Seq<char>) -> Option<(Seq<char>, Seq<char>)> {
    match find_colon_from(s, 0) {
        Some(i) => Some((s.subrange(0, i), s.subrange(i + 1, s.len() as int))),
        None => None,
    }
}

proof fn lemma_find_colon_value(s: Seq<char>, i: int, k: int)
    requires
        0 <= i <= k <= s.len(),
        forall|j: int| i <= j < k ==> s[j] != ':',
        k == s.len() || s[k] == ':',
    ensures
        find_colon_from(s, i) == if k < s.len() {
            Some(k)
        } else {
            None::<int>
        },
    decreases k - i,
{
    if i == k {
    } else {
        lemma_find_colon_value(s, i + 1, k);
    }
}

/// Splits a symbol at its first `:` into the `type` and `value` parts, or
/// reports that it has none. The separator check is authoritative: it is
/// made once, before any table lookup.
pub fn split_colon(s: &String) -> (r: Option<(String, String)>)
    requires
        vstd::string::string_is_ascii(s),
    ensures
        match r {
            Some(parts) => enum_split(s@) == Some((parts.0@, parts.1@)),
            None => enum_split(s@) is None,
        },
{
    let st = s.as_str();
    let n = st.unicode_len();
    let mut i: usize = 0;
    while i < n
        invariant
            0 <= i <= n == s@.len(),
            st@ == s@,
            st.is_ascii(),
            forall|j: int| 0 <= j < i ==> s@[j] != ':',
        decreases n - i,
    {
        let b = st.get_ascii(i);
        assert(s@[i as int] as u8 == b && '\0' <= s@[i as int] <= '\u{7f}');
        if b == 58 {
            assert(s@[i as int] == ':');
            proof {
                lemma_find_colon_value(s@, 0, i as int);
            }
            let t = st.substring_ascii(0, i).to_owned();
            let v = st.substring_ascii(i + 1, n).to_owned();
            return Some((t, v));
        }
        assert(s@[i as int] != ':');
        i = i + 1;
    }
    proof {
        lemma_find_colon_value(s@, 0, n as int);
    }
    None
}

/// Whether a symbol satisfies the hardware's object-name constraint:
/// ASCII only, at most 15 characters.
pub open spec fn valid_name(s: Seq<char>) -> bool {
    vstd::utf8::is_ascii_chars(s) && s.len() <= 15
}

/// Checks the hardware's object-name constraint on a symbol.
pub fn check_name(s: &String) -> (r: bool)
    ensures
        r == valid_name(s@),
{
    s.as_str().is_ascii() && s.as_str().unicode_len() <= 15
}

} // verus!
