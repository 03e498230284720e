//! Character and string helpers shared by the path builders and the image
//! format detection: ASCII case-insensitive comparison and searching for the
//! last occurrence of a character.

use vstd::prelude::*;
use vstd::string::StrSliceExecFns;

verus! {

/// Two characters match ignoring ASCII case: they are equal, or they are the
/// upper- and lower-case form of the same ASCII letter.
pub open spec fn spec_ci_char_eq(a: char, b: char) -> bool {
    ||| a == b
    ||| (65 <= a as u32 && a as u32 <= 90 && b as u32 == a as u32 + 32)
    ||| (65 <= b as u32 && b as u32 <= 90 && a as u32 == b as u32 + 32)
}

/// Two character sequences match ignoring ASCII case.
pub open spec fn spec_ci_eq(a: Seq<char>, b: Seq<char>) -> bool {
    a.len() == b.len() && (forall|i: int| 0 <= i < a.len() ==> spec_ci_char_eq(a[i], b[i]))
}

/// Index of the last occurrence of `c` in `s`, or -1 if `c` does not occur.
pub open spec fn spec_last_index_of(s: Seq<char>, c: char) -> int
    decreases s.len(),
{
    if s.len() == 0 {
        -1
    } else if s.last() == c {
        s.len() - 1
    } else {
        spec_last_index_of(s.drop_last(), c)
    }
}

/// The last index is in range, holds `c`, and nothing after it holds `c`.
pub proof fn lemma_last_index_of(s: Seq<char>, c: char)
    ensures
        -1 <= spec_last_index_of(s, c) < s.len(),
        spec_last_index_of(s, c) >= 0 ==> s[spec_last_index_of(s, c)] == c,
        forall|j: int| spec_last_index_of(s, c) < j < s.len() ==> s[j] != c,
    decreases s.len(),
{
    if s.len() > 0 && s.last() != c {
        lemma_last_index_of(s.drop_last(), c);
        assert(forall|j: int| 0 <= j < s.len() - 1 ==> s[j] == s.drop_last()[j]);
    }
}

pub fn ci_char_eq(a: char, b: char) -> (r: bool)
    ensures
        r == spec_ci_char_eq(a, b),
{
    let au = a as u32;
    let bu = b as u32;
    a == b || (65 <= au && au <= 90 && bu == au + 32) || (65 <= bu && bu <= 90 && au == bu + 32)
}

/// Whether `a` and `b` are equal ignoring ASCII case.
pub fn ci_str_eq(a: &str, b: &str) -> (r: bool)
    ensures
        r == spec_ci_eq(a@, b@),
{
    let a_len = a.unicode_len();
    let b_len = b.unicode_len();
    if a_len != b_len {
        return false;
    }
    let mut i: usize = 0;
    while i < a_len
        invariant
            i <= a_len,
            a_len == a@.len(),
            b_len == b@.len(),
            a_len == b_len,
            forall|j: int| 0 <= j < i ==> spec_ci_char_eq(a@[j], b@[j]),
        decreases a_len - i,
    {
        if !ci_char_eq(a.get_char(i), b.get_char(i)) {
            return false;
        }
        i = i + 1;
    }
    true
}

/// Index of the last occurrence of `c` in `s`, or `None` if `c` does not
/// occur.
pub fn last_index_of(s: &str, c: char) -> (r: Option<usize>)
    ensures
        match r {
            Some(i) => spec_last_index_of(s@, c) == i,
            None => spec_last_index_of(s@, c) == -1,
        },
{
    let mut i = s.unicode_len();
    proof {
        assert(s@.take(i as int) =~= s@);
    }
    while i > 0
        invariant
            i <= s@.len(),
            spec_last_index_of(s@, c) == spec_last_index_of(s@.take(i as int), c),
        decreases i,
    {
        let j = i - 1;
        if s.get_char(j) == c {
            proof {
                assert(s@.take(i as int).last() == s@[j as int]);
            }
            return Some(j);
        }
        proof {
            assert(s@.take(i as int).drop_last() =~= s@.take(j as int));
        }
        i = j;
    }
    proof {
        assert(s@.take(0).len() == 0);
    }
    None
}

} // verus!
