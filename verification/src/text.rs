//! Case-insensitive matching of request keywords, character by
//! character, folding only ASCII letters as `to_ascii_lowercase` does.

use vstd::prelude::*;

verus! {

/// Whether `c` is `l` itself, or `l` is an ASCII lowercase letter and
/// `c` its uppercase counterpart (32 code points below it).
pub open spec fn lower_eq_char(c: char, l: char) -> bool {
    ||| c == l
    ||| ((c as u32) + 32 == (l as u32) && ('a' as u32) <= (l as u32) && (l as u32) <= ('z' as u32))
}

/// Whether `s` spells the keyword `kw` up to ASCII case: the same
/// length, and each character the keyword's own or its uppercase form.
pub open spec fn keyword_matches(s: Seq<char>, kw: Seq<char>) -> bool {
    s.len() == kw.len() && forall|i: int| 0 <= i < s.len() ==> lower_eq_char(s[i], #[trigger] kw[i])
}

/// Compares a request value against a lowercase keyword, ignoring ASCII
/// case, as lowercasing the value and testing equality would.
pub fn eq_ignore_ascii_case(s: &str, kw: &str) -> (r: bool)
    ensures
        r == keyword_matches(s@, kw@),
{
    let n = s.unicode_len();
    let m = kw.unicode_len();
    if n != m {
        return false;
    }
    let mut i: usize = 0;
    while i < n
        invariant
            n == s@.len(),
            m == kw@.len(),
            n == m,
            i <= n,
            forall|j: int| 0 <= j < i ==> lower_eq_char(s@[j], #[trigger] kw@[j]),
        decreases n - i,
    {
        let c = s.get_char(i);
        let l = kw.get_char(i);
        let same = c == l || ((c as u32) + 32 == (l as u32) && 'a' as u32 <= l as u32 && l as u32
            <= 'z' as u32);
        if !same {
            proof {
                assert(!lower_eq_char(s@[i as int], kw@[i as int]));
            }
            return false;
        }
        i += 1;
    }
    true
}

} // verus!
