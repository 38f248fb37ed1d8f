//! Letters without regard to their case.

use vstd::prelude::*;

verus! {

/// `c` in lower case where it is one of the letters `A` to `Z`, else `c`.
pub open spec fn lower_char(c: char) -> char {
    if 65 <= c as int <= 90 {
        (c as int + 32) as char
    } else {
        c
    }
}

/// `char::to_ascii_lowercase` maps the letters `A` to `Z` to `a` to `z` and
/// leaves every other character as it is.
pub assume_specification[ char::to_ascii_lowercase ](c: &char) -> (r: char)
    ensures
        r == lower_char(*c),
;

/// `s` with each of its letters `A` to `Z` in lower case.
pub open spec fn lower(s: Seq<char>) -> Seq<char> {
    Seq::new(s.len(), |i: int| lower_char(s[i]))
}

/// Whether `s`, its letters taken in lower case, spells `word`.
pub fn lower_is(s: &str, word: &str) -> (r: bool)
    ensures
        r == (lower(s@) == word@),
{
    let n = s.unicode_len();
    if n != word.unicode_len() {
        return false;
    }
    let mut i: usize = 0;
    while i < n
        invariant
            n == s@.len(),
            n == word@.len(),
            i <= n,
            forall|k: int| 0 <= k < i ==> lower_char(s@[k]) == word@[k],
        decreases n - i,
    {
        if s.get_char(i).to_ascii_lowercase() != word.get_char(i) {
            assert(lower(s@)[i as int] != word@[i as int]);
            return false;
        }
        i += 1;
    }
    assert(lower(s@) =~= word@);
    true
}

} // verus!
