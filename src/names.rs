//! Checks and patterns on user-supplied names and search terms.

use vstd::prelude::*;
use crate::text::{chars_of, string_of};

verus! {

/// `s` holds two dots in a row.
pub open spec fn has_double_dot(s: Seq<char>) -> bool {
    exists|i: int| 0 <= i && i + 1 < s.len() && s[i] == '.' && #[trigger] s[i + 1] == '.'
}

/// A file name that is not empty and cannot leave its directory: no `..`,
/// no `/`, no `\`.
pub open spec fn valid_filename(s: Seq<char>) -> bool {
    s.len() > 0 && !has_double_dot(s) && !s.contains('/') && !s.contains('\\')
}

pub fn is_valid_filename(filename: &str) -> (r: bool)
    ensures
        r == valid_filename(filename@),
{
    let cs = chars_of(filename);
    if cs.len() == 0 {
        return false;
    }
    let mut i: usize = 0;
    while i < cs.len()
        invariant
            i <= cs@.len(),
            cs@ == filename@,
            forall|j: int| 0 <= j < i ==> cs@[j] != '/' && cs@[j] != '\\',
            forall|j: int| 0 <= j && j + 1 < i ==> !(cs@[j] == '.' && #[trigger] cs@[j + 1] == '.'),
        decreases cs@.len() - i,
    {
        let c = cs[i];
        if c == '/' || c == '\\' {
            return false;
        }
        if i > 0 && c == '.' && cs[i - 1] == '.' {
            assert(cs@[(i - 1) as int + 1] == '.');
            return false;
        }
        i += 1;
    }
    true
}

/// A pattern that matches any text holding the term.
pub open spec fn containing_pattern(term: Seq<char>) -> Seq<char> {
    seq!['%'] + term + seq!['%']
}

/// The `LIKE` pattern for a search term: the term between two `%`.
pub fn search_pattern(term: &str) -> (r: String)
    ensures
        r@ == containing_pattern(term@),
{
    let cs = chars_of(term);
    let mut out: Vec<char> = Vec::new();
    out.push('%');
    let mut i: usize = 0;
    while i < cs.len()
        invariant
            i <= cs@.len(),
            out@ == seq!['%'] + cs@.subrange(0, i as int),
        decreases cs@.len() - i,
    {
        out.push(cs[i]);
        assert(cs@.subrange(0, i + 1) == cs@.subrange(0, i as int).push(cs@[i as int]));
        i += 1;
    }
    out.push('%');
    assert(cs@.subrange(0, cs@.len() as int) == cs@);
    string_of(&out)
}

} // verus!
