//! Amount cleaning: currency glyphs, thousands separators and spaces are
//! removed, and an amount in accounting parentheses becomes negative. The
//! result is the text that is then read as a number.

use vstd::prelude::*;
use crate::text::{chars_of, string_of};

verus! {

/// A currency glyph, a thousands separator or a space.
pub open spec fn is_glyph(c: char) -> bool {
    c == '₹' || c == '$' || c == '€' || c == '£' || c == '¥' || c == ',' || c == ' '
}

pub open spec fn is_paren(c: char) -> bool {
    c == '(' || c == ')'
}

/// `s` without its glyphs.
pub open spec fn without_glyphs(s: Seq<char>) -> Seq<char>
    decreases s.len(),
{
    if s.len() == 0 {
        s
    } else if is_glyph(s.last()) {
        without_glyphs(s.drop_last())
    } else {
        without_glyphs(s.drop_last()).push(s.last())
    }
}

/// `s` without its parentheses.
pub open spec fn without_parens(s: Seq<char>) -> Seq<char>
    decreases s.len(),
{
    if s.len() == 0 {
        s
    } else if is_paren(s.last()) {
        without_parens(s.drop_last())
    } else {
        without_parens(s.drop_last()).push(s.last())
    }
}

/// The numeric text of an amount: without glyphs, and negated without its
/// parentheses where the raw text holds both `(` and `)`.
pub open spec fn cleaned_amount(s: Seq<char>) -> Seq<char> {
    if s.contains('(') && s.contains(')') {
        seq!['-'] + without_parens(without_glyphs(s))
    } else {
        without_glyphs(s)
    }
}

fn drop_glyphs(cs: &Vec<char>) -> (r: Vec<char>)
    ensures
        r@ == without_glyphs(cs@),
{
    let mut out: Vec<char> = Vec::new();
    let mut i: usize = 0;
    while i < cs.len()
        invariant
            i <= cs@.len(),
            out@ == without_glyphs(cs@.subrange(0, i as int)),
        decreases cs@.len() - i,
    {
        let c = cs[i];
        assert(cs@.subrange(0, i + 1).drop_last() == cs@.subrange(0, i as int));
        if !(c == '₹' || c == '$' || c == '€' || c == '£' || c == '¥' || c == ',' || c == ' ') {
            out.push(c);
        }
        i += 1;
    }
    assert(cs@.subrange(0, cs@.len() as int) == cs@);
    out
}

fn drop_parens(cs: &Vec<char>) -> (r: Vec<char>)
    ensures
        r@ == without_parens(cs@),
{
    let mut out: Vec<char> = Vec::new();
    let mut i: usize = 0;
    while i < cs.len()
        invariant
            i <= cs@.len(),
            out@ == without_parens(cs@.subrange(0, i as int)),
        decreases cs@.len() - i,
    {
        let c = cs[i];
        assert(cs@.subrange(0, i + 1).drop_last() == cs@.subrange(0, i as int));
        if !(c == '(' || c == ')') {
            out.push(c);
        }
        i += 1;
    }
    assert(cs@.subrange(0, cs@.len() as int) == cs@);
    out
}

fn has_char(cs: &Vec<char>, c: char) -> (r: bool)
    ensures
        r == cs@.contains(c),
{
    let mut i: usize = 0;
    while i < cs.len()
        invariant
            i <= cs@.len(),
            forall|j: int| 0 <= j < i ==> cs@[j] != c,
        decreases cs@.len() - i,
    {
        if cs[i] == c {
            return true;
        }
        i += 1;
    }
    false
}

/// The numeric text of an amount as written in a CSV cell.
pub fn clean_amount(s: &str) -> (r: String)
    ensures
        r@ == cleaned_amount(s@),
{
    let cs = chars_of(s);
    let bare = drop_glyphs(&cs);
    if has_char(&cs, '(') && has_char(&cs, ')') {
        let inner = drop_parens(&bare);
        let mut out: Vec<char> = Vec::new();
        out.push('-');
        let mut i: usize = 0;
        while i < inner.len()
            invariant
                i <= inner@.len(),
                out@ == seq!['-'] + inner@.subrange(0, i as int),
            decreases inner@.len() - i,
        {
            out.push(inner[i]);
            assert(inner@.subrange(0, i + 1) == inner@.subrange(0, i as int).push(inner@[i as int]));
            i += 1;
        }
        assert(inner@.subrange(0, inner@.len() as int) == inner@);
        string_of(&out)
    } else {
        string_of(&bare)
    }
}

} // verus!
