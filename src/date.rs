//! Date normalization: `YYYY-MM-DD`, `DD/MM/YYYY` and `DD-MM-YYYY` are read
//! and written back as zero-padded `YYYY-MM-DD`; anything else becomes empty.

use vstd::prelude::*;
use crate::text::{chars_of, string_of};

verus! {

pub open spec fn is_digit(c: char) -> bool {
    '0' <= c && c <= '9'
}

pub open spec fn all_digits(s: Seq<char>) -> bool {
    forall|i: int| 0 <= i < s.len() ==> is_digit(#[trigger] s[i])
}

/// The number that a string of decimal digits denotes.
pub open spec fn decimal(s: Seq<char>) -> int
    decreases s.len(),
{
    if s.len() == 0 {
        0
    } else {
        decimal(s.drop_last()) * 10 + (s.last() as int - '0' as int)
    }
}

/// `s` is three groups of digits separated by `sep`, the first two of
/// lengths `a` and `b`, the last of a length between `c_lo` and `c_hi`.
pub open spec fn fits(s: Seq<char>, a: int, b: int, sep: char, c_lo: int, c_hi: int) -> bool {
    let c = s.len() - a - b - 2;
    &&& c_lo <= c <= c_hi
    &&& s[a] == sep
    &&& s[a + b + 1] == sep
    &&& all_digits(s.subrange(0, a))
    &&& all_digits(s.subrange(a + 1, a + b + 1))
    &&& all_digits(s.subrange(a + b + 2, s.len() as int))
}

/// The lengths of the first two groups of `s` read as year-first
/// (`YYYY`, then one or two digits twice) or day-first (one or two digits
/// twice, then `YYYY`), with the given separator.
pub open spec fn shape(s: Seq<char>, year_first: bool, sep: char) -> Option<(int, int)> {
    if year_first {
        if fits(s, 4, 1, sep, 1, 2) {
            Some((4, 1))
        } else if fits(s, 4, 2, sep, 1, 2) {
            Some((4, 2))
        } else {
            None
        }
    } else {
        if fits(s, 1, 1, sep, 4, 4) {
            Some((1, 1))
        } else if fits(s, 1, 2, sep, 4, 4) {
            Some((1, 2))
        } else if fits(s, 2, 1, sep, 4, 4) {
            Some((2, 1))
        } else if fits(s, 2, 2, sep, 4, 4) {
            Some((2, 2))
        } else {
            None
        }
    }
}

pub open spec fn valid_ymd(y: int, m: int, d: int) -> bool {
    1900 <= y <= 2100 && 1 <= m <= 12 && 1 <= d <= 31
}

/// A group of one or two digits, padded to two.
pub open spec fn pad2(s: Seq<char>) -> Seq<char> {
    if s.len() == 1 {
        seq!['0'] + s
    } else {
        s
    }
}

/// The ISO date of year, month and day digit groups, or empty where they
/// are out of range.
pub open spec fn iso_date(y: Seq<char>, m: Seq<char>, d: Seq<char>) -> Seq<char> {
    if valid_ymd(decimal(y), decimal(m), decimal(d)) {
        y + seq!['-'] + pad2(m) + seq!['-'] + pad2(d)
    } else {
        Seq::empty()
    }
}

/// The date that `s` denotes in the first layout it has, or empty.
pub open spec fn normalized_date(s: Seq<char>) -> Seq<char> {
    if s.len() == 0 {
        Seq::empty()
    } else if let Some((a, b)) = shape(s, true, '-') {
        iso_date(s.subrange(0, a), s.subrange(a + 1, a + b + 1), s.subrange(a + b + 2, s.len() as int))
    } else if let Some((a, b)) = shape(s, false, '/') {
        iso_date(s.subrange(a + b + 2, s.len() as int), s.subrange(a + 1, a + b + 1), s.subrange(0, a))
    } else if let Some((a, b)) = shape(s, false, '-') {
        iso_date(s.subrange(a + b + 2, s.len() as int), s.subrange(a + 1, a + b + 1), s.subrange(0, a))
    } else {
        Seq::empty()
    }
}

fn digits_in(cs: &Vec<char>, lo: usize, hi: usize) -> (r: bool)
    requires
        lo <= hi <= cs@.len(),
    ensures
        r == all_digits(cs@.subrange(lo as int, hi as int)),
{
    let mut i: usize = lo;
    while i < hi
        invariant
            lo <= i <= hi <= cs@.len(),
            all_digits(cs@.subrange(lo as int, i as int)),
        decreases hi - i,
    {
        if !('0' <= cs[i] && cs[i] <= '9') {
            assert(cs@.subrange(lo as int, hi as int)[i - lo] == cs@[i as int]);
            return false;
        }
        assert forall|j: int| 0 <= j < i + 1 - lo implies is_digit(#[trigger] cs@.subrange(lo as int, i + 1)[j]) by {
            if j < i - lo {
                assert(cs@.subrange(lo as int, i as int)[j] == cs@.subrange(lo as int, i + 1)[j]);
            }
        }
        i += 1;
    }
    true
}

fn fits_exec(cs: &Vec<char>, a: usize, b: usize, sep: char, c_lo: usize, c_hi: usize) -> (r: bool)
    requires
        a <= 4,
        b <= 4,
    ensures
        r == fits(cs@, a as int, b as int, sep, c_lo as int, c_hi as int),
{
    if cs.len() < a + b + 2 {
        return false;
    }
    let c = cs.len() - a - b - 2;
    if c < c_lo || c > c_hi {
        return false;
    }
    cs[a] == sep && cs[a + b + 1] == sep && digits_in(cs, 0, a) && digits_in(cs, a + 1, a + b + 1)
        && digits_in(cs, a + b + 2, cs.len())
}

fn shape_exec(cs: &Vec<char>, year_first: bool, sep: char) -> (r: Option<(usize, usize)>)
    ensures
        match r {
            Some((a, b)) => shape(cs@, year_first, sep) == Some((a as int, b as int)),
            None => shape(cs@, year_first, sep) is None,
        },
{
    if year_first {
        if fits_exec(cs, 4, 1, sep, 1, 2) {
            Some((4, 1))
        } else if fits_exec(cs, 4, 2, sep, 1, 2) {
            Some((4, 2))
        } else {
            None
        }
    } else {
        if fits_exec(cs, 1, 1, sep, 4, 4) {
            Some((1, 1))
        } else if fits_exec(cs, 1, 2, sep, 4, 4) {
            Some((1, 2))
        } else if fits_exec(cs, 2, 1, sep, 4, 4) {
            Some((2, 1))
        } else if fits_exec(cs, 2, 2, sep, 4, 4) {
            Some((2, 2))
        } else {
            None
        }
    }
}

/// The value of a group of at most four digits.
fn decimal_exec(cs: &Vec<char>, lo: usize, hi: usize) -> (r: u32)
    requires
        lo <= hi <= cs@.len(),
        hi - lo <= 4,
        all_digits(cs@.subrange(lo as int, hi as int)),
    ensures
        r as int == decimal(cs@.subrange(lo as int, hi as int)),
        r < 10000,
{
    let mut v: u32 = 0;
    let mut i: usize = lo;
    while i < hi
        invariant
            lo <= i <= hi <= cs@.len(),
            hi - lo <= 4,
            all_digits(cs@.subrange(lo as int, hi as int)),
            v as int == decimal(cs@.subrange(lo as int, i as int)),
            i - lo <= 3 ==> v < 1000,
            i - lo <= 2 ==> v < 100,
            i - lo <= 1 ==> v < 10,
            v < 10000,
        decreases hi - i,
    {
        assert(cs@.subrange(lo as int, hi as int)[i - lo] == cs@[i as int]);
        assert(is_digit(cs@[i as int]));
        assert(cs@.subrange(lo as int, i + 1).drop_last() == cs@.subrange(lo as int, i as int));
        let d: u32 = (cs[i] as u32) - ('0' as u32);
        v = v * 10 + d;
        i += 1;
    }
    v
}

fn push_range(out: &mut Vec<char>, cs: &Vec<char>, lo: usize, hi: usize)
    requires
        lo <= hi <= cs@.len(),
    ensures
        final(out)@ == old(out)@ + cs@.subrange(lo as int, hi as int),
{
    let mut i: usize = lo;
    while i < hi
        invariant
            lo <= i <= hi <= cs@.len(),
            out@ == old(out)@ + cs@.subrange(lo as int, i as int),
        decreases hi - i,
    {
        out.push(cs[i]);
        assert(cs@.subrange(lo as int, i + 1) == cs@.subrange(lo as int, i as int).push(cs@[i as int]));
        i += 1;
    }
}

fn push_padded(out: &mut Vec<char>, cs: &Vec<char>, lo: usize, hi: usize)
    requires
        lo <= hi <= cs@.len(),
    ensures
        final(out)@ == old(out)@ + pad2(cs@.subrange(lo as int, hi as int)),
{
    if hi - lo == 1 {
        out.push('0');
    }
    push_range(out, cs, lo, hi);
}

/// The ISO date of the groups `[y_lo, y_hi)`, `[m_lo, m_hi)`, `[d_lo, d_hi)`.
fn iso_exec(cs: &Vec<char>, y_lo: usize, y_hi: usize, m_lo: usize, m_hi: usize, d_lo: usize, d_hi: usize) -> (r: String)
    requires
        y_lo <= y_hi <= cs@.len(),
        m_lo <= m_hi <= cs@.len(),
        d_lo <= d_hi <= cs@.len(),
        y_hi - y_lo <= 4,
        m_hi - m_lo <= 4,
        d_hi - d_lo <= 4,
        all_digits(cs@.subrange(y_lo as int, y_hi as int)),
        all_digits(cs@.subrange(m_lo as int, m_hi as int)),
        all_digits(cs@.subrange(d_lo as int, d_hi as int)),
    ensures
        r@ == iso_date(
            cs@.subrange(y_lo as int, y_hi as int),
            cs@.subrange(m_lo as int, m_hi as int),
            cs@.subrange(d_lo as int, d_hi as int),
        ),
{
    let y = decimal_exec(cs, y_lo, y_hi);
    let m = decimal_exec(cs, m_lo, m_hi);
    let d = decimal_exec(cs, d_lo, d_hi);
    if 1900 <= y && y <= 2100 && 1 <= m && m <= 12 && 1 <= d && d <= 31 {
        let mut out: Vec<char> = Vec::new();
        push_range(&mut out, cs, y_lo, y_hi);
        out.push('-');
        push_padded(&mut out, cs, m_lo, m_hi);
        out.push('-');
        push_padded(&mut out, cs, d_lo, d_hi);
        string_of(&out)
    } else {
        String::new()
    }
}

/// Reads a date in one of the accepted layouts and writes it as
/// `YYYY-MM-DD`; returns the empty string where the input has no accepted
/// layout or a year, month or day out of range.
pub fn normalize_date(s: &str) -> (r: String)
    ensures
        r@ == normalized_date(s@),
{
    let cs = chars_of(s);
    let n = cs.len();
    if n == 0 {
        return String::new();
    }
    if let Some((a, b)) = shape_exec(&cs, true, '-') {
        return iso_exec(&cs, 0, a, a + 1, a + b + 1, a + b + 2, n);
    }
    if let Some((a, b)) = shape_exec(&cs, false, '/') {
        return iso_exec(&cs, a + b + 2, n, a + 1, a + b + 1, 0, a);
    }
    if let Some((a, b)) = shape_exec(&cs, false, '-') {
        return iso_exec(&cs, a + b + 2, n, a + 1, a + b + 1, 0, a);
    }
    String::new()
}

} // verus!
