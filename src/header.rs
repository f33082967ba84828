//! Header resolution: raw CSV header names are normalized to keys, and a
//! canonical field is found through its list of accepted aliases.

use vstd::prelude::*;
use crate::text::{chars_of, lower_of, lowercase, string_of, trim_of, trimmed};

verus! {

/// `s` with every space replaced by an underscore.
pub open spec fn underscored(s: Seq<char>) -> Seq<char> {
    s.map_values(|c: char| if c == ' ' { '_' } else { c })
}

/// The key of a raw header: lower-cased, spaces replaced by underscores.
pub open spec fn header_key(h: Seq<char>) -> Seq<char> {
    underscored(lower_of(h))
}

/// Normalizes a raw header name to its key.
pub fn normalize_header(h: &str) -> (r: String)
    ensures
        r@ == header_key(h@),
{
    let lower = lowercase(h);
    let cs = chars_of(lower.as_str());
    let mut out: Vec<char> = Vec::new();
    let mut i: usize = 0;
    while i < cs.len()
        invariant
            i <= cs@.len(),
            cs@ == lower_of(h@),
            out@ == underscored(cs@.subrange(0, i as int)),
        decreases cs@.len() - i,
    {
        let c = cs[i];
        if c == ' ' {
            out.push('_');
        } else {
            out.push(c);
        }
        assert(cs@.subrange(0, i + 1) == cs@.subrange(0, i as int).push(c));
        i += 1;
    }
    assert(cs@.subrange(0, cs@.len() as int) == cs@);
    string_of(&out)
}


/// The position that `key` resolves to among the header keys: the last
/// position holding it, as a later header overrides an earlier one.
pub open spec fn resolve(keys: Seq<Seq<char>>, key: Seq<char>) -> Option<int>
    decreases keys.len(),
{
    if keys.len() == 0 {
        None
    } else if keys.last() == key {
        Some(keys.len() - 1)
    } else {
        resolve(keys.drop_last(), key)
    }
}

/// A key held at exactly one position resolves to that position.
pub proof fn lemma_resolve_unique(keys: Seq<Seq<char>>, key: Seq<char>, i: int)
    requires
        0 <= i < keys.len(),
        keys[i] == key,
        forall|j: int| 0 <= j < keys.len() && j != i ==> keys[j] != key,
    ensures
        resolve(keys, key) == Some(i),
    decreases keys.len(),
{
    if keys.last() != key {
        assert forall|j: int| 0 <= j < keys.drop_last().len() && j != i implies keys.drop_last()[j] != key by {
            assert(keys.drop_last()[j] == keys[j]);
        }
        lemma_resolve_unique(keys.drop_last(), key, i);
    }
}

/// For every header row: where exactly one header normalizes to the same
/// key as an alias, that alias resolves to the column of that header.
pub proof fn lemma_unique_alias_resolves(headers: Seq<Seq<char>>, alias: Seq<char>, i: int)
    requires
        0 <= i < headers.len(),
        header_key(headers[i]) == header_key(alias),
        forall|j: int| 0 <= j < headers.len() && j != i ==> header_key(#[trigger] headers[j]) != header_key(alias),
    ensures
        resolve(headers.map_values(|h: Seq<char>| header_key(h)), header_key(alias)) == Some(i),
{
    let keys = headers.map_values(|h: Seq<char>| header_key(h));
    assert forall|j: int| 0 <= j < keys.len() && j != i implies keys[j] != header_key(alias) by {
        assert(keys[j] == header_key(headers[j]));
    }
    lemma_resolve_unique(keys, header_key(alias), i);
}

/// The column that the first resolvable alias names, among the aliases that
/// resolve to a column the row actually has.
pub open spec fn alias_column(keys: Seq<Seq<char>>, aliases: Seq<Seq<char>>, row_len: int) -> Option<int>
    decreases aliases.len(),
{
    if aliases.len() == 0 {
        None
    } else {
        match resolve(keys, header_key(aliases[0])) {
            Some(i) if i < row_len => Some(i),
            _ => alias_column(keys, aliases.drop_first(), row_len),
        }
    }
}

/// `s` with one leading and one trailing double quote removed, where present.
pub open spec fn unquoted(s: Seq<char>) -> Seq<char> {
    let a = if s.len() > 0 && s[0] == '"' { s.drop_first() } else { s };
    if a.len() > 0 && a.last() == '"' { a.drop_last() } else { a }
}

/// A cell value as the importer reads it: unquoted, then trimmed.
pub open spec fn cleaned_cell(s: Seq<char>) -> Seq<char> {
    trim_of(unquoted(s))
}

/// The value of a canonical field in a row, found through its aliases; empty
/// where no alias names a column of the row.
pub open spec fn field_value(keys: Seq<Seq<char>>, aliases: Seq<Seq<char>>, row: Seq<Seq<char>>) -> Seq<char> {
    match alias_column(keys, aliases, row.len() as int) {
        Some(i) => cleaned_cell(row[i]),
        None => Seq::empty(),
    }
}

/// The views of a list of strings.
pub open spec fn views(v: Seq<String>) -> Seq<Seq<char>> {
    v.map_values(|s: String| s@)
}

/// The views of a list of string slices.
pub open spec fn str_views(v: Seq<&str>) -> Seq<Seq<char>> {
    v.map_values(|s: &str| s@)
}

/// The normalized keys of a header row, by column.
pub struct HeaderMap {
    keys: Vec<String>,
}

impl View for HeaderMap {
    type V = Seq<Seq<char>>;

    closed spec fn view(&self) -> Seq<Seq<char>> {
        views(self.keys@)
    }
}

impl HeaderMap {
    /// Normalizes each header of a header row.
    pub fn from_headers(headers: &Vec<String>) -> (r: HeaderMap)
        ensures
            r@ == views(headers@).map_values(|h: Seq<char>| header_key(h)),
    {
        let mut keys: Vec<String> = Vec::new();
        let mut i: usize = 0;
        while i < headers.len()
            invariant
                i <= headers@.len(),
                keys@.len() == i,
                forall|j: int| 0 <= j < i ==> #[trigger] keys@[j]@ == header_key(headers@[j]@),
            decreases headers@.len() - i,
        {
            let k = normalize_header(headers[i].as_str());
            keys.push(k);
            i += 1;
        }
        let r = HeaderMap { keys };
        assert(r@ =~= views(headers@).map_values(|h: Seq<char>| header_key(h)));
        r
    }

    /// The number of columns of the header row.
    pub fn len(&self) -> (r: usize)
        ensures
            r == self@.len(),
    {
        self.keys.len()
    }

    /// The column that a key resolves to; the last one where it occurs twice.
    pub fn lookup(&self, key: &str) -> (r: Option<usize>)
        ensures
            match r {
                Some(i) => resolve(self@, key@) == Some(i as int),
                None => resolve(self@, key@) is None,
            },
    {
        let k: String = key.to_owned();
        let mut n: usize = self.keys.len();
        assert(self@.subrange(0, n as int) == self@);
        while n > 0
            invariant
                n <= self@.len(),
                k@ == key@,
                resolve(self@, key@) == resolve(self@.subrange(0, n as int), key@),
            decreases n,
        {
            let ghost pre = self@.subrange(0, n as int);
            assert(pre.drop_last() == self@.subrange(0, n - 1));
            if self.keys[n - 1] == k {
                return Some(n - 1);
            }
            n -= 1;
        }
        None
    }

    /// The cleaned value of the first alias that names a column of the row,
    /// or the empty string.
    pub fn get_field(&self, row: &Vec<String>, aliases: &[&str]) -> (r: String)
        ensures
            r@ == field_value(self@, str_views(aliases@), views(row@)),
    {
        let mut a: usize = 0;
        assert(str_views(aliases@).subrange(0, aliases@.len() as int) == str_views(aliases@));
        while a < aliases.len()
            invariant
                a <= aliases@.len(),
                field_value(self@, str_views(aliases@), views(row@))
                    == field_value(self@, str_views(aliases@).subrange(a as int, aliases@.len() as int), views(row@)),
            decreases aliases@.len() - a,
        {
            let ghost rest = str_views(aliases@).subrange(a as int, aliases@.len() as int);
            assert(rest.drop_first() == str_views(aliases@).subrange(a + 1, aliases@.len() as int));
            let key = normalize_header(aliases[a]);
            match self.lookup(key.as_str()) {
                Some(i) => {
                    if i < row.len() {
                        return clean_cell(row[i].as_str());
                    }
                },
                None => {},
            }
            a += 1;
        }
        String::new()
    }
}

/// Removes one layer of surrounding quotes from a cell and trims it.
pub fn clean_cell(s: &str) -> (r: String)
    ensures
        r@ == cleaned_cell(s@),
{
    let cs = chars_of(s);
    let mut start: usize = 0;
    let mut end: usize = cs.len();
    if end > 0 && cs[0] == '"' {
        start = 1;
    }
    if end > start && cs[end - 1] == '"' {
        end = end - 1;
    }
    let mut out: Vec<char> = Vec::new();
    let mut i: usize = start;
    while i < end
        invariant
            start <= i <= end <= cs@.len(),
            out@ == cs@.subrange(start as int, i as int),
        decreases end - i,
    {
        out.push(cs[i]);
        assert(cs@.subrange(start as int, i + 1) == cs@.subrange(start as int, i as int).push(cs@[i as int]));
        i += 1;
    }
    proof {
        let a = if cs@.len() > 0 && cs@[0] == '"' { cs@.drop_first() } else { cs@ };
        assert(a == cs@.subrange(start as int, cs@.len() as int));
        assert(unquoted(s@) == cs@.subrange(start as int, end as int));
    }
    let u = string_of(&out);
    trimmed(u.as_str())
}

} // verus!
