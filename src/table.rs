//! Reading CSV text into a header row and records.

use vstd::prelude::*;
use crate::header::{str_views, views};

verus! {

#[verifier::external_type_specification]
#[verifier::external_body]
pub struct ExCsvError(csv::Error);

/// What reading a CSV text yields with the reader's default settings: the
/// header row, the records that read cleanly before the first one that did
/// not, and whether such a record stopped the reading. `None` where the header
/// row itself cannot be read.
pub uninterp spec fn csv_read_of(text: Seq<char>) -> Option<(Seq<Seq<char>>, Seq<Seq<Seq<char>>>, bool)>;

/// The views of the cells of each record.
pub open spec fn record_views(rows: Seq<Vec<String>>) -> Seq<Seq<Seq<char>>> {
    rows.map_values(|r: Vec<String>| views(r@))
}

/// A CSV text read into its header row and records.
pub struct CsvTable {
    pub headers: Vec<String>,
    pub records: Vec<Vec<String>>,
    /// A record failed to read; `records` holds those before it.
    pub malformed: bool,
}

/// Relies on `csv::Reader::from_reader`, `Reader::headers` and
/// `Reader::records`: the header row, then each record until the first error.
#[verifier::external_body]
fn read_csv(text: &str) -> (r: Result<CsvTable, csv::Error>)
    ensures
        match r {
            Ok(t) => csv_read_of(text@) == Some((views(t.headers@), record_views(t.records@), t.malformed)),
            Err(_) => csv_read_of(text@) is None,
        },
{
    let mut rdr = csv::Reader::from_reader(text.as_bytes());
    let headers = rdr.headers()?.iter().map(|h| h.to_string()).collect();
    let mut records = Vec::new();
    let mut malformed = false;
    for rec in rdr.records() {
        match rec {
            Ok(r) => records.push(r.iter().map(|f| f.to_string()).collect()),
            Err(_) => { malformed = true; break; }
        }
    }
    Ok(CsvTable { headers, records, malformed })
}

/// The CSV text that writing these records yields with the writer's default
/// settings; `None` where a record fails to write.
pub uninterp spec fn csv_text_of(records: Seq<Seq<Seq<char>>>) -> Option<Seq<char>>;

/// Relies on `csv::Writer::from_writer`, `Writer::write_record` and
/// `Writer::into_inner`: the records written one after the other.
#[verifier::external_body]
fn write_csv(records: &Vec<Vec<String>>) -> (r: Option<String>)
    ensures
        match r {
            Some(t) => csv_text_of(record_views(records@)) == Some(t@),
            None => csv_text_of(record_views(records@)) is None,
        },
{
    let mut wtr = csv::Writer::from_writer(Vec::new());
    for rec in records.iter() {
        if wtr.write_record(rec).is_err() {
            return None;
        }
    }
    let bytes = wtr.into_inner().ok()?;
    String::from_utf8(bytes).ok()
}

/// Writes a header row and data rows as CSV text; `None` where a row fails
/// to write.
pub fn export_csv(header: &[&str], rows: &Vec<Vec<String>>) -> (r: Option<String>)
    ensures
        match r {
            Some(t) => csv_text_of(seq![str_views(header@)] + record_views(rows@)) == Some(t@),
            None => csv_text_of(seq![str_views(header@)] + record_views(rows@)) is None,
        },
{
    let mut head: Vec<String> = Vec::new();
    let mut i: usize = 0;
    while i < header.len()
        invariant
            i <= header@.len(),
            views(head@) == str_views(header@).subrange(0, i as int),
        decreases header@.len() - i,
    {
        let ghost before = head@;
        head.push(header[i].to_owned());
        assert(views(head@) =~= views(before).push(header@[i as int]@));
        i += 1;
    }
    assert(str_views(header@).subrange(0, header@.len() as int) =~= str_views(header@));
    let mut all: Vec<Vec<String>> = Vec::new();
    all.push(head);
    let mut j: usize = 0;
    while j < rows.len()
        invariant
            j <= rows@.len(),
            record_views(all@) == seq![str_views(header@)] + record_views(rows@).subrange(0, j as int),
        decreases rows@.len() - j,
    {
        let ghost before = all@;
        all.push(rows[j].clone());
        assert(record_views(all@) =~= record_views(before).push(views(rows@[j as int]@)));
        assert(record_views(rows@).subrange(0, j + 1) =~= record_views(rows@).subrange(0, j as int).push(views(rows@[j as int]@)));
        j += 1;
    }
    assert(record_views(rows@).subrange(0, rows@.len() as int) =~= record_views(rows@));
    write_csv(&all)
}

/// Reads a CSV text; `None` where its header row cannot be read.
pub fn read_table(text: &str) -> (r: Option<CsvTable>)
    ensures
        match r {
            Some(t) => csv_read_of(text@) == Some((views(t.headers@), record_views(t.records@), t.malformed)),
            None => csv_read_of(text@) is None,
        },
{
    match read_csv(text) {
        Ok(t) => Some(t),
        Err(_) => None,
    }
}

} // verus!
