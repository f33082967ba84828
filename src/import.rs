//! Row import: each CSV record is read into a customer or sales report row
//! through the alias tables, rows lacking a required field are set aside, and
//! an import session walks the rows, counting what became of each.
//!
//! The session never touches storage. Its caller asks storage whether a
//! row's natural key is already present, hands the answer to the session, and
//! inserts the row when the session says so.

use vstd::prelude::*;
use crate::amount::{clean_amount, cleaned_amount};
use crate::date::{normalize_date, normalized_date};
use crate::header::{HeaderMap, field_value, header_key, str_views, views};
use crate::table::{csv_read_of, read_table};

verus! {

/// A canonical field of a sales report row.
#[derive(Clone, Copy, Debug, PartialEq, Eq)]
pub enum SalesField {
    CustCode,
    CustName,
    InvDate,
    Region,
    InvNo,
    PartCode,
    PartName,
    Tariff,
    Qty,
    BasPrice,
    AssVal,
    CGst,
    SGst,
    Igst,
    Amot,
    InvVal,
    IgstYesNo,
    Percentage,
}

/// The header spellings accepted for each field, in the order they are tried.
pub open spec fn sales_aliases(f: SalesField) -> Seq<Seq<char>> {
    match f {
        SalesField::CustCode => seq!["cust_code"@, "cust_cde"@, "customer_code"@],
        SalesField::CustName => seq!["cust_name"@, "customer_name"@],
        SalesField::InvDate => seq!["inv_date"@, "io_date"@, "invoice_date"@],
        SalesField::Region => seq!["re"@, "region"@],
        SalesField::InvNo => seq!["invno"@, "invoice_no"@, "invoice_number"@, "invoiceno"@, "invoice"@, "inv_no"@, "inv_number"@],
        SalesField::PartCode => seq!["part_code"@, "prod_cde"@, "product_code"@],
        SalesField::PartName => seq!["part_name"@, "prod_name_ko"@, "product_name"@],
        SalesField::Tariff => seq!["tariff"@, "tariff_code"@],
        SalesField::Qty => seq!["qty"@, "io_qty"@, "quantity"@],
        SalesField::BasPrice => seq!["bas_price"@, "rate_pre_unit"@, "base_price"@],
        SalesField::AssVal => seq!["ass_val"@, "assessable_value"@],
        SalesField::CGst => seq!["c_gst"@, "cgst_amt"@, "c gst"@],
        SalesField::SGst => seq!["s_gst"@, "sgst_amt"@, "s gst"@],
        SalesField::Igst => seq!["igst"@, "igst_amt"@],
        SalesField::Amot => seq!["amot"@, "amortisation_cost"@, "total_amorization"@],
        SalesField::InvVal => seq!["inv_val"@, "total_inv_value"@, "invoice_total"@, "grand_total"@],
        SalesField::IgstYesNo => seq!["igst_yes_no"@, "igst_flag"@],
        SalesField::Percentage => seq!["percentage"@, "cgst_rate"@, "sgst_rate"@, "igst_rate"@],
    }
}

fn sales_field(map: &HeaderMap, record: &Vec<String>, f: SalesField) -> (r: String)
    ensures
        r@ == field_value(map@, sales_aliases(f), views(record@)),
{
    match f {
        SalesField::CustCode => {
            let a: [&str; 3] = ["cust_code", "cust_cde", "customer_code"];
            proof {
                assert(str_views(a@) =~= sales_aliases(f));
            }
            map.get_field(record, &a)
        },
        SalesField::CustName => {
            let a: [&str; 2] = ["cust_name", "customer_name"];
            proof {
                assert(str_views(a@) =~= sales_aliases(f));
            }
            map.get_field(record, &a)
        },
        SalesField::InvDate => {
            let a: [&str; 3] = ["inv_date", "io_date", "invoice_date"];
            proof {
                assert(str_views(a@) =~= sales_aliases(f));
            }
            map.get_field(record, &a)
        },
        SalesField::Region => {
            let a: [&str; 2] = ["re", "region"];
            proof {
                assert(str_views(a@) =~= sales_aliases(f));
            }
            map.get_field(record, &a)
        },
        SalesField::InvNo => {
            let a: [&str; 7] = ["invno", "invoice_no", "invoice_number", "invoiceno", "invoice", "inv_no", "inv_number"];
            proof {
                assert(str_views(a@) =~= sales_aliases(f));
            }
            map.get_field(record, &a)
        },
        SalesField::PartCode => {
            let a: [&str; 3] = ["part_code", "prod_cde", "product_code"];
            proof {
                assert(str_views(a@) =~= sales_aliases(f));
            }
            map.get_field(record, &a)
        },
        SalesField::PartName => {
            let a: [&str; 3] = ["part_name", "prod_name_ko", "product_name"];
            proof {
                assert(str_views(a@) =~= sales_aliases(f));
            }
            map.get_field(record, &a)
        },
        SalesField::Tariff => {
            let a: [&str; 2] = ["tariff", "tariff_code"];
            proof {
                assert(str_views(a@) =~= sales_aliases(f));
            }
            map.get_field(record, &a)
        },
        SalesField::Qty => {
            let a: [&str; 3] = ["qty", "io_qty", "quantity"];
            proof {
                assert(str_views(a@) =~= sales_aliases(f));
            }
            map.get_field(record, &a)
        },
        SalesField::BasPrice => {
            let a: [&str; 3] = ["bas_price", "rate_pre_unit", "base_price"];
            proof {
                assert(str_views(a@) =~= sales_aliases(f));
            }
            map.get_field(record, &a)
        },
        SalesField::AssVal => {
            let a: [&str; 2] = ["ass_val", "assessable_value"];
            proof {
                assert(str_views(a@) =~= sales_aliases(f));
            }
            map.get_field(record, &a)
        },
        SalesField::CGst => {
            let a: [&str; 3] = ["c_gst", "cgst_amt", "c gst"];
            proof {
                assert(str_views(a@) =~= sales_aliases(f));
            }
            map.get_field(record, &a)
        },
        SalesField::SGst => {
            let a: [&str; 3] = ["s_gst", "sgst_amt", "s gst"];
            proof {
                assert(str_views(a@) =~= sales_aliases(f));
            }
            map.get_field(record, &a)
        },
        SalesField::Igst => {
            let a: [&str; 2] = ["igst", "igst_amt"];
            proof {
                assert(str_views(a@) =~= sales_aliases(f));
            }
            map.get_field(record, &a)
        },
        SalesField::Amot => {
            let a: [&str; 3] = ["amot", "amortisation_cost", "total_amorization"];
            proof {
                assert(str_views(a@) =~= sales_aliases(f));
            }
            map.get_field(record, &a)
        },
        SalesField::InvVal => {
            let a: [&str; 4] = ["inv_val", "total_inv_value", "invoice_total", "grand_total"];
            proof {
                assert(str_views(a@) =~= sales_aliases(f));
            }
            map.get_field(record, &a)
        },
        SalesField::IgstYesNo => {
            let a: [&str; 2] = ["igst_yes_no", "igst_flag"];
            proof {
                assert(str_views(a@) =~= sales_aliases(f));
            }
            map.get_field(record, &a)
        },
        SalesField::Percentage => {
            let a: [&str; 4] = ["percentage", "cgst_rate", "sgst_rate", "igst_rate"];
            proof {
                assert(str_views(a@) =~= sales_aliases(f));
            }
            map.get_field(record, &a)
        },
    }
}

/// A canonical field of a customer row.
#[derive(Clone, Copy, Debug, PartialEq, Eq)]
pub enum CustomerField {
    CustomerName,
    TallyName,
    GstNo,
    Category,
}

/// The header spellings accepted for each field, in the order they are tried.
pub open spec fn customer_aliases(f: CustomerField) -> Seq<Seq<char>> {
    match f {
        CustomerField::CustomerName => seq!["customer_name"@, "cust_name"@, "client_name"@, "company_name"@, "name"@],
        CustomerField::TallyName => seq!["tally_name"@, "tally_code"@, "customer_code"@, "cust_code"@, "code"@],
        CustomerField::GstNo => seq!["gst_no"@, "gst_number"@, "gst"@, "tax_id"@, "tin"@],
        CustomerField::Category => seq!["category"@, "customer_category"@, "type"@, "group"@],
    }
}

fn customer_field(map: &HeaderMap, record: &Vec<String>, f: CustomerField) -> (r: String)
    ensures
        r@ == field_value(map@, customer_aliases(f), views(record@)),
{
    match f {
        CustomerField::CustomerName => {
            let a: [&str; 5] = ["customer_name", "cust_name", "client_name", "company_name", "name"];
            proof {
                assert(str_views(a@) =~= customer_aliases(f));
            }
            map.get_field(record, &a)
        },
        CustomerField::TallyName => {
            let a: [&str; 5] = ["tally_name", "tally_code", "customer_code", "cust_code", "code"];
            proof {
                assert(str_views(a@) =~= customer_aliases(f));
            }
            map.get_field(record, &a)
        },
        CustomerField::GstNo => {
            let a: [&str; 5] = ["gst_no", "gst_number", "gst", "tax_id", "tin"];
            proof {
                assert(str_views(a@) =~= customer_aliases(f));
            }
            map.get_field(record, &a)
        },
        CustomerField::Category => {
            let a: [&str; 4] = ["category", "customer_category", "type", "group"];
            proof {
                assert(str_views(a@) =~= customer_aliases(f));
            }
            map.get_field(record, &a)
        },
    }
}

/// The failure that aborts an import on the library's side; storage
/// failures are the caller's own.
#[derive(Clone, Copy, Debug, PartialEq, Eq)]
pub enum ImportError {
    /// The CSV text could not be read.
    MalformedCsv,
}

/// `Some(s)` for a non-empty value, `None` for an empty one.
pub open spec fn present(s: Seq<char>) -> Option<Seq<char>> {
    if s.len() == 0 {
        None
    } else {
        Some(s)
    }
}

pub open spec fn opt_view(o: Option<String>) -> Option<Seq<char>> {
    match o {
        Some(s) => Some(s@),
        None => None,
    }
}

fn present_exec(s: String) -> (r: Option<String>)
    ensures
        opt_view(r) == present(s@),
{
    if s.as_str().is_empty() {
        None
    } else {
        Some(s)
    }
}

/// A sales report row as read from a CSV record. Amounts are held as the
/// numeric text that `clean_amount` makes of the cell.
#[derive(Clone, Debug, PartialEq, Eq)]
pub struct SalesRow {
    pub cust_code: String,
    pub cust_name: String,
    pub inv_date: String,
    pub region: String,
    pub invno: String,
    pub part_code: Option<String>,
    pub part_name: Option<String>,
    pub tariff: Option<String>,
    pub qty: String,
    pub bas_price: String,
    pub ass_val: String,
    pub c_gst: String,
    pub s_gst: String,
    pub igst: String,
    pub amot: String,
    pub inv_val: String,
    pub igst_yes_no: String,
    pub percentage: String,
}

pub struct SalesRowView {
    pub cust_code: Seq<char>,
    pub cust_name: Seq<char>,
    pub inv_date: Seq<char>,
    pub region: Seq<char>,
    pub invno: Seq<char>,
    pub part_code: Option<Seq<char>>,
    pub part_name: Option<Seq<char>>,
    pub tariff: Option<Seq<char>>,
    pub qty: Seq<char>,
    pub bas_price: Seq<char>,
    pub ass_val: Seq<char>,
    pub c_gst: Seq<char>,
    pub s_gst: Seq<char>,
    pub igst: Seq<char>,
    pub amot: Seq<char>,
    pub inv_val: Seq<char>,
    pub igst_yes_no: Seq<char>,
    pub percentage: Seq<char>,
}

impl View for SalesRow {
    type V = SalesRowView;

    open spec fn view(&self) -> SalesRowView {
        SalesRowView {
            cust_code: self.cust_code@,
            cust_name: self.cust_name@,
            inv_date: self.inv_date@,
            region: self.region@,
            invno: self.invno@,
            part_code: opt_view(self.part_code),
            part_name: opt_view(self.part_name),
            tariff: opt_view(self.tariff),
            qty: self.qty@,
            bas_price: self.bas_price@,
            ass_val: self.ass_val@,
            c_gst: self.c_gst@,
            s_gst: self.s_gst@,
            igst: self.igst@,
            amot: self.amot@,
            inv_val: self.inv_val@,
            igst_yes_no: self.igst_yes_no@,
            percentage: self.percentage@,
        }
    }
}

/// The sales report row that a record holds, or `None` where it lacks an
/// invoice number, both customer code and name, or a valid invoice date.
/// A missing customer code or name is taken from the other; a missing IGST
/// flag reads `no`.
pub open spec fn sales_row_of(keys: Seq<Seq<char>>, record: Seq<Seq<char>>) -> Option<SalesRowView> {
    let v = |f: SalesField| field_value(keys, sales_aliases(f), record);
    let code = v(SalesField::CustCode);
    let name = v(SalesField::CustName);
    let date = normalized_date(v(SalesField::InvDate));
    let invno = v(SalesField::InvNo);
    if invno.len() == 0 || (code.len() == 0 && name.len() == 0) || date.len() == 0 {
        None
    } else {
        Some(SalesRowView {
            cust_code: if code.len() == 0 { name } else { code },
            cust_name: if name.len() == 0 { code } else { name },
            inv_date: date,
            region: v(SalesField::Region),
            invno: invno,
            part_code: present(v(SalesField::PartCode)),
            part_name: present(v(SalesField::PartName)),
            tariff: present(v(SalesField::Tariff)),
            qty: cleaned_amount(v(SalesField::Qty)),
            bas_price: cleaned_amount(v(SalesField::BasPrice)),
            ass_val: cleaned_amount(v(SalesField::AssVal)),
            c_gst: cleaned_amount(v(SalesField::CGst)),
            s_gst: cleaned_amount(v(SalesField::SGst)),
            igst: cleaned_amount(v(SalesField::Igst)),
            amot: cleaned_amount(v(SalesField::Amot)),
            inv_val: cleaned_amount(v(SalesField::InvVal)),
            igst_yes_no: if v(SalesField::IgstYesNo).len() == 0 { "no"@ } else { v(SalesField::IgstYesNo) },
            percentage: cleaned_amount(v(SalesField::Percentage)),
        })
    }
}

pub open spec fn opt_sales_view(o: Option<SalesRow>) -> Option<SalesRowView> {
    match o {
        Some(r) => Some(r@),
        None => None,
    }
}

/// Reads a sales report row from a CSV record.
pub fn sales_row(map: &HeaderMap, record: &Vec<String>) -> (r: Option<SalesRow>)
    ensures
        opt_sales_view(r) == sales_row_of(map@, views(record@)),
{
    let cust_code = sales_field(map, record, SalesField::CustCode);
    let cust_name = sales_field(map, record, SalesField::CustName);
    let raw_date = sales_field(map, record, SalesField::InvDate);
    let inv_date = normalize_date(raw_date.as_str());
    let invno = sales_field(map, record, SalesField::InvNo);
    if invno.as_str().is_empty() {
        return None;
    }
    if cust_code.as_str().is_empty() && cust_name.as_str().is_empty() {
        return None;
    }
    if inv_date.as_str().is_empty() {
        return None;
    }
    let region = sales_field(map, record, SalesField::Region);
    let part_code = present_exec(sales_field(map, record, SalesField::PartCode));
    let part_name = present_exec(sales_field(map, record, SalesField::PartName));
    let tariff = present_exec(sales_field(map, record, SalesField::Tariff));
    let qty = clean_amount(sales_field(map, record, SalesField::Qty).as_str());
    let bas_price = clean_amount(sales_field(map, record, SalesField::BasPrice).as_str());
    let ass_val = clean_amount(sales_field(map, record, SalesField::AssVal).as_str());
    let c_gst = clean_amount(sales_field(map, record, SalesField::CGst).as_str());
    let s_gst = clean_amount(sales_field(map, record, SalesField::SGst).as_str());
    let igst = clean_amount(sales_field(map, record, SalesField::Igst).as_str());
    let amot = clean_amount(sales_field(map, record, SalesField::Amot).as_str());
    let inv_val = clean_amount(sales_field(map, record, SalesField::InvVal).as_str());
    let flag = sales_field(map, record, SalesField::IgstYesNo);
    let igst_yes_no = if flag.as_str().is_empty() { "no".to_owned() } else { flag };
    let percentage = clean_amount(sales_field(map, record, SalesField::Percentage).as_str());
    let (code, name) = if cust_code.as_str().is_empty() {
        (cust_name.clone(), cust_name)
    } else if cust_name.as_str().is_empty() {
        (cust_code.clone(), cust_code)
    } else {
        (cust_code, cust_name)
    };
    Some(SalesRow {
        cust_code: code,
        cust_name: name,
        inv_date,
        region,
        invno,
        part_code,
        part_name,
        tariff,
        qty,
        bas_price,
        ass_val,
        c_gst,
        s_gst,
        igst,
        amot,
        inv_val,
        igst_yes_no,
        percentage,
    })
}


/// A record without an invoice number yields no sales report row.
pub proof fn lemma_no_invoice_no_row(keys: Seq<Seq<char>>, record: Seq<Seq<char>>)
    requires
        field_value(keys, sales_aliases(SalesField::InvNo), record).len() == 0,
    ensures
        sales_row_of(keys, record) is None,
{
}

/// A customer row as read from a CSV record.
#[derive(Clone, Debug, PartialEq, Eq)]
pub struct CustomerRow {
    pub customer_name: String,
    pub tally_name: String,
    pub gst_no: Option<String>,
    pub category: Option<String>,
}

pub struct CustomerRowView {
    pub customer_name: Seq<char>,
    pub tally_name: Seq<char>,
    pub gst_no: Option<Seq<char>>,
    pub category: Option<Seq<char>>,
}

impl View for CustomerRow {
    type V = CustomerRowView;

    open spec fn view(&self) -> CustomerRowView {
        CustomerRowView {
            customer_name: self.customer_name@,
            tally_name: self.tally_name@,
            gst_no: opt_view(self.gst_no),
            category: opt_view(self.category),
        }
    }
}

/// The customer row that a record holds, or `None` where it lacks a
/// customer name or a tally name.
pub open spec fn customer_row_of(keys: Seq<Seq<char>>, record: Seq<Seq<char>>) -> Option<CustomerRowView> {
    let v = |f: CustomerField| field_value(keys, customer_aliases(f), record);
    if v(CustomerField::CustomerName).len() == 0 || v(CustomerField::TallyName).len() == 0 {
        None
    } else {
        Some(CustomerRowView {
            customer_name: v(CustomerField::CustomerName),
            tally_name: v(CustomerField::TallyName),
            gst_no: present(v(CustomerField::GstNo)),
            category: present(v(CustomerField::Category)),
        })
    }
}

pub open spec fn opt_customer_view(o: Option<CustomerRow>) -> Option<CustomerRowView> {
    match o {
        Some(r) => Some(r@),
        None => None,
    }
}

/// Reads a customer row from a CSV record.
pub fn customer_row(map: &HeaderMap, record: &Vec<String>) -> (r: Option<CustomerRow>)
    ensures
        opt_customer_view(r) == customer_row_of(map@, views(record@)),
{
    let customer_name = customer_field(map, record, CustomerField::CustomerName);
    let tally_name = customer_field(map, record, CustomerField::TallyName);
    if customer_name.as_str().is_empty() || tally_name.as_str().is_empty() {
        return None;
    }
    let gst_no = present_exec(customer_field(map, record, CustomerField::GstNo));
    let category = present_exec(customer_field(map, record, CustomerField::Category));
    Some(CustomerRow { customer_name, tally_name, gst_no, category })
}

/// How many rows an import took in, set aside for a missing required field,
/// and set aside as already present in storage.
#[derive(Clone, Copy, Debug, PartialEq, Eq)]
pub struct ImportSummary {
    pub imported: usize,
    pub skipped: usize,
    pub duplicate: usize,
}

/// An import in progress over the rows read from one CSV text. Rows before
/// `pos` are settled; the summary counts each of them once.
pub struct ImportSession<R> {
    rows: Vec<Option<R>>,
    pos: usize,
    summary: ImportSummary,
    malformed: bool,
}

impl<R> ImportSession<R> {
    /// The rows, `None` for those lacking a required field.
    pub closed spec fn rows(&self) -> Seq<Option<R>> {
        self.rows@
    }

    /// The position of the first row not yet settled.
    pub closed spec fn pos(&self) -> int {
        self.pos as int
    }

    pub closed spec fn summary(&self) -> ImportSummary {
        self.summary
    }

    /// Reading the CSV text stopped at a malformed record.
    pub closed spec fn malformed(&self) -> bool {
        self.malformed
    }

    pub open spec fn wf(&self) -> bool {
        &&& 0 <= self.pos() <= self.rows().len()
        &&& self.summary().imported + self.summary().skipped + self.summary().duplicate == self.pos()
    }

    fn new(rows: Vec<Option<R>>, malformed: bool) -> (r: Self)
        ensures
            r.wf(),
            r.rows() == rows@,
            r.pos() == 0,
            r.summary() == (ImportSummary { imported: 0, skipped: 0, duplicate: 0 }),
            r.malformed() == malformed,
    {
        ImportSession { rows, pos: 0, summary: ImportSummary { imported: 0, skipped: 0, duplicate: 0 }, malformed }
    }

    /// Moves to the next row that has every required field and returns its
    /// position, counting each row passed over as skipped. `None` once every
    /// row is settled.
    pub fn next_candidate(&mut self) -> (r: Option<usize>)
        requires
            old(self).wf(),
        ensures
            final(self).wf(),
            final(self).rows() == old(self).rows(),
            final(self).malformed() == old(self).malformed(),
            final(self).summary().imported == old(self).summary().imported,
            final(self).summary().duplicate == old(self).summary().duplicate,
            final(self).summary().skipped == old(self).summary().skipped + (final(self).pos() - old(self).pos()),
            forall|k: int| old(self).pos() <= k < final(self).pos() ==> #[trigger] old(self).rows()[k] is None,
            match r {
                Some(j) => j == final(self).pos() && j < final(self).rows().len() && final(self).rows()[j as int] is Some,
                None => final(self).pos() == final(self).rows().len(),
            },
    {
        while self.pos < self.rows.len()
            invariant
                self.wf(),
                self.rows() == old(self).rows(),
                self.malformed() == old(self).malformed(),
                old(self).pos() <= self.pos(),
                self.summary().imported == old(self).summary().imported,
                self.summary().duplicate == old(self).summary().duplicate,
                self.summary().skipped == old(self).summary().skipped + (self.pos() - old(self).pos()),
                forall|k: int| old(self).pos() <= k < self.pos() ==> #[trigger] old(self).rows()[k] is None,
            decreases self.rows@.len() - self.pos,
        {
            if self.rows[self.pos].is_some() {
                return Some(self.pos);
            }
            self.summary.skipped = self.summary.skipped + 1;
            self.pos = self.pos + 1;
        }
        None
    }

    /// The row at a position.
    pub fn row(&self, i: usize) -> (r: &R)
        requires
            i < self.rows().len(),
            self.rows()[i as int] is Some,
        ensures
            self.rows()[i as int] == Some(*r),
    {
        self.rows[i].as_ref().unwrap()
    }

    /// Settles the current row, given whether its natural key is already in
    /// storage: a present key counts it as a duplicate, an absent one as
    /// imported. Returns whether the caller is to insert it.
    pub fn settle(&mut self, exists: bool) -> (insert: bool)
        requires
            old(self).wf(),
            old(self).pos() < old(self).rows().len(),
        ensures
            final(self).wf(),
            final(self).rows() == old(self).rows(),
            final(self).malformed() == old(self).malformed(),
            final(self).pos() == old(self).pos() + 1,
            insert == !exists,
            final(self).summary().skipped == old(self).summary().skipped,
            exists ==> final(self).summary().duplicate == old(self).summary().duplicate + 1
                && final(self).summary().imported == old(self).summary().imported,
            !exists ==> final(self).summary().imported == old(self).summary().imported + 1
                && final(self).summary().duplicate == old(self).summary().duplicate,
    {
        let n = self.rows.len();
        assert(self.pos() < n);
        if exists {
            self.summary.duplicate = self.summary.duplicate + 1;
        } else {
            self.summary.imported = self.summary.imported + 1;
        }
        self.pos = self.pos + 1;
        !exists
    }

    /// The outcome of the import: the counts, or the failure to read the
    /// CSV text where a malformed record stopped it.
    pub fn finish(&self) -> (r: Result<ImportSummary, ImportError>)
        ensures
            self.malformed() ==> r == Err::<ImportSummary, ImportError>(ImportError::MalformedCsv),
            !self.malformed() ==> r == Ok::<ImportSummary, ImportError>(self.summary()),
    {
        if self.malformed {
            Err(ImportError::MalformedCsv)
        } else {
            Ok(self.summary)
        }
    }
}

/// The sales report rows of a CSV text and whether a malformed record
/// stopped the reading; `None` where its header row cannot be read.
pub open spec fn sales_plan(text: Seq<char>) -> Option<(Seq<Option<SalesRowView>>, bool)> {
    match csv_read_of(text) {
        Some((headers, records, malformed)) => Some((
            records.map_values(|r: Seq<Seq<char>>| sales_row_of(headers.map_values(|h: Seq<char>| header_key(h)), r)),
            malformed,
        )),
        None => None,
    }
}

/// The customer rows of a CSV text and whether a malformed record stopped
/// the reading; `None` where its header row cannot be read.
pub open spec fn customer_plan(text: Seq<char>) -> Option<(Seq<Option<CustomerRowView>>, bool)> {
    match csv_read_of(text) {
        Some((headers, records, malformed)) => Some((
            records.map_values(|r: Seq<Seq<char>>| customer_row_of(headers.map_values(|h: Seq<char>| header_key(h)), r)),
            malformed,
        )),
        None => None,
    }
}

/// A record of a CSV text that has no invoice number is planned as a row
/// without its required fields: an import session counts it as skipped and
/// never hands it out for insertion.
pub proof fn lemma_missing_invoice_skipped(
    text: Seq<char>,
    headers: Seq<Seq<char>>,
    records: Seq<Seq<Seq<char>>>,
    malformed: bool,
    k: int,
)
    requires
        csv_read_of(text) == Some((headers, records, malformed)),
        0 <= k < records.len(),
        field_value(headers.map_values(|h: Seq<char>| header_key(h)), sales_aliases(SalesField::InvNo), records[k]).len()
            == 0,
    ensures
        sales_plan(text) matches Some((rows, m)) && rows.len() == records.len() && rows[k] is None,
{
    lemma_no_invoice_no_row(headers.map_values(|h: Seq<char>| header_key(h)), records[k]);
}

/// Opens a sales report import over a CSV text.
pub fn start_sales_import(csv_data: &str) -> (r: Result<ImportSession<SalesRow>, ImportError>)
    ensures
        match r {
            Ok(s) => {
                &&& s.wf()
                &&& s.pos() == 0
                &&& s.summary() == (ImportSummary { imported: 0, skipped: 0, duplicate: 0 })
                &&& sales_plan(csv_data@) == Some((s.rows().map_values(|o: Option<SalesRow>| opt_sales_view(o)), s.malformed()))
            },
            Err(e) => e == ImportError::MalformedCsv && sales_plan(csv_data@) is None,
        },
{
    let table = match read_table(csv_data) {
        Some(t) => t,
        None => return Err(ImportError::MalformedCsv),
    };
    let map = HeaderMap::from_headers(&table.headers);
    let mut rows: Vec<Option<SalesRow>> = Vec::new();
    let mut i: usize = 0;
    while i < table.records.len()
        invariant
            i <= table.records@.len(),
            rows@.len() == i,
            forall|j: int| 0 <= j < i ==> #[trigger] opt_sales_view(rows@[j]) == sales_row_of(map@, views(table.records@[j]@)),
        decreases table.records@.len() - i,
    {
        rows.push(sales_row(&map, &table.records[i]));
        i += 1;
    }
    let s = ImportSession::new(rows, table.malformed);
    assert(s.rows().map_values(|o: Option<SalesRow>| opt_sales_view(o)) =~= crate::table::record_views(table.records@).map_values(
        |r: Seq<Seq<char>>| sales_row_of(views(table.headers@).map_values(|h: Seq<char>| header_key(h)), r)));
    Ok(s)
}

/// Opens a customer import over a CSV text.
pub fn start_customer_import(csv_data: &str) -> (r: Result<ImportSession<CustomerRow>, ImportError>)
    ensures
        match r {
            Ok(s) => {
                &&& s.wf()
                &&& s.pos() == 0
                &&& s.summary() == (ImportSummary { imported: 0, skipped: 0, duplicate: 0 })
                &&& customer_plan(csv_data@) == Some((s.rows().map_values(|o: Option<CustomerRow>| opt_customer_view(o)), s.malformed()))
            },
            Err(e) => e == ImportError::MalformedCsv && customer_plan(csv_data@) is None,
        },
{
    let table = match read_table(csv_data) {
        Some(t) => t,
        None => return Err(ImportError::MalformedCsv),
    };
    let map = HeaderMap::from_headers(&table.headers);
    let mut rows: Vec<Option<CustomerRow>> = Vec::new();
    let mut i: usize = 0;
    while i < table.records.len()
        invariant
            i <= table.records@.len(),
            rows@.len() == i,
            forall|j: int| 0 <= j < i ==> #[trigger] opt_customer_view(rows@[j]) == customer_row_of(map@, views(table.records@[j]@)),
        decreases table.records@.len() - i,
    {
        rows.push(customer_row(&map, &table.records[i]));
        i += 1;
    }
    let s = ImportSession::new(rows, table.malformed);
    assert(s.rows().map_values(|o: Option<CustomerRow>| opt_customer_view(o)) =~= crate::table::record_views(table.records@).map_values(
        |r: Seq<Seq<char>>| customer_row_of(views(table.headers@).map_values(|h: Seq<char>| header_key(h)), r)));
    Ok(s)
}

} // verus!
