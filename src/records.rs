//! Stored records, the requests that create and change them, and the
//! parameterized update statements that a change request turns into.

use vstd::prelude::*;
use crate::header::{str_views, views};
use crate::table::{csv_text_of, export_csv, record_views};
use crate::text::{chars_of, string_of};

verus! {

#[derive(Clone, Debug, PartialEq, Eq)]
pub struct Company {
    pub id: i32,
    pub name: String,
    pub key: String,
    pub created_at: String,
}

#[derive(Clone, Debug, PartialEq, Eq)]
pub struct UpdateCompanyRequest {
    pub name: Option<String>,
    pub key: Option<String>,
}

#[derive(Clone, Debug, PartialEq, Eq)]
pub struct Category {
    pub id: i32,
    pub company_id: i32,
    pub name: String,
    pub description: Option<String>,
    pub created_at: String,
}

#[derive(Clone, Debug, PartialEq, Eq)]
pub struct Customer {
    pub id: i32,
    pub company_id: i32,
    pub customer_name: String,
    pub tally_name: String,
    pub gst_no: Option<String>,
    pub category_id: Option<i32>,
    /// The name of the category, for display.
    pub category_name: Option<String>,
    pub created_at: String,
}

#[derive(Clone, Debug, PartialEq, Eq)]
pub struct CreateCustomerRequest {
    pub company_id: i32,
    pub customer_name: String,
    pub tally_name: String,
    pub gst_no: Option<String>,
    pub category_id: Option<i32>,
}

#[derive(Clone, Debug, PartialEq, Eq)]
pub struct UpdateCustomerRequest {
    pub customer_name: Option<String>,
    pub tally_name: Option<String>,
    pub gst_no: Option<String>,
    pub category_id: Option<i32>,
}

#[derive(Clone, Debug, PartialEq, Eq)]
pub struct CreateCategoryRequest {
    pub company_id: i32,
    pub name: String,
    pub description: Option<String>,
}

#[derive(Clone, Debug, PartialEq, Eq)]
pub struct UpdateCategoryRequest {
    pub name: Option<String>,
    pub description: Option<String>,
}

/// A value bound to a statement parameter.
#[derive(Clone, Debug, PartialEq, Eq)]
pub enum SqlValue {
    Text(String),
    Integer(i64),
}

pub enum SqlValueView {
    Text(Seq<char>),
    Integer(int),
}

impl View for SqlValue {
    type V = SqlValueView;

    open spec fn view(&self) -> SqlValueView {
        match self {
            SqlValue::Text(s) => SqlValueView::Text(s@),
            SqlValue::Integer(i) => SqlValueView::Integer(*i as int),
        }
    }
}

fn copy_value(v: &SqlValue) -> (r: SqlValue)
    ensures
        r@ == v@,
{
    match v {
        SqlValue::Text(s) => SqlValue::Text(s.clone()),
        SqlValue::Integer(i) => SqlValue::Integer(*i),
    }
}

/// One column of an update and the value it takes.
#[derive(Clone, Debug, PartialEq, Eq)]
pub struct Assignment {
    pub column: String,
    pub value: SqlValue,
}

impl View for Assignment {
    type V = (Seq<char>, SqlValueView);

    open spec fn view(&self) -> (Seq<char>, SqlValueView) {
        (self.column@, self.value@)
    }
}

/// The assignment of a text column, where a value is given.
pub open spec fn text_change(column: Seq<char>, v: Option<String>) -> Seq<(Seq<char>, SqlValueView)> {
    match v {
        Some(s) => seq![(column, SqlValueView::Text(s@))],
        None => Seq::empty(),
    }
}

/// The assignment of an integer column, where a value is given.
pub open spec fn integer_change(column: Seq<char>, v: Option<i32>) -> Seq<(Seq<char>, SqlValueView)> {
    match v {
        Some(i) => seq![(column, SqlValueView::Integer(i as int))],
        None => Seq::empty(),
    }
}

pub open spec fn assignment_views(a: Seq<Assignment>) -> Seq<(Seq<char>, SqlValueView)> {
    a.map_values(|x: Assignment| x@)
}

fn push_text(out: &mut Vec<Assignment>, column: &str, v: Option<String>)
    ensures
        assignment_views(final(out)@) == assignment_views(old(out)@) + text_change(column@, v),
{
    match v {
        Some(s) => {
            out.push(Assignment { column: column.to_owned(), value: SqlValue::Text(s) });
        },
        None => {},
    }
    assert(assignment_views(out@) =~= assignment_views(old(out)@) + text_change(column@, v));
}

fn push_integer(out: &mut Vec<Assignment>, column: &str, v: Option<i32>)
    ensures
        assignment_views(final(out)@) == assignment_views(old(out)@) + integer_change(column@, v),
{
    match v {
        Some(i) => {
            out.push(Assignment { column: column.to_owned(), value: SqlValue::Integer(i as i64) });
        },
        None => {},
    }
    assert(assignment_views(out@) =~= assignment_views(old(out)@) + integer_change(column@, v));
}

impl UpdateCompanyRequest {
    /// The columns this request changes, with their new values, in the
    /// order name, key.
    pub fn assignments(&self) -> (r: Vec<Assignment>)
        ensures
            assignment_views(r@) == text_change("name"@, self.name) + text_change("key"@, self.key),
    {
        let mut out: Vec<Assignment> = Vec::new();
        assert(assignment_views(out@) =~= Seq::empty());
        push_text(&mut out, "name", self.name.clone());
        push_text(&mut out, "key", self.key.clone());
        assert(Seq::<(Seq<char>, SqlValueView)>::empty() + text_change("name"@, self.name) =~= text_change("name"@, self.name));
        out
    }
}

impl UpdateCustomerRequest {
    /// The columns this request changes, with their new values, in the
    /// order customer name, tally name, GST number, category.
    pub fn assignments(&self) -> (r: Vec<Assignment>)
        ensures
            assignment_views(r@) == text_change("customer_name"@, self.customer_name) + text_change(
                "tally_name"@,
                self.tally_name,
            ) + text_change("gst_no"@, self.gst_no) + integer_change("category_id"@, self.category_id),
    {
        let mut out: Vec<Assignment> = Vec::new();
        assert(assignment_views(out@) =~= Seq::empty());
        push_text(&mut out, "customer_name", self.customer_name.clone());
        assert(Seq::<(Seq<char>, SqlValueView)>::empty() + text_change("customer_name"@, self.customer_name)
            =~= text_change("customer_name"@, self.customer_name));
        push_text(&mut out, "tally_name", self.tally_name.clone());
        push_text(&mut out, "gst_no", self.gst_no.clone());
        push_integer(&mut out, "category_id", self.category_id);
        out
    }
}

impl UpdateCategoryRequest {
    /// The columns this request changes, with their new values, in the
    /// order name, description.
    pub fn assignments(&self) -> (r: Vec<Assignment>)
        ensures
            assignment_views(r@) == text_change("name"@, self.name) + text_change("description"@, self.description),
    {
        let mut out: Vec<Assignment> = Vec::new();
        assert(assignment_views(out@) =~= Seq::empty());
        push_text(&mut out, "name", self.name.clone());
        push_text(&mut out, "description", self.description.clone());
        assert(Seq::<(Seq<char>, SqlValueView)>::empty() + text_change("name"@, self.name) =~= text_change("name"@, self.name));
        out
    }
}


pub open spec fn value_views(p: Seq<SqlValue>) -> Seq<SqlValueView> {
    p.map_values(|v: SqlValue| v@)
}

/// `col1 = ?, col2 = ?, ...` for the given columns.
pub open spec fn set_list(cols: Seq<Seq<char>>) -> Seq<char>
    decreases cols.len(),
{
    if cols.len() == 0 {
        Seq::empty()
    } else if cols.len() == 1 {
        cols[0] + " = ?"@
    } else {
        set_list(cols.drop_last()) + ", "@ + cols.last() + " = ?"@
    }
}

/// The update of the row with a given id in a table, one parameter per column.
pub open spec fn update_sql_of(table: Seq<char>, cols: Seq<Seq<char>>) -> Seq<char> {
    "UPDATE "@ + table + " SET "@ + set_list(cols) + " WHERE id = ?"@
}

/// An update statement and the values bound to its parameters, in order.
pub struct UpdateStatement {
    pub sql: String,
    pub params: Vec<SqlValue>,
}

fn append(out: &mut Vec<char>, s: &str)
    ensures
        final(out)@ == old(out)@ + s@,
{
    let cs = chars_of(s);
    let mut i: usize = 0;
    while i < cs.len()
        invariant
            i <= cs@.len(),
            cs@ == s@,
            out@ == old(out)@ + cs@.subrange(0, i as int),
        decreases cs@.len() - i,
    {
        out.push(cs[i]);
        assert(cs@.subrange(0, i + 1) == cs@.subrange(0, i as int).push(cs@[i as int]));
        i += 1;
    }
    assert(cs@.subrange(0, cs@.len() as int) == cs@);
}

/// The update text for the given columns of the row with a given id;
/// `None` where there is no column to change.
pub fn update_sql(table: &str, columns: &Vec<String>) -> (r: Option<String>)
    ensures
        columns@.len() == 0 ==> r is None,
        columns@.len() > 0 ==> (r matches Some(t) && t@ == update_sql_of(table@, views(columns@))),
{
    if columns.len() == 0 {
        return None;
    }
    let ghost cols = views(columns@);
    let mut sql: Vec<char> = Vec::new();
    append(&mut sql, "UPDATE ");
    append(&mut sql, table);
    append(&mut sql, " SET ");
    let ghost prefix = sql@;
    let mut i: usize = 0;
    while i < columns.len()
        invariant
            i <= columns@.len(),
            cols == views(columns@),
            sql@ == prefix + set_list(cols.subrange(0, i as int)),
        decreases columns@.len() - i,
    {
        if i > 0 {
            append(&mut sql, ", ");
        }
        append(&mut sql, columns[i].as_str());
        append(&mut sql, " = ?");
        proof {
            let c1 = cols.subrange(0, i + 1);
            assert(c1.drop_last() =~= cols.subrange(0, i as int));
            if i == 0 {
                assert(set_list(cols.subrange(0, 0)) =~= Seq::empty());
            }
            assert(sql@ =~= prefix + set_list(c1));
        }
        i += 1;
    }
    append(&mut sql, " WHERE id = ?");
    assert(cols.subrange(0, columns@.len() as int) =~= cols);
    Some(string_of(&sql))
}

/// The statement that applies a list of assignments to the row with the
/// given id; `None` where the list is empty and there is nothing to change.
/// Values are bound as parameters, never written into the text.
pub fn update_statement(table: &str, id: i32, assignments: &Vec<Assignment>) -> (r: Option<UpdateStatement>)
    ensures
        assignments@.len() == 0 ==> r is None,
        assignments@.len() > 0 ==> (r matches Some(st) && st.sql@ == update_sql_of(
            table@,
            assignments@.map_values(|a: Assignment| a.column@),
        ) && value_views(st.params@) == assignments@.map_values(|a: Assignment| a.value@).push(
            SqlValueView::Integer(id as int),
        )),
{
    let ghost vals = assignments@.map_values(|a: Assignment| a.value@);
    let mut columns: Vec<String> = Vec::new();
    let mut params: Vec<SqlValue> = Vec::new();
    let mut i: usize = 0;
    while i < assignments.len()
        invariant
            i <= assignments@.len(),
            vals == assignments@.map_values(|a: Assignment| a.value@),
            views(columns@) == assignments@.map_values(|a: Assignment| a.column@).subrange(0, i as int),
            params@.len() == i,
            value_views(params@) == vals.subrange(0, i as int),
        decreases assignments@.len() - i,
    {
        let a = &assignments[i];
        let ghost before = params@;
        let ghost cols_before = columns@;
        columns.push(a.column.clone());
        params.push(copy_value(&a.value));
        proof {
            assert(views(columns@) =~= views(cols_before).push(a.column@));
            assert(vals[i as int] == a.value@);
            assert forall|k: int| 0 <= k < i + 1 implies #[trigger] value_views(params@)[k]
                == vals.subrange(0, i + 1)[k] by {
                if k < i {
                    assert(params@[k] == before[k]);
                    assert(value_views(before)[k] == vals.subrange(0, i as int)[k]);
                }
            }
            assert(value_views(params@) =~= vals.subrange(0, i + 1));
        }
        i += 1;
    }
    assert(assignments@.map_values(|a: Assignment| a.column@).subrange(0, assignments@.len() as int)
        =~= assignments@.map_values(|a: Assignment| a.column@));
    let sql = match update_sql(table, &columns) {
        Some(t) => t,
        None => return None,
    };
    params.push(SqlValue::Integer(id as i64));
    proof {
        assert(vals.subrange(0, assignments@.len() as int) =~= vals);
        assert(value_views(params@) =~= vals.push(SqlValueView::Integer(id as int)));
    }
    Some(UpdateStatement { sql, params })
}

/// The text of an optional value, empty where there is none.
pub open spec fn or_empty(o: Option<String>) -> Seq<char> {
    match o {
        Some(s) => s@,
        None => Seq::empty(),
    }
}

fn or_empty_exec(o: &Option<String>) -> (r: String)
    ensures
        r@ == or_empty(*o),
{
    match o {
        Some(s) => s.clone(),
        None => String::new(),
    }
}

/// The header row of a customer export.
pub open spec fn customer_export_header() -> Seq<Seq<char>> {
    seq!["Customer Name"@, "Tally Name"@, "GST No"@, "Category"@, "Created At"@]
}

/// The row of a customer in an export.
pub open spec fn customer_export_row(c: Customer) -> Seq<Seq<char>> {
    seq![c.customer_name@, c.tally_name@, or_empty(c.gst_no), or_empty(c.category_name), c.created_at@]
}

/// The CSV export of a company's customers: a header row, then one row per
/// customer in the order given.
pub fn customers_csv(customers: &Vec<Customer>) -> (r: Option<String>)
    ensures
        match r {
            Some(t) => csv_text_of(seq![customer_export_header()] + customers@.map_values(|c: Customer| customer_export_row(c)))
                == Some(t@),
            None => csv_text_of(seq![customer_export_header()] + customers@.map_values(|c: Customer| customer_export_row(c)))
                is None,
        },
{
    let mut rows: Vec<Vec<String>> = Vec::new();
    let mut i: usize = 0;
    while i < customers.len()
        invariant
            i <= customers@.len(),
            record_views(rows@) == customers@.subrange(0, i as int).map_values(|c: Customer| customer_export_row(c)),
        decreases customers@.len() - i,
    {
        let c = &customers[i];
        let mut row: Vec<String> = Vec::new();
        row.push(c.customer_name.clone());
        row.push(c.tally_name.clone());
        row.push(or_empty_exec(&c.gst_no));
        row.push(or_empty_exec(&c.category_name));
        row.push(c.created_at.clone());
        let ghost before = rows@;
        rows.push(row);
        proof {
            assert(views(row@) =~= customer_export_row(*c));
            assert(record_views(rows@) =~= record_views(before).push(customer_export_row(*c)));
            assert(customers@.subrange(0, i + 1).map_values(|c: Customer| customer_export_row(c)) =~= customers@.subrange(
                0,
                i as int,
            ).map_values(|c: Customer| customer_export_row(c)).push(customer_export_row(*c)));
        }
        i += 1;
    }
    assert(customers@.subrange(0, customers@.len() as int) =~= customers@);
    let header: [&str; 5] = ["Customer Name", "Tally Name", "GST No", "Category", "Created At"];
    proof {
        assert(str_views(header@) =~= customer_export_header());
    }
    export_csv(&header, &rows)
}

} // verus!
