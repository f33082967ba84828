use std::collections::HashSet;

use sale_report::import::{
    start_customer_import, start_sales_import, CustomerRow, ImportError, ImportSession, ImportSummary,
    SalesRow,
};

fn drive<R>(
    session: &mut ImportSession<R>,
    store: &mut HashSet<String>,
    key: fn(&R) -> String,
) -> Result<ImportSummary, ImportError> {
    while let Some(i) = session.next_candidate() {
        let k = key(session.row(i));
        if session.settle(store.contains(&k)) {
            store.insert(k);
        }
    }
    session.finish()
}

fn run_sales(csv: &str, store: &mut HashSet<String>) -> Result<ImportSummary, ImportError> {
    let mut session = start_sales_import(csv)?;
    drive(&mut session, store, |r: &SalesRow| r.invno.clone())
}

fn run_customers(csv: &str, store: &mut HashSet<String>) -> Result<ImportSummary, ImportError> {
    let mut session = start_customer_import(csv)?;
    drive(&mut session, store, |r: &CustomerRow| r.customer_name.clone())
}

fn counts(imported: usize, skipped: usize, duplicate: usize) -> ImportSummary {
    ImportSummary { imported, skipped, duplicate }
}

#[test]
fn valid_invalid_date_and_duplicate_rows() {
    let csv = "invno,cust_code,cust_name,inv_date,qty\n\
               INV1,C1,Alpha,2024-03-05,10\n\
               INV2,C2,Beta,2024-13-40,5\n\
               INV1,C1,Alpha,2024-03-05,10\n";
    let mut store = HashSet::new();
    assert_eq!(run_sales(csv, &mut store), Ok(counts(1, 1, 1)));
    assert_eq!(store.len(), 1);
    assert!(store.contains("INV1"));
}

#[test]
fn row_missing_invoice_number_is_skipped() {
    let csv = "invno,cust_code,inv_date\n,C1,2024-03-05\nINV9,C1,05/03/2024\n";
    let mut store = HashSet::new();
    assert_eq!(run_sales(csv, &mut store), Ok(counts(1, 1, 0)));
    assert_eq!(store.len(), 1);
    assert!(store.contains("INV9"));
}

#[test]
fn reimported_invoice_counts_as_duplicate() {
    let csv = "Invoice No,Customer Name,Invoice Date\nINV7,Gamma,05-03-2024\n";
    let mut store = HashSet::new();
    assert_eq!(run_sales(csv, &mut store), Ok(counts(1, 0, 0)));
    assert_eq!(run_sales(csv, &mut store), Ok(counts(0, 0, 1)));
    assert_eq!(store.len(), 1);
}

#[test]
fn row_missing_customer_fields_is_skipped() {
    let csv = "invno,inv_date,qty\nINV1,2024-03-05,1\n";
    let mut store = HashSet::new();
    assert_eq!(run_sales(csv, &mut store), Ok(counts(0, 1, 0)));
    assert!(store.is_empty());
}

#[test]
fn sales_row_fields_are_read_through_aliases() {
    let csv = "Invoice_No,Cust Cde,IO Date,Region,Prod Cde,Quantity,Grand Total,C GST,IGST Flag,CGST Rate\n\
               A-17,K9,7/1/2024,North,P-1,\"(1,200)\",\"₹2,500.00\",45,yes,9\n";
    let mut session = start_sales_import(csv).unwrap();
    let i = session.next_candidate().unwrap();
    let row = session.row(i).clone();
    assert_eq!(row.invno, "A-17");
    assert_eq!(row.cust_code, "K9");
    assert_eq!(row.cust_name, "K9");
    assert_eq!(row.inv_date, "2024-01-07");
    assert_eq!(row.region, "North");
    assert_eq!(row.part_code, Some("P-1".to_string()));
    assert_eq!(row.part_name, None);
    assert_eq!(row.tariff, None);
    assert_eq!(row.qty, "-1200");
    assert_eq!(row.inv_val, "2500.00");
    assert_eq!(row.c_gst, "45");
    assert_eq!(row.s_gst, "");
    assert_eq!(row.igst_yes_no, "yes");
    assert_eq!(row.percentage, "9");
    assert!(session.settle(false));
    assert_eq!(session.next_candidate(), None);
    assert_eq!(session.finish(), Ok(counts(1, 0, 0)));
}

#[test]
fn missing_igst_flag_reads_no() {
    let csv = "invno,cust_name,inv_date\nX1,Delta,2024-02-29\n";
    let mut session = start_sales_import(csv).unwrap();
    let i = session.next_candidate().unwrap();
    assert_eq!(session.row(i).igst_yes_no, "no");
    assert_eq!(session.row(i).cust_code, "Delta");
}

#[test]
fn malformed_record_aborts_after_earlier_rows() {
    let csv = "invno,cust_code,inv_date\nINV1,C1,2024-03-05\nINV2,C2\nINV3,C3,2024-03-05\n";
    let mut store = HashSet::new();
    assert_eq!(run_sales(csv, &mut store), Err(ImportError::MalformedCsv));
    assert!(store.contains("INV1"));
    assert!(!store.contains("INV3"));
}

#[test]
fn header_only_csv_imports_nothing() {
    let mut store = HashSet::new();
    assert_eq!(run_sales("invno,cust_code,inv_date\n", &mut store), Ok(counts(0, 0, 0)));
}

#[test]
fn duplicates_within_one_file_are_caught_once_inserted() {
    let csv = "name,code\nAcme,A1\nAcme,A2\nZeta,\nBeta,B1\n";
    let mut store = HashSet::new();
    assert_eq!(run_customers(csv, &mut store), Ok(counts(2, 1, 1)));
    assert!(store.contains("Acme"));
    assert!(store.contains("Beta"));
}

#[test]
fn customer_row_fields_are_read_through_aliases() {
    let csv = "Client Name,Tally Code,GST Number,Customer Category\n\"Acme Ltd\",ACME,,Retail\n";
    let mut session = start_customer_import(csv).unwrap();
    let i = session.next_candidate().unwrap();
    let row = session.row(i).clone();
    assert_eq!(row.customer_name, "Acme Ltd");
    assert_eq!(row.tally_name, "ACME");
    assert_eq!(row.gst_no, None);
    assert_eq!(row.category, Some("Retail".to_string()));
}

#[test]
fn customer_already_stored_is_duplicate() {
    let mut store = HashSet::new();
    store.insert("Acme".to_string());
    assert_eq!(run_customers("customer_name,tally_name\nAcme,A\n", &mut store), Ok(counts(0, 0, 1)));
}
