use sale_report::amount::clean_amount;
use sale_report::date::normalize_date;
use sale_report::header::{clean_cell, normalize_header, HeaderMap};

fn amount(s: &str) -> f64 {
    clean_amount(s).parse().unwrap_or(0.0)
}

fn strings(v: &[&str]) -> Vec<String> {
    v.iter().map(|s| s.to_string()).collect()
}

#[test]
fn date_layouts_normalize_to_iso() {
    assert_eq!(normalize_date("2024-03-05"), "2024-03-05");
    assert_eq!(normalize_date("05/03/2024"), "2024-03-05");
    assert_eq!(normalize_date("05-03-2024"), "2024-03-05");
}

#[test]
fn invalid_or_empty_dates_normalize_to_empty() {
    assert_eq!(normalize_date("2024-13-40"), "");
    assert_eq!(normalize_date(""), "");
}

#[test]
fn dates_are_zero_padded() {
    assert_eq!(normalize_date("2024-3-5"), "2024-03-05");
    assert_eq!(normalize_date("5/3/2024"), "2024-03-05");
    assert_eq!(normalize_date("15-11-1999"), "1999-11-15");
}

#[test]
fn date_ranges_are_checked_without_month_lengths() {
    assert_eq!(normalize_date("1899-01-01"), "");
    assert_eq!(normalize_date("2101-01-01"), "");
    assert_eq!(normalize_date("1900-01-01"), "1900-01-01");
    assert_eq!(normalize_date("2100-12-31"), "2100-12-31");
    assert_eq!(normalize_date("2023-02-31"), "2023-02-31");
    assert_eq!(normalize_date("2024-00-10"), "");
    assert_eq!(normalize_date("2024-01-00"), "");
}

#[test]
fn malformed_dates_normalize_to_empty() {
    assert_eq!(normalize_date("2024/03/05"), "");
    assert_eq!(normalize_date("05.03.2024"), "");
    assert_eq!(normalize_date("2024-003-05"), "");
    assert_eq!(normalize_date("24-03-05"), "");
    assert_eq!(normalize_date(" 2024-03-05"), "");
    assert_eq!(normalize_date("March 5, 2024"), "");
}

#[test]
fn amounts_lose_currency_and_separators() {
    assert_eq!(clean_amount("₹1,234.50"), "1234.50");
    assert_eq!(amount("₹1,234.50"), 1234.5);
    assert_eq!(amount("$ 2,000"), 2000.0);
    assert_eq!(amount("€3.25"), 3.25);
    assert_eq!(amount("£ 10"), 10.0);
    assert_eq!(amount("¥7"), 7.0);
}

#[test]
fn parenthesized_amounts_are_negative() {
    assert_eq!(clean_amount("(500)"), "-500");
    assert_eq!(amount("(500)"), -500.0);
    assert_eq!(amount("(₹1,000.75)"), -1000.75);
}

#[test]
fn unreadable_amounts_are_zero() {
    assert_eq!(amount("abc"), 0.0);
    assert_eq!(amount(""), 0.0);
    assert_eq!(clean_amount(""), "");
}

#[test]
fn headers_normalize_to_keys() {
    assert_eq!(normalize_header("Invoice No"), "invoice_no");
    assert_eq!(normalize_header("CUST CODE"), "cust_code");
    assert_eq!(normalize_header("qty"), "qty");
}

#[test]
fn alias_present_once_resolves_to_its_column() {
    let map = HeaderMap::from_headers(&strings(&["Date", "Invoice No", "Qty"]));
    assert_eq!(map.len(), 3);
    assert_eq!(map.lookup("invoice_no"), Some(1));
    assert_eq!(map.lookup("date"), Some(0));
    assert_eq!(map.lookup("qty"), Some(2));
    assert_eq!(map.lookup("invno"), None);
}

#[test]
fn later_duplicate_header_wins() {
    let map = HeaderMap::from_headers(&strings(&["Qty", "Name", "QTY"]));
    assert_eq!(map.lookup("qty"), Some(2));
}

#[test]
fn field_is_found_through_first_matching_alias() {
    let map = HeaderMap::from_headers(&strings(&["Invoice Number", "Inv No"]));
    let row = strings(&["A-1", "B-2"]);
    assert_eq!(map.get_field(&row, &["invno", "invoice_no", "invoice_number", "inv_no"]), "A-1");
    assert_eq!(map.get_field(&row, &["inv no"]), "B-2");
    assert_eq!(map.get_field(&row, &["missing"]), "");
}

#[test]
fn field_beyond_row_falls_through_to_next_alias() {
    let map = HeaderMap::from_headers(&strings(&["a", "b", "c"]));
    let row = strings(&["1", "2"]);
    assert_eq!(map.get_field(&row, &["c", "b"]), "2");
    assert_eq!(map.get_field(&row, &["c"]), "");
}

#[test]
fn cells_are_unquoted_and_trimmed() {
    assert_eq!(clean_cell("\"  Acme Ltd \""), "Acme Ltd");
    assert_eq!(clean_cell("  plain  "), "plain");
    assert_eq!(clean_cell("\"\"x\"\""), "\"x\"");
    assert_eq!(clean_cell(""), "");
}
