use sale_report::names::{is_valid_filename, search_pattern};

#[test]
fn test_filename_validation() {
    // Test valid filenames
    assert!(is_valid_filename("test-file"));
    assert!(is_valid_filename("data123"));
    assert!(is_valid_filename("sales_report_2024"));

    // Test invalid filenames
    assert!(!is_valid_filename("../etc/passwd"));
    assert!(!is_valid_filename("test/file"));
    assert!(!is_valid_filename("test\\file"));
    assert!(!is_valid_filename(""));
}

#[test]
fn single_dots_are_allowed_in_filenames() {
    assert!(is_valid_filename("report.v1.csv"));
    assert!(!is_valid_filename("report..csv"));
}

#[test]
fn search_pattern_wraps_term() {
    assert_eq!(search_pattern("acme"), "%acme%");
    assert_eq!(search_pattern(""), "%%");
}
