use sale_report::records::{
    customers_csv, update_sql, update_statement, Customer, SqlValue, UpdateCategoryRequest,
    UpdateCompanyRequest, UpdateCustomerRequest,
};
use sale_report::table::export_csv;

#[test]
fn customer_update_binds_given_fields_in_order() {
    let req = UpdateCustomerRequest {
        customer_name: Some("New Name".to_string()),
        tally_name: None,
        gst_no: Some("GST1".to_string()),
        category_id: Some(4),
    };
    let st = update_statement("customers", 12, &req.assignments()).unwrap();
    assert_eq!(st.sql, "UPDATE customers SET customer_name = ?, gst_no = ?, category_id = ? WHERE id = ?");
    assert_eq!(
        st.params,
        vec![
            SqlValue::Text("New Name".to_string()),
            SqlValue::Text("GST1".to_string()),
            SqlValue::Integer(4),
            SqlValue::Integer(12),
        ]
    );
}

#[test]
fn empty_update_has_no_statement() {
    let req = UpdateCompanyRequest { name: None, key: None };
    assert!(req.assignments().is_empty());
    assert!(update_statement("companies", 1, &req.assignments()).is_none());
    assert_eq!(update_sql("companies", &Vec::new()), None);
}

#[test]
fn company_and_category_updates() {
    let company = UpdateCompanyRequest { name: Some("Company C".to_string()), key: Some("company_c".to_string()) };
    let st = update_statement("companies", 3, &company.assignments()).unwrap();
    assert_eq!(st.sql, "UPDATE companies SET name = ?, key = ? WHERE id = ?");
    let category = UpdateCategoryRequest { name: None, description: Some("Wholesale".to_string()) };
    let st = update_statement("categories", 5, &category.assignments()).unwrap();
    assert_eq!(st.sql, "UPDATE categories SET description = ? WHERE id = ?");
    assert_eq!(st.params, vec![SqlValue::Text("Wholesale".to_string()), SqlValue::Integer(5)]);
}

#[test]
fn customers_export_has_header_and_rows() {
    let customers = vec![Customer {
        id: 1,
        company_id: 1,
        customer_name: "Acme, Inc".to_string(),
        tally_name: "ACME".to_string(),
        gst_no: None,
        category_id: Some(2),
        category_name: Some("Retail".to_string()),
        created_at: "2024-01-01 10:00:00".to_string(),
    }];
    assert_eq!(
        customers_csv(&customers).unwrap(),
        "Customer Name,Tally Name,GST No,Category,Created At\n\"Acme, Inc\",ACME,,Retail,2024-01-01 10:00:00\n"
    );
    assert_eq!(customers_csv(&Vec::new()).unwrap(), "Customer Name,Tally Name,GST No,Category,Created At\n");
}

#[test]
fn export_rejects_rows_of_another_length() {
    let rows = vec![vec!["1".to_string()]];
    assert_eq!(export_csv(&["a", "b"], &rows), None);
}
