//! Record keeping for multi-company sales and customer data: the CSV import
//! pipeline (header resolution, field extraction, date and amount
//! normalization, row classification) and the data types it produces.

pub mod text;
pub mod header;
pub mod date;
pub mod amount;
pub mod table;
pub mod import;
pub mod records;
pub mod names;
