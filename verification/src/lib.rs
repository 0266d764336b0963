//! Turns a bank-statement style transaction log into a half-year ledger and
//! lays that ledger out as a workbook of live, cross-referencing formulas.
//!
//! The way through the library, leaves first:
//!
//! - `text` writes and reads decimal numerals; `cell` names cells.
//! - `matcher` is the regular-expression engine; `capture` reads what it
//!   captured; `parse` turns the lines of a statement into records
//!   (`models::data`).
//! - `ledger` sorts the records into one bucket per month of the half-year.
//! - `format` and `sheet` are the document model: styles, and sheets as
//!   lists of what was written to them. `formula` makes every sheet name
//!   and formula text.
//! - `monthly`, `write_budget` and `write_account` lay out the three kinds
//!   of sheet; `report` puts them together.
//!
//! Nothing here touches a file. A renderer replays the sheets of a
//! `report::ReportDocument` onto a real workbook.

pub mod capture;
pub mod cell;
pub mod error;
pub mod format;
pub mod formula;
pub mod ledger;
pub mod matcher;
pub mod models;
pub mod monthly;
pub mod parse;
pub mod report;
pub mod sheet;
pub mod text;
pub mod write_account;
pub mod write_budget;

pub use cell::cell_name;
pub use ledger::separate_data;
pub use monthly::{sheet_template, write_data_in_sheet, write_row_data};
pub use parse::{extract_tables, regex_match};
