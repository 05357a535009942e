//! A household ledger library: typed income/expense categories, dated
//! entries with signed pricing semantics, and a monthly net-balance
//! summarizer that groups entries by calendar month.

pub mod category;
pub mod date;
pub mod errors;
pub mod format;
pub mod item;
pub mod register;
pub mod summarize;
pub mod validate;
