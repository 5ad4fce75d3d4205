//! Core invoice types, validation, and numbering.

pub mod error;
pub mod types;
pub mod codes;
pub mod numbering;
pub mod builder;
pub mod totals;
pub mod validation;
pub mod en16931;
pub mod invoice_builder;
