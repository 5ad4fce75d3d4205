//! DATEV Buchungsstapel (EXTF) export with BU-Schlüssel mapping and the
//! SKR03/SKR04 account plans.

pub mod accounts;
pub mod bu_key;
pub mod extf;
