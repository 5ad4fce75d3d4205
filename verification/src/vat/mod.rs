//! VAT validation, Kleinunternehmer tracking and VAT scenario detection.

pub mod format;
pub mod kleinunternehmer;
pub mod scenario;
pub mod vies;
