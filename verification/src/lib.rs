//! German e-invoicing: invoice model, totals, validation rules, XRechnung,
//! Peppol and ZUGFeRD XML generation and parsing, DATEV and GDPdU exports,
//! VAT identifier checks and the Peppol/XRechnung rule sets.

pub mod text;
pub mod decimal;
pub mod date;
pub mod xml;
pub mod model;
pub mod vat;
pub mod datev;
pub mod peppol;
pub mod xrechnung;
pub mod zugferd;
pub mod gdpdu;
