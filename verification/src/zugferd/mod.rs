//! ZUGFeRD / Factur-X profiles, and the invoice XML inside PDF files.

pub mod profile;
pub mod pdf;
pub mod xmp;
