//! Error types of invoice construction and validation.
use vstd::prelude::*;
use crate::text::{push_str, string_of};

verus! {

/// Errors that can occur during invoice construction or processing.
#[derive(Debug)]
#[non_exhaustive]
pub enum RechnungError {
    /// One or more validation rules failed.
    Validation(String),
    /// Builder encountered invalid or missing configuration.
    Builder(String),
    /// Invoice number sequencing error.
    Numbering(String),
    /// Invoice totals or arithmetic inconsistency.
    Arithmetic(String),
    /// XML generation or parsing error.
    Xml(String),
}

/// The text `Display` gives for an error.
pub open spec fn rechnung_error_text(e: RechnungError) -> Seq<char> {
    match e {
        RechnungError::Validation(m) => "validation failed: "@ + m@,
        RechnungError::Builder(m) => "builder error: "@ + m@,
        RechnungError::Numbering(m) => "numbering error: "@ + m@,
        RechnungError::Arithmetic(m) => "arithmetic error: "@ + m@,
        RechnungError::Xml(m) => "XML error: "@ + m@,
    }
}

impl RechnungError {
    /// The error's display text (what `to_string()` gives).
    pub fn display(&self) -> (r: String)
        ensures
            r@ == rechnung_error_text(*self),
    {
        let (prefix, m) = match self {
            RechnungError::Validation(m) => ("validation failed: ", m),
            RechnungError::Builder(m) => ("builder error: ", m),
            RechnungError::Numbering(m) => ("numbering error: ", m),
            RechnungError::Arithmetic(m) => ("arithmetic error: ", m),
            RechnungError::Xml(m) => ("XML error: ", m),
        };
        let mut r = string_of(prefix);
        push_str(&mut r, m.as_str());
        r
    }
}

/// A single validation error with field path and message.
#[derive(Clone, Debug, PartialEq, Eq)]
pub struct ValidationError {
    /// Dot-separated path to the invalid field (e.g. "seller.address.country_code").
    pub field: String,
    /// Human-readable error description.
    pub message: String,
    /// EN 16931 business rule ID if applicable (e.g. "BR-01").
    pub rule: Option<String>,
}

/// What a validation error reports: field, message and rule identifier.
pub type ErrorView = (Seq<char>, Seq<char>, Option<Seq<char>>);

pub open spec fn error_view(e: ValidationError) -> ErrorView {
    (e.field@, e.message@, match e.rule {
        Some(r) => Some(r@),
        None => None,
    })
}

pub open spec fn errors_view(es: Seq<ValidationError>) -> Seq<ErrorView> {
    es.map_values(|e: ValidationError| error_view(e))
}

/// `[rule] field: message`, or `field: message` without a rule.
pub open spec fn validation_error_text(e: ErrorView) -> Seq<char> {
    match e.2 {
        Some(r) => "["@ + r + "] "@ + e.0 + ": "@ + e.1,
        None => e.0 + ": "@ + e.1,
    }
}

impl ValidationError {
    /// Create a validation error without a rule ID.
    pub fn new(field: &str, message: &str) -> (r: ValidationError)
        ensures
            error_view(r) == (field@, message@, None::<Seq<char>>),
    {
        ValidationError { field: string_of(field), message: string_of(message), rule: None }
    }

    /// Create a validation error with an EN 16931 rule ID.
    pub fn with_rule(field: &str, message: &str, rule: &str) -> (r: ValidationError)
        ensures
            error_view(r) == (field@, message@, Some(rule@)),
    {
        ValidationError {
            field: string_of(field),
            message: string_of(message),
            rule: Some(string_of(rule)),
        }
    }

    /// The error's display text (what `to_string()` gives).
    pub fn display(&self) -> (r: String)
        ensures
            r@ == validation_error_text(error_view(*self)),
    {
        match &self.rule {
            Some(rule) => {
                let mut r = string_of("[");
                push_str(&mut r, rule.as_str());
                push_str(&mut r, "] ");
                push_str(&mut r, self.field.as_str());
                push_str(&mut r, ": ");
                push_str(&mut r, self.message.as_str());
                proof {
                    assert(r@ =~= validation_error_text(error_view(*self)));
                }
                r
            },
            None => {
                let mut r = self.field.clone();
                push_str(&mut r, ": ");
                push_str(&mut r, self.message.as_str());
                proof {
                    assert(r@ =~= validation_error_text(error_view(*self)));
                }
                r
            },
        }
    }
}

/// An error owning its already built strings.
pub fn verror(field: String, message: String, rule: &str) -> (r: ValidationError)
    ensures
        error_view(r) == (field@, message@, Some(rule@)),
{
    ValidationError { field, message, rule: Some(string_of(rule)) }
}

} // verus!
