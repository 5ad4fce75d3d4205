//! The EU VIES VAT-number check: the request it sends and how its reply is read.
use vstd::prelude::*;
use crate::model::totals::opt_str_view;
use crate::text::{push_str, str_eq, string_of, to_uppercase, unicode_upper};

verus! {

/// The VIES REST endpoint.
pub const VIES_URL: &'static str = "https://ec.europa.eu/taxation_customs/vies/rest-api/check-vat-number";

/// Result of a VIES VAT number check.
#[derive(Debug, Clone)]
pub struct ViesResult {
    /// Whether the VAT number is currently valid.
    pub valid: bool,
    /// Date of the request (YYYY-MM-DD).
    pub request_date: Option<String>,
    /// Registered company name (if available).
    pub name: Option<String>,
    /// Registered address (if available).
    pub address: Option<String>,
}

/// Error from the VIES API.
#[derive(Debug, Clone)]
#[non_exhaustive]
pub enum ViesError {
    /// Network or HTTP error.
    Network(String),
    /// The VIES API returned an error (e.g. member state unavailable).
    ApiError(String),
    /// Failed to parse the response.
    ParseError(String),
}

/// The text `Display` gives for a VIES error.
pub open spec fn vies_error_text(e: ViesError) -> Seq<char> {
    match e {
        ViesError::Network(m) => "VIES network error: "@ + m@,
        ViesError::ApiError(m) => "VIES API error: "@ + m@,
        ViesError::ParseError(m) => "VIES parse error: "@ + m@,
    }
}

impl ViesError {
    /// The error's display text.
    pub fn display(&self) -> (r: String)
        ensures
            r@ == vies_error_text(*self),
    {
        let (prefix, m) = match self {
            ViesError::Network(m) => ("VIES network error: ", m),
            ViesError::ApiError(m) => ("VIES API error: ", m),
            ViesError::ParseError(m) => ("VIES parse error: ", m),
        };
        let mut r = string_of(prefix);
        push_str(&mut r, m.as_str());
        r
    }
}

/// The body of a VIES request.
pub struct ViesRequest {
    /// The upper-cased country code.
    pub country_code: String,
    /// The number without the country prefix.
    pub vat_number: String,
}

/// The request for a country code and a number: the code is upper-cased.
pub fn vies_request(country_code: &str, vat_number: &str) -> (r: ViesRequest)
    ensures
        r.country_code@ == unicode_upper(country_code@),
        r.vat_number@ == vat_number@,
{
    ViesRequest { country_code: to_uppercase(country_code), vat_number: string_of(vat_number) }
}

/// One error entry of a VIES reply.
pub struct ViesErrorWrapper {
    /// Error code.
    pub error: Option<String>,
    /// Error message.
    pub message: Option<String>,
}

/// A VIES reply as sent.
pub struct ViesApiResponse {
    /// Whether the number is valid.
    pub valid: Option<bool>,
    /// Date of the request.
    pub request_date: Option<String>,
    /// Registered name.
    pub name: Option<String>,
    /// Registered address.
    pub address: Option<String>,
    /// Errors reported by the service.
    pub error_wrappers: Option<Vec<ViesErrorWrapper>>,
}

/// The text of an optional field unless it is empty or the placeholder `---`.
pub open spec fn kept_text(v: Option<String>) -> Option<Seq<char>> {
    match v {
        Some(s) => if s@ == "---"@ || s@.len() == 0 {
            None
        } else {
            Some(s@)
        },
        None => None,
    }
}

/// Drops an empty value or the placeholder `---` that VIES sends for
/// unknown names and addresses.
pub fn without_placeholder(v: Option<String>) -> (r: Option<String>)
    ensures
        opt_str_view(r) == kept_text(v),
{
    match v {
        Some(s) => {
            if str_eq(s.as_str(), "---") || s.as_str().unicode_len() == 0 {
                None
            } else {
                Some(s)
            }
        },
        None => None,
    }
}

/// The message of an error entry: its message, else its code, else
/// `unknown error`.
pub open spec fn wrapper_message(w: ViesErrorWrapper) -> Seq<char> {
    match w.message {
        Some(m) => m@,
        None => match w.error {
            Some(e) => e@,
            None => "unknown error"@,
        },
    }
}

/// Reads a VIES reply: the first reported error becomes an API error,
/// otherwise the result with placeholders dropped.
pub fn vies_outcome(resp: ViesApiResponse) -> (r: Result<ViesResult, ViesError>)
    ensures
        match resp.error_wrappers {
            Some(ws) if ws@.len() > 0 => r matches Err(ViesError::ApiError(m)) && m@
                == wrapper_message(ws@[0]),
            _ => r matches Ok(res) && res.valid == (resp.valid == Some(true)) && res.request_date
                == resp.request_date && opt_str_view(res.name) == kept_text(resp.name)
                && opt_str_view(res.address) == kept_text(resp.address),
        },
{
    match &resp.error_wrappers {
        Some(ws) => {
            if ws.len() > 0 {
                let w = &ws[0];
                let m = match &w.message {
                    Some(m) => string_of(m.as_str()),
                    None => match &w.error {
                        Some(e) => string_of(e.as_str()),
                        None => string_of("unknown error"),
                    },
                };
                return Err(ViesError::ApiError(m));
            }
        },
        None => {},
    }
    let valid = match resp.valid {
        Some(v) => v,
        None => false,
    };
    Ok(
        ViesResult {
            valid,
            request_date: resp.request_date,
            name: without_placeholder(resp.name),
            address: without_placeholder(resp.address),
        },
    )
}

/// The API error for a reply whose HTTP status is not a success.
pub fn http_status_error(status: &str, body: &str) -> (r: ViesError)
    ensures
        r matches ViesError::ApiError(m) && m@ == "HTTP "@ + status@ + ": "@ + body@,
{
    let mut m = string_of("HTTP ");
    push_str(&mut m, status);
    push_str(&mut m, ": ");
    push_str(&mut m, body);
    ViesError::ApiError(m)
}

/// The HTTP status of a VIES reply: a success (200-299) lets the body be
/// read; any other status is an API error naming the status and the body.
pub fn check_http_status(code: u16, status: &str, body: &str) -> (r: Result<(), ViesError>)
    ensures
        200 <= code <= 299 <==> r is Ok,
        r matches Err(e) ==> e matches ViesError::ApiError(m) && m@ == "HTTP "@ + status@ + ": "@ + body@,
{
    if 200 <= code && code <= 299 {
        Ok(())
    } else {
        Err(http_status_error(status, body))
    }
}

} // verus!
