//! UBL 2.1 namespace URIs.
use vstd::prelude::*;

verus! {

/// UBL Invoice namespace.
pub const INVOICE: &'static str = "urn:oasis:names:specification:ubl:schema:xsd:Invoice-2";

/// UBL CreditNote namespace.
pub const CREDIT_NOTE: &'static str = "urn:oasis:names:specification:ubl:schema:xsd:CreditNote-2";

/// Common Aggregate Components namespace.
pub const CAC: &'static str =
    "urn:oasis:names:specification:ubl:schema:xsd:CommonAggregateComponents-2";

/// Common Basic Components namespace.
pub const CBC: &'static str =
    "urn:oasis:names:specification:ubl:schema:xsd:CommonBasicComponents-2";

} // verus!
