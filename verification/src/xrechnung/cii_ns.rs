//! CII namespace URIs.
use vstd::prelude::*;

verus! {

/// CrossIndustryInvoice root namespace.
pub const RSM: &'static str = "urn:un:unece:uncefact:data:standard:CrossIndustryInvoice:100";

/// Reusable Aggregate Business Information Entity namespace.
pub const RAM: &'static str =
    "urn:un:unece:uncefact:data:standard:ReusableAggregateBusinessInformationEntity:100";

/// Qualified Data Type namespace.
pub const QDT: &'static str = "urn:un:unece:uncefact:data:standard:QualifiedDataType:100";

/// Unqualified Data Type namespace.
pub const UDT: &'static str = "urn:un:unece:uncefact:data:standard:UnqualifiedDataType:100";

} // verus!
