//! XRechnung (UBL 2.1 and CII): identifiers, namespaces, document generation
//! and reading, and the BR-DE rules.
use vstd::prelude::*;

pub mod ubl_ns;
pub mod cii_ns;
pub mod validate;
pub mod ubl;
pub mod cii;
pub mod read;
pub mod ubl_read;
pub mod ubl_invoice;
pub mod cii_read;
pub mod cii_invoice;

use crate::model::error::RechnungError;
use crate::model::types::Invoice;
use crate::text::{chars_of, push_char, str_eq, string_of};
use crate::xrechnung::cii_invoice::cii_result;
use crate::xrechnung::read::{is_final, next_read, reader_for, reads_left, reads_wf, xml_reads, XmlRead};
use crate::xrechnung::ubl_invoice::ubl_result;

pub use crate::xrechnung::cii::to_cii_xml;
pub use crate::xrechnung::cii_invoice::from_cii_xml;
pub use crate::xrechnung::ubl::to_ubl_xml;
pub use crate::xrechnung::ubl_invoice::from_ubl_xml;
pub use crate::xrechnung::validate::validate_xrechnung;

verus! {

/// XRechnung 3.0 specification identifier (BT-24).
pub const XRECHNUNG_CUSTOMIZATION_ID: &'static str =
    "urn:cen.eu:en16931:2017#compliant#urn:xeinkauf.de:kosit:xrechnung_3.0";

/// Peppol BIS Billing 3.0 profile identifier (BT-23).
pub const PEPPOL_PROFILE_ID: &'static str = "urn:fdc:peppol.eu:2017:poacc:billing:01:1.0";

/// The message of a text whose root is neither UBL nor CII.
pub const UNKNOWN_SYNTAX_MESSAGE: &'static str =
    "cannot detect XML syntax: root element is neither UBL (Invoice/CreditNote) nor CII (CrossIndustryInvoice)";

/// The detected XML syntax of an invoice.
#[derive(Debug, Clone, Copy, PartialEq, Eq, Structural)]
pub enum XmlSyntax {
    /// UBL 2.1 (root element `Invoice` or `CreditNote`).
    Ubl,
    /// UN/CEFACT CII (root element `CrossIndustryInvoice`).
    Cii,
}

/// The name after its prefix: what follows the first `:`, or the whole name.
pub open spec fn local_part(n: Seq<char>) -> Seq<char> {
    match after_colon(n) {
        Some(x) => x,
        None => n,
    }
}

pub open spec fn after_colon(n: Seq<char>) -> Option<Seq<char>>
    decreases n.len(),
{
    if n.len() == 0 {
        None
    } else if n[0] == ':' {
        Some(n.skip(1))
    } else {
        after_colon(n.skip(1))
    }
}

/// The syntax a root element's local name announces.
pub open spec fn syntax_of(local: Seq<char>) -> Option<XmlSyntax> {
    if local == "Invoice"@ || local == "CreditNote"@ {
        Some(XmlSyntax::Ubl)
    } else if local == "CrossIndustryInvoice"@ {
        Some(XmlSyntax::Cii)
    } else {
        None
    }
}

/// The syntax of the first element among the events, none where the
/// document ends or fails first.
pub open spec fn detected(evs: Seq<XmlRead>) -> Option<XmlSyntax>
    decreases evs.len(),
{
    if evs.len() == 0 {
        None
    } else {
        match evs[0] {
            XmlRead::Start(n, _) => syntax_of(local_part(n@)),
            XmlRead::Empty(n) => syntax_of(local_part(n@)),
            XmlRead::Eof => None,
            XmlRead::Failed(_) => None,
            _ => detected(evs.skip(1)),
        }
    }
}

proof fn lemma_after_colon_skip(n: Seq<char>, i: int)
    requires
        0 <= i < n.len(),
        n[i] != ':',
    ensures
        after_colon(n.skip(i)) == after_colon(n.skip(i + 1)),
{
    assert(n.skip(i).skip(1) =~= n.skip(i + 1));
}

/// The local part of a name.
pub fn local_name(n: &str) -> (r: String)
    ensures
        r@ == local_part(n@),
{
    let cs = chars_of(n);
    let mut i: usize = 0;
    proof {
        assert(n@.skip(0) =~= n@);
    }
    while i < cs.len()
        invariant
            cs@ == n@,
            i <= cs@.len(),
            after_colon(n@) == after_colon(n@.skip(i as int)),
        decreases cs.len() - i,
    {
        if cs[i] == ':' {
            let mut r = String::new();
            let mut j: usize = i + 1;
            while j < cs.len()
                invariant
                    cs@ == n@,
                    i < j <= cs@.len(),
                    r@ == n@.subrange(i + 1, j as int),
                decreases cs.len() - j,
            {
                push_char(&mut r, cs[j]);
                j = j + 1;
                proof {
                    assert(r@ =~= n@.subrange(i + 1, j as int));
                }
            }
            proof {
                assert(n@.skip(i as int)[0] == ':');
                assert(n@.skip(i as int).skip(1) =~= n@.subrange(i + 1, n@.len() as int));
                assert(r@ =~= n@.subrange(i + 1, n@.len() as int));
            }
            return r;
        }
        proof {
            lemma_after_colon_skip(n@, i as int);
        }
        i = i + 1;
    }
    proof {
        assert(n@.skip(i as int) =~= Seq::<char>::empty());
    }
    string_of(n)
}

fn syntax_of_name(n: &str) -> (r: Option<XmlSyntax>)
    ensures
        r == syntax_of(local_part(n@)),
{
    let l = local_name(n);
    if str_eq(l.as_str(), "Invoice") || str_eq(l.as_str(), "CreditNote") {
        Some(XmlSyntax::Ubl)
    } else if str_eq(l.as_str(), "CrossIndustryInvoice") {
        Some(XmlSyntax::Cii)
    } else {
        None
    }
}

/// Detects the XML syntax by the local name of the root element (the first
/// start or empty tag; text does not matter here, so the reader that trims
/// it serves).
pub fn detect_syntax(xml: &str) -> (r: Option<XmlSyntax>)
    ensures
        r == detected(xml_reads(xml@)),
{
    let mut reader = reader_for(xml);
    loop
        invariant
            reads_wf(reads_left(reader)),
            detected(reads_left(reader)) == detected(xml_reads(xml@)),
        decreases reads_left(reader).len(),
    {
        let ghost before = reads_left(reader);
        let e = next_read(&mut reader);
        proof {
            assert(e == before[0]);
            if !is_final(e) {
                assert(before.len() > 1);
                assert forall|i: int| 0 <= i < reads_left(reader).len() - 1 implies !is_final(
                    #[trigger] reads_left(reader)[i],
                ) by {
                    assert(reads_left(reader)[i] == before[i + 1]);
                }
            }
        }
        match e {
            XmlRead::Start(n, _) => {
                return syntax_of_name(n.as_str());
            },
            XmlRead::Empty(n) => {
                return syntax_of_name(n.as_str());
            },
            XmlRead::Eof => {
                return None;
            },
            XmlRead::Failed(_) => {
                return None;
            },
            _ => {},
        }
    }
}

/// Parses an invoice from XML, detecting whether it is UBL or CII by its
/// root element and reading it as that syntax.
pub fn from_xml(xml: &str) -> (r: Result<(Invoice, XmlSyntax), RechnungError>)
    ensures
        match detected(xml_reads(xml@)) {
            Some(XmlSyntax::Ubl) => match r {
                Ok((inv, syn)) => syn == XmlSyntax::Ubl && ubl_result(xml@, Ok(inv)),
                Err(e) => ubl_result(xml@, Err(e)),
            },
            Some(XmlSyntax::Cii) => match r {
                Ok((inv, syn)) => syn == XmlSyntax::Cii && cii_result(xml@, Ok(inv)),
                Err(e) => cii_result(xml@, Err(e)),
            },
            None => r matches Err(RechnungError::Xml(m)) && m@ == UNKNOWN_SYNTAX_MESSAGE@,
        },
{
    match detect_syntax(xml) {
        Some(XmlSyntax::Ubl) => match from_ubl_xml(xml) {
            Ok(inv) => Ok((inv, XmlSyntax::Ubl)),
            Err(e) => Err(e),
        },
        Some(XmlSyntax::Cii) => match from_cii_xml(xml) {
            Ok(inv) => Ok((inv, XmlSyntax::Cii)),
            Err(e) => Err(e),
        },
        None => Err(RechnungError::Xml(string_of(UNKNOWN_SYNTAX_MESSAGE))),
    }
}

} // verus!
