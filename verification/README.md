# faktura

German e-invoicing: the EN 16931 invoice model with its builder, totals and
validation rules, XRechnung/Peppol UBL and CII generation and parsing,
ZUGFeRD profiles, DATEV EXTF and GDPdU exports, VAT identifier and scenario
rules. The library under `src/` is written in Verus: every function has a
contract over mathematical models (`Seq`, `Map`, spec functions and views),
and Verus proves the code against it.

Layout:

- `src/text.rs`, `src/decimal.rs`, `src/date.rs`: strings, decimals (with
  `rust_decimal` behind a few trusted wrappers) and calendar dates.
- `src/xml.rs`: an XML writer over `quick-xml`, specified by the sequence of
  events written.
- `src/model/`: invoice types, code lists, numbering, builders, totals and
  the validation rules.
- `src/xrechnung/`: UBL and CII generation (`ubl.rs`, `cii.rs`), reading
  (`read.rs`, `ubl_read.rs`, `cii_read.rs`: each text of a document goes to
  a field by its element path) and building an invoice from what was read
  (`ubl_invoice.rs`, `cii_invoice.rs`), and the BR-DE rules.
- `src/peppol/`, `src/zugferd/`, `src/vat/`, `src/datev/`, `src/gdpdu/`: the
  other formats and rules. `src/zugferd/pdf.rs` embeds the XML in a PDF and
  finds it again; the PDF objects are modelled as plain values (`PdfObj`),
  each `lopdf` call is a trusted wrapper stated over that model, and the walk
  through the catalog, the name tree and `AF` is proved against it, with the
  law that extraction finds what embedding adds. `src/zugferd/xmp.rs` writes
  the PDF/A-3 XMP metadata.
- `app/`: what stays outside the proofs: the VIES HTTP client, and serde
  copies of the library's types.
- `tests/`: tests of the library as a user sees it.
