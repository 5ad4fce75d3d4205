use faktura::date::Date;
use faktura::model::numbering::InvoiceNumberSequence;

#[test]
fn sequential_numbering() {
    let mut seq = InvoiceNumberSequence::new("RE-", 2024);
    assert_eq!(seq.next_number(), "RE-2024-001");
    assert_eq!(seq.next_number(), "RE-2024-002");
    assert_eq!(seq.next_number(), "RE-2024-003");
}

#[test]
fn peek_does_not_consume() {
    let mut seq = InvoiceNumberSequence::new("RE-", 2024);
    assert_eq!(seq.peek(), "RE-2024-001");
    assert_eq!(seq.peek(), "RE-2024-001");
    assert_eq!(seq.next_number(), "RE-2024-001");
    assert_eq!(seq.peek(), "RE-2024-002");
}

#[test]
fn starting_at() {
    let mut seq = InvoiceNumberSequence::starting_at("INV-", 2024, 42);
    assert_eq!(seq.next_number(), "INV-2024-042");
    assert_eq!(seq.next_number(), "INV-2024-043");
}

#[test]
fn custom_padding() {
    let mut seq = InvoiceNumberSequence::new("R", 2024).with_padding(5);
    assert_eq!(seq.next_number(), "R2024-00001");
}

#[test]
fn year_advance() {
    let mut seq = InvoiceNumberSequence::new("RE-", 2024);
    seq.next_number();
    seq.next_number();
    seq.advance_year(2025).unwrap();
    assert_eq!(seq.next_number(), "RE-2025-001");
}

#[test]
fn year_advance_rejects_past() {
    let mut seq = InvoiceNumberSequence::new("RE-", 2024);
    assert!(seq.advance_year(2023).is_err());
    assert!(seq.advance_year(2024).is_err());
}

#[test]
fn auto_advance_year() {
    let mut seq = InvoiceNumberSequence::new("RE-", 2024);
    seq.next_number();

    let jan_2025 = Date::from_ymd_opt(2025, 1, 1).unwrap();
    assert!(seq.auto_advance(jan_2025));
    assert_eq!(seq.next_number(), "RE-2025-001");

    let feb_2025 = Date::from_ymd_opt(2025, 2, 1).unwrap();
    assert!(!seq.auto_advance(feb_2025));
    assert_eq!(seq.next_number(), "RE-2025-002");
}

#[test]
fn advance_year_error_message() {
    let mut seq = InvoiceNumberSequence::new("RE-", 2024);
    let err = seq.advance_year(2023).unwrap_err();
    assert_eq!(
        err.display(),
        "numbering error: new year 2023 must be greater than current year 2024"
    );
    assert_eq!(seq.peek(), "RE-2024-001");
}

#[test]
fn numbers_never_repeat() {
    let mut seq = InvoiceNumberSequence::starting_at("X", 2024, 998);
    let a = seq.next_number();
    let b = seq.next_number();
    let c = seq.next_number();
    assert_eq!(a, "X2024-998");
    assert_eq!(b, "X2024-999");
    assert_eq!(c, "X2024-1000");
    assert_ne!(a, b);
    assert_ne!(b, c);
    assert_eq!(seq.next_raw(), 1001);
    assert_eq!(seq.year(), 2024);
}

#[test]
fn dates_span_the_years_chrono_holds() {
    assert!(Date::from_ymd_opt(262142, 12, 31).is_some());
    assert!(Date::from_ymd_opt(262143, 1, 1).is_none());
    assert!(Date::from_ymd_opt(-262143, 1, 1).is_some());
    assert!(Date::from_ymd_opt(-262144, 12, 31).is_none());
}
