use invoice_store::numbering::next_invoice_number_from;

#[test]
fn first_invoice_starts_the_sequence() {
    assert_eq!(next_invoice_number_from(None, 2025, 7), "INV-2025-07-0001");
}

#[test]
fn trailing_digits_are_incremented_under_current_period() {
    let last = String::from("INV-2024-12-0007");
    assert_eq!(next_invoice_number_from(Some(&last), 2025, 1), "INV-2025-01-0008");
}

#[test]
fn previous_number_without_trailing_digits_restarts() {
    let last = String::from("DRAFT-COPY");
    assert_eq!(next_invoice_number_from(Some(&last), 2025, 7), "INV-2025-07-0001");
}

#[test]
fn leading_zeros_in_the_run_are_part_of_its_value() {
    let last = String::from("INV-2025-07-00007");
    assert_eq!(next_invoice_number_from(Some(&last), 2025, 7), "INV-2025-07-0008");
}

#[test]
fn sequence_beyond_four_digits_is_not_truncated() {
    let last = String::from("X-9999");
    assert_eq!(next_invoice_number_from(Some(&last), 2025, 12), "INV-2025-12-10000");
}

#[test]
fn run_too_large_for_a_32_bit_parse_restarts() {
    let last = String::from("INV-4294967296");
    assert_eq!(next_invoice_number_from(Some(&last), 2025, 3), "INV-2025-03-0001");
}

#[test]
fn month_is_zero_padded_to_two_digits() {
    assert_eq!(next_invoice_number_from(None, 2030, 10), "INV-2030-10-0001");
    assert_eq!(next_invoice_number_from(None, 2030, 2), "INV-2030-02-0001");
}
