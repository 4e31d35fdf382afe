use exportpro::order_number::{format_order_number, next_order_number, parse_trailing_sequence};

#[test]
fn formats_with_three_digit_padding() {
    assert_eq!(format_order_number(2024, 1), "EXP-2024-001");
    assert_eq!(format_order_number(2024, 42), "EXP-2024-042");
    assert_eq!(format_order_number(2024, 123), "EXP-2024-123");
    assert_eq!(format_order_number(2024, 1000), "EXP-2024-1000");
    assert_eq!(format_order_number(0, 7), "EXP-0-007");
}

#[test]
fn parses_trailing_segment() {
    assert_eq!(parse_trailing_sequence("EXP-2024-001"), Some(1));
    assert_eq!(parse_trailing_sequence("EXP-2024-123"), Some(123));
    assert_eq!(parse_trailing_sequence("123"), Some(123));
    assert_eq!(parse_trailing_sequence("EXP-2024-"), None);
    assert_eq!(parse_trailing_sequence(""), None);
    assert_eq!(parse_trailing_sequence("EXP-2024-12a"), None);
    assert_eq!(parse_trailing_sequence("EXP-2024-2147483647"), Some(2147483647));
    assert_eq!(parse_trailing_sequence("EXP-2024-2147483648"), None);
}

#[test]
fn first_order_of_a_store_starts_at_one() {
    assert_eq!(next_order_number(None, 2024), "EXP-2024-001");
}

#[test]
fn sequence_increases_by_one_with_no_gaps() {
    let first = next_order_number(None, 2024);
    let second = next_order_number(Some(first.as_str()), 2024);
    let third = next_order_number(Some(second.as_str()), 2024);
    assert_eq!(first, "EXP-2024-001");
    assert_eq!(second, "EXP-2024-002");
    assert_eq!(third, "EXP-2024-003");
}

#[test]
fn unparsable_latest_number_resets_to_one() {
    assert_eq!(next_order_number(Some("EXP-2024-abc"), 2025), "EXP-2025-001");
    assert_eq!(next_order_number(Some("no dash digits"), 2025), "EXP-2025-001");
}

#[test]
fn prior_year_sequence_is_continued_not_reset() {
    // Deliberate policy: a latest number from an earlier year keeps its
    // sequence running; only the absence of any prior order resets.
    assert_eq!(next_order_number(Some("EXP-2024-017"), 2025), "EXP-2025-018");
}
