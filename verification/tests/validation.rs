use ticket_bot::validation::{is_valid_number, is_valid_seat_number};

#[test]
fn phone_numbers() {
    assert!(is_valid_number("7123456"));
    assert!(is_valid_number("9000000"));
    assert!(!is_valid_number("8123456"));
    assert!(!is_valid_number("712345"));
    assert!(!is_valid_number("71234567"));
    assert!(!is_valid_number("7123a56"));
    assert!(!is_valid_number(" 7123456"));
    assert!(!is_valid_number(""));
}

#[test]
fn plain_seats() {
    assert!(is_valid_seat_number("A1"));
    assert!(is_valid_seat_number("A10"));
    assert!(is_valid_seat_number("Z24"));
    assert!(is_valid_seat_number("M19"));
    assert!(!is_valid_seat_number("A0"));
    assert!(!is_valid_seat_number("A25"));
    assert!(!is_valid_seat_number("a1"));
    assert!(!is_valid_seat_number("AA1"));
    assert!(!is_valid_seat_number(""));
}

#[test]
fn vip_rows_a_and_b() {
    assert!(is_valid_seat_number("VIP-A1"));
    assert!(is_valid_seat_number("VIP-A6"));
    assert!(!is_valid_seat_number("VIP-A7"));
    assert!(!is_valid_seat_number("VIP-A10"));
    assert!(is_valid_seat_number("VIP-A11"));
    assert!(is_valid_seat_number("VIP-B16"));
    assert!(!is_valid_seat_number("VIP-B17"));
}

#[test]
fn vip_rows_c_and_d() {
    assert!(is_valid_seat_number("VIP-C1"));
    assert!(is_valid_seat_number("VIP-C10"));
    assert!(is_valid_seat_number("VIP-D16"));
    assert!(!is_valid_seat_number("VIP-D17"));
    assert!(!is_valid_seat_number("VIP-E1"));
    assert!(!is_valid_seat_number("VIP-"));
}
