use ticket_bot::booking_page::{
    error_message, invalid_html, seats_for_night, success_html, verification_page, OrderLookup,
};
use ticket_bot::discord::ticket_order;
use ticket_bot::model::{Seat, UserInfo, UserTicketOrder};
use ticket_bot::order_id::{parse_order_id, OrderId};

const SUCCESS: &str = "<!DOCTYPE html>\n<html lang=\"en\">\n<head>\n<meta charset=\"utf-8\">\n<meta name=\"viewport\" content=\"width=device-width, initial-scale=1\">\n<title>Booking verified</title>\n</head>\n<body>\n<h1>Valid booking</h1>\n<p><strong>Name:</strong> $name$</p>\n<p><strong>Phone number:</strong> $phone_number$</p>\n<h2>Night 1 seats</h2>\n<p>$seats_night1$</p>\n<h2>Night 2 seats</h2>\n<p>$seats_night2$</p>\n</body>\n</html>\n";
const INVALID: &str = "<!DOCTYPE html>\n<html lang=\"en\">\n<head>\n<meta charset=\"utf-8\">\n<meta name=\"viewport\" content=\"width=device-width, initial-scale=1\">\n<title>Invalid booking</title>\n</head>\n<body>\n<h1>Invalid booking</h1>\n<p>This code does not belong to an approved booking.</p>\n</body>\n</html>\n";
const ERROR: &str = "<!DOCTYPE html>\n<html lang=\"en\">\n<head>\n<meta charset=\"utf-8\">\n<meta name=\"viewport\" content=\"width=device-width, initial-scale=1\">\n<title>Error</title>\n</head>\n<body>\n<h1>Something went wrong</h1>\n<p>$error_message$</p>\n</body>\n</html>\n";

fn seat(s: &str) -> Seat {
    Seat { seat_number: s.to_string() }
}

fn info() -> UserInfo {
    UserInfo {
        name: "Aisha".to_string(),
        phone_number: "7654321".to_string(),
        night: "Both".to_string(),
        zone: "VIP".to_string(),
    }
}

fn page(name: &str, phone: &str, n1: &str, n2: &str) -> String {
    SUCCESS
        .replace("$name$", name)
        .replace("$phone_number$", phone)
        .replace("$seats_night1$", n1)
        .replace("$seats_night2$", n2)
}

#[test]
fn success_page_lists_the_seats_without_prefixes() {
    let n1 = vec![seat("night1-A1"), seat("night1-VIP-B12")];
    let n2 = vec![seat("night2-C3")];
    assert_eq!(
        success_html("Aisha", "7654321", &n1, &n2),
        page("Aisha", "7654321", "A1<br />VIP-B12", "C3")
    );
}

#[test]
fn success_page_without_seats() {
    assert_eq!(success_html("Bo", "9000001", &[], &[]), page("Bo", "9000001", "", ""));
}

#[test]
fn placeholders_in_values_are_filled_in_turn() {
    // The name is put in first, so a placeholder inside it is filled later.
    let out = success_html("$phone_number$", "7000000", &[], &[]);
    assert!(out.contains("<strong>Name:</strong> 7000000</p>"));
}

#[test]
fn invalid_page() {
    assert_eq!(invalid_html(), INVALID);
}

#[test]
fn error_page_reports_the_error() {
    assert_eq!(error_message("Invalid order ID!"), ERROR.replace("$error_message$", "Invalid order ID!"));
}

#[test]
fn seats_are_sorted_by_night() {
    let seats = vec![seat("night1-A1"), seat("night2-B1"), seat("night1-C1"), seat("other")];
    let n1: Vec<String> = seats_for_night(&seats, "night1").into_iter().map(|s| s.seat_number).collect();
    let n2: Vec<String> = seats_for_night(&seats, "night2").into_iter().map(|s| s.seat_number).collect();
    assert_eq!(n1, vec!["night1-A1".to_string(), "night1-C1".to_string()]);
    assert_eq!(n2, vec!["night2-B1".to_string()]);
}

#[test]
fn scan_of_an_invalid_id() {
    let r = verification_page(&OrderLookup::InvalidId);
    assert_eq!(r.status, 400);
    assert_eq!(r.body, error_message("Invalid order ID!"));
}

#[test]
fn scan_when_the_database_fails() {
    let r = verification_page(&OrderLookup::DatabaseError { error: "timeout".to_string() });
    assert_eq!(r.status, 500);
    assert_eq!(r.body, error_message("DB ERROR: timeout"));
}

#[test]
fn scan_of_an_unknown_order() {
    let r = verification_page(&OrderLookup::NotFound);
    assert_eq!(r.status, 200);
    assert_eq!(r.body, invalid_html());
}

#[test]
fn scan_shows_what_was_approved() {
    let night1 = vec!["A1".to_string(), "VIP-C2".to_string()];
    let night2 = vec!["B5".to_string()];
    let order: UserTicketOrder = ticket_order(&info(), &night1, &night2);
    let r = verification_page(&OrderLookup::Found { order });
    assert_eq!(r.status, 200);
    assert_eq!(r.body, page("Aisha", "7654321", "A1<br />VIP-C2", "B5"));
}

#[test]
fn order_ids_are_read_from_hex() {
    let id = parse_order_id("65F1a2b3c4d5e6f708091011").expect("valid id");
    assert_eq!(id.bytes, [0x65, 0xf1, 0xa2, 0xb3, 0xc4, 0xd5, 0xe6, 0xf7, 0x08, 0x09, 0x10, 0x11]);
    assert!(parse_order_id("65f1a2b3c4d5e6f70809101").is_none());
    assert!(parse_order_id("65f1a2b3c4d5e6f7080910111").is_none());
    assert!(parse_order_id("65f1a2b3c4d5e6f70809101g").is_none());
    assert!(parse_order_id("").is_none());
}

#[test]
fn order_ids_are_written_in_lower_case_hex() {
    let id = OrderId { bytes: [0x65, 0xf1, 0xa2, 0xb3, 0xc4, 0xd5, 0xe6, 0xf7, 0x08, 0x09, 0x10, 0x11] };
    assert_eq!(id.to_hex(), "65f1a2b3c4d5e6f708091011");
    assert_eq!(parse_order_id(&id.to_hex()), Some(id));
}

#[test]
fn different_errors_give_different_pages() {
    assert_ne!(error_message("timed out"), error_message("refused"));
    assert_ne!(error_message(""), error_message("x"));
    assert_eq!(error_message("x"), ERROR.replace("$error_message$", "x"));
}
