use ticket_bot::discord::{
    after_insert, after_photo, approval_done_reply, booking_message, delivery_failure_reply,
    insert_failure_reply, qr_failure_reply, ticket_order, verification_link, verification_qr_code,
    ApprovalAction, DiscordReaction, Handler, InsertOutcome, PhotoOutcome,
};
use ticket_bot::model::UserInfo;
use ticket_bot::order_id::OrderId;

fn strings(v: &[&str]) -> Vec<String> {
    v.iter().map(|s| s.to_string()).collect()
}

#[test]
fn messages_from_bots_or_unlinked_channels_are_ignored() {
    let h = Handler;
    assert!(matches!(h.message_reaction(true, true, "hello", 0), DiscordReaction::Ignore));
    assert!(matches!(h.message_reaction(false, false, "hello", 0), DiscordReaction::Ignore));
    assert!(matches!(
        h.message_reaction(false, false, ".approve night1 A1", 0),
        DiscordReaction::Ignore
    ));
}

#[test]
fn approvals_are_recognised() {
    match Handler.message_reaction(false, true, ".approve night1 A1,B2 night2 C3", 0) {
        DiscordReaction::Approve { night1, night2 } => {
            assert_eq!(night1, strings(&["A1", "B2"]));
            assert_eq!(night2, strings(&["C3"]));
        }
        _ => panic!("expected an approval"),
    }
}

#[test]
fn bad_commands_are_answered() {
    match Handler.message_reaction(false, true, ".approve night1 A99", 0) {
        DiscordReaction::Reply { text } => assert_eq!(text, "Invalid seat `A99`"),
        _ => panic!("expected a reply"),
    }
}

#[test]
fn empty_messages_are_answered() {
    match Handler.message_reaction(false, true, "", 0) {
        DiscordReaction::Reply { text } => {
            assert_eq!(text, "You can only send text and images to users right now!")
        }
        _ => panic!("expected a reply"),
    }
}

#[test]
fn other_messages_are_forwarded() {
    match Handler.message_reaction(false, true, "See you there!", 0) {
        DiscordReaction::Forward { with_attachments, text } => {
            assert!(!with_attachments);
            assert_eq!(text, "See you there!");
        }
        _ => panic!("expected a forward"),
    }
    match Handler.message_reaction(false, true, "", 2) {
        DiscordReaction::Forward { with_attachments, text } => {
            assert!(with_attachments);
            assert_eq!(text, "");
        }
        _ => panic!("expected a forward"),
    }
}

#[test]
fn orders_prefix_each_seat_with_its_night() {
    let info = UserInfo {
        name: "Mira".to_string(),
        phone_number: "7000001".to_string(),
        night: "Both".to_string(),
        zone: "Zone Blue".to_string(),
    };
    let order = ticket_order(&info, &strings(&["A1", "VIP-C3"]), &strings(&["B2"]));
    assert_eq!(order.user_info, info);
    let seats: Vec<String> = order.seats.iter().map(|s| s.seat_number.clone()).collect();
    assert_eq!(seats, strings(&["night1-A1", "night1-VIP-C3", "night2-B2"]));
}

#[test]
fn replies_to_the_team() {
    assert_eq!(insert_failure_reply(Some(11000), "E11000 duplicate key"), "One of those seats is already booked!");
    assert_eq!(insert_failure_reply(Some(121), "bad document"), "Error from DB: bad document");
    assert_eq!(insert_failure_reply(None, "timed out"), "Error from DB: timed out");
    assert_eq!(delivery_failure_reply("blocked"), "Failed to send message to telegram channel: blocked");
    assert_eq!(qr_failure_reply("blocked"), "Error sending QR code image to Telegram: blocked");
    assert_eq!(approval_done_reply(), "Successfully sent QR code to them!");
}

#[test]
fn booking_messages() {
    assert_eq!(
        booking_message(&strings(&["A1", "A2"]), &strings(&["B9"])),
        "Booking seats...\nNight 1 seats: A1, A2\nNight 2 seats: B9"
    );
    assert_eq!(booking_message(&vec![], &strings(&["B9"])), "Booking seats...\nNight 1 seats: \nNight 2 seats: B9");
}

#[test]
fn verification_links() {
    let id = OrderId { bytes: [0, 1, 2, 3, 4, 5, 6, 7, 8, 9, 10, 255] };
    assert_eq!(verification_link(&id), "https://garujam.com/verify/000102030405060708090aff");
}

#[test]
fn qr_codes_are_png_images() {
    let png = verification_qr_code("https://garujam.com/verify/000102030405060708090aff")
        .expect("the link fits a QR code");
    assert_eq!(&png[..8], &[137, 80, 78, 71, 13, 10, 26, 10]);
    let other = verification_qr_code("https://garujam.com/verify/ffffffffffffffffffffffff")
        .expect("the link fits a QR code");
    assert_ne!(png, other);
}

#[test]
fn overlong_texts_make_no_qr_code() {
    let long = "x".repeat(5000);
    assert!(verification_qr_code(&long).is_err());
}

fn describe(actions: &[ApprovalAction]) -> Vec<(&'static str, String)> {
    actions
        .iter()
        .map(|a| match a {
            ApprovalAction::Reply { text } => ("reply", text.clone()),
            ApprovalAction::SendText { text } => ("text", text.clone()),
            ApprovalAction::SendQrCode { link } => ("qr", link.clone()),
        })
        .collect()
}

#[test]
fn refused_order_is_answered_once() {
    let dup = InsertOutcome::Failed { write_code: Some(11000), error: "E11000".to_string() };
    assert_eq!(
        describe(&after_insert(&dup, &strings(&["A1"]), &vec![])),
        vec![("reply", "One of those seats is already booked!".to_string())]
    );
    let other = InsertOutcome::Failed { write_code: None, error: "timed out".to_string() };
    assert_eq!(
        describe(&after_insert(&other, &strings(&["A1"]), &vec![])),
        vec![("reply", "Error from DB: timed out".to_string())]
    );
}

#[test]
fn stored_order_is_sent_to_the_customer() {
    let id = OrderId { bytes: [0, 1, 2, 3, 4, 5, 6, 7, 8, 9, 10, 255] };
    let stored = InsertOutcome::Stored { id };
    assert_eq!(
        describe(&after_insert(&stored, &strings(&["A1", "A2"]), &strings(&["B9"]))),
        vec![
            ("text", "Booking seats...\nNight 1 seats: A1, A2\nNight 2 seats: B9".to_string()),
            ("qr", "https://garujam.com/verify/000102030405060708090aff".to_string()),
        ]
    );
}

#[test]
fn qr_code_outcome_is_answered_once() {
    assert_eq!(
        describe(&after_photo(&PhotoOutcome::Sent)),
        vec![("reply", "Successfully sent QR code to them!".to_string())]
    );
    assert_eq!(
        describe(&after_photo(&PhotoOutcome::Failed { error: "blocked".to_string() })),
        vec![("reply", "Error sending QR code image to Telegram: blocked".to_string())]
    );
}
