//! What the bot does with messages the organising team writes in a
//! customer's Discord thread: forward them to the customer, or, for an
//! `.approve` command, book the seats and send the customer a QR code that
//! leads to the booking's page.

use vstd::prelude::*;
use qrcode_generator::QRCodeError;
use crate::command::{command_outcome, keyword, parse_command};
use crate::model::{Seat, UserInfo, UserTicketOrder, seat_numbers};
use crate::order_id::{OrderId, hex_encode};
use crate::text::{append_chars, append_str, join, join_exec, owned, starts_with, texts};

verus! {

// ---------------------------------------------------------------------------
// Messages from the team
// ---------------------------------------------------------------------------

/// Handles the team's Discord messages.
pub struct Handler;

/// What the bot does with a message from the team.
pub enum DiscordReaction {
    /// Nothing: the message is from a bot, or from a channel that belongs to
    /// no customer.
    Ignore,
    /// Book these seats for the customer of the thread.
    Approve { night1: Vec<String>, night2: Vec<String> },
    /// Answer the message with `text`.
    Reply { text: String },
    /// Send the message's attachments (when `with_attachments`) and then its
    /// text to the customer on Telegram.
    Forward { with_attachments: bool, text: String },
}

#[verifier::ext_equal]
pub enum DiscordReactionView {
    Ignore,
    Approve { night1: Seq<Seq<char>>, night2: Seq<Seq<char>> },
    Reply { text: Seq<char> },
    Forward { with_attachments: bool, text: Seq<char> },
}

impl View for DiscordReaction {
    type V = DiscordReactionView;

    open spec fn view(&self) -> DiscordReactionView {
        match self {
            DiscordReaction::Ignore => DiscordReactionView::Ignore,
            DiscordReaction::Approve { night1, night2 } => DiscordReactionView::Approve {
                night1: texts(night1@),
                night2: texts(night2@),
            },
            DiscordReaction::Reply { text } => DiscordReactionView::Reply { text: text@ },
            DiscordReaction::Forward { with_attachments, text } => DiscordReactionView::Forward {
                with_attachments: *with_attachments,
                text: text@,
            },
        }
    }
}

/// What the bot does with a message from the team with the text `content`
/// and `attachments` attachments, posted by a bot or not, in a channel
/// linked to a customer or not.
pub open spec fn discord_reaction(
    from_bot: bool,
    linked: bool,
    content: Seq<char>,
    attachments: nat,
) -> DiscordReactionView {
    if from_bot || !linked {
        DiscordReactionView::Ignore
    } else {
        match command_outcome(content) {
            Ok(Some(lists)) => DiscordReactionView::Approve { night1: lists.0, night2: lists.1 },
            Err(e) => DiscordReactionView::Reply { text: e },
            Ok(None) => if content.len() == 0 && attachments == 0 {
                DiscordReactionView::Reply {
                    text: "You can only send text and images to users right now!"@,
                }
            } else {
                DiscordReactionView::Forward { with_attachments: attachments > 0, text: content }
            },
        }
    }
}

impl Handler {
    /// What the bot does with a message from the team.
    pub fn message_reaction(
        &self,
        from_bot: bool,
        linked: bool,
        content: &str,
        attachments: usize,
    ) -> (r: DiscordReaction)
        ensures
            r@ == discord_reaction(from_bot, linked, content@, attachments as nat),
    {
        if from_bot || !linked {
            return DiscordReaction::Ignore;
        }
        match parse_command(content) {
            Ok(Some((night1, night2))) => DiscordReaction::Approve { night1, night2 },
            Err(e) => DiscordReaction::Reply { text: e },
            Ok(None) => {
                if content.unicode_len() == 0 && attachments == 0 {
                    DiscordReaction::Reply {
                        text: owned("You can only send text and images to users right now!"),
                    }
                } else {
                    DiscordReaction::Forward { with_attachments: attachments > 0, text: owned(content) }
                }
            },
        }
    }
}

/// A message from the team that is no command and not empty reaches the
/// customer as it is: its own text, with its attachments exactly when it has
/// any.  Bots and channels linked to no customer are ignored.
pub proof fn lemma_team_messages_forwarded(
    from_bot: bool,
    linked: bool,
    content: Seq<char>,
    attachments: nat,
)
    ensures
        ({
            let r = discord_reaction(from_bot, linked, content, attachments);
            &&& from_bot || !linked ==> r == DiscordReactionView::Ignore
            &&& !from_bot && linked && !starts_with(content, keyword()) && (content.len() > 0
                || attachments > 0) ==> r == DiscordReactionView::Forward {
                with_attachments: attachments > 0,
                text: content,
            }
            &&& r matches DiscordReactionView::Forward { with_attachments, text } ==> with_attachments
                == (attachments > 0) && text == content
        }),
{
}

/// The answer to the team when a message could not be delivered on Telegram.
pub fn delivery_failure_reply(error: &str) -> (r: String)
    ensures
        r@ == "Failed to send message to telegram channel: "@ + error@,
{
    let mut out = owned("Failed to send message to telegram channel: ");
    append_str(&mut out, error);
    out
}

// ---------------------------------------------------------------------------
// Approving an order
// ---------------------------------------------------------------------------

/// The seat numbers stored for the seats `seats` of night `night`: each seat
/// prefixed with `night` and a dash.
pub open spec fn night_seats(seats: Seq<Seq<char>>, night: Seq<char>) -> Seq<Seq<char>> {
    seats.map_values(|s: Seq<char>| night + "-"@ + s)
}

/// The seats of an order approved with the lists `night1` and `night2`.
pub open spec fn order_seats(night1: Seq<Seq<char>>, night2: Seq<Seq<char>>) -> Seq<Seq<char>> {
    night_seats(night1, "night1"@) + night_seats(night2, "night2"@)
}

/// Appends the seats `seats` of night `night` to `out`.
fn push_night_seats(out: &mut Vec<Seat>, seats: &Vec<String>, night: &str)
    ensures
        seat_numbers(final(out)@) == seat_numbers(old(out)@) + night_seats(texts(seats@), night@),
{
    let ghost want = night_seats(texts(seats@), night@);
    let mut i: usize = 0;
    while i < seats.len()
        invariant
            i <= seats.len(),
            want == night_seats(texts(seats@), night@),
            seat_numbers(out@) == seat_numbers(old(out)@) + want.take(i as int),
        decreases seats.len() - i,
    {
        let mut number = owned(night);
        append_str(&mut number, "-");
        append_str(&mut number, seats[i].as_str());
        let ghost before = out@;
        out.push(Seat { seat_number: number });
        assert(seat_numbers(out@) == seat_numbers(before).push(want[i as int]));
        assert(want.take(i + 1) == want.take(i as int).push(want[i as int]));
        i = i + 1;
    }
    assert(want.take(seats@.len() as int) == want);
}

/// The order booked by `.approve`: the customer of the thread and the seats
/// of night 1, then those of night 2, as `night1-<seat>` and `night2-<seat>`.
pub fn ticket_order(user_info: &UserInfo, night1: &Vec<String>, night2: &Vec<String>) -> (r:
    UserTicketOrder)
    ensures
        r@.user_info == user_info@,
        r@.seats == order_seats(texts(night1@), texts(night2@)),
{
    let mut seats: Vec<Seat> = Vec::new();
    assert(seat_numbers(seats@) == Seq::<Seq<char>>::empty());
    push_night_seats(&mut seats, night1, "night1");
    push_night_seats(&mut seats, night2, "night2");
    UserTicketOrder { user_info: user_info.duplicate(), seats }
}

/// The MongoDB error code for a duplicate key: a seat is already booked.
pub open spec fn duplicate_key_code() -> i32 {
    11000
}

/// The answer to the team when the order could not be stored: `write_code`
/// is the code of the database's write error, if it reported one.
pub open spec fn insert_failure_text(write_code: Option<i32>, error: Seq<char>) -> Seq<char> {
    if write_code == Some(duplicate_key_code()) {
        "One of those seats is already booked!"@
    } else {
        "Error from DB: "@ + error
    }
}

/// The answer to the team when the order could not be stored: `write_code`
/// is the code of the database's write error, if it reported one.
pub fn insert_failure_reply(write_code: Option<i32>, error: &str) -> (r: String)
    ensures
        r@ == insert_failure_text(write_code, error@),
        write_code == Some(duplicate_key_code()) ==> r@ == "One of those seats is already booked!"@,
        write_code != Some(duplicate_key_code()) ==> r@ == "Error from DB: "@ + error@,
{
    if write_code == Some(11000i32) {
        owned("One of those seats is already booked!")
    } else {
        let mut out = owned("Error from DB: ");
        append_str(&mut out, error);
        out
    }
}

/// The address of the verification page of the order `id`.
pub open spec fn verification_address(id: OrderId) -> Seq<char> {
    "https://garujam.com/verify/"@ + hex_encode(id.bytes@)
}

/// The address of the verification page of the order `id`.
pub fn verification_link(id: &OrderId) -> (r: String)
    ensures
        r@ == verification_address(*id),
{
    let mut out = owned("https://garujam.com/verify/");
    append_str(&mut out, id.to_hex().as_str());
    out
}

/// The message that tells the customer which seats are being booked.
pub open spec fn booking_text(night1: Seq<Seq<char>>, night2: Seq<Seq<char>>) -> Seq<char> {
    "Booking seats...\nNight 1 seats: "@ + join(night1, ", "@) + "\nNight 2 seats: "@ + join(
        night2,
        ", "@,
    )
}

/// The strings of `v` as character vectors.
fn chars_of_all(v: &Vec<String>) -> (r: Vec<Vec<char>>)
    ensures
        crate::text::char_texts(r@) == texts(v@),
{
    let mut out: Vec<Vec<char>> = Vec::new();
    let mut i: usize = 0;
    while i < v.len()
        invariant
            i <= v.len(),
            crate::text::char_texts(out@) == texts(v@).take(i as int),
        decreases v.len() - i,
    {
        let ghost before = out@;
        out.push(crate::text::chars_of(v[i].as_str()));
        assert(crate::text::char_texts(out@) == crate::text::char_texts(before).push(
            texts(v@)[i as int],
        ));
        assert(texts(v@).take(i + 1) == texts(v@).take(i as int).push(texts(v@)[i as int]));
        i = i + 1;
    }
    assert(texts(v@).take(v@.len() as int) == texts(v@));
    out
}

/// The message that tells the customer which seats are being booked.
pub fn booking_message(night1: &Vec<String>, night2: &Vec<String>) -> (r: String)
    ensures
        r@ == booking_text(texts(night1@), texts(night2@)),
{
    let sep = crate::text::chars_of(", ");
    let mut out = owned("Booking seats...\nNight 1 seats: ");
    append_chars(&mut out, &join_exec(&chars_of_all(night1), &sep));
    append_str(&mut out, "\nNight 2 seats: ");
    append_chars(&mut out, &join_exec(&chars_of_all(night2), &sep));
    out
}

/// The booking text lists the night-1 seats on the night-1 line and the
/// night-2 seats on the night-2 line, each joined by `, `: the night-2 seats
/// are what follows the text for the night-1 seats alone.
pub proof fn lemma_booking_text_lines(night1: Seq<Seq<char>>, night2: Seq<Seq<char>>)
    ensures
        booking_text(night1, night2) == "Booking seats...\nNight 1 seats: "@ + join(night1, ", "@)
            + "\nNight 2 seats: "@ + join(night2, ", "@),
        booking_text(night1, night2) == booking_text(night1, Seq::empty()) + join(night2, ", "@),
        booking_text(night1, Seq::empty()) == "Booking seats...\nNight 1 seats: "@ + join(
            night1,
            ", "@,
        ) + "\nNight 2 seats: "@,
{
    assert(join(Seq::<Seq<char>>::empty(), ", "@) == Seq::<char>::empty());
    assert(booking_text(night1, Seq::empty()) =~= "Booking seats...\nNight 1 seats: "@ + join(
        night1,
        ", "@,
    ) + "\nNight 2 seats: "@);
}

/// The answer to the team when the QR code could not be sent.
pub fn qr_failure_reply(error: &str) -> (r: String)
    ensures
        r@ == "Error sending QR code image to Telegram: "@ + error@,
{
    let mut out = owned("Error sending QR code image to Telegram: ");
    append_str(&mut out, error);
    out
}

/// The answer to the team once the customer has the QR code.
pub fn approval_done_reply() -> (r: String)
    ensures
        r@ == "Successfully sent QR code to them!"@,
{
    owned("Successfully sent QR code to them!")
}

// ---------------------------------------------------------------------------
// The course of an approval
// ---------------------------------------------------------------------------

/// What came of storing the approved order.
pub enum InsertOutcome {
    /// The order was stored under `id`.
    Stored { id: OrderId },
    /// The database refused it with `error`, and the code of its write error
    /// if it reported one.
    Failed { write_code: Option<i32>, error: String },
}

pub enum InsertOutcomeView {
    Stored { id: OrderId },
    Failed { write_code: Option<i32>, error: Seq<char> },
}

impl View for InsertOutcome {
    type V = InsertOutcomeView;

    open spec fn view(&self) -> InsertOutcomeView {
        match self {
            InsertOutcome::Stored { id } => InsertOutcomeView::Stored { id: *id },
            InsertOutcome::Failed { write_code, error } => InsertOutcomeView::Failed {
                write_code: *write_code,
                error: error@,
            },
        }
    }
}

/// What came of sending the QR code to the customer.
pub enum PhotoOutcome {
    Sent,
    Failed { error: String },
}

pub enum PhotoOutcomeView {
    Sent,
    Failed { error: Seq<char> },
}

impl View for PhotoOutcome {
    type V = PhotoOutcomeView;

    open spec fn view(&self) -> PhotoOutcomeView {
        match self {
            PhotoOutcome::Sent => PhotoOutcomeView::Sent,
            PhotoOutcome::Failed { error } => PhotoOutcomeView::Failed { error: error@ },
        }
    }
}

/// A step of an approval, in the order given.
pub enum ApprovalAction {
    /// Answer the team's command with `text`.
    Reply { text: String },
    /// Send `text` to the customer on Telegram; a failure is passed over.
    SendText { text: String },
    /// Send the customer the QR code of `link` on Telegram, and report what
    /// came of it.
    SendQrCode { link: String },
}

pub enum ApprovalActionView {
    Reply { text: Seq<char> },
    SendText { text: Seq<char> },
    SendQrCode { link: Seq<char> },
}

impl View for ApprovalAction {
    type V = ApprovalActionView;

    open spec fn view(&self) -> ApprovalActionView {
        match self {
            ApprovalAction::Reply { text } => ApprovalActionView::Reply { text: text@ },
            ApprovalAction::SendText { text } => ApprovalActionView::SendText { text: text@ },
            ApprovalAction::SendQrCode { link } => ApprovalActionView::SendQrCode { link: link@ },
        }
    }
}

/// The views of `actions`.
pub open spec fn action_views(actions: Seq<ApprovalAction>) -> Seq<ApprovalActionView> {
    actions.map_values(|a: ApprovalAction| a@)
}

/// The steps once the order for `night1` and `night2` was stored or refused:
/// a refusal is answered and ends the approval; a stored order is announced
/// to the customer, who is then sent the QR code of its verification page.
pub open spec fn insert_actions(
    outcome: InsertOutcomeView,
    night1: Seq<Seq<char>>,
    night2: Seq<Seq<char>>,
) -> Seq<ApprovalActionView> {
    match outcome {
        InsertOutcomeView::Failed { write_code, error } => seq![
            ApprovalActionView::Reply { text: insert_failure_text(write_code, error) },
        ],
        InsertOutcomeView::Stored { id } => seq![
            ApprovalActionView::SendText { text: booking_text(night1, night2) },
            ApprovalActionView::SendQrCode { link: verification_address(id) },
        ],
    }
}

/// The step once the QR code was sent or not: the team is told which.
pub open spec fn photo_actions(outcome: PhotoOutcomeView) -> Seq<ApprovalActionView> {
    match outcome {
        PhotoOutcomeView::Failed { error } => seq![
            ApprovalActionView::Reply { text: "Error sending QR code image to Telegram: "@ + error },
        ],
        PhotoOutcomeView::Sent => seq![
            ApprovalActionView::Reply { text: "Successfully sent QR code to them!"@ },
        ],
    }
}

/// Every step of an approval: those after storing the order, and, where the
/// order was stored, the one after sending the QR code.
pub open spec fn approval_course(
    insert: InsertOutcomeView,
    photo: PhotoOutcomeView,
    night1: Seq<Seq<char>>,
    night2: Seq<Seq<char>>,
) -> Seq<ApprovalActionView> {
    match insert {
        InsertOutcomeView::Failed { .. } => insert_actions(insert, night1, night2),
        InsertOutcomeView::Stored { .. } => insert_actions(insert, night1, night2) + photo_actions(
            photo,
        ),
    }
}

/// The steps once the order for `night1` and `night2` was stored or refused.
pub fn after_insert(outcome: &InsertOutcome, night1: &Vec<String>, night2: &Vec<String>) -> (r:
    Vec<ApprovalAction>)
    ensures
        action_views(r@) == insert_actions(outcome@, texts(night1@), texts(night2@)),
{
    let mut out: Vec<ApprovalAction> = Vec::new();
    match outcome {
        InsertOutcome::Failed { write_code, error } => {
            out.push(ApprovalAction::Reply { text: insert_failure_reply(*write_code, error.as_str()) });
        },
        InsertOutcome::Stored { id } => {
            out.push(ApprovalAction::SendText { text: booking_message(night1, night2) });
            out.push(ApprovalAction::SendQrCode { link: verification_link(id) });
        },
    }
    assert(action_views(out@) =~= insert_actions(outcome@, texts(night1@), texts(night2@)));
    out
}

/// The step once the QR code was sent or not.
pub fn after_photo(outcome: &PhotoOutcome) -> (r: Vec<ApprovalAction>)
    ensures
        action_views(r@) == photo_actions(outcome@),
{
    let mut out: Vec<ApprovalAction> = Vec::new();
    match outcome {
        PhotoOutcome::Failed { error } => {
            out.push(ApprovalAction::Reply { text: qr_failure_reply(error.as_str()) });
        },
        PhotoOutcome::Sent => {
            out.push(ApprovalAction::Reply { text: approval_done_reply() });
        },
    }
    assert(action_views(out@) =~= photo_actions(outcome@));
    out
}

/// The replies among `actions`.
pub open spec fn replies(actions: Seq<ApprovalActionView>) -> Seq<ApprovalActionView> {
    actions.filter(|a: ApprovalActionView| a is Reply)
}

/// The actions among `actions` that reach the customer on Telegram.
pub open spec fn telegram_actions(actions: Seq<ApprovalActionView>) -> Seq<ApprovalActionView> {
    actions.filter(|a: ApprovalActionView| !(a is Reply))
}

/// Every approval answers the team exactly once, as its last step; one whose
/// order was refused does nothing else, and one whose order was stored sends
/// the customer the booking's text and then its QR code.
pub proof fn lemma_approval_replies_once(
    insert: InsertOutcomeView,
    photo: PhotoOutcomeView,
    night1: Seq<Seq<char>>,
    night2: Seq<Seq<char>>,
)
    ensures
        ({
            let course = approval_course(insert, photo, night1, night2);
            &&& replies(course).len() == 1
            &&& course.last() is Reply
            &&& insert is Failed ==> telegram_actions(course).len() == 0
            &&& insert matches InsertOutcomeView::Stored { id } ==> telegram_actions(course) == seq![
                ApprovalActionView::SendText { text: booking_text(night1, night2) },
                ApprovalActionView::SendQrCode { link: verification_address(id) },
            ]
        }),
{
    let course = approval_course(insert, photo, night1, night2);
    reveal_with_fuel(Seq::filter, 4);
    match insert {
        InsertOutcomeView::Failed { .. } => {
            assert(course.drop_last() =~= Seq::<ApprovalActionView>::empty());
        },
        InsertOutcomeView::Stored { .. } => {
            assert(course.len() == 3);
            assert(course.drop_last().drop_last().drop_last() =~= Seq::<ApprovalActionView>::empty());
        },
    }
    assert(replies(course) =~= seq![course.last()]);
}

// ---------------------------------------------------------------------------
// QR codes
// ---------------------------------------------------------------------------

/// The error-correction level of a QR code.
#[derive(Clone, Copy, Debug, PartialEq, Eq, Structural)]
pub enum QrLevel {
    Low,
    Medium,
    Quartile,
    High,
}

/// A QR code could not be drawn (the text is too long for any QR code, or
/// the image size does not fit it).
#[derive(Debug)]
pub struct QrCodeFailure;

#[verifier::external_type_specification]
#[verifier::external_body]
pub struct ExQrCodeError(QRCodeError);

/// What `qrcode_generator::to_png_to_vec` makes of `text` at error
/// correction `level` and image size `size`: the PNG image, or `None` where
/// it reports an error.
pub uninterp spec fn qr_code_png(text: Seq<char>, level: QrLevel, size: usize) -> Option<Seq<u8>>;

/// Draws `text` as a QR code in a PNG image of `size` pixels a side
/// (`qrcode_generator::to_png_to_vec`).  The contract claims only that the
/// outcome is a function of the text, the level and the size, named
/// `qr_code_png`; how the code and the image are made is not restated.
#[verifier::external_body]
fn png_qr_code(text: &str, level: QrLevel, size: usize) -> (r: Result<Vec<u8>, QRCodeError>)
    ensures
        r is Ok <==> qr_code_png(text@, level, size) is Some,
        r matches Ok(png) ==> qr_code_png(text@, level, size) == Some(png@),
{
    let ecc = match level {
        QrLevel::Low => qrcode_generator::QrCodeEcc::Low,
        QrLevel::Medium => qrcode_generator::QrCodeEcc::Medium,
        QrLevel::Quartile => qrcode_generator::QrCodeEcc::Quartile,
        QrLevel::High => qrcode_generator::QrCodeEcc::High,
    };
    qrcode_generator::to_png_to_vec(text, ecc, size)
}

/// The side of the QR code images, in pixels.
pub open spec fn qr_code_size() -> usize {
    1024
}

/// The QR code sent to the customer: the verification address `link`, at
/// medium error correction, in a PNG image of 1024 pixels a side.
pub fn verification_qr_code(link: &str) -> (r: Result<Vec<u8>, QrCodeFailure>)
    ensures
        r is Ok <==> qr_code_png(link@, QrLevel::Medium, qr_code_size()) is Some,
        r matches Ok(png) ==> qr_code_png(link@, QrLevel::Medium, qr_code_size()) == Some(png@),
{
    match png_qr_code(link, QrLevel::Medium, 1024) {
        Ok(png) => Ok(png),
        Err(_) => Err(QrCodeFailure),
    }
}

} // verus!
