//! The page served when a booking's QR code is scanned: the order is looked
//! up by its id, and the page shows the customer and the seats of each night.

use vstd::prelude::*;
use crate::model::{Seat, UserTicketOrder, seat_numbers};
use crate::discord::{night_seats, order_seats};
use crate::order_id::{OrderId, hex_decode, hex_encode, is_order_id_text, lemma_hex_round_trip};
use crate::validation::{lemma_seat_characters, seat_char, valid_seat_number};
use crate::text::{
    append_chars, char_texts, chars_of, contains_text, join, join_exec, lemma_replace_absent,
    lemma_replace_injective, lemma_replace_leading, occurs_at, replace_all, replace_all_exec, starts_with, starts_with_exec,
    string_of_all,
};

verus! {

broadcast use vstd::seq_lib::group_seq_properties;

// ---------------------------------------------------------------------------
// Page templates
// ---------------------------------------------------------------------------

/// The page for a valid booking, with `$name$`, `$phone_number$`,
/// `$seats_night1$` and `$seats_night2$` to fill in.
pub open spec fn success_template() -> Seq<char> {
    "<!DOCTYPE html>\n<html lang=\"en\">\n<head>\n<meta charset=\"utf-8\">\n<meta name=\"viewport\" content=\"width=device-width, initial-scale=1\">\n<title>Booking verified</title>\n</head>\n<body>\n<h1>Valid booking</h1>\n<p><strong>Name:</strong> $name$</p>\n<p><strong>Phone number:</strong> $phone_number$</p>\n<h2>Night 1 seats</h2>\n<p>$seats_night1$</p>\n<h2>Night 2 seats</h2>\n<p>$seats_night2$</p>\n</body>\n</html>\n"@
}

/// The page for an id that belongs to no approved order.
pub open spec fn invalid_template() -> Seq<char> {
    "<!DOCTYPE html>\n<html lang=\"en\">\n<head>\n<meta charset=\"utf-8\">\n<meta name=\"viewport\" content=\"width=device-width, initial-scale=1\">\n<title>Invalid booking</title>\n</head>\n<body>\n<h1>Invalid booking</h1>\n<p>This code does not belong to an approved booking.</p>\n</body>\n</html>\n"@
}

/// The page for a failed lookup, with `$error_message$` to fill in.
pub open spec fn error_template() -> Seq<char> {
    "<!DOCTYPE html>\n<html lang=\"en\">\n<head>\n<meta charset=\"utf-8\">\n<meta name=\"viewport\" content=\"width=device-width, initial-scale=1\">\n<title>Error</title>\n</head>\n<body>\n<h1>Something went wrong</h1>\n<p>$error_message$</p>\n</body>\n</html>\n"@
}

// ---------------------------------------------------------------------------
// Specifications
// ---------------------------------------------------------------------------

/// The seat as shown on the page: its number with every `prefix` taken out.
pub open spec fn seat_label(seat: Seq<char>, prefix: Seq<char>) -> Seq<char> {
    replace_all(seat, prefix, Seq::<char>::empty())
}

/// The labels of `seats`, one per line.
pub open spec fn seat_lines(seats: Seq<Seq<char>>, prefix: Seq<char>) -> Seq<char> {
    join(seats.map_values(|s: Seq<char>| seat_label(s, prefix)), "<br />"@)
}

/// The page for a valid booking.
pub open spec fn success_page(
    name: Seq<char>,
    phone_number: Seq<char>,
    night1: Seq<Seq<char>>,
    night2: Seq<Seq<char>>,
) -> Seq<char> {
    let page = replace_all(success_template(), "$name$"@, name);
    let page = replace_all(page, "$phone_number$"@, phone_number);
    let page = replace_all(page, "$seats_night1$"@, seat_lines(night1, "night1-"@));
    replace_all(page, "$seats_night2$"@, seat_lines(night2, "night2-"@))
}

/// The page for a failed lookup, reporting `error`.
pub open spec fn error_page(error: Seq<char>) -> Seq<char> {
    replace_all(error_template(), "$error_message$"@, error)
}

/// The seats of `seats` whose numbers begin with `night`, in order.
pub open spec fn seats_of_night(seats: Seq<Seq<char>>, night: Seq<char>) -> Seq<Seq<char>> {
    seats.filter(|s: Seq<char>| starts_with(s, night))
}

// ---------------------------------------------------------------------------
// Pages
// ---------------------------------------------------------------------------

/// The labels of `seats` with `prefix` taken out, joined by line breaks.
fn seat_lines_exec(seats: &[Seat], prefix: &str) -> (r: Vec<char>)
    requires
        prefix@.len() > 0,
    ensures
        r@ == seat_lines(seat_numbers(seats@), prefix@),
{
    let pat = chars_of(prefix);
    let nothing: Vec<char> = Vec::new();
    let mut labels: Vec<Vec<char>> = Vec::new();
    let ghost want = seat_numbers(seats@).map_values(|s: Seq<char>| seat_label(s, prefix@));
    let mut i: usize = 0;
    while i < seats.len()
        invariant
            i <= seats@.len(),
            pat@ == prefix@,
            pat@.len() > 0,
            nothing@ == Seq::<char>::empty(),
            want == seat_numbers(seats@).map_values(|s: Seq<char>| seat_label(s, prefix@)),
            char_texts(labels@) == want.take(i as int),
        decreases seats.len() - i,
    {
        let number = chars_of(seats[i].seat_number.as_str());
        let label = replace_all_exec(&number, &pat, &nothing);
        let ghost old_labels = labels@;
        labels.push(label);
        proof {
            assert(seat_numbers(seats@)[i as int] == seats@[i as int].seat_number@);
            assert(want[i as int] == label@);
            assert(char_texts(labels@) == char_texts(old_labels).push(label@));
            assert(want.take(i + 1) == want.take(i as int).push(want[i as int]));
        }
        i = i + 1;
    }
    assert(want.take(seats@.len() as int) == want);
    let sep = chars_of("<br />");
    join_exec(&labels, &sep)
}

/// Fills `placeholder` in `page` with `value`.
fn fill(page: &Vec<char>, placeholder: &str, value: &Vec<char>) -> (r: Vec<char>)
    requires
        placeholder@.len() > 0,
    ensures
        r@ == replace_all(page@, placeholder@, value@),
{
    let pat = chars_of(placeholder);
    replace_all_exec(page, &pat, value)
}

/// The page for a valid booking: the customer's name and phone number, and
/// the seats of each night without their `night1-` / `night2-` prefix, one
/// per line.
pub fn success_html(
    name: &str,
    phone_number: &str,
    seats_night1: &[Seat],
    seats_night2: &[Seat],
) -> (r: String)
    ensures
        r@ == success_page(
            name@,
            phone_number@,
            seat_numbers(seats_night1@),
            seat_numbers(seats_night2@),
        ),
{
    proof {
        reveal_strlit("$name$");
        reveal_strlit("$phone_number$");
        reveal_strlit("$seats_night1$");
        reveal_strlit("$seats_night2$");
        reveal_strlit("night1-");
        reveal_strlit("night2-");
    }
    let page = chars_of(
        "<!DOCTYPE html>\n<html lang=\"en\">\n<head>\n<meta charset=\"utf-8\">\n<meta name=\"viewport\" content=\"width=device-width, initial-scale=1\">\n<title>Booking verified</title>\n</head>\n<body>\n<h1>Valid booking</h1>\n<p><strong>Name:</strong> $name$</p>\n<p><strong>Phone number:</strong> $phone_number$</p>\n<h2>Night 1 seats</h2>\n<p>$seats_night1$</p>\n<h2>Night 2 seats</h2>\n<p>$seats_night2$</p>\n</body>\n</html>\n",
    );
    let page = fill(&page, "$name$", &chars_of(name));
    let page = fill(&page, "$phone_number$", &chars_of(phone_number));
    let page = fill(&page, "$seats_night1$", &seat_lines_exec(seats_night1, "night1-"));
    let page = fill(&page, "$seats_night2$", &seat_lines_exec(seats_night2, "night2-"));
    string_of_all(&page)
}

/// The page for an id that belongs to no approved order.
pub fn invalid_html() -> (r: String)
    ensures
        r@ == invalid_template(),
{
    let mut out = String::new();
    let page = chars_of(
        "<!DOCTYPE html>\n<html lang=\"en\">\n<head>\n<meta charset=\"utf-8\">\n<meta name=\"viewport\" content=\"width=device-width, initial-scale=1\">\n<title>Invalid booking</title>\n</head>\n<body>\n<h1>Invalid booking</h1>\n<p>This code does not belong to an approved booking.</p>\n</body>\n</html>\n",
    );
    append_chars(&mut out, &page);
    out
}

/// The page for a failed lookup, reporting `error`.
pub fn error_message(error: &str) -> (r: String)
    ensures
        r@ == error_page(error@),
{
    proof {
        reveal_strlit("$error_message$");
    }
    let page = chars_of(
        "<!DOCTYPE html>\n<html lang=\"en\">\n<head>\n<meta charset=\"utf-8\">\n<meta name=\"viewport\" content=\"width=device-width, initial-scale=1\">\n<title>Error</title>\n</head>\n<body>\n<h1>Something went wrong</h1>\n<p>$error_message$</p>\n</body>\n</html>\n",
    );
    let page = fill(&page, "$error_message$", &chars_of(error));
    string_of_all(&page)
}

/// Different errors give different error pages.
pub proof fn lemma_error_pages_differ(a: Seq<char>, b: Seq<char>)
    requires
        a != b,
    ensures
        error_page(a) != error_page(b),
{
    reveal_strlit("$error_message$");
    reveal_strlit(
        "<!DOCTYPE html>\n<html lang=\"en\">\n<head>\n<meta charset=\"utf-8\">\n<meta name=\"viewport\" content=\"width=device-width, initial-scale=1\">\n<title>Error</title>\n</head>\n<body>\n<h1>Something went wrong</h1>\n<p>$error_message$</p>\n</body>\n</html>\n",
    );
    let pat = "$error_message$"@;
    assert(error_template().subrange(201, 216) =~= pat);
    assert(occurs_at(error_template(), pat, 201));
    if error_page(a) == error_page(b) {
        lemma_replace_injective(error_template(), pat, a, b);
    }
}

// ---------------------------------------------------------------------------
// Answering a scan
// ---------------------------------------------------------------------------

proof fn lemma_seats_of_night_step(seats: Seq<Seq<char>>, night: Seq<char>, i: int)
    requires
        0 <= i < seats.len(),
    ensures
        seats_of_night(seats.take(i + 1), night) == if starts_with(seats[i], night) {
            seats_of_night(seats.take(i), night).push(seats[i])
        } else {
            seats_of_night(seats.take(i), night)
        },
{
    reveal_with_fuel(Seq::filter, 1);
    assert(seats.take(i + 1).drop_last() == seats.take(i));
}

/// The seats of `seats` whose numbers begin with `night`, in order.
pub fn seats_for_night(seats: &Vec<Seat>, night: &str) -> (r: Vec<Seat>)
    ensures
        seat_numbers(r@) == seats_of_night(seat_numbers(seats@), night@),
{
    let prefix = chars_of(night);
    let mut out: Vec<Seat> = Vec::new();
    let ghost all = seat_numbers(seats@);
    let mut i: usize = 0;
    proof {
        reveal_with_fuel(Seq::filter, 1);
        assert(all.take(0).len() == 0);
    }
    assert(seat_numbers(out@) == seats_of_night(all.take(0), night@));
    while i < seats.len()
        invariant
            i <= seats.len(),
            all == seat_numbers(seats@),
            prefix@ == night@,
            seat_numbers(out@) == seats_of_night(all.take(i as int), night@),
        decreases seats.len() - i,
    {
        proof {
            lemma_seats_of_night_step(all, night@, i as int);
        }
        let number = chars_of(seats[i].seat_number.as_str());
        if starts_with_exec(&number, &prefix) {
            let ghost before = out@;
            out.push(seats[i].duplicate());
            assert(seat_numbers(out@) == seat_numbers(before).push(all[i as int]));
        }
        i = i + 1;
    }
    assert(all.take(seats@.len() as int) == all);
    out
}

/// What a lookup of the scanned order id found.
pub enum OrderLookup {
    /// The id is no order id.
    InvalidId,
    /// The database failed, reporting `error`.
    DatabaseError { error: String },
    /// No approved order has the id.
    NotFound,
    /// The approved order with the id.
    Found { order: UserTicketOrder },
}

/// An HTML page and its HTTP status.
pub struct PageReply {
    pub status: u16,
    pub body: String,
}

/// The page that shows the approved order `order`.
pub open spec fn order_page(order: UserTicketOrder) -> Seq<char> {
    success_page(
        order.user_info.name@,
        order.user_info.phone_number@,
        seats_of_night(seat_numbers(order.seats@), "night1"@),
        seats_of_night(seat_numbers(order.seats@), "night2"@),
    )
}

/// The answer to a scan: a 400 error page for an id that is no order id, a
/// 500 error page when the database fails, the invalid-booking page when no
/// approved order has the id, and the booking's page otherwise.
pub fn verification_page(lookup: &OrderLookup) -> (r: PageReply)
    ensures
        match lookup {
            OrderLookup::InvalidId => r.status == 400 && r.body@ == error_page(
                "Invalid order ID!"@,
            ),
            OrderLookup::DatabaseError { error } => r.status == 500 && r.body@ == error_page(
                "DB ERROR: "@ + error@,
            ),
            OrderLookup::NotFound => r.status == 200 && r.body@ == invalid_template(),
            OrderLookup::Found { order } => r.status == 200 && r.body@ == order_page(*order),
        },
{
    match lookup {
        OrderLookup::InvalidId => PageReply { status: 400, body: error_message("Invalid order ID!") },
        OrderLookup::DatabaseError { error } => {
            let mut text = String::new();
            crate::text::append_str(&mut text, "DB ERROR: ");
            crate::text::append_str(&mut text, error.as_str());
            PageReply { status: 500, body: error_message(text.as_str()) }
        },
        OrderLookup::NotFound => PageReply { status: 200, body: invalid_html() },
        OrderLookup::Found { order } => {
            let night1 = seats_for_night(&order.seats, "night1");
            let night2 = seats_for_night(&order.seats, "night2");
            PageReply {
                status: 200,
                body: success_html(
                    order.user_info.name.as_str(),
                    order.user_info.phone_number.as_str(),
                    night1.as_slice(),
                    night2.as_slice(),
                ),
            }
        },
    }
}

// ---------------------------------------------------------------------------
// What the page shows of an approved order
// ---------------------------------------------------------------------------

proof fn lemma_filter_all(seats: Seq<Seq<char>>, night: Seq<char>)
    requires
        forall|i: int| 0 <= i < seats.len() ==> starts_with(#[trigger] seats[i], night),
    ensures
        seats_of_night(seats, night) == seats,
    decreases seats.len(),
{
    reveal_with_fuel(Seq::filter, 1);
    if seats.len() > 0 {
        lemma_filter_all(seats.drop_last(), night);
        assert(seats.drop_last().push(seats.last()) == seats);
    }
}

proof fn lemma_filter_none(seats: Seq<Seq<char>>, night: Seq<char>)
    requires
        forall|i: int| 0 <= i < seats.len() ==> !starts_with(#[trigger] seats[i], night),
    ensures
        seats_of_night(seats, night) == Seq::<Seq<char>>::empty(),
    decreases seats.len(),
{
    reveal_with_fuel(Seq::filter, 1);
    if seats.len() > 0 {
        lemma_filter_none(seats.drop_last(), night);
    }
}

proof fn lemma_filter_concat(a: Seq<Seq<char>>, b: Seq<Seq<char>>, night: Seq<char>)
    ensures
        seats_of_night(a + b, night) == seats_of_night(a, night) + seats_of_night(b, night),
{
    Seq::filter_distributes_over_add(a, b, |s: Seq<char>| starts_with(s, night));
}

proof fn lemma_labels_of_night(seats: Seq<Seq<char>>, night: Seq<char>)
    requires
        night + "-"@ == night_prefix(night),
        night_prefix(night).len() > 0,
        forall|i: int| 0 <= i < seats.len() ==> !contains_text(#[trigger] seats[i], night_prefix(night)),
    ensures
        night_seats(seats, night).map_values(|s: Seq<char>| seat_label(s, night_prefix(night)))
            == seats,
{
    let labels = night_seats(seats, night).map_values(
        |s: Seq<char>| seat_label(s, night_prefix(night)),
    );
    assert forall|i: int| 0 <= i < seats.len() implies labels[i] == seats[i] by {
        let p = night_prefix(night);
        assert(night_seats(seats, night)[i] == p + seats[i]);
        lemma_replace_leading(p, seats[i], Seq::<char>::empty());
        lemma_replace_absent(seats[i], p, Seq::<char>::empty());
    }
    assert(labels =~= seats);
}

/// A valid seat number holds no night prefix: those begin with a lower-case
/// letter, which no seat number has.
proof fn lemma_valid_seat_lacks_prefix(seat: Seq<char>, prefix: Seq<char>)
    requires
        valid_seat_number(seat),
        prefix.len() > 0,
        prefix[0] == 'n',
    ensures
        !contains_text(seat, prefix),
{
    lemma_seat_characters(seat);
    if contains_text(seat, prefix) {
        let i = choose|i: int| occurs_at(seat, prefix, i);
        assert(seat.subrange(i, i + prefix.len())[0] == seat[i]);
        assert(seat_char(seat[i]));
    }
}

/// The prefix that marks the seats of `night`.
pub open spec fn night_prefix(night: Seq<char>) -> Seq<char> {
    night + "-"@
}

/// The page of an order approved with valid seat numbers lists exactly the
/// seats it was approved with, under their nights and in their order.
pub proof fn lemma_page_lists_approved_seats(night1: Seq<Seq<char>>, night2: Seq<Seq<char>>)
    requires
        forall|i: int| 0 <= i < night1.len() ==> valid_seat_number(#[trigger] night1[i]),
        forall|i: int| 0 <= i < night2.len() ==> valid_seat_number(#[trigger] night2[i]),
    ensures
        seats_of_night(order_seats(night1, night2), "night1"@) == night_seats(night1, "night1"@),
        seats_of_night(order_seats(night1, night2), "night2"@) == night_seats(night2, "night2"@),
        seat_lines(night_seats(night1, "night1"@), "night1-"@) == join(night1, "<br />"@),
        seat_lines(night_seats(night2, "night2"@), "night2-"@) == join(night2, "<br />"@),
{
    reveal_strlit("night1");
    reveal_strlit("night2");
    reveal_strlit("-");
    reveal_strlit("night1-");
    reveal_strlit("night2-");
    assert forall|i: int| 0 <= i < night1.len() implies !contains_text(
        #[trigger] night1[i],
        "night1-"@,
    ) by {
        lemma_valid_seat_lacks_prefix(night1[i], "night1-"@);
    }
    assert forall|i: int| 0 <= i < night2.len() implies !contains_text(
        #[trigger] night2[i],
        "night2-"@,
    ) by {
        lemma_valid_seat_lacks_prefix(night2[i], "night2-"@);
    }
    let a = night_seats(night1, "night1"@);
    let b = night_seats(night2, "night2"@);
    assert("night1"@ + "-"@ =~= "night1-"@);
    assert("night2"@ + "-"@ =~= "night2-"@);
    assert forall|i: int| 0 <= i < a.len() implies starts_with(#[trigger] a[i], "night1"@) by {
        assert(a[i].subrange(0, 6) =~= "night1"@);
    }
    assert forall|i: int| 0 <= i < b.len() implies !starts_with(#[trigger] b[i], "night1"@) by {
        assert(b[i][5] == '2');
        if starts_with(b[i], "night1"@) {
            assert(b[i].subrange(0, 6)[5] == '1');
        }
    }
    assert forall|i: int| 0 <= i < b.len() implies starts_with(#[trigger] b[i], "night2"@) by {
        assert(b[i].subrange(0, 6) =~= "night2"@);
    }
    assert forall|i: int| 0 <= i < a.len() implies !starts_with(#[trigger] a[i], "night2"@) by {
        assert(a[i][5] == '1');
        if starts_with(a[i], "night2"@) {
            assert(a[i].subrange(0, 6)[5] == '2');
        }
    }
    lemma_filter_concat(a, b, "night1"@);
    lemma_filter_concat(a, b, "night2"@);
    lemma_filter_all(a, "night1"@);
    lemma_filter_none(b, "night1"@);
    lemma_filter_all(b, "night2"@);
    lemma_filter_none(a, "night2"@);
    assert(a + Seq::<Seq<char>>::empty() == a);
    assert(Seq::<Seq<char>>::empty() + b == b);
    lemma_labels_of_night(night1, "night1"@);
    lemma_labels_of_night(night2, "night2"@);
}

/// Scanning the code of an order stored under `id` and approved with the
/// valid seat lists `night1` and `night2`: the hexadecimal form of the id in
/// the code reads back as that id, and the page shows the customer's name and
/// phone number and exactly those seats, one per line under each night.
#[verifier::spinoff_prover]
#[verifier::rlimit(30)]
pub proof fn lemma_scan_shows_approved_order(
    id: OrderId,
    order: UserTicketOrder,
    night1: Seq<Seq<char>>,
    night2: Seq<Seq<char>>,
)
    requires
        order@.seats == order_seats(night1, night2),
        forall|i: int| 0 <= i < night1.len() ==> valid_seat_number(#[trigger] night1[i]),
        forall|i: int| 0 <= i < night2.len() ==> valid_seat_number(#[trigger] night2[i]),
    ensures
        is_order_id_text(hex_encode(id.bytes@)),
        hex_decode(hex_encode(id.bytes@)) == id.bytes@,
        ({
            let page = replace_all(success_template(), "$name$"@, order.user_info.name@);
            let page = replace_all(page, "$phone_number$"@, order.user_info.phone_number@);
            let page = replace_all(page, "$seats_night1$"@, join(night1, "<br />"@));
            order_page(order) == replace_all(page, "$seats_night2$"@, join(night2, "<br />"@))
        }),
{
    lemma_hex_round_trip(id.bytes@);
    lemma_page_lists_approved_seats(night1, night2);
}

} // verus!
