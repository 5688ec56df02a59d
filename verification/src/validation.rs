//! Which phone numbers and seat numbers the bot accepts.  Both are checked
//! against regular expressions, matched by the `regex` crate.

use vstd::prelude::*;
use crate::text::{chars_of, decimal, decimal_digits, digit_char, starts_with, starts_with_exec};

verus! {

broadcast use vstd::string::group_string_axioms;

/// What compiling `pattern` with `regex::Regex::new` and searching
/// `haystack` with `Regex::is_match` gives: `None` where the pattern does not
/// compile, else whether the expression matches somewhere in the haystack.
pub uninterp spec fn regex_search(pattern: Seq<char>, haystack: Seq<char>) -> Option<bool>;

// ---------------------------------------------------------------------------
// The seat patterns and the texts they match
// ---------------------------------------------------------------------------

/// The expression for plain seats: a row letter and a number from 1 to 24.
pub open spec fn plain_seat_pattern() -> Seq<char> {
    "^[A-Z]([1-9]|1[0-9]|2[0-4])$"@
}

/// The expression for VIP seats in rows A and B: 1 to 6 and 11 to 16.
pub open spec fn vip_ab_pattern() -> Seq<char> {
    "^VIP-[A-B]([1-6]|1[1-6])$"@
}

/// The expression for the other VIP seats, rows C and D: 1 to 16.
pub open spec fn vip_cd_pattern() -> Seq<char> {
    "^VIP-[C-D]([1-9]|1[0-6])$"@
}

/// The texts `plain_seat_pattern` matches, the whole text being anchored:
/// `A1` to `Z24`.
pub open spec fn plain_seat_text(s: Seq<char>) -> bool {
    &&& s.len() == 2 || s.len() == 3
    &&& 'A' <= s[0] <= 'Z'
    &&& if s.len() == 2 {
        '1' <= s[1] <= '9'
    } else {
        (s[1] == '1' && '0' <= s[2] <= '9') || (s[1] == '2' && '0' <= s[2] <= '4')
    }
}

/// The texts `vip_ab_pattern` matches: `VIP-A1` to `VIP-A6`, `VIP-A11` to
/// `VIP-A16`, and the same for row B.
pub open spec fn vip_ab_text(s: Seq<char>) -> bool {
    &&& s.len() == 6 || s.len() == 7
    &&& s.take(4) == "VIP-"@
    &&& s[4] == 'A' || s[4] == 'B'
    &&& if s.len() == 6 {
        '1' <= s[5] <= '6'
    } else {
        s[5] == '1' && '1' <= s[6] <= '6'
    }
}

/// The texts `vip_cd_pattern` matches: `VIP-C1` to `VIP-C16` and the same for
/// row D.
pub open spec fn vip_cd_text(s: Seq<char>) -> bool {
    &&& s.len() == 6 || s.len() == 7
    &&& s.take(4) == "VIP-"@
    &&& s[4] == 'C' || s[4] == 'D'
    &&& if s.len() == 6 {
        '1' <= s[5] <= '9'
    } else {
        s[5] == '1' && '0' <= s[6] <= '6'
    }
}

/// Compiles `pattern` (`regex::Regex::new`) and searches `haystack` with it
/// (`regex::Regex::is_match`).  In general the contract claims only that the
/// outcome is a function of the two texts, named `regex_search`.  For the
/// three seat patterns, which use only anchors, ASCII character classes,
/// literals and alternation, it states what the regex syntax documentation
/// gives: the pattern compiles, and matches exactly the texts of its
/// language (`^` and `$` anchor the whole text).
#[verifier::external_body]
fn regex_is_match(pattern: &str, haystack: &str) -> (r: Option<bool>)
    ensures
        r == regex_search(pattern@, haystack@),
        pattern@ == plain_seat_pattern() ==> r == Some(plain_seat_text(haystack@)),
        pattern@ == vip_ab_pattern() ==> r == Some(vip_ab_text(haystack@)),
        pattern@ == vip_cd_pattern() ==> r == Some(vip_cd_text(haystack@)),
{
    match regex::Regex::new(pattern) {
        Ok(re) => Some(re.is_match(haystack)),
        Err(_) => None,
    }
}

/// `text` matches the regular expression `pattern`.
pub open spec fn matches_pattern(pattern: Seq<char>, text: Seq<char>) -> bool {
    regex_search(pattern, text) == Some(true)
}

/// Whether `text` matches `pattern`; a pattern that does not compile matches
/// nothing.
fn matches(pattern: &str, text: &str) -> (r: bool)
    ensures
        r == matches_pattern(pattern@, text@),
        pattern@ == plain_seat_pattern() ==> r == plain_seat_text(text@),
        pattern@ == vip_ab_pattern() ==> r == vip_ab_text(text@),
        pattern@ == vip_cd_pattern() ==> r == vip_cd_text(text@),
{
    match regex_is_match(pattern, text) {
        Some(found) => found,
        None => false,
    }
}

/// The expression a phone number must match: seven digits, the first a 7 or
/// a 9.
pub open spec fn phone_pattern() -> Seq<char> {
    "^(7|9)\\d{6}$"@
}

/// `number` is a phone number the bot accepts.
pub open spec fn valid_phone_number(number: Seq<char>) -> bool {
    matches_pattern(phone_pattern(), number)
}

/// Whether `number` is a phone number the bot accepts.
pub fn is_valid_number(number: &str) -> (r: bool)
    ensures
        r == valid_phone_number(number@),
{
    matches("^(7|9)\\d{6}$", number)
}

/// `seat` is a seat number of the venue.  Which expression a seat number is
/// checked against is chosen by its first characters: VIP seats in rows A
/// and B, other VIP seats, and plain seats.
#[verifier::opaque]
pub open spec fn valid_seat_number(seat: Seq<char>) -> bool {
    if starts_with(seat, "VIP-"@) {
        let suffix = seat.skip(4);
        if starts_with(suffix, "A"@) || starts_with(suffix, "B"@) {
            vip_ab_text(seat)
        } else {
            vip_cd_text(seat)
        }
    } else {
        plain_seat_text(seat)
    }
}

/// Whether `seat_number` is a seat of the venue: `VIP-A1` to `VIP-A6`,
/// `VIP-A11` to `VIP-A16` and the same for row B; `VIP-C1` to `VIP-C16` and
/// the same for row D; and a row letter `A` to `Z` followed by 1 to 24.
pub fn is_valid_seat_number(seat_number: &str) -> (r: bool)
    ensures
        r == valid_seat_number(seat_number@),
{
    proof {
        reveal(valid_seat_number);
        reveal_strlit("VIP-");
        reveal_strlit("A");
        reveal_strlit("B");
    }
    let seat = chars_of(seat_number);
    let vip = chars_of("VIP-");
    if starts_with_exec(&seat, &vip) {
        let row_a_or_b = seat.len() > 4 && (seat[4] == 'A' || seat[4] == 'B');
        proof {
            let suffix = seat@.skip(4);
            assert("A"@ =~= seq!['A']);
            assert("B"@ =~= seq!['B']);
            if suffix.len() > 0 {
                assert(suffix.subrange(0, 1) =~= seq![suffix[0]]);
                if suffix[0] == 'A' {
                    assert("A"@.is_prefix_of(suffix));
                }
                if suffix[0] == 'B' {
                    assert("B"@.is_prefix_of(suffix));
                }
                if "A"@.is_prefix_of(suffix) {
                    assert(suffix.subrange(0, 1)[0] == "A"@[0]);
                }
                if "B"@.is_prefix_of(suffix) {
                    assert(suffix.subrange(0, 1)[0] == "B"@[0]);
                }
            }
            assert(starts_with(suffix, "A"@) == (suffix.len() > 0 && suffix[0] == 'A'));
            assert(starts_with(suffix, "B"@) == (suffix.len() > 0 && suffix[0] == 'B'));
        }
        if row_a_or_b {
            matches("^VIP-[A-B]([1-6]|1[1-6])$", seat_number)
        } else {
            matches("^VIP-[C-D]([1-9]|1[0-6])$", seat_number)
        }
    } else {
        matches("^[A-Z]([1-9]|1[0-9]|2[0-4])$", seat_number)
    }
}

/// A character that can appear in a seat number: an upper-case letter, a
/// digit or a dash.
pub open spec fn seat_char(c: char) -> bool {
    ('A' <= c <= 'Z') || ('0' <= c <= '9') || c == '-'
}

/// A seat number of the venue is non-empty and made of upper-case letters,
/// digits and dashes only.
pub proof fn lemma_seat_characters(seat: Seq<char>)
    requires
        valid_seat_number(seat),
    ensures
        seat.len() > 0,
        forall|i: int| 0 <= i < seat.len() ==> seat_char(#[trigger] seat[i]),
{
    reveal(valid_seat_number);
    reveal_strlit("VIP-");
    if starts_with(seat, "VIP-"@) && seat.len() >= 6 {
        assert forall|i: int| 0 <= i < 4 implies seat_char(#[trigger] seat[i]) by {
            assert(seat.take(4)[i] == "VIP-"@[i]);
        }
    }
}

// ---------------------------------------------------------------------------
// The seats of the venue, by row and number
// ---------------------------------------------------------------------------

proof fn lemma_digit_char(d: nat)
    requires
        d < 10,
    ensures
        digit_char(d) as u32 == 48 + d,
{
}

proof fn lemma_char_digit(c: char)
    requires
        '0' <= c <= '9',
    ensures
        digit_char((c as u32 - 48) as nat) == c,
{
}

proof fn lemma_decimal_digits_are_digits(n: nat)
    ensures
        decimal_digits(n).len() >= 1,
        n >= 10 ==> decimal_digits(n).len() >= 2,
        n >= 100 ==> decimal_digits(n).len() >= 3,
        forall|i: int| 0 <= i < decimal_digits(n).len() ==> '0' <= #[trigger] decimal_digits(n)[i] <= '9',
    decreases n,
{
    if n >= 10 {
        lemma_decimal_digits_are_digits(n / 10);
        lemma_digit_char(n % 10);
    } else {
        lemma_digit_char(n);
    }
}

/// The decimal form of a number: a dash and digits for a negative one, one
/// digit below ten, two below a hundred, and more above.
proof fn lemma_decimal_shape(n: int)
    ensures
        decimal(n).len() >= 1,
        n < 0 ==> decimal(n)[0] == '-' && decimal(n).len() >= 2,
        0 <= n < 10 ==> decimal(n) == seq![digit_char(n as nat)],
        10 <= n < 100 ==> decimal(n) == seq![digit_char((n / 10) as nat), digit_char((n % 10) as nat)],
        n >= 100 ==> decimal(n).len() >= 3,
        n >= 0 ==> forall|i: int| 0 <= i < decimal(n).len() ==> '0' <= #[trigger] decimal(n)[i] <= '9',
{
    if n < 0 {
        lemma_decimal_digits_are_digits((-n) as nat);
    } else {
        lemma_decimal_digits_are_digits(n as nat);
        if 10 <= n < 100 {
            assert(decimal_digits((n / 10) as nat) == seq![digit_char((n / 10) as nat)]);
            assert(decimal(n) =~= seq![digit_char((n / 10) as nat), digit_char((n % 10) as nat)]);
        }
    }
}

/// The plain seats are exactly a row letter `A` to `Z` followed by a number
/// from 1 to 24.
pub proof fn lemma_plain_seats(row: char, n: int)
    ensures
        valid_seat_number(seq![row] + decimal(n)) <==> ('A' <= row <= 'Z' && 1 <= n <= 24),
{
    reveal(valid_seat_number);
    reveal_strlit("VIP-");
    lemma_decimal_shape(n);
    let seat = seq![row] + decimal(n);
    assert(seat[1] == decimal(n)[0]);
    if starts_with(seat, "VIP-"@) {
        assert(seat.take(4)[1] == 'I');
    }
    assert(!starts_with(seat, "VIP-"@));
    if 0 <= n < 10 {
        lemma_digit_char(n as nat);
    } else if 10 <= n < 100 {
        lemma_digit_char((n / 10) as nat);
        lemma_digit_char((n % 10) as nat);
    }
}

/// The VIP seats are exactly `VIP-` and a row followed by a number: 1 to 6
/// or 11 to 16 in rows `A` and `B`, 1 to 16 in rows `C` and `D`.
pub proof fn lemma_vip_seats(row: char, n: int)
    ensures
        valid_seat_number("VIP-"@ + seq![row] + decimal(n)) <==> {
            ||| (row == 'A' || row == 'B') && (1 <= n <= 6 || 11 <= n <= 16)
            ||| (row == 'C' || row == 'D') && 1 <= n <= 16
        },
{
    reveal(valid_seat_number);
    reveal_strlit("VIP-");
    reveal_strlit("A");
    reveal_strlit("B");
    lemma_decimal_shape(n);
    let seat = "VIP-"@ + seq![row] + decimal(n);
    assert(seat.take(4) =~= "VIP-"@);
    assert(starts_with(seat, "VIP-"@));
    let suffix = seat.skip(4);
    assert(suffix[0] == row);
    assert(seat[4] == row);
    assert(seat[5] == decimal(n)[0]);
    assert(starts_with(suffix, "A"@) <==> row == 'A') by {
        if row == 'A' {
            assert(suffix.take(1) =~= "A"@);
        }
        if starts_with(suffix, "A"@) {
            assert(suffix.take(1)[0] == 'A');
        }
    }
    assert(starts_with(suffix, "B"@) <==> row == 'B') by {
        if row == 'B' {
            assert(suffix.take(1) =~= "B"@);
        }
        if starts_with(suffix, "B"@) {
            assert(suffix.take(1)[0] == 'B');
        }
    }
    if 0 <= n < 10 {
        lemma_digit_char(n as nat);
    } else if 10 <= n < 100 {
        lemma_digit_char((n / 10) as nat);
        lemma_digit_char((n % 10) as nat);
        assert(seat[6] == decimal(n)[1]);
    }
}

/// The number written by the one or two digits of `digits`.
spec fn digits_value(digits: Seq<char>) -> int {
    if digits.len() == 1 {
        digits[0] as u32 - 48
    } else {
        10 * (digits[0] as u32 - 48) + (digits[1] as u32 - 48)
    }
}

proof fn lemma_digits_value(digits: Seq<char>)
    requires
        digits.len() == 1 || digits.len() == 2,
        '1' <= digits[0] <= '9',
        digits.len() == 2 ==> '0' <= digits[1] <= '9',
    ensures
        decimal(digits_value(digits)) == digits,
{
    let n = digits_value(digits);
    lemma_decimal_shape(n);
    lemma_char_digit(digits[0]);
    if digits.len() == 1 {
        assert(decimal(n) =~= digits);
    } else {
        lemma_char_digit(digits[1]);
        let a: int = digits[0] as u32 - 48;
        let b: int = digits[1] as u32 - 48;
        assert(n / 10 == a && n % 10 == b) by (nonlinear_arith)
            requires
                n == 10 * a + b,
                0 <= b < 10,
                1 <= a < 10,
        ;
        assert(decimal(n) =~= digits);
    }
}

/// Every seat of the venue is a row letter followed by a number, after
/// `VIP-` for the VIP seats.
pub proof fn lemma_seat_shapes(seat: Seq<char>)
    requires
        valid_seat_number(seat),
    ensures
        exists|row: char, n: int| #![trigger seq![row], decimal(n)]
            seat == seq![row] + decimal(n) || seat == "VIP-"@ + seq![row] + decimal(n),
{
    reveal(valid_seat_number);
    reveal_strlit("VIP-");
    if starts_with(seat, "VIP-"@) {
        let digits = seat.skip(5);
        assert(seat.take(4) == "VIP-"@);
        lemma_digits_value(digits);
        let (row, n) = (seat[4], digits_value(digits));
        assert(seat =~= "VIP-"@ + seq![row] + decimal(n));
        assert(seat == seq![row] + decimal(n) || seat == "VIP-"@ + seq![row] + decimal(n));
    } else {
        let digits = seat.skip(1);
        lemma_digits_value(digits);
        let (row, n) = (seat[0], digits_value(digits));
        assert(seat =~= seq![row] + decimal(n));
        assert(seat == seq![row] + decimal(n) || seat == "VIP-"@ + seq![row] + decimal(n));
    }
}

} // verus!
