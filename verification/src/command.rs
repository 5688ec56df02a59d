//! The `.approve` command with which the organising team books seats from a
//! Discord thread:
//!
//! ```text
//! .approve night1 A3,A5,D6,VIP-A5 night2 A4,A5
//! .approve night2 A6
//! ```
//!
//! After the keyword come pairs of a night (`night1` or `night2`) and a
//! comma-separated list of seats, separated by single spaces.

use vstd::prelude::*;
use crate::text::{
    append_str, append_chars, chars_of, char_texts, is_white_space, join, same_chars,
    slice_chars, split, split_exec, starts_with, starts_with_exec, string_of_all, texts, trim,
    trim_end, trim_start, trim_exec,
};
use crate::validation::{is_valid_seat_number, lemma_seat_characters, seat_char, valid_seat_number};

verus! {

broadcast use vstd::seq_lib::group_seq_properties;

/// The seat lists of an accepted command: night 1, then night 2.
pub type SeatLists = (Seq<Seq<char>>, Seq<Seq<char>>);

/// What the command text asks for: `Ok(None)` when it is no `.approve`
/// command, `Ok(Some(lists))` for the seats to book, or the error to answer.
pub type CommandOutcome = Result<Option<SeatLists>, Seq<char>>;

/// The keyword that starts the command.
pub open spec fn keyword() -> Seq<char> {
    ".approve"@
}

/// `message` followed by `value` in backquotes.
pub open spec fn quoted(message: Seq<char>, value: Seq<char>) -> Seq<char> {
    message + value + "`"@
}

/// Adds the seats of `seats`, in order, to the list `listed`: the first seat
/// that is no seat of the venue, or that the list already holds, is refused.
pub open spec fn add_seats(seats: Seq<Seq<char>>, listed: Seq<Seq<char>>) -> Result<
    Seq<Seq<char>>,
    Seq<char>,
>
    decreases seats.len(),
{
    if seats.len() == 0 {
        Ok(listed)
    } else {
        let seat = seats[0];
        if !valid_seat_number(seat) {
            Err(quoted("Invalid seat `"@, seat))
        } else if listed.contains(seat) {
            Err(quoted("You already mentioned seat `"@, seat))
        } else {
            add_seats(seats.drop_first(), listed.push(seat))
        }
    }
}

/// Reads the night/seat-list pairs of `words` into the lists `night1` and
/// `night2`.
pub open spec fn read_nights(
    words: Seq<Seq<char>>,
    night1: Seq<Seq<char>>,
    night2: Seq<Seq<char>>,
) -> Result<SeatLists, Seq<char>>
    decreases words.len(),
{
    if words.len() == 0 {
        Ok((night1, night2))
    } else {
        let night = words[0];
        if night != "night1"@ && night != "night2"@ {
            Err(quoted("Invalid night `"@, night))
        } else if words.len() < 2 {
            Err(quoted("Expected comma-separated list of seats after night `"@, night))
        } else if night == "night1"@ {
            match add_seats(split(words[1], ','), night1) {
                Ok(listed) => read_nights(words.skip(2), listed, night2),
                Err(e) => Err(e),
            }
        } else {
            match add_seats(split(words[1], ','), night2) {
                Ok(listed) => read_nights(words.skip(2), night1, listed),
                Err(e) => Err(e),
            }
        }
    }
}

/// The words of the command body: what follows the keyword, trimmed of
/// whitespace and split at single spaces.
pub open spec fn command_words(message: Seq<char>) -> Seq<Seq<char>> {
    split(trim(message.skip(keyword().len() as int)), ' ')
}

/// The meaning of a Discord message as a command.
pub open spec fn command_outcome(message: Seq<char>) -> CommandOutcome {
    if !starts_with(message, keyword()) {
        Ok(None)
    } else {
        match read_nights(command_words(message), Seq::empty(), Seq::empty()) {
            Err(e) => Err(e),
            Ok(lists) => if lists.0.len() == 0 && lists.1.len() == 0 {
                Err("You must specify some seats"@)
            } else {
                Ok(Some(lists))
            },
        }
    }
}

/// The texts of what `parse_command` returns.
pub open spec fn outcome_of(r: Result<Option<(Vec<String>, Vec<String>)>, String>) -> CommandOutcome {
    match r {
        Ok(Some(lists)) => Ok(Some((texts(lists.0@), texts(lists.1@)))),
        Ok(None) => Ok(None),
        Err(e) => Err(e@),
    }
}

/// A list of seats of the venue in which no seat appears twice.
pub open spec fn proper_seat_list(seats: Seq<Seq<char>>) -> bool {
    &&& forall|i: int| 0 <= i < seats.len() ==> valid_seat_number(#[trigger] seats[i])
    &&& forall|i: int, j: int| 0 <= i < j < seats.len() ==> seats[i] != seats[j]
}

// ---------------------------------------------------------------------------
// Laws
// ---------------------------------------------------------------------------

proof fn lemma_add_seats_proper(seats: Seq<Seq<char>>, listed: Seq<Seq<char>>)
    requires
        proper_seat_list(listed),
    ensures
        add_seats(seats, listed) matches Ok(l) ==> proper_seat_list(l) && listed.is_prefix_of(l),
    decreases seats.len(),
{
    if seats.len() > 0 {
        let seat = seats[0];
        if valid_seat_number(seat) && !listed.contains(seat) {
            let next = listed.push(seat);
            assert forall|i: int, j: int| 0 <= i < j < next.len() implies next[i] != next[j] by {
                if j == listed.len() {
                    assert(listed[i] == next[i]);
                    if next[i] == next[j] {
                        assert(listed.contains(seat));
                    }
                }
            }
            lemma_add_seats_proper(seats.drop_first(), next);
        }
    }
}

proof fn lemma_read_nights_proper(
    words: Seq<Seq<char>>,
    night1: Seq<Seq<char>>,
    night2: Seq<Seq<char>>,
)
    requires
        proper_seat_list(night1),
        proper_seat_list(night2),
    ensures
        read_nights(words, night1, night2) matches Ok(lists) ==> proper_seat_list(lists.0)
            && proper_seat_list(lists.1),
    decreases words.len(),
{
    if words.len() >= 2 {
        let seats = split(words[1], ',');
        lemma_add_seats_proper(seats, night1);
        lemma_add_seats_proper(seats, night2);
        if let Ok(l) = add_seats(seats, night1) {
            lemma_read_nights_proper(words.skip(2), l, night2);
        }
        if let Ok(l) = add_seats(seats, night2) {
            lemma_read_nights_proper(words.skip(2), night1, l);
        }
    }
}

/// A command is only taken for one when the message starts with `.approve`;
/// and the seats of an accepted command are seats of the venue, none listed
/// twice for the same night, and there is at least one of them.
pub proof fn lemma_accepted_commands_are_proper(message: Seq<char>)
    ensures
        command_outcome(message) == Ok::<Option<SeatLists>, Seq<char>>(None) <==> !starts_with(
            message,
            keyword(),
        ),
        command_outcome(message) matches Ok(Some(lists)) ==> {
            &&& proper_seat_list(lists.0)
            &&& proper_seat_list(lists.1)
            &&& lists.0.len() + lists.1.len() > 0
        },
{
    lemma_read_nights_proper(command_words(message), Seq::empty(), Seq::empty());
}

// ---------------------------------------------------------------------------
// Parsing
// ---------------------------------------------------------------------------

/// `message` followed by `value` in backquotes.
fn quoted_exec(message: &str, value: &Vec<char>) -> (r: String)
    ensures
        r@ == quoted(message@, value@),
{
    let mut out = String::new();
    append_str(&mut out, message);
    append_chars(&mut out, value);
    append_str(&mut out, "`");
    out
}

/// Whether `list` holds `seat`.
fn holds(list: &Vec<String>, seat: &String) -> (r: bool)
    ensures
        r == texts(list@).contains(seat@),
{
    let mut i: usize = 0;
    while i < list.len()
        invariant
            i <= list.len(),
            forall|j: int| 0 <= j < i ==> texts(list@)[j] != seat@,
        decreases list.len() - i,
    {
        if list[i] == *seat {
            assert(texts(list@)[i as int] == seat@);
            return true;
        }
        i = i + 1;
    }
    false
}

/// Adds the seats of `seats` to `listed`, as `add_seats` says; on an error
/// the list is left as far as it got.
fn add_seats_exec(seats: &Vec<Vec<char>>, listed: &mut Vec<String>) -> (r: Result<(), String>)
    ensures
        match add_seats(char_texts(seats@), texts(old(listed)@)) {
            Ok(l) => r is Ok && texts(final(listed)@) == l,
            Err(e) => r matches Err(m) && m@ == e,
        },
{
    let ghost all = char_texts(seats@);
    let ghost start = texts(listed@);
    let mut j: usize = 0;
    assert(all.skip(0) == all);
    while j < seats.len()
        invariant
            j <= seats.len(),
            all == char_texts(seats@),
            start == texts(old(listed)@),
            add_seats(all, start) == add_seats(all.skip(j as int), texts(listed@)),
        decreases seats.len() - j,
    {
        assert(all.skip(j as int).drop_first() == all.skip(j + 1));
        assert(all.skip(j as int)[0] == seats@[j as int]@);
        let seat = string_of_all(&seats[j]);
        if !is_valid_seat_number(seat.as_str()) {
            return Err(quoted_exec("Invalid seat `", &seats[j]));
        }
        if holds(listed, &seat) {
            return Err(quoted_exec("You already mentioned seat `", &seats[j]));
        }
        let ghost before = texts(listed@);
        listed.push(seat);
        assert(texts(listed@) == before.push(all[j as int]));
        j = j + 1;
    }
    assert(all.skip(seats@.len() as int).len() == 0);
    Ok(())
}

/// Reads a Discord message as an `.approve` command: `Ok(None)` when it is
/// none, the seats to book for night 1 and night 2, or the error to answer.
pub fn parse_command(msg: &str) -> (r: Result<Option<(Vec<String>, Vec<String>)>, String>)
    ensures
        outcome_of(r) == command_outcome(msg@),
        r is Ok && r->Ok_0 is None <==> !starts_with(msg@, keyword()),
        r matches Ok(Some(lists)) ==> {
            &&& proper_seat_list(texts(lists.0@))
            &&& proper_seat_list(texts(lists.1@))
            &&& lists.0.len() + lists.1.len() > 0
        },
{
    proof {
        lemma_accepted_commands_are_proper(msg@);
        reveal_strlit(".approve");
    }
    let text = chars_of(msg);
    let key = chars_of(".approve");
    if !starts_with_exec(&text, &key) {
        return Ok(None);
    }
    let rest = slice_chars(&text, key.len(), text.len());
    let body = trim_exec(&rest);
    let words = split_exec(&body, ' ');
    let ghost all = char_texts(words@);
    assert(all == command_words(msg@)) by {
        assert(rest@ == msg@.skip(keyword().len() as int));
    }
    let night1_word = chars_of("night1");
    let night2_word = chars_of("night2");
    let mut night1: Vec<String> = Vec::new();
    let mut night2: Vec<String> = Vec::new();
    let mut t: usize = 0;
    assert(all.skip(0) == all);
    assert(texts(night1@) == Seq::<Seq<char>>::empty());
    assert(texts(night2@) == Seq::<Seq<char>>::empty());
    while t < words.len()
        invariant
            t <= words.len(),
            all == char_texts(words@),
            all == command_words(msg@),
            starts_with(msg@, keyword()),
            night1_word@ == "night1"@,
            night2_word@ == "night2"@,
            read_nights(all, Seq::empty(), Seq::empty()) == read_nights(
                all.skip(t as int),
                texts(night1@),
                texts(night2@),
            ),
        decreases words.len() - t,
    {
        let ghost ws = all.skip(t as int);
        assert(ws[0] == words@[t as int]@);
        let night = &words[t];
        let is_first = same_chars(night, &night1_word);
        let is_second = same_chars(night, &night2_word);
        if !is_first && !is_second {
            return Err(quoted_exec("Invalid night `", night));
        }
        if t + 1 >= words.len() {
            return Err(
                quoted_exec("Expected comma-separated list of seats after night `", night),
            );
        }
        assert(ws[1] == words@[t + 1]@);
        assert(ws.skip(2) == all.skip(t + 2));
        let seats = split_exec(&words[t + 1], ',');
        if is_first {
            match add_seats_exec(&seats, &mut night1) {
                Ok(()) => {},
                Err(e) => {
                    return Err(e);
                },
            }
        } else {
            match add_seats_exec(&seats, &mut night2) {
                Ok(()) => {},
                Err(e) => {
                    return Err(e);
                },
            }
        }
        t = t + 2;
    }
    assert(all.skip(words@.len() as int).len() == 0);
    if night1.len() == 0 && night2.len() == 0 {
        let mut e = String::new();
        append_str(&mut e, "You must specify some seats");
        return Err(e);
    }
    Ok(Some((night1, night2)))
}

// ---------------------------------------------------------------------------
// Writing a command and reading it back
// ---------------------------------------------------------------------------

/// The part of a command for one night: the night and its seats, or nothing
/// when there are no seats.
pub open spec fn night_clause(night: Seq<char>, seats: Seq<Seq<char>>) -> Seq<char> {
    if seats.len() == 0 {
        Seq::empty()
    } else {
        " "@ + night + " "@ + join(seats, ","@)
    }
}

/// The command that books the seats `night1` and `night2`, with the night-2
/// part written first when `night2_first`.
pub open spec fn approve_text(
    night1: Seq<Seq<char>>,
    night2: Seq<Seq<char>>,
    night2_first: bool,
) -> Seq<char> {
    if night2_first {
        keyword() + night_clause("night2"@, night2) + night_clause("night1"@, night1)
    } else {
        keyword() + night_clause("night1"@, night1) + night_clause("night2"@, night2)
    }
}

/// The words of a command made of the clause for `night_a` with `seats_a`
/// and then the clause for `night_b` with `seats_b`.
pub open spec fn clause_words(
    night_a: Seq<char>,
    seats_a: Seq<Seq<char>>,
    night_b: Seq<char>,
    seats_b: Seq<Seq<char>>,
) -> Seq<Seq<char>> {
    if seats_a.len() == 0 {
        seq![night_b, join(seats_b, ","@)]
    } else if seats_b.len() == 0 {
        seq![night_a, join(seats_a, ","@)]
    } else {
        seq![night_a, join(seats_a, ","@), night_b, join(seats_b, ","@)]
    }
}

/// `s` holds no `c`.
pub open spec fn free_of(s: Seq<char>, c: char) -> bool {
    forall|i: int| 0 <= i < s.len() ==> s[i] != c
}

/// `s` holds no whitespace.
pub open spec fn no_white_space(s: Seq<char>) -> bool {
    forall|i: int| 0 <= i < s.len() ==> !is_white_space(#[trigger] s[i])
}

/// A seat that can be written in a command: a non-empty text with no
/// whitespace and no comma.
pub open spec fn writable_seat(seat: Seq<char>) -> bool {
    seat.len() > 0 && no_white_space(seat) && free_of(seat, ',')
}

proof fn lemma_split_free(s: Seq<char>, sep: char)
    requires
        free_of(s, sep),
    ensures
        split(s, sep) == seq![s],
    decreases s.len(),
{
    if s.len() > 0 {
        lemma_split_free(s.drop_last(), sep);
        assert(s.drop_last().push(s.last()) == s);
    }
}

proof fn lemma_split_around(a: Seq<char>, sep: char, b: Seq<char>)
    ensures
        split(a + seq![sep] + b, sep) == split(a, sep) + split(b, sep),
    decreases b.len(),
{
    let whole = a + seq![sep] + b;
    if b.len() == 0 {
        assert(whole == a.push(sep));
        assert(whole.drop_last() == a);
    } else {
        let shorter = a + seq![sep] + b.drop_last();
        assert(whole.drop_last() == shorter);
        assert(whole.last() == b.last());
        lemma_split_around(a, sep, b.drop_last());
        let left = split(a, sep);
        let right = split(b.drop_last(), sep);
        if b.last() == sep {
            assert((left + right).push(Seq::<char>::empty()) == left + right.push(
                Seq::<char>::empty(),
            ));
        } else {
            assert(right.len() > 0) by {
                lemma_split_nonempty(b.drop_last(), sep);
            }
            assert((left + right).update(
                (left + right).len() - 1,
                (left + right).last().push(b.last()),
            ) == left + right.update(right.len() - 1, right.last().push(b.last())));
        }
    }
}

proof fn lemma_split_nonempty(s: Seq<char>, sep: char)
    ensures
        split(s, sep).len() >= 1,
    decreases s.len(),
{
    if s.len() > 0 {
        lemma_split_nonempty(s.drop_last(), sep);
    }
}

/// Splitting what was joined with a separator that no piece holds gives the
/// pieces back.
proof fn lemma_split_join(parts: Seq<Seq<char>>, sep: char)
    requires
        parts.len() > 0,
        forall|i: int| 0 <= i < parts.len() ==> free_of(#[trigger] parts[i], sep),
    ensures
        split(join(parts, seq![sep]), sep) == parts,
    decreases parts.len(),
{
    if parts.len() == 1 {
        lemma_split_free(parts[0], sep);
        assert(seq![parts[0]] == parts);
    } else {
        let init = parts.drop_last();
        lemma_split_join(init, sep);
        lemma_split_free(parts.last(), sep);
        lemma_split_around(join(init, seq![sep]), sep, parts.last());
        assert(init + seq![parts.last()] == parts);
    }
}

proof fn lemma_join_free(parts: Seq<Seq<char>>, sep: Seq<char>, c: char)
    requires
        free_of(sep, c),
        forall|i: int| 0 <= i < parts.len() ==> free_of(#[trigger] parts[i], c),
    ensures
        free_of(join(parts, sep), c),
    decreases parts.len(),
{
    if parts.len() > 1 {
        lemma_join_free(parts.drop_last(), sep, c);
        let j = join(parts.drop_last(), sep) + sep + parts.last();
        assert forall|i: int| 0 <= i < j.len() implies j[i] != c by {
            if i >= join(parts.drop_last(), sep).len() + sep.len() {
                assert(j[i] == parts.last()[i - join(parts.drop_last(), sep).len() - sep.len()]);
            } else if i >= join(parts.drop_last(), sep).len() {
                assert(j[i] == sep[i - join(parts.drop_last(), sep).len()]);
            }
        }
    }
}

proof fn lemma_join_last(parts: Seq<Seq<char>>, sep: Seq<char>)
    requires
        parts.len() > 0,
        parts.last().len() > 0,
    ensures
        join(parts, sep).len() > 0,
        join(parts, sep).last() == parts.last().last(),
{
}

/// Adding seats of the venue that are new to the list, none twice, adds
/// them all.
proof fn lemma_add_seats_all(seats: Seq<Seq<char>>, listed: Seq<Seq<char>>)
    requires
        forall|i: int| 0 <= i < seats.len() ==> valid_seat_number(#[trigger] seats[i]),
        forall|i: int, j: int|
            0 <= i < j < (listed + seats).len() ==> (listed + seats)[i] != (listed + seats)[j],
    ensures
        add_seats(seats, listed) == Ok::<Seq<Seq<char>>, Seq<char>>(listed + seats),
    decreases seats.len(),
{
    if seats.len() == 0 {
        assert(listed + seats == listed);
    } else {
        let seat = seats[0];
        assert(valid_seat_number(seat));
        if listed.contains(seat) {
            let k = choose|k: int| 0 <= k < listed.len() && listed[k] == seat;
            assert((listed + seats)[k] == (listed + seats)[listed.len() as int]);
        }
        assert(listed.push(seat) + seats.drop_first() == listed + seats);
        lemma_add_seats_all(seats.drop_first(), listed.push(seat));
    }
}

/// Seats of the venue can be written in a command: they are non-empty and
/// hold no whitespace and no comma.
proof fn lemma_valid_seats_writable(seats: Seq<Seq<char>>)
    requires
        proper_seat_list(seats),
    ensures
        forall|i: int| 0 <= i < seats.len() ==> writable_seat(#[trigger] seats[i]),
{
    assert forall|i: int| 0 <= i < seats.len() implies writable_seat(#[trigger] seats[i]) by {
        let seat = seats[i];
        assert(valid_seat_number(seat));
        lemma_seat_characters(seat);
        assert forall|k: int| 0 <= k < seat.len() implies !is_white_space(#[trigger] seat[k]) by {
            assert(seat_char(seat[k]));
        }
        assert forall|k: int| 0 <= k < seat.len() implies seat[k] != ',' by {
            assert(seat_char(seat[k]));
        }
    }
}

/// The words of the command body are the night names and their seat lists.
proof fn lemma_clause_words(
    night_a: Seq<char>,
    seats_a: Seq<Seq<char>>,
    night_b: Seq<char>,
    seats_b: Seq<Seq<char>>,
)
    requires
        night_a.len() > 0,
        night_b.len() > 0,
        free_of(night_a, ' '),
        free_of(night_b, ' '),
        !is_white_space(night_a[0]),
        !is_white_space(night_b[0]),
        seats_a.len() + seats_b.len() > 0,
        forall|i: int| 0 <= i < seats_a.len() ==> writable_seat(#[trigger] seats_a[i]),
        forall|i: int| 0 <= i < seats_b.len() ==> writable_seat(#[trigger] seats_b[i]),
    ensures
        command_words(keyword() + night_clause(night_a, seats_a) + night_clause(night_b, seats_b))
            == clause_words(night_a, seats_a, night_b, seats_b),
{
    reveal_strlit(" ");
    reveal_strlit(",");
    let space = " "@;
    let comma = ","@;
    assert(space =~= seq![' ']);
    assert(comma =~= seq![',']);
    let rest = night_clause(night_a, seats_a) + night_clause(night_b, seats_b);
    let msg = keyword() + night_clause(night_a, seats_a) + night_clause(night_b, seats_b);
    assert(msg.skip(keyword().len() as int) =~= rest);
    assert forall|i: int| 0 <= i < seats_a.len() implies free_of(#[trigger] seats_a[i], ' ') by {
        assert forall|k: int| 0 <= k < seats_a[i].len() implies seats_a[i][k] != ' ' by {
            assert(!is_white_space(seats_a[i][k]));
        }
    }
    assert forall|i: int| 0 <= i < seats_b.len() implies free_of(#[trigger] seats_b[i], ' ') by {
        assert forall|k: int| 0 <= k < seats_b[i].len() implies seats_b[i][k] != ' ' by {
            assert(!is_white_space(seats_b[i][k]));
        }
    }
    let ja = join(seats_a, comma);
    let jb = join(seats_b, comma);
    lemma_join_free(seats_a, comma, ' ');
    lemma_join_free(seats_b, comma, ' ');
    let words = clause_words(night_a, seats_a, night_b, seats_b);
    let body = join(words, space);
    assert(join(seq![night_a], space) == night_a);
    assert(join(seq![night_b], space) == night_b);
    if seats_a.len() > 0 && seats_b.len() > 0 {
        assert(words.drop_last() =~= seq![night_a, ja, night_b]);
        assert(seq![night_a, ja, night_b].drop_last() =~= seq![night_a, ja]);
        assert(seq![night_a, ja].drop_last() =~= seq![night_a]);
        assert(join(seq![night_a, ja], space) == night_a + space + ja);
        assert(join(seq![night_a, ja, night_b], space) == night_a + space + ja + space + night_b);
        assert(body == night_a + space + ja + space + night_b + space + jb);
    } else if seats_a.len() > 0 {
        assert(words.drop_last() =~= seq![night_a]);
        assert(body == night_a + space + ja);
    } else {
        assert(words.drop_last() =~= seq![night_b]);
        assert(body == night_b + space + jb);
    }
    assert(rest =~= space + body);
    // Trimming takes off the leading space only.
    assert(!is_white_space(body[0]));
    let last_seats = if seats_b.len() == 0 {
        seats_a
    } else {
        seats_b
    };
    assert(writable_seat(last_seats.last()));
    lemma_join_last(last_seats, comma);
    lemma_join_last(words, space);
    assert(body.last() == last_seats.last().last());
    assert(!is_white_space(last_seats.last()[last_seats.last().len() - 1]));
    assert(trim_start(rest) == trim_start(body)) by {
        assert((space + body).drop_first() =~= body);
    }
    assert(trim_start(body) == body);
    assert(trim_end(body) == body);
    assert(trim(rest) == body);
    assert(free_of(comma, ' '));
    assert(free_of(ja, ' '));
    assert(free_of(jb, ' '));
    assert forall|i: int| 0 <= i < words.len() implies free_of(#[trigger] words[i], ' ') by {}
    lemma_split_join(words, ' ');
    assert(command_words(msg) == split(trim(rest), ' '));
}

/// The seats of each night, written in a command, are read back from it,
/// whichever night is written first: for lists of seats of the venue, none
/// listed twice for a night, and at least one seat in all.
pub proof fn lemma_command_round_trip(
    night1: Seq<Seq<char>>,
    night2: Seq<Seq<char>>,
    night2_first: bool,
)
    requires
        proper_seat_list(night1),
        proper_seat_list(night2),
        night1.len() + night2.len() > 0,
    ensures
        command_outcome(approve_text(night1, night2, night2_first)) == Ok::<
            Option<SeatLists>,
            Seq<char>,
        >(Some((night1, night2))),
{
    reveal_strlit(".approve");
    reveal_strlit("night1");
    reveal_strlit("night2");
    reveal_strlit(",");
    let n1 = "night1"@;
    let n2 = "night2"@;
    let comma = ","@;
    assert(comma =~= seq![',']);
    lemma_valid_seats_writable(night1);
    lemma_valid_seats_writable(night2);
    assert(free_of(n1, ' '));
    assert(free_of(n2, ' '));
    let msg = approve_text(night1, night2, night2_first);
    let words = if night2_first {
        clause_words(n2, night2, n1, night1)
    } else {
        clause_words(n1, night1, n2, night2)
    };
    if night2_first {
        lemma_clause_words(n2, night2, n1, night1);
    } else {
        lemma_clause_words(n1, night1, n2, night2);
    }
    assert(command_words(msg) == words);
    assert(starts_with(msg, keyword())) by {
        assert(msg.subrange(0, keyword().len() as int) =~= keyword());
    }
    // Splitting each seat list at commas gives the seats back.
    if night1.len() > 0 {
        lemma_split_join(night1, ',');
    }
    if night2.len() > 0 {
        lemma_split_join(night2, ',');
    }
    let empty = Seq::<Seq<char>>::empty();
    assert(empty + night1 == night1);
    assert(empty + night2 == night2);
    lemma_add_seats_all(night1, empty);
    lemma_add_seats_all(night2, empty);
    assert(n1 != n2) by {
        assert(n1[5] != n2[5]);
    }
    let j1 = join(night1, comma);
    let j2 = join(night2, comma);
    assert(add_seats(split(j1, ','), empty) == Ok::<Seq<Seq<char>>, Seq<char>>(night1)
        || night1.len() == 0);
    assert(add_seats(split(j2, ','), empty) == Ok::<Seq<Seq<char>>, Seq<char>>(night2)
        || night2.len() == 0);
    if night1.len() > 0 && night2.len() > 0 {
        if night2_first {
            assert(words.skip(2) =~= seq![n1, j1]);
            assert(seq![n1, j1].skip(2) =~= empty);
            assert(read_nights(empty, night1, night2) == Ok::<SeatLists, Seq<char>>(
                (night1, night2),
            ));
            assert(read_nights(seq![n1, j1], empty, night2) == Ok::<SeatLists, Seq<char>>(
                (night1, night2),
            ));
        } else {
            assert(words.skip(2) =~= seq![n2, j2]);
            assert(seq![n2, j2].skip(2) =~= empty);
            assert(read_nights(empty, night1, night2) == Ok::<SeatLists, Seq<char>>(
                (night1, night2),
            ));
            assert(read_nights(seq![n2, j2], night1, empty) == Ok::<SeatLists, Seq<char>>(
                (night1, night2),
            ));
        }
    } else {
        assert(words.skip(2) =~= empty);
        if night1.len() == 0 {
            assert(night1 == empty);
        } else {
            assert(night2 == empty);
        }
    }
    assert(read_nights(words, empty, empty) == Ok::<SeatLists, Seq<char>>((night1, night2)));
}

// ---------------------------------------------------------------------------
// Whitespace around the command body
// ---------------------------------------------------------------------------

proof fn lemma_trim_start_push(s: Seq<char>, c: char)
    requires
        is_white_space(c),
    ensures
        trim_start(s.push(c)) == if trim_start(s).len() == 0 {
            Seq::<char>::empty()
        } else {
            trim_start(s).push(c)
        },
    decreases s.len(),
{
    if s.len() == 0 {
        assert(seq![c].drop_first() =~= Seq::<char>::empty());
        assert(trim_start(Seq::<char>::empty()) == Seq::<char>::empty());
    } else {
        assert(s.push(c).drop_first() =~= s.drop_first().push(c));
        if is_white_space(s[0]) {
            lemma_trim_start_push(s.drop_first(), c);
        }
    }
}

proof fn lemma_trim_push_white_space(s: Seq<char>, c: char)
    requires
        is_white_space(c),
    ensures
        trim(s.push(c)) == trim(s),
{
    lemma_trim_start_push(s, c);
    let t = trim_start(s);
    if t.len() > 0 {
        assert(t.push(c).drop_last() =~= t);
    } else {
        assert(trim_end(t) == t);
    }
}

/// Whitespace at the end of a message does not change what it asks for.
pub proof fn lemma_trailing_white_space(message: Seq<char>, c: char)
    requires
        is_white_space(c),
    ensures
        command_outcome(message.push(c)) == command_outcome(message),
{
    reveal_strlit(".approve");
    let k = keyword().len() as int;
    let longer = message.push(c);
    assert(starts_with(longer, keyword()) == starts_with(message, keyword())) by {
        if message.len() >= k {
            assert(longer.subrange(0, k) =~= message.subrange(0, k));
        } else if starts_with(longer, keyword()) {
            assert(longer[k - 1] == keyword()[k - 1]);
        }
    }
    if starts_with(message, keyword()) {
        assert(longer.skip(k) =~= message.skip(k).push(c));
        lemma_trim_push_white_space(message.skip(k), c);
    }
}

/// Whitespace added right after the keyword does not change what a command
/// asks for.
pub proof fn lemma_white_space_after_keyword(rest: Seq<char>, c: char)
    requires
        is_white_space(c),
    ensures
        command_outcome(keyword() + seq![c] + rest) == command_outcome(keyword() + rest),
{
    reveal_strlit(".approve");
    let k = keyword().len() as int;
    let wide = keyword() + seq![c] + rest;
    let narrow = keyword() + rest;
    assert(wide.subrange(0, k) =~= keyword());
    assert(narrow.subrange(0, k) =~= keyword());
    assert(wide.skip(k) =~= seq![c] + rest);
    assert(narrow.skip(k) =~= rest);
    assert((seq![c] + rest).drop_first() =~= rest);
    assert(trim_start(seq![c] + rest) == trim_start(rest));
}

} // verus!
