use ticket_bot::command::parse_command;

fn strings(v: &[&str]) -> Vec<String> {
    v.iter().map(|s| s.to_string()).collect()
}

fn accepted(msg: &str) -> (Vec<String>, Vec<String>) {
    match parse_command(msg) {
        Ok(Some(lists)) => lists,
        Ok(None) => panic!("`{}` was not read as a command", msg),
        Err(e) => panic!("`{}` was refused: {}", msg, e),
    }
}

fn refused(msg: &str) -> String {
    match parse_command(msg) {
        Err(e) => e,
        Ok(_) => panic!("`{}` was accepted", msg),
    }
}

#[test]
fn other_messages_are_no_command() {
    assert!(matches!(parse_command("hello there"), Ok(None)));
    assert!(matches!(parse_command(""), Ok(None)));
    assert!(matches!(parse_command(" .approve night1 A1"), Ok(None)));
    assert!(matches!(parse_command(".APPROVE night1 A1"), Ok(None)));
}

#[test]
fn both_nights_are_read() {
    let (n1, n2) = accepted(".approve night1 A3,A5,D6,VIP-A5 night2 A4,A5");
    assert_eq!(n1, strings(&["A3", "A5", "D6", "VIP-A5"]));
    assert_eq!(n2, strings(&["A4", "A5"]));
}

#[test]
fn one_night_is_enough() {
    let (n1, n2) = accepted(".approve night2 A6");
    assert!(n1.is_empty());
    assert_eq!(n2, strings(&["A6"]));
}

#[test]
fn lower_case_seats_are_refused() {
    assert_eq!(refused(".approve night1 a3,a5,d6,vip-a5 night2 a4,a5"), "Invalid seat `a3`");
}

#[test]
fn a_night_may_come_twice() {
    let (n1, n2) = accepted(".approve night1 A1 night2 B2 night1 C3");
    assert_eq!(n1, strings(&["A1", "C3"]));
    assert_eq!(n2, strings(&["B2"]));
}

#[test]
fn the_same_seat_on_two_nights_is_fine() {
    let (n1, n2) = accepted(".approve night1 A1 night2 A1");
    assert_eq!(n1, strings(&["A1"]));
    assert_eq!(n2, strings(&["A1"]));
}

#[test]
fn unknown_nights_are_refused() {
    assert_eq!(refused(".approve night3 A1"), "Invalid night `night3`");
    assert_eq!(refused(".approve A1"), "Invalid night `A1`");
}

#[test]
fn a_bare_keyword_is_refused() {
    assert_eq!(refused(".approve"), "Invalid night ``");
    assert_eq!(refused(".approve   "), "Invalid night ``");
}

#[test]
fn a_night_needs_its_seats() {
    assert_eq!(
        refused(".approve night1"),
        "Expected comma-separated list of seats after night `night1`"
    );
    assert_eq!(
        refused(".approve night1 A1 night2"),
        "Expected comma-separated list of seats after night `night2`"
    );
}

#[test]
fn repeated_seats_are_refused() {
    assert_eq!(refused(".approve night1 A1,A1"), "You already mentioned seat `A1`");
    assert_eq!(refused(".approve night1 A1 night1 B2,A1"), "You already mentioned seat `A1`");
}

#[test]
fn the_first_fault_is_reported() {
    assert_eq!(refused(".approve night1 A1,Q99,A1"), "Invalid seat `Q99`");
    assert_eq!(refused(".approve night1 A1,A1 night5 B1"), "You already mentioned seat `A1`");
}

#[test]
fn surrounding_whitespace_is_ignored() {
    let (n1, n2) = accepted(".approve   night1 A1\n");
    assert_eq!(n1, strings(&["A1"]));
    assert!(n2.is_empty());
}

#[test]
fn inner_spaces_and_commas_count() {
    assert_eq!(refused(".approve night1  A1"), "Invalid seat ``");
    assert_eq!(refused(".approve night1 A1,"), "Invalid seat ``");
    assert_eq!(refused(".approve night1 A1, B2"), "Invalid seat ``");
}

#[test]
fn the_keyword_needs_no_space_after_it() {
    let (n1, _) = accepted(".approvenight1 B7");
    assert_eq!(n1, strings(&["B7"]));
}

#[test]
fn night2_written_first_reads_back() {
    assert_eq!(
        accepted(".approve night2 B1,B2 night1 A1"),
        (strings(&["A1"]), strings(&["B1", "B2"]))
    );
}

#[test]
fn trailing_space_changes_nothing() {
    assert_eq!(parse_command(".approve night1 A1 "), parse_command(".approve night1 A1"));
    assert_eq!(parse_command(".approve night1 A1\n"), Ok(Some((strings(&["A1"]), vec![]))));
    assert_eq!(parse_command(".approve nightX A1 "), parse_command(".approve nightX A1"));
}

#[test]
fn extra_space_after_keyword_changes_nothing() {
    assert_eq!(parse_command(".approve  night1 A1"), parse_command(".approve night1 A1"));
    assert_eq!(parse_command(".approve  night1 A1"), Ok(Some((strings(&["A1"]), vec![]))));
}
