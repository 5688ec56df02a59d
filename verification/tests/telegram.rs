use ticket_bot::telegram::{
    display_name_exec, document_attachment_name, fresh_document_name, fresh_photo_name,
    handle_update, make_keyboard, photo_attachment_name, request_embed, Action, ChatProfile, Command, Keyboard,
    Reaction, State, Transition, Update,
};

fn chat(username: Option<&str>, first: Option<&str>, last: Option<&str>, id: i64) -> ChatProfile {
    ChatProfile {
        username: username.map(|s| s.to_string()),
        first_name: first.map(|s| s.to_string()),
        last_name: last.map(|s| s.to_string()),
        id,
    }
}

fn message(command: Option<Command>, text: Option<&str>) -> Update {
    Update::Message {
        command,
        text: text.map(|s| s.to_string()),
        chat: chat(Some("ali"), Some("Ali"), None, 42),
    }
}

fn press(data: Option<&str>) -> Update {
    Update::CallbackQuery { data: data.map(|s| s.to_string()) }
}

fn texts(r: &Reaction) -> Vec<String> {
    r.actions
        .iter()
        .map(|a| match a {
            Action::SendText { text } => text.clone(),
            Action::SendKeyboard { text, .. } => format!("[keyboard] {}", text),
            Action::SendPhoto { url, .. } => format!("[photo] {}", url),
            Action::OpenThread { title, .. } => format!("[thread] {}", title),
            Action::ForwardToDiscord { username, .. } => format!("[forward] {}", username),
        })
        .collect()
}

fn entered(r: &Reaction) -> State {
    match &r.transition {
        Transition::Enter(s) => s.clone(),
        _ => panic!("no state entered"),
    }
}

#[test]
fn start_offers_the_nights() {
    let r = handle_update(&State::Start, 42, &message(Some(Command::Start), Some("/start")));
    assert_eq!(
        texts(&r),
        vec![
            "Hello! Which night would you like to choose?".to_string(),
            "[keyboard] Night 1 - Dhiriulhumakee miee baa - March 7\n\nNight 2 - Folk Tales - March 8\n\nBoth".to_string(),
        ]
    );
    assert!(matches!(r.transition, Transition::Stay));
    assert!(matches!(r.actions[1], Action::SendKeyboard { keyboard: Keyboard::Nights, .. }));
}

#[test]
fn plain_text_at_the_start_is_ignored() {
    let r = handle_update(&State::Start, 42, &message(None, Some("hi")));
    assert!(r.actions.is_empty());
    assert!(matches!(r.transition, Transition::Stay));
}

#[test]
fn cancel_ends_the_dialogue_anywhere() {
    let states = vec![
        State::Start,
        State::RecievePhoneNumber { night: "Night 1".to_string() },
        State::RecieveMessages { thread_id: 7 },
    ];
    for s in states {
        let r = handle_update(&s, 42, &message(Some(Command::Cancel), Some("/cancel")));
        assert_eq!(texts(&r), vec!["Cancelling the dialogue.".to_string()]);
        assert!(matches!(r.transition, Transition::Exit));
    }
}

#[test]
fn start_command_later_is_taken_as_text() {
    let s = State::RecievePhoneNumber { night: "Both".to_string() };
    let r = handle_update(&s, 42, &message(Some(Command::Start), Some("/start")));
    assert_eq!(texts(&r), vec!["The phone number is not valid. Try again.".to_string()]);
}

#[test]
fn choosing_a_night() {
    let r = handle_update(&State::Start, 42, &press(Some("Night 2")));
    assert_eq!(
        texts(&r),
        vec!["You have chosen Night 2".to_string(), "Please enter your phone number.".to_string()]
    );
    assert_eq!(entered(&r), State::RecievePhoneNumber { night: "Night 2".to_string() });
    let r = handle_update(&State::Start, 42, &press(None));
    assert!(r.actions.is_empty());
}

#[test]
fn giving_a_phone_number() {
    let s = State::RecievePhoneNumber { night: "Night 1".to_string() };
    let r = handle_update(&s, 42, &message(None, None));
    assert_eq!(
        texts(&r),
        vec!["It seems like I failed to parse the phone number. Try again.".to_string()]
    );
    let r = handle_update(&s, 42, &message(None, Some("12345")));
    assert_eq!(texts(&r), vec!["The phone number is not valid. Try again.".to_string()]);
    assert!(matches!(r.transition, Transition::Stay));
    let r = handle_update(&s, 42, &message(None, Some("7123456")));
    assert_eq!(
        texts(&r),
        vec!["Please enter your name. This will be used to identify your booking.".to_string()]
    );
    assert_eq!(
        entered(&r),
        State::RecieveName { night: "Night 1".to_string(), phone_number: "7123456".to_string() }
    );
}

#[test]
fn giving_a_name() {
    let s = State::RecieveName { night: "Both".to_string(), phone_number: "9123456".to_string() };
    let r = handle_update(&s, 42, &message(None, None));
    assert_eq!(texts(&r), vec!["Seems like you did not enter your name".to_string()]);
    let r = handle_update(&s, 42, &message(None, Some("Ali Hassan")));
    assert_eq!(
        texts(&r),
        vec![
            "[photo] https://i.imgur.com/4M6NARS.jpeg".to_string(),
            "[keyboard] What zone would you like to choose?".to_string(),
        ]
    );
    match &r.actions[0] {
        Action::SendPhoto { file_name, .. } => assert_eq!(file_name, "seats.png"),
        _ => panic!("expected a photo"),
    }
    assert_eq!(
        entered(&r),
        State::RecieveZone {
            night: "Both".to_string(),
            phone_number: "9123456".to_string(),
            name: "Ali Hassan".to_string(),
            username: "aliAli42".to_string(),
        }
    );
}

#[test]
fn choosing_a_zone_opens_a_thread() {
    let s = State::RecieveZone {
        night: "Both".to_string(),
        phone_number: "9123456".to_string(),
        name: "Ali Hassan".to_string(),
        username: "aliAli42".to_string(),
    };
    let r = handle_update(&s, 42, &press(Some("Zone Red")));
    assert_eq!(
        texts(&r),
        vec![
            "You have chosen Zone Red".to_string(),
            "Okay, we have recieved your information.\n\nName: Ali Hassan\nPhone no: 9123456\nNight: Both\nZone: Zone Red".to_string(),
            "Thank you for reaching out! One of our EXCO members will be in touch with you shortly :)".to_string(),
            "[thread] chat-aliAli42".to_string(),
        ]
    );
    match &r.actions[3] {
        Action::OpenThread { channel_id, mention, entry, .. } => {
            assert_eq!(*channel_id, 1213766352330817556);
            assert_eq!(mention, "<@&1213766120855838740>");
            assert_eq!(entry.telegram_id, 42);
            assert_eq!(entry.user_info.name, "Ali Hassan");
            assert_eq!(entry.user_info.phone_number, "9123456");
            assert_eq!(entry.user_info.night, "Both");
            assert_eq!(entry.user_info.zone, "Zone Red");
        }
        _ => panic!("expected a thread"),
    }
    assert!(matches!(r.transition, Transition::EnterOpenedThread));
    let r = handle_update(&s, 42, &message(None, Some("hello?")));
    assert!(r.actions.is_empty());
}

#[test]
fn messages_are_forwarded_once_linked() {
    let s = State::RecieveMessages { thread_id: 99 };
    let r = handle_update(&s, 42, &message(None, Some("Any seats left?")));
    assert_eq!(r.actions.len(), 1);
    match &r.actions[0] {
        Action::ForwardToDiscord { thread_id, username, content } => {
            assert_eq!(*thread_id, 99);
            assert_eq!(username, "aliAli42");
            assert_eq!(content.as_deref(), Some("Any seats left?"));
        }
        _ => panic!("expected a forward"),
    }
    let r = handle_update(&s, 42, &press(Some("VIP")));
    assert!(r.actions.is_empty());
}

#[test]
fn display_names_are_cut_to_twelve_characters() {
    assert_eq!(display_name_exec(&chat(Some("alice_in_wonderland"), None, None, 1)), "alice_in_won");
    assert_eq!(display_name_exec(&chat(None, Some("Bo"), None, 42)), "Bo42");
    assert_eq!(display_name_exec(&chat(None, Some("Bo"), Some("Li"), -5)), "BoLi-5");
    assert_eq!(display_name_exec(&chat(None, None, None, -100123456789)), "-10012345678");
    assert_eq!(display_name_exec(&chat(None, None, None, i64::MIN)), "-92233720368");
}

#[test]
fn keyboards() {
    assert_eq!(
        make_keyboard(),
        vec![
            vec!["VIP".to_string()],
            vec!["Zone Blue".to_string()],
            vec!["Zone Yellow".to_string()],
            vec!["Zone Red".to_string()],
        ]
    );
    assert_eq!(
        Keyboard::Nights.rows(),
        vec![vec!["Night 1".to_string(), "Night 2".to_string(), "Both".to_string()]]
    );
    assert_eq!(Keyboard::Zones.rows(), make_keyboard());
}

#[test]
fn attachment_names() {
    assert_eq!(photo_attachment_name("abc", 0), "abc-photo0.jpeg");
    assert_eq!(photo_attachment_name("abc", 12), "abc-photo12.jpeg");
    assert_eq!(document_attachment_name("abc", &Some("plan.pdf".to_string())), "abc-plan.pdf");
    assert_eq!(document_attachment_name("abc", &None), "abc-");
}

fn is_uuid(s: &str) -> bool {
    s.len() == 36
        && s.chars().enumerate().all(|(i, c)| {
            if i == 8 || i == 13 || i == 18 || i == 23 {
                c == '-'
            } else {
                c.is_ascii_digit() || ('a'..='f').contains(&c)
            }
        })
}

#[test]
fn fresh_attachment_names_carry_a_uuid() {
    let a = fresh_photo_name(3);
    assert!(a.ends_with("-photo3.jpeg"));
    assert!(is_uuid(&a[..36]));
    let b = fresh_photo_name(3);
    assert_ne!(a, b);
    let d = fresh_document_name(&Some("x.txt".to_string()));
    assert!(is_uuid(&d[..36]));
    assert_eq!(&d[36..], "-x.txt");
}

#[test]
fn requests_are_posted_as_embeds() {
    let info = ticket_bot::model::UserInfo {
        name: "Ali".to_string(),
        phone_number: "9123456".to_string(),
        night: "Night 1".to_string(),
        zone: "VIP".to_string(),
    };
    let e = request_embed(&info);
    assert_eq!(e.title, "New Request");
    assert_eq!(e.colour, 424549);
    let fields: Vec<(String, String)> = e.fields.into_iter().map(|f| (f.name, f.value)).collect();
    assert_eq!(
        fields,
        vec![
            ("Name:".to_string(), "Ali".to_string()),
            ("Phone no:".to_string(), "9123456".to_string()),
            ("Night:".to_string(), "Night 1".to_string()),
            ("Zone:".to_string(), "VIP".to_string()),
        ]
    );
    assert_eq!(e.footer, "Note that you (EXCO team) can only send TEXT messages to the Telegram channel");
}

#[test]
fn a_whole_conversation() {
    let profile = || chat(None, Some("Sara"), None, 77);
    let mut state = State::default();
    assert_eq!(state, State::Start);
    let steps: Vec<Update> = vec![
        Update::Message { command: Some(Command::Start), text: Some("/start".to_string()), chat: profile() },
        Update::CallbackQuery { data: Some("Night 1".to_string()) },
        Update::Message { command: None, text: Some("9876543".to_string()), chat: profile() },
        Update::Message { command: None, text: Some("Sara".to_string()), chat: profile() },
        Update::CallbackQuery { data: Some("Zone Blue".to_string()) },
    ];
    for u in steps {
        let r = handle_update(&state, 77, &u);
        state = match r.transition {
            Transition::Stay => state,
            Transition::Enter(s) => s,
            Transition::EnterOpenedThread => State::RecieveMessages { thread_id: 5 },
            Transition::Exit => State::Start,
        };
    }
    assert_eq!(state, State::RecieveMessages { thread_id: 5 });
}
