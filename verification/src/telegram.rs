//! The Telegram conversation with a customer, as a state machine.
//!
//! A customer picks a night, gives a phone number, a name and a zone; the
//! request is then posted in a new Discord thread, and from then on what the
//! customer writes is forwarded there.  `handle_update` decides, for the
//! dialogue's state and an incoming update, what the bot sends and which
//! state follows; the chat services themselves are driven from outside.

use vstd::prelude::*;
use crate::model::{UserInfo, UserInfoView};
use crate::text::{
    append_chars, append_str, decimal, decimal_exec, owned, push_all, slice_chars,
    string_of_all, take_at_most,
};
use crate::validation::{is_valid_number, valid_phone_number};

verus! {

// ---------------------------------------------------------------------------
// Types
// ---------------------------------------------------------------------------

/// The bot's commands: `/start` and `/cancel`.
#[derive(Clone, Copy, Debug, PartialEq, Eq, Structural)]
pub enum Command {
    Start,
    Cancel,
}

/// Where a customer's conversation stands.
#[derive(Clone, Debug, PartialEq, Eq)]
pub enum State {
    /// Waiting for `/start`, or for the choice of a night.
    Start,
    /// The night is chosen; waiting for the phone number.
    RecievePhoneNumber { night: String },
    /// Waiting for the customer's name.
    RecieveName { night: String, phone_number: String },
    /// Waiting for the choice of a zone.
    RecieveZone { night: String, phone_number: String, name: String, username: String },
    /// The request is posted in the Discord thread `thread_id`; messages are
    /// forwarded there.
    RecieveMessages { thread_id: u64 },
}

impl Default for State {
    fn default() -> (r: State)
        ensures
            r is Start,
    {
        State::Start
    }
}

/// A customer known to the team: the Telegram chat to answer in, and what
/// they told the bot.
#[derive(Clone, Debug)]
pub struct HashStructure {
    pub telegram_id: i64,
    pub user_info: UserInfo,
}

/// The sender of a Telegram message, as far as the bot uses it.
pub struct ChatProfile {
    pub username: Option<String>,
    pub first_name: Option<String>,
    pub last_name: Option<String>,
    pub id: i64,
}

/// An update from Telegram.
pub enum Update {
    /// A message; `command` is what it reads as a bot command, if anything,
    /// and `text` its text, if it has one.
    Message { command: Option<Command>, text: Option<String>, chat: ChatProfile },
    /// A press on an inline keyboard button, with the button's data.
    CallbackQuery { data: Option<String> },
}

/// The inline keyboards the bot shows.
#[derive(Clone, Copy, Debug, PartialEq, Eq, Structural)]
pub enum Keyboard {
    /// The nights to choose from, in one row.
    Nights,
    /// The zones to choose from, one per row.
    Zones,
}

/// What the bot does in answer to an update, in order; a failure stops the
/// rest.
pub enum Action {
    /// Sends a text message to the customer.
    SendText { text: String },
    /// Sends a text message with an inline keyboard.
    SendKeyboard { text: String, keyboard: Keyboard },
    /// Sends the photo at `url`, under the name `file_name`.
    SendPhoto { url: String, file_name: String },
    /// Opens a Discord thread named `title` in the channel `channel_id`,
    /// posts `mention` with the request of `entry` (see [`request_embed`]) in
    /// it, and links the thread to the customer.
    OpenThread { channel_id: u64, title: String, mention: String, entry: HashStructure },
    /// Forwards the customer's message to the Discord thread `thread_id`,
    /// under the name `username`, with the text `content` and the message's
    /// photos and document.
    ForwardToDiscord { thread_id: u64, username: String, content: Option<String> },
}

/// How the dialogue's state changes once the actions are done.
pub enum Transition {
    Stay,
    Enter(State),
    /// Enter `RecieveMessages` with the thread that this step opened.
    EnterOpenedThread,
    /// End the dialogue; the next update finds it at `Start`.
    Exit,
}

/// The bot's answer to one update.
pub struct Reaction {
    pub actions: Vec<Action>,
    pub transition: Transition,
}

// ---------------------------------------------------------------------------
// Views
// ---------------------------------------------------------------------------

#[verifier::ext_equal]
pub enum StateView {
    Start,
    RecievePhoneNumber { night: Seq<char> },
    RecieveName { night: Seq<char>, phone_number: Seq<char> },
    RecieveZone {
        night: Seq<char>,
        phone_number: Seq<char>,
        name: Seq<char>,
        username: Seq<char>,
    },
    RecieveMessages { thread_id: u64 },
}

impl View for State {
    type V = StateView;

    open spec fn view(&self) -> StateView {
        match self {
            State::Start => StateView::Start,
            State::RecievePhoneNumber { night } => StateView::RecievePhoneNumber { night: night@ },
            State::RecieveName { night, phone_number } => StateView::RecieveName {
                night: night@,
                phone_number: phone_number@,
            },
            State::RecieveZone { night, phone_number, name, username } => StateView::RecieveZone {
                night: night@,
                phone_number: phone_number@,
                name: name@,
                username: username@,
            },
            State::RecieveMessages { thread_id } => StateView::RecieveMessages {
                thread_id: *thread_id,
            },
        }
    }
}

#[verifier::ext_equal]
pub struct HashStructureView {
    pub telegram_id: i64,
    pub user_info: UserInfoView,
}

impl View for HashStructure {
    type V = HashStructureView;

    open spec fn view(&self) -> HashStructureView {
        HashStructureView { telegram_id: self.telegram_id, user_info: self.user_info@ }
    }
}

/// The text of an optional string.
pub open spec fn opt_text(o: Option<String>) -> Option<Seq<char>> {
    match o {
        Some(s) => Some(s@),
        None => None,
    }
}

#[verifier::ext_equal]
pub struct ChatProfileView {
    pub username: Option<Seq<char>>,
    pub first_name: Option<Seq<char>>,
    pub last_name: Option<Seq<char>>,
    pub id: i64,
}

impl View for ChatProfile {
    type V = ChatProfileView;

    open spec fn view(&self) -> ChatProfileView {
        ChatProfileView {
            username: opt_text(self.username),
            first_name: opt_text(self.first_name),
            last_name: opt_text(self.last_name),
            id: self.id,
        }
    }
}

#[verifier::ext_equal]
pub enum UpdateView {
    Message { command: Option<Command>, text: Option<Seq<char>>, chat: ChatProfileView },
    CallbackQuery { data: Option<Seq<char>> },
}

impl View for Update {
    type V = UpdateView;

    open spec fn view(&self) -> UpdateView {
        match self {
            Update::Message { command, text, chat } => UpdateView::Message {
                command: *command,
                text: opt_text(*text),
                chat: chat@,
            },
            Update::CallbackQuery { data } => UpdateView::CallbackQuery { data: opt_text(*data) },
        }
    }
}

#[verifier::ext_equal]
pub enum ActionView {
    SendText { text: Seq<char> },
    SendKeyboard { text: Seq<char>, keyboard: Keyboard },
    SendPhoto { url: Seq<char>, file_name: Seq<char> },
    OpenThread {
        channel_id: u64,
        title: Seq<char>,
        mention: Seq<char>,
        entry: HashStructureView,
    },
    ForwardToDiscord { thread_id: u64, username: Seq<char>, content: Option<Seq<char>> },
}

impl View for Action {
    type V = ActionView;

    open spec fn view(&self) -> ActionView {
        match self {
            Action::SendText { text } => ActionView::SendText { text: text@ },
            Action::SendKeyboard { text, keyboard } => ActionView::SendKeyboard {
                text: text@,
                keyboard: *keyboard,
            },
            Action::SendPhoto { url, file_name } => ActionView::SendPhoto {
                url: url@,
                file_name: file_name@,
            },
            Action::OpenThread { channel_id, title, mention, entry } => ActionView::OpenThread {
                channel_id: *channel_id,
                title: title@,
                mention: mention@,
                entry: entry@,
            },
            Action::ForwardToDiscord { thread_id, username, content } =>
                ActionView::ForwardToDiscord {
                thread_id: *thread_id,
                username: username@,
                content: opt_text(*content),
            },
        }
    }
}

#[verifier::ext_equal]
pub enum TransitionView {
    Stay,
    Enter(StateView),
    EnterOpenedThread,
    Exit,
}

impl View for Transition {
    type V = TransitionView;

    open spec fn view(&self) -> TransitionView {
        match self {
            Transition::Stay => TransitionView::Stay,
            Transition::Enter(s) => TransitionView::Enter(s@),
            Transition::EnterOpenedThread => TransitionView::EnterOpenedThread,
            Transition::Exit => TransitionView::Exit,
        }
    }
}

#[verifier::ext_equal]
pub struct ReactionView {
    pub actions: Seq<ActionView>,
    pub transition: TransitionView,
}

impl View for Reaction {
    type V = ReactionView;

    open spec fn view(&self) -> ReactionView {
        ReactionView {
            actions: self.actions@.map_values(|a: Action| a@),
            transition: self.transition@,
        }
    }
}

// ---------------------------------------------------------------------------
// The conversation, specified
// ---------------------------------------------------------------------------

/// The text of an optional text, or nothing.
pub open spec fn or_empty(o: Option<Seq<char>>) -> Seq<char> {
    match o {
        Some(s) => s,
        None => Seq::empty(),
    }
}

/// The name under which a customer appears on Discord: username, first
/// name, last name and chat id run together, cut to twelve characters.
pub open spec fn display_name(chat: ChatProfileView) -> Seq<char> {
    take_at_most(
        or_empty(chat.username) + or_empty(chat.first_name) + or_empty(chat.last_name) + decimal(
            chat.id as int,
        ),
        12,
    )
}

/// The Discord channel in which requests are posted.
pub open spec fn requests_channel() -> u64 {
    1213766352330817556
}

/// The summary sent to the customer once their request is complete.
pub open spec fn request_summary(
    name: Seq<char>,
    phone_number: Seq<char>,
    night: Seq<char>,
    zone: Seq<char>,
) -> Seq<char> {
    "Okay, we have recieved your information.\n\nName: "@ + name + "\nPhone no: "@ + phone_number
        + "\nNight: "@ + night + "\nZone: "@ + zone
}

/// A reaction that sends `texts` and then takes `transition`.
pub open spec fn say(texts: Seq<Seq<char>>, transition: TransitionView) -> ReactionView {
    ReactionView {
        actions: texts.map_values(|t: Seq<char>| ActionView::SendText { text: t }),
        transition,
    }
}

/// No answer, no change.
pub open spec fn ignore() -> ReactionView {
    ReactionView { actions: Seq::empty(), transition: TransitionView::Stay }
}

/// `/start` at the beginning: the choice of nights.
pub open spec fn greeting() -> ReactionView {
    ReactionView {
        actions: seq![
            ActionView::SendText { text: "Hello! Which night would you like to choose?"@ },
            ActionView::SendKeyboard {
                text: "Night 1 - Dhiriulhumakee miee baa - March 7\n\nNight 2 - Folk Tales - March 8\n\nBoth"@,
                keyboard: Keyboard::Nights,
            },
        ],
        transition: TransitionView::Stay,
    }
}

/// `/cancel`: the dialogue ends.
pub open spec fn cancellation() -> ReactionView {
    say(seq!["Cancelling the dialogue."@], TransitionView::Exit)
}

/// A night chosen from the keyboard.
pub open spec fn night_chosen(data: Option<Seq<char>>) -> ReactionView {
    match data {
        Some(night) => say(
            seq!["You have chosen "@ + night, "Please enter your phone number."@],
            TransitionView::Enter(StateView::RecievePhoneNumber { night }),
        ),
        None => ignore(),
    }
}

/// A message while the phone number is awaited.
pub open spec fn phone_number_given(night: Seq<char>, text: Option<Seq<char>>) -> ReactionView {
    match text {
        None => say(
            seq!["It seems like I failed to parse the phone number. Try again."@],
            TransitionView::Stay,
        ),
        Some(number) => if !valid_phone_number(number) {
            say(seq!["The phone number is not valid. Try again."@], TransitionView::Stay)
        } else {
            say(
                seq!["Please enter your name. This will be used to identify your booking."@],
                TransitionView::Enter(StateView::RecieveName { night, phone_number: number }),
            )
        },
    }
}

/// A message while the name is awaited.
pub open spec fn name_given(
    night: Seq<char>,
    phone_number: Seq<char>,
    text: Option<Seq<char>>,
    chat: ChatProfileView,
) -> ReactionView {
    match text {
        None => say(seq!["Seems like you did not enter your name"@], TransitionView::Stay),
        Some(name) => ReactionView {
            actions: seq![
                ActionView::SendPhoto {
                    url: "https://i.imgur.com/4M6NARS.jpeg"@,
                    file_name: "seats.png"@,
                },
                ActionView::SendKeyboard {
                    text: "What zone would you like to choose?"@,
                    keyboard: Keyboard::Zones,
                },
            ],
            transition: TransitionView::Enter(
                StateView::RecieveZone { night, phone_number, name, username: display_name(chat) },
            ),
        },
    }
}

/// A zone chosen from the keyboard: the request is complete and goes to the
/// team in a new thread.
pub open spec fn zone_chosen(
    night: Seq<char>,
    phone_number: Seq<char>,
    name: Seq<char>,
    username: Seq<char>,
    data: Option<Seq<char>>,
    chat_id: i64,
) -> ReactionView {
    match data {
        None => ignore(),
        Some(zone) => ReactionView {
            actions: seq![
                ActionView::SendText { text: "You have chosen "@ + zone },
                ActionView::SendText { text: request_summary(name, phone_number, night, zone) },
                ActionView::SendText {
                    text: "Thank you for reaching out! One of our EXCO members will be in touch with you shortly :)"@,
                },
                ActionView::OpenThread {
                    channel_id: requests_channel(),
                    title: "chat-"@ + username,
                    mention: "<@&1213766120855838740>"@,
                    entry: HashStructureView {
                        telegram_id: chat_id,
                        user_info: UserInfoView { name, phone_number, night, zone },
                    },
                },
            ],
            transition: TransitionView::EnterOpenedThread,
        },
    }
}

/// A message once the request is with the team: it is forwarded.
pub open spec fn forwarded(
    thread_id: u64,
    text: Option<Seq<char>>,
    chat: ChatProfileView,
) -> ReactionView {
    ReactionView {
        actions: seq![
            ActionView::ForwardToDiscord { thread_id, username: display_name(chat), content: text },
        ],
        transition: TransitionView::Stay,
    }
}

/// The bot's answer to `update` in a dialogue at `state` with the chat
/// `chat_id`.  Commands come first: `/start` greets at the beginning and
/// `/cancel` ends the dialogue from anywhere; other messages go to the step
/// that awaits them, and button presses to the step that offered the
/// buttons.  Anything else is left unanswered.
pub open spec fn reaction(state: StateView, chat_id: i64, update: UpdateView) -> ReactionView {
    match update {
        UpdateView::Message { command, text, chat } => {
            if command == Some(Command::Start) && state is Start {
                greeting()
            } else if command == Some(Command::Cancel) {
                cancellation()
            } else {
                match state {
                    StateView::RecievePhoneNumber { night } => phone_number_given(night, text),
                    StateView::RecieveName { night, phone_number } => name_given(
                        night,
                        phone_number,
                        text,
                        chat,
                    ),
                    StateView::RecieveMessages { thread_id } => forwarded(thread_id, text, chat),
                    _ => ignore(),
                }
            }
        },
        UpdateView::CallbackQuery { data } => match state {
            StateView::Start => night_chosen(data),
            StateView::RecieveZone { night, phone_number, name, username } => zone_chosen(
                night,
                phone_number,
                name,
                username,
                data,
                chat_id,
            ),
            _ => ignore(),
        },
    }
}

/// The state that follows `state` by `transition`, where `thread_id` is the
/// thread that the step opened, if it opened one.
pub open spec fn next_state(state: StateView, transition: TransitionView, thread_id: u64) -> StateView {
    match transition {
        TransitionView::Stay => state,
        TransitionView::Enter(s) => s,
        TransitionView::EnterOpenedThread => StateView::RecieveMessages { thread_id },
        TransitionView::Exit => StateView::Start,
    }
}

// ---------------------------------------------------------------------------
// The conversation, implemented
// ---------------------------------------------------------------------------

/// The rows of button labels of `keyboard`; each button's data is its label.
pub open spec fn keyboard_rows(keyboard: Keyboard) -> Seq<Seq<Seq<char>>> {
    match keyboard {
        Keyboard::Nights => seq![seq!["Night 1"@, "Night 2"@, "Both"@]],
        Keyboard::Zones => seq![
            seq!["VIP"@],
            seq!["Zone Blue"@],
            seq!["Zone Yellow"@],
            seq!["Zone Red"@],
        ],
    }
}

/// The texts of rows of strings.
pub open spec fn rows_text(rows: Seq<Vec<String>>) -> Seq<Seq<Seq<char>>> {
    rows.map_values(|row: Vec<String>| crate::text::texts(row@))
}

/// The zones to choose from, one button per row.
pub fn make_keyboard() -> (r: Vec<Vec<String>>)
    ensures
        rows_text(r@) == keyboard_rows(Keyboard::Zones),
{
    let mut keyboard: Vec<Vec<String>> = Vec::new();
    let zones = ["VIP", "Zone Blue", "Zone Yellow", "Zone Red"];
    let mut i: usize = 0;
    while i < 4
        invariant
            i <= 4,
            zones@ == seq!["VIP", "Zone Blue", "Zone Yellow", "Zone Red"],
            keyboard@.len() == i,
            forall|k: int| 0 <= k < i ==> crate::text::texts(#[trigger] keyboard@[k]@) == seq![zones@[k]@],
        decreases 4 - i,
    {
        let mut row: Vec<String> = Vec::new();
        row.push(owned(zones[i]));
        assert(crate::text::texts(row@) =~= seq![zones@[i as int]@]);
        keyboard.push(row);
        i = i + 1;
    }
    assert(rows_text(keyboard@) =~= keyboard_rows(Keyboard::Zones));
    keyboard
}

impl Keyboard {
    /// The rows of button labels of this keyboard.
    pub fn rows(&self) -> (r: Vec<Vec<String>>)
        ensures
            rows_text(r@) == keyboard_rows(*self),
    {
        match self {
            Keyboard::Nights => {
                let mut row: Vec<String> = Vec::new();
                row.push(owned("Night 1"));
                row.push(owned("Night 2"));
                row.push(owned("Both"));
                let mut rows: Vec<Vec<String>> = Vec::new();
                assert(crate::text::texts(row@) =~= seq!["Night 1"@, "Night 2"@, "Both"@]);
                rows.push(row);
                assert(rows_text(rows@) =~= keyboard_rows(Keyboard::Nights));
                rows
            },
            Keyboard::Zones => make_keyboard(),
        }
    }
}

/// The text of an optional string, or nothing.
fn text_or_empty(o: &Option<String>) -> (r: Vec<char>)
    ensures
        r@ == or_empty(opt_text(*o)),
{
    match o {
        Some(s) => crate::text::chars_of(s.as_str()),
        None => Vec::new(),
    }
}

/// A copy of an optional string.
fn copy_opt(o: &Option<String>) -> (r: Option<String>)
    ensures
        opt_text(r) == opt_text(*o),
{
    match o {
        Some(s) => Some(s.clone()),
        None => None,
    }
}

/// The name under which the customer appears on Discord.
pub fn display_name_exec(chat: &ChatProfile) -> (r: String)
    ensures
        r@ == display_name(chat@),
{
    let mut all = text_or_empty(&chat.username);
    push_all(&mut all, &text_or_empty(&chat.first_name));
    push_all(&mut all, &text_or_empty(&chat.last_name));
    push_all(&mut all, &decimal_exec(chat.id));
    let end: usize = if all.len() <= 12 {
        all.len()
    } else {
        12
    };
    let kept = slice_chars(&all, 0, end);
    assert(all@.subrange(0, all@.len() as int) == all@);
    string_of_all(&kept)
}

/// A text message action.
fn text_action(text: String) -> (r: Action)
    ensures
        r@ == (ActionView::SendText { text: text@ }),
{
    Action::SendText { text }
}

/// A reaction that sends the given texts and then takes `transition`.
fn say_exec(texts: Vec<String>, transition: Transition) -> (r: Reaction)
    ensures
        r@ == say(crate::text::texts(texts@), transition@),
{
    let mut actions: Vec<Action> = Vec::new();
    let mut i: usize = 0;
    let ghost want = crate::text::texts(texts@).map_values(
        |t: Seq<char>| ActionView::SendText { text: t },
    );
    while i < texts.len()
        invariant
            i <= texts.len(),
            want == crate::text::texts(texts@).map_values(
                |t: Seq<char>| ActionView::SendText { text: t },
            ),
            actions@.map_values(|a: Action| a@) == want.take(i as int),
        decreases texts.len() - i,
    {
        let ghost before = actions@;
        actions.push(text_action(texts[i].clone()));
        assert(actions@.map_values(|a: Action| a@) == before.map_values(|a: Action| a@).push(
            want[i as int],
        ));
        assert(want.take(i + 1) == want.take(i as int).push(want[i as int]));
        i = i + 1;
    }
    assert(want.take(texts@.len() as int) == want);
    Reaction { actions, transition }
}

/// A reaction that sends one text.
fn say_one(text: String, transition: Transition) -> (r: Reaction)
    ensures
        r@ == say(seq![text@], transition@),
{
    let mut texts: Vec<String> = Vec::new();
    texts.push(text);
    assert(crate::text::texts(texts@) =~= seq![texts@[0]@]);
    say_exec(texts, transition)
}

/// A reaction that sends two texts.
fn say_two(first: String, second: String, transition: Transition) -> (r: Reaction)
    ensures
        r@ == say(seq![first@, second@], transition@),
{
    let mut texts: Vec<String> = Vec::new();
    texts.push(first);
    texts.push(second);
    assert(crate::text::texts(texts@) =~= seq![texts@[0]@, texts@[1]@]);
    say_exec(texts, transition)
}

/// No answer, no change.
fn ignore_exec() -> (r: Reaction)
    ensures
        r@ == ignore(),
{
    let actions: Vec<Action> = Vec::new();
    let r = Reaction { actions, transition: Transition::Stay };
    assert(r@.actions =~= Seq::<ActionView>::empty());
    r
}

/// `text` with `more` appended.
fn joined(text: &str, more: &String) -> (r: String)
    ensures
        r@ == text@ + more@,
{
    let mut out = owned(text);
    append_str(&mut out, more.as_str());
    out
}

fn greeting_exec() -> (r: Reaction)
    ensures
        r@ == greeting(),
{
    let mut actions: Vec<Action> = Vec::new();
    actions.push(text_action(owned("Hello! Which night would you like to choose?")));
    actions.push(
        Action::SendKeyboard {
            text: owned(
                "Night 1 - Dhiriulhumakee miee baa - March 7\n\nNight 2 - Folk Tales - March 8\n\nBoth",
            ),
            keyboard: Keyboard::Nights,
        },
    );
    let r = Reaction { actions, transition: Transition::Stay };
    assert(r@.actions =~= greeting().actions);
    r
}

fn night_chosen_exec(data: &Option<String>) -> (r: Reaction)
    ensures
        r@ == night_chosen(opt_text(*data)),
{
    match data {
        Some(night) => say_two(
            joined("You have chosen ", night),
            owned("Please enter your phone number."),
            Transition::Enter(State::RecievePhoneNumber { night: night.clone() }),
        ),
        None => ignore_exec(),
    }
}

fn phone_number_given_exec(night: &String, text: &Option<String>) -> (r: Reaction)
    ensures
        r@ == phone_number_given(night@, opt_text(*text)),
{
    match text {
        None => say_one(
            owned("It seems like I failed to parse the phone number. Try again."),
            Transition::Stay,
        ),
        Some(number) => {
            if !is_valid_number(number.as_str()) {
                say_one(owned("The phone number is not valid. Try again."), Transition::Stay)
            } else {
                say_one(
                    owned("Please enter your name. This will be used to identify your booking."),
                    Transition::Enter(
                        State::RecieveName { night: night.clone(), phone_number: number.clone() },
                    ),
                )
            }
        },
    }
}

fn name_given_exec(
    night: &String,
    phone_number: &String,
    text: &Option<String>,
    chat: &ChatProfile,
) -> (r: Reaction)
    ensures
        r@ == name_given(night@, phone_number@, opt_text(*text), chat@),
{
    match text {
        None => say_one(owned("Seems like you did not enter your name"), Transition::Stay),
        Some(name) => {
            let mut actions: Vec<Action> = Vec::new();
            actions.push(
                Action::SendPhoto {
                    url: owned("https://i.imgur.com/4M6NARS.jpeg"),
                    file_name: owned("seats.png"),
                },
            );
            actions.push(
                Action::SendKeyboard {
                    text: owned("What zone would you like to choose?"),
                    keyboard: Keyboard::Zones,
                },
            );
            let next = State::RecieveZone {
                night: night.clone(),
                phone_number: phone_number.clone(),
                name: name.clone(),
                username: display_name_exec(chat),
            };
            let r = Reaction { actions, transition: Transition::Enter(next) };
            assert(r@.actions =~= name_given(night@, phone_number@, opt_text(*text), chat@).actions);
            r
        },
    }
}

/// The summary sent to the customer once their request is complete.
fn request_summary_exec(
    name: &String,
    phone_number: &String,
    night: &String,
    zone: &String,
) -> (r: String)
    ensures
        r@ == request_summary(name@, phone_number@, night@, zone@),
{
    let mut out = owned("Okay, we have recieved your information.\n\nName: ");
    append_str(&mut out, name.as_str());
    append_str(&mut out, "\nPhone no: ");
    append_str(&mut out, phone_number.as_str());
    append_str(&mut out, "\nNight: ");
    append_str(&mut out, night.as_str());
    append_str(&mut out, "\nZone: ");
    append_str(&mut out, zone.as_str());
    out
}

fn zone_chosen_exec(
    night: &String,
    phone_number: &String,
    name: &String,
    username: &String,
    data: &Option<String>,
    chat_id: i64,
) -> (r: Reaction)
    ensures
        r@ == zone_chosen(night@, phone_number@, name@, username@, opt_text(*data), chat_id),
{
    match data {
        None => ignore_exec(),
        Some(zone) => {
            let mut actions: Vec<Action> = Vec::new();
            actions.push(text_action(joined("You have chosen ", zone)));
            actions.push(text_action(request_summary_exec(name, phone_number, night, zone)));
            actions.push(
                text_action(
                    owned(
                        "Thank you for reaching out! One of our EXCO members will be in touch with you shortly :)",
                    ),
                ),
            );
            let entry = HashStructure {
                telegram_id: chat_id,
                user_info: UserInfo {
                    name: name.clone(),
                    phone_number: phone_number.clone(),
                    zone: zone.clone(),
                    night: night.clone(),
                },
            };
            actions.push(
                Action::OpenThread {
                    channel_id: 1213766352330817556u64,
                    title: joined("chat-", username),
                    mention: owned("<@&1213766120855838740>"),
                    entry,
                },
            );
            let r = Reaction { actions, transition: Transition::EnterOpenedThread };
            assert(r@.actions =~= zone_chosen(
                night@,
                phone_number@,
                name@,
                username@,
                opt_text(*data),
                chat_id,
            ).actions);
            r
        },
    }
}

fn forwarded_exec(thread_id: u64, text: &Option<String>, chat: &ChatProfile) -> (r: Reaction)
    ensures
        r@ == forwarded(thread_id, opt_text(*text), chat@),
{
    let mut actions: Vec<Action> = Vec::new();
    actions.push(
        Action::ForwardToDiscord {
            thread_id,
            username: display_name_exec(chat),
            content: copy_opt(text),
        },
    );
    let r = Reaction { actions, transition: Transition::Stay };
    assert(r@.actions =~= forwarded(thread_id, opt_text(*text), chat@).actions);
    r
}

/// The bot's answer to `update` in the dialogue at `state` with the chat
/// `chat_id`.
pub fn handle_update(state: &State, chat_id: i64, update: &Update) -> (r: Reaction)
    ensures
        r@ == reaction(state@, chat_id, update@),
{
    match update {
        Update::Message { command, text, chat } => {
            let is_start = match state {
                State::Start => true,
                _ => false,
            };
            if *command == Some(Command::Start) && is_start {
                greeting_exec()
            } else if *command == Some(Command::Cancel) {
                say_one(owned("Cancelling the dialogue."), Transition::Exit)
            } else {
                match state {
                    State::RecievePhoneNumber { night } => phone_number_given_exec(night, text),
                    State::RecieveName { night, phone_number } => name_given_exec(
                        night,
                        phone_number,
                        text,
                        chat,
                    ),
                    State::RecieveMessages { thread_id } => forwarded_exec(*thread_id, text, chat),
                    _ => ignore_exec(),
                }
            }
        },
        Update::CallbackQuery { data } => match state {
            State::Start => night_chosen_exec(data),
            State::RecieveZone { night, phone_number, name, username } => zone_chosen_exec(
                night,
                phone_number,
                name,
                username,
                data,
                chat_id,
            ),
            _ => ignore_exec(),
        },
    }
}

// ---------------------------------------------------------------------------
// Laws of the conversation
// ---------------------------------------------------------------------------

/// What every state reached by the conversation satisfies: a phone number
/// it holds is one the bot accepts, and a Discord name it holds has at most
/// twelve characters.
pub open spec fn well_formed(state: StateView) -> bool {
    match state {
        StateView::RecieveName { phone_number, .. } => valid_phone_number(phone_number),
        StateView::RecieveZone { phone_number, username, .. } => valid_phone_number(phone_number)
            && username.len() <= 12,
        _ => true,
    }
}

/// How far a conversation has come.
pub open spec fn stage(state: StateView) -> nat {
    match state {
        StateView::Start => 0,
        StateView::RecievePhoneNumber { .. } => 1,
        StateView::RecieveName { .. } => 2,
        StateView::RecieveZone { .. } => 3,
        StateView::RecieveMessages { .. } => 4,
    }
}

/// `/cancel` ends the dialogue from every state.
pub proof fn lemma_cancel_always_ends(
    state: StateView,
    chat_id: i64,
    text: Option<Seq<char>>,
    chat: ChatProfileView,
)
    ensures
        reaction(
            state,
            chat_id,
            UpdateView::Message { command: Some(Command::Cancel), text, chat },
        ).transition == TransitionView::Exit,
{
}

/// Every step keeps the conversation well formed: no state holds a phone
/// number that failed the check, or a Discord name longer than twelve
/// characters.
pub proof fn lemma_steps_keep_states_well_formed(
    state: StateView,
    chat_id: i64,
    update: UpdateView,
    thread_id: u64,
)
    requires
        well_formed(state),
    ensures
        well_formed(next_state(state, reaction(state, chat_id, update).transition, thread_id)),
{
}

/// The conversation only moves forward, one stage at a time, unless it is
/// cancelled.
pub proof fn lemma_conversation_moves_forward(
    state: StateView,
    chat_id: i64,
    update: UpdateView,
    thread_id: u64,
)
    ensures
        ({
            let t = reaction(state, chat_id, update).transition;
            let next = stage(next_state(state, t, thread_id));
            t != TransitionView::Exit ==> stage(state) <= next <= stage(state) + 1
        }),
{
}

/// A request goes to the team only once the zone is chosen, and messages
/// are forwarded only after that.
pub proof fn lemma_team_contact_follows_request(state: StateView, chat_id: i64, update: UpdateView)
    ensures
        forall|i: int|
            0 <= i < reaction(state, chat_id, update).actions.len() ==> {
                &&& #[trigger] reaction(state, chat_id, update).actions[i] is OpenThread
                    ==> state is RecieveZone
                &&& reaction(state, chat_id, update).actions[i] is ForwardToDiscord
                    ==> state is RecieveMessages
            },
{
}

/// A request posted for the team carries a phone number that passed the
/// check, and a thread title of at most seventeen characters.
pub proof fn lemma_posted_requests_are_checked(state: StateView, chat_id: i64, update: UpdateView)
    requires
        well_formed(state),
    ensures
        forall|i: int|
            0 <= i < reaction(state, chat_id, update).actions.len() ==> (#[trigger] reaction(
                state,
                chat_id,
                update,
            ).actions[i] matches ActionView::OpenThread { title, entry, .. } ==> {
                &&& valid_phone_number(entry.user_info.phone_number)
                &&& title.len() <= 17
            }),
{
    reveal_strlit("chat-");
}

/// What the customer answers is what goes to the team: a dialogue that
/// starts with the night chosen, then gets a phone number the bot accepts,
/// a name and a zone (none of them a `/cancel`) passes through the states
/// that hold exactly those answers, and posts a request that carries them,
/// under the customer's chat id.
pub proof fn lemma_request_holds_customer_answers(
    night: Seq<char>,
    phone_number: Seq<char>,
    name: Seq<char>,
    zone: Seq<char>,
    chat_id: i64,
    chat: ChatProfileView,
    commands: (Option<Command>, Option<Command>),
    thread_id: u64,
)
    requires
        valid_phone_number(phone_number),
        commands.0 != Some(Command::Cancel),
        commands.1 != Some(Command::Cancel),
    ensures
        ({
            let s0 = StateView::Start;
            let s1 = next_state(
                s0,
                reaction(s0, chat_id, UpdateView::CallbackQuery { data: Some(night) }).transition,
                thread_id,
            );
            let s2 = next_state(
                s1,
                reaction(
                    s1,
                    chat_id,
                    UpdateView::Message { command: commands.0, text: Some(phone_number), chat },
                ).transition,
                thread_id,
            );
            let s3 = next_state(
                s2,
                reaction(
                    s2,
                    chat_id,
                    UpdateView::Message { command: commands.1, text: Some(name), chat },
                ).transition,
                thread_id,
            );
            let posted = reaction(s3, chat_id, UpdateView::CallbackQuery { data: Some(zone) });
            &&& s1 == StateView::RecievePhoneNumber { night }
            &&& s2 == StateView::RecieveName { night, phone_number }
            &&& s3 == StateView::RecieveZone { night, phone_number, name, username: display_name(chat) }
            &&& exists|i: int|
                0 <= i < posted.actions.len() && (#[trigger] posted.actions[i] matches ActionView::OpenThread {
                    entry,
                    ..
                } && entry == HashStructureView {
                    telegram_id: chat_id,
                    user_info: UserInfoView { name, phone_number, night, zone },
                })
        }),
{
    let s3 = StateView::RecieveZone { night, phone_number, name, username: display_name(chat) };
    let posted = reaction(s3, chat_id, UpdateView::CallbackQuery { data: Some(zone) });
    assert(posted.actions[3] matches ActionView::OpenThread { entry, .. } && entry
        == HashStructureView {
        telegram_id: chat_id,
        user_info: UserInfoView { name, phone_number, night, zone },
    });
}

// ---------------------------------------------------------------------------
// Names of forwarded files
// ---------------------------------------------------------------------------

/// `c` is a lower-case hexadecimal digit.
pub open spec fn is_lower_hex(c: char) -> bool {
    ('0' <= c <= '9') || ('a' <= c <= 'f')
}

/// `s` is a UUID in its hyphenated lower-case form, such as
/// `67e55044-10b1-426f-9247-bb680e5fe0c8`.
pub open spec fn is_uuid_text(s: Seq<char>) -> bool {
    &&& s.len() == 36
    &&& forall|i: int|
        0 <= i < 36 ==> if i == 8 || i == 13 || i == 18 || i == 23 {
            s[i] == '-'
        } else {
            is_lower_hex(#[trigger] s[i])
        }
}

/// A fresh random UUID in hyphenated lower-case form (`uuid::Uuid::new_v4`,
/// written with its `Display`).  The contract states the form of the text;
/// which UUID comes out is chance.
#[verifier::external_body]
fn random_uuid_text() -> (r: String)
    ensures
        is_uuid_text(r@),
{
    uuid::Uuid::new_v4().to_string()
}

/// The name of the `index`-th photo of a forwarded message, made unique by
/// `id`.
pub open spec fn photo_name(id: Seq<char>, index: nat) -> Seq<char> {
    id + "-photo"@ + decimal(index as int) + ".jpeg"@
}

/// The name of the document of a forwarded message, made unique by `id`.
pub open spec fn document_name(id: Seq<char>, file_name: Option<Seq<char>>) -> Seq<char> {
    id + "-"@ + or_empty(file_name)
}

/// The name of the `index`-th photo of a forwarded message, made unique by
/// `id`.
pub fn photo_attachment_name(id: &str, index: usize) -> (r: String)
    ensures
        r@ == photo_name(id@, index as nat),
{
    let mut out = owned(id);
    append_str(&mut out, "-photo");
    append_chars(&mut out, &crate::text::decimal_digits_exec(index as u64));
    append_str(&mut out, ".jpeg");
    out
}

/// The name of the document of a forwarded message, made unique by `id`.
pub fn document_attachment_name(id: &str, file_name: &Option<String>) -> (r: String)
    ensures
        r@ == document_name(id@, opt_text(*file_name)),
{
    let mut out = owned(id);
    append_str(&mut out, "-");
    match file_name {
        Some(name) => append_str(&mut out, name.as_str()),
        None => {},
    }
    out
}

/// A name for the `index`-th photo of a forwarded message, made unique by a
/// fresh random UUID.
pub fn fresh_photo_name(index: usize) -> (r: String)
    ensures
        exists|id: Seq<char>| is_uuid_text(id) && r@ == photo_name(id, index as nat),
{
    let id = random_uuid_text();
    photo_attachment_name(id.as_str(), index)
}

/// A name for the document of a forwarded message, made unique by a fresh
/// random UUID.
pub fn fresh_document_name(file_name: &Option<String>) -> (r: String)
    ensures
        exists|id: Seq<char>| is_uuid_text(id) && r@ == document_name(id, opt_text(*file_name)),
{
    let id = random_uuid_text();
    document_attachment_name(id.as_str(), file_name)
}

// ---------------------------------------------------------------------------
// The request as posted on Discord
// ---------------------------------------------------------------------------

/// One field of a Discord embed.
pub struct EmbedField {
    pub name: String,
    pub value: String,
}

/// A Discord embed: title, colour, fields (none inline) and footer.
pub struct RequestEmbed {
    pub title: String,
    pub colour: u32,
    pub fields: Vec<EmbedField>,
    pub footer: String,
}

/// The fields of an embed as name/value texts.
pub open spec fn field_texts(fields: Seq<EmbedField>) -> Seq<(Seq<char>, Seq<char>)> {
    fields.map_values(|f: EmbedField| (f.name@, f.value@))
}

/// A field with the given name and value.
fn field(name: &str, value: &String) -> (r: EmbedField)
    ensures
        r.name@ == name@,
        r.value@ == value@,
{
    EmbedField { name: owned(name), value: value.clone() }
}

/// The embed with which a request is posted for the team.
pub fn request_embed(info: &UserInfo) -> (r: RequestEmbed)
    ensures
        r.title@ == "New Request"@,
        r.colour == 424549,
        field_texts(r.fields@) == seq![
            ("Name:"@, info.name@),
            ("Phone no:"@, info.phone_number@),
            ("Night:"@, info.night@),
            ("Zone:"@, info.zone@),
        ],
        r.footer@
            == "Note that you (EXCO team) can only send TEXT messages to the Telegram channel"@,
{
    let mut fields: Vec<EmbedField> = Vec::new();
    fields.push(field("Name:", &info.name));
    fields.push(field("Phone no:", &info.phone_number));
    fields.push(field("Night:", &info.night));
    fields.push(field("Zone:", &info.zone));
    let r = RequestEmbed {
        title: owned("New Request"),
        colour: 424549,
        fields,
        footer: owned(
            "Note that you (EXCO team) can only send TEXT messages to the Telegram channel",
        ),
    };
    assert(field_texts(r.fields@) =~= seq![
        ("Name:"@, info.name@),
        ("Phone no:"@, info.phone_number@),
        ("Night:"@, info.night@),
        ("Zone:"@, info.zone@),
    ]);
    r
}

} // verus!
