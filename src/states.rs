//! Conversation states and what one step of a conversation yields.
use vstd::prelude::*;
use crate::keyboard::{rows_of, ButtonView, Keyboard};
use crate::menu::{main_layout, main_text, standard_items};
use crate::role::UserRole;
use crate::table::{LinkTable, Subscriptions, UserRoles, UserTable};
use crate::user::{ChatUser, User};

verus! {

/// Entry state, before `/start`.
#[derive(Debug, Clone, Copy, PartialEq, Eq, Structural)]
pub struct StartState {
    /// Whether the conversation begins after the bot restarted.
    pub restarted: bool,
}

/// In the main menu.
#[derive(Debug, Clone, Copy, PartialEq, Eq, Structural)]
pub struct MainState {
    pub prev_state: StartState,
    pub chat_id: i64,
}

/// In the links menu, at a node of the link tree.
#[derive(Debug)]
pub struct LinksState {
    pub prev_state: MainState,
    /// Id of the node shown.
    pub level: String,
    /// Children of the node shown.
    pub child: LinkTable,
    pub chat_id: i64,
    /// Ids of the nodes from the root down to the node shown; empty at the root.
    pub path: Vec<String>,
}

/// In the notice menu; `group` is empty while no group is picked.
#[derive(Debug)]
pub struct NoticeState {
    pub prev_state: MainState,
    pub group: String,
    pub chat_id: i64,
}

/// In the subscribe menu; `group` is the group toggled last, or empty.
#[derive(Debug)]
pub struct SubscribeState {
    pub prev_state: MainState,
    pub group: String,
    pub chat_id: i64,
    /// Who pressed the button, when known.
    pub user: Option<ChatUser>,
}

/// A user asked for access.
#[derive(Debug)]
pub struct RequestAccessState {
    pub prev_state: MainState,
    pub user: User,
}

/// A moderator grants a role to `user`; `role` is `None` while it is not chosen.
#[derive(Debug)]
pub struct GrantAccessState {
    pub prev_state: Box<State>,
    pub user: User,
    pub role: Option<UserRole>,
}

/// In the help screen.
#[derive(Debug)]
pub struct HelpState {
    pub prev_state: MainState,
    pub user: User,
}

/// State of one conversation.
#[derive(Debug)]
pub enum State {
    Start(StartState),
    Main(MainState),
    Links(LinksState),
    Notice(NoticeState),
    Subscribe(SubscribeState),
    RequestAccess(RequestAccessState),
    GrantAccess(GrantAccessState),
    Help(HelpState),
}

impl State {
    /// A fresh conversation: `Start` after a restart.
    pub fn initial() -> (r: Self)
        ensures
            r == (State::Start(StartState { restarted: true })),
    {
        State::Start(StartState { restarted: true })
    }
}

impl Default for State {
    fn default() -> (r: Self)
        ensures
            r == (State::Start(StartState { restarted: true })),
    {
        State::initial()
    }
}

impl Default for StartState {
    fn default() -> (r: Self)
        ensures
            r.restarted == false,
    {
        StartState { restarted: false }
    }
}

impl Default for MainState {
    fn default() -> (r: Self)
        ensures
            r.prev_state.restarted == false,
            r.chat_id == 0,
    {
        MainState { prev_state: StartState { restarted: false }, chat_id: 0 }
    }
}

impl Default for NoticeState {
    fn default() -> (r: Self)
        ensures
            r.prev_state == MainState::default_spec(),
            r.group@.len() == 0,
            r.chat_id == 0,
    {
        NoticeState { prev_state: MainState::default(), group: String::new(), chat_id: 0 }
    }
}

impl Default for SubscribeState {
    fn default() -> (r: Self)
        ensures
            r.prev_state == MainState::default_spec(),
            r.group@.len() == 0,
            r.chat_id == 0,
            r.user is None,
    {
        SubscribeState { prev_state: MainState::default(), group: String::new(), chat_id: 0, user: None }
    }
}

/// A user with no id, name or roles.
fn nobody() -> (r: User)
    ensures
        r.id == 0,
        r.name@.len() == 0,
        r.role@.len() == 0,
{
    User::new(0, String::new(), None, None, Vec::new(), String::new(), Vec::new())
}

impl Default for RequestAccessState {
    fn default() -> (r: Self)
        ensures
            r.prev_state == MainState::default_spec(),
            r.user.id == 0,
            r.user.name@.len() == 0,
            r.user.role@.len() == 0,
    {
        RequestAccessState { prev_state: MainState::default(), user: nobody() }
    }
}

impl Default for GrantAccessState {
    fn default() -> (r: Self)
        ensures
            *r.prev_state == (State::Start(StartState { restarted: false })),
            r.role is None,
            r.user.id == 0,
            r.user.name@.len() == 0,
            r.user.role@.len() == 0,
    {
        GrantAccessState { prev_state: Box::new(State::Start(StartState { restarted: false })), user: nobody(), role: None }
    }
}

impl MainState {
    /// The main menu of no chat, entered from a fresh start.
    pub open spec fn default_spec() -> MainState {
        MainState { prev_state: StartState { restarted: false }, chat_id: 0 }
    }
}

/// The main menu a state belongs to: `Main` itself, the main menu a `Start`
/// state leads to (of no chat), the main menu a menu state came from, or that
/// of the state a grant came from.
pub open spec fn main_of(s: State) -> MainState
    decreases s,
{
    match s {
        State::Start(st) => MainState { prev_state: st, chat_id: 0 },
        State::Main(m) => m,
        State::Links(l) => l.prev_state,
        State::Notice(n) => n.prev_state,
        State::Subscribe(b) => b.prev_state,
        State::RequestAccess(q) => q.prev_state,
        State::GrantAccess(g) => main_of(*g.prev_state),
        State::Help(h) => h.prev_state,
    }
}

impl From<State> for MainState {
    fn from(value: State) -> (r: Self)
        decreases value,
    {
        match value {
            State::Start(st) => MainState { prev_state: st, chat_id: 0 },
            State::Main(m) => m,
            State::Links(l) => l.prev_state,
            State::Notice(n) => n.prev_state,
            State::Subscribe(b) => b.prev_state,
            State::RequestAccess(q) => q.prev_state,
            State::GrantAccess(g) => MainState::from(*g.prev_state),
            State::Help(h) => h.prev_state,
        }
    }
}

impl vstd::std_specs::convert::FromSpecImpl<State> for MainState {
    open spec fn obeys_from_spec() -> bool {
        true
    }

    open spec fn from_spec(v: State) -> MainState {
        main_of(v)
    }
}

/// The state one "back" leads to; `None` from `Start`.
pub open spec fn back_of(s: State) -> Option<State> {
    match s {
        State::Start(_) => None,
        State::Main(m) => Some(State::Start(m.prev_state)),
        State::Links(l) => Some(State::Main(l.prev_state)),
        State::Notice(n) => Some(State::Main(n.prev_state)),
        State::Subscribe(b) => Some(State::Main(b.prev_state)),
        State::RequestAccess(r) => Some(State::Main(r.prev_state)),
        State::GrantAccess(g) => Some(*g.prev_state),
        State::Help(h) => Some(State::Main(h.prev_state)),
    }
}

/// Number of "back" steps from `s` to `Start`.
pub open spec fn depth(s: State) -> nat
    decreases s,
{
    match s {
        State::Start(_) => 0,
        State::Main(_) => 1,
        State::GrantAccess(g) => 1 + depth(*g.prev_state),
        _ => 2,
    }
}

/// The state `n` "back" steps from `s`, stopping at `Start`.
pub open spec fn back_n(s: State, n: nat) -> State
    decreases n,
{
    if n == 0 {
        s
    } else {
        match back_of(s) {
            Some(p) => back_n(p, (n - 1) as nat),
            None => s,
        }
    }
}

proof fn lemma_main_chain(m: MainState)
    ensures
        back_n(State::Main(m), 1) is Start,
{
    assert(back_n(State::Start(m.prev_state), 0) is Start);
}

/// Every state reaches `Start` by following its back links `depth(s)` times,
/// and every state but `Start` has a back link.
pub proof fn lemma_back_chain(s: State)
    ensures
        back_n(s, depth(s)) is Start,
        !(s is Start) ==> back_of(s) is Some,
        s is Start <==> depth(s) == 0,
    decreases s,
{
    match s {
        State::Start(_) => {},
        State::Main(m) => {
            assert(back_n(State::Start(m.prev_state), 0) is Start);
        },
        State::GrantAccess(g) => {
            lemma_back_chain(*g.prev_state);
        },
        State::Links(l) => {
            lemma_main_chain(l.prev_state);
        },
        State::Notice(n) => {
            lemma_main_chain(n.prev_state);
        },
        State::Subscribe(b) => {
            lemma_main_chain(b.prev_state);
        },
        State::RequestAccess(r) => {
            lemma_main_chain(r.prev_state);
        },
        State::Help(h) => {
            lemma_main_chain(h.prev_state);
        },
    }
}

/// Where a message goes.
#[derive(Debug)]
pub enum Recipient {
    /// A chat by id.
    Chat(i64),
    /// A chat by its stored id text.
    Named(String),
}

/// What the messenger or the store is asked to do.
#[derive(Debug)]
pub enum Effect {
    /// Send a new message.
    Send { chat_id: i64, text: String, keyboard: Option<Keyboard> },
    /// Redraw the menu message: edit it in place, or send a new one where it
    /// cannot be edited.
    Redraw { chat_id: i64, text: String, keyboard: Option<Keyboard> },
    /// Send `text` under a bold `header`; a failure is logged and the rest goes on.
    Notify { to: Recipient, header: String, text: String },
    /// Wait this many seconds.
    Pause { secs: u64 },
    /// Put the conversation of `chat_id` in the grant step for `user`, coming
    /// from the state it is in (see `await_grant`).
    AwaitGrant { chat_id: i64, user: User },
    /// Write the whole user collection.
    SaveUsers,
    /// Write the whole group collection.
    SaveGroups,
}

/// Why a step failed.
#[derive(Debug, PartialEq, Eq)]
pub enum Failure {
    /// The message came from no user.
    NoSender,
    /// No user is stored under this chat id.
    UnknownUser(i64),
    /// No moderator is stored to grant access.
    NoModerator,
    /// The link tree could not be read.
    NoLinks,
}

/// The stored collections a step reads and changes.
#[derive(Debug)]
pub struct Store {
    pub users: UserTable,
    pub groups: Subscriptions,
    pub roles: UserRoles,
}

/// Result of one step: the next state, the effects in order, and a failure to
/// report after them, if any.
#[derive(Debug)]
pub struct Outcome {
    pub state: State,
    pub effects: Vec<Effect>,
    pub failure: Option<Failure>,
}

/// Whether `k` holds `rows`, or there is no keyboard and no rows.
pub open spec fn keyboard_is(k: Option<Keyboard>, rows: Option<Seq<Seq<ButtonView>>>) -> bool {
    match (k, rows) {
        (Some(k), Some(v)) => rows_of(k@) == v,
        (None, None) => true,
        _ => false,
    }
}

/// Whether `e` sends `text` with `rows` to `chat`.
pub open spec fn sends(e: Effect, chat: i64, text: Seq<char>, rows: Option<Seq<Seq<ButtonView>>>) -> bool {
    e matches Effect::Send { chat_id, text: t, keyboard } && chat_id == chat && t@ == text && keyboard_is(keyboard, rows)
}

/// Whether `e` redraws the menu of `chat` with `text` and `rows`.
pub open spec fn redraws(e: Effect, chat: i64, text: Seq<char>, rows: Option<Seq<Seq<ButtonView>>>) -> bool {
    e matches Effect::Redraw { chat_id, text: t, keyboard } && chat_id == chat && t@ == text && keyboard_is(keyboard, rows)
}

/// Whether `r` returns to the main menu at `prev` and redraws it for a user with `roles`.
pub open spec fn reloads_main(r: Outcome, prev: MainState, chat_id: i64, roles: Seq<UserRole>) -> bool {
    &&& r.state == State::Main(prev)
    &&& r.effects@.len() == 1
    &&& redraws(r.effects@[0], chat_id, main_text(), Some(main_layout(standard_items(), roles)))
    &&& r.failure is None
}

/// Returns to the main menu `prev` and redraws it as `user` sees it.
pub fn reload(prev: MainState, chat_id: i64, user: &User) -> (r: Outcome)
    ensures
        reloads_main(r, prev, chat_id, user.role@),
{
    let (text, keyboard) = crate::menu::view(user);
    let mut effects = Vec::new();
    effects.push(Effect::Redraw { chat_id, text, keyboard: Some(keyboard) });
    Outcome { state: State::Main(prev), effects, failure: None }
}

/// Whether `r` enters the main menu at `main` and sends it for a user with `roles`.
pub open spec fn enters_main(r: Outcome, main: MainState, chat_id: i64, roles: Seq<UserRole>) -> bool {
    &&& r.state == State::Main(main)
    &&& r.effects@.len() == 1
    &&& sends(r.effects@[0], chat_id, main_text(), Some(main_layout(standard_items(), roles)))
    &&& r.failure is None
}

/// Enters the main menu `main` and sends it as `user` sees it.
pub fn enter(main: MainState, chat_id: i64, user: &User) -> (r: Outcome)
    ensures
        enters_main(r, main, chat_id, user.role@),
{
    let (text, keyboard) = crate::menu::view(user);
    let mut effects = Vec::new();
    effects.push(Effect::Send { chat_id, text, keyboard: Some(keyboard) });
    Outcome { state: State::Main(main), effects, failure: None }
}

/// Text that says goodbye to the user named `name`.
pub open spec fn bye_text(name: Seq<char>) -> Seq<char> {
    "Bye, "@ + name
}

/// Leaves the main menu for its `Start` state and says goodbye in place of the menu.
pub fn exit(main: MainState, chat_id: i64, user: &User) -> (r: Outcome)
    ensures
        r.state == State::Start(main.prev_state),
        r.effects@.len() == 1,
        redraws(r.effects@[0], chat_id, bye_text(user.name@), None),
        r.failure is None,
{
    let mut effects = Vec::new();
    effects.push(Effect::Redraw { chat_id, text: crate::text::joined("Bye, ", user.name.as_str()), keyboard: None });
    Outcome { state: State::Start(main.prev_state), effects, failure: None }
}

} // verus!
