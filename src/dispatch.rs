//! One step of a conversation: from its state and an incoming message or
//! button press to the next state and what to do.
use vstd::prelude::*;
use crate::db::{fresh_user, id_key, refreshed, user, user_insert};
use crate::grant_access::{cancel, cancel_text, grant, grant_done, grant_parsed, head_part, GrantAccessMenu};
use crate::request_access::access_requested;
use crate::group_menu::{after_slash, group_parsed, GroupPick};
use crate::help::shows_help;
use crate::links::{goes_back, links_parsed, opens, shows_links, Links, LinksMenu};
use crate::loc::loc_tag;
use crate::menu::{is_member, is_sender, main_layout, main_parsed, main_text, member_roles, sender_roles, standard_items, MainMenu};
use crate::notice::{noticed, opt_slice_text, shows_notice};
use crate::role::UserRole;
use crate::states::{
    bye_text, enter, enters_main, exit, redraws, reload, reloads_main, sends, Effect, Failure,
    MainState, NoticeState, Outcome, Recipient, RequestAccessState, StartState, State, Store,
    SubscribeState,
};
use crate::subscribe::subscribed;
use crate::table::{group_entries, has_key, key_only_at, lookup, role_entries, user_entries};
use crate::db::insert_subscription_done;
use crate::table::Subscriptions;
use crate::text::{decimal_text, i64_text, joined, lower_of, lowercase, same_text};
use crate::user::{same_profile, shares_role, ChatUser, User};

verus! {

/// Name that heads the bot's own notes.
pub const BOT_NAME: &'static str = "TKZ Office Notice bot";

/// The stored user of a conversation, if any.
pub open spec fn actor_of(s: Store, chat_id: i64) -> Option<User> {
    lookup(user_entries(s.users), id_key(chat_id))
}

/// Whether `r` refuses a menu to the user named `name`, staying in the main menu `main`.
pub open spec fn refuses(r: Outcome, main: MainState, chat_id: i64, name: Seq<char>, why: Seq<char>) -> bool {
    &&& r.state == State::Main(main)
    &&& r.effects@.len() == 1
    &&& r.effects@[0] matches Effect::Notify { to: Recipient::Chat(c), header: h, text: t }
        && c == chat_id && h@ == BOT_NAME@ && t@ == name + why
    &&& r.failure is None
}

/// Why the links menu is refused.
pub open spec fn no_links_text() -> Seq<char> {
    ", you can't access shared resources according to your roles"@
}

/// Why the notice menu is refused.
pub open spec fn no_notice_text() -> Seq<char> {
    ", you can't send notice's according to your roles"@
}

/// Why the subscribe menu is refused.
pub open spec fn no_subscribe_text() -> Seq<char> {
    ", you can't subscribe for notice's according to your roles"@
}

/// Text of the reply to an unknown command.
pub open spec fn unknown_text(raw: Seq<char>) -> Seq<char> {
    "Unknown command '"@ + raw + "'"@
}

/// Whether `r` opens the links menu from `main` at the root of `root`.
pub open spec fn links_entered(r: Outcome, main: MainState, chat_id: i64, level: Seq<char>, root: Option<Links>) -> bool {
    match root {
        Some(t) => shows_links(r, main, chat_id, level, Seq::empty(), t),
        None => r.state == State::Main(main) && r.effects@.len() == 0 && r.failure == Some(Failure::NoLinks),
    }
}

/// What command `cmd` of the main menu `main` yields for `actor`; `typed` tells
/// a typed message from a button press, whose unknown payloads get a short reply.
pub open spec fn main_step(
    r: Outcome,
    main: MainState,
    chat_id: i64,
    cmd: MainMenu,
    typed: bool,
    raw: Seq<char>,
    actor: User,
    root: Option<Links>,
    s0: Store,
    s1: Store,
) -> bool {
    match cmd {
        MainMenu::RequestAccess => s1 == s0 && exists|u: User|
            same_profile(u, actor) && access_requested(
                r,
                RequestAccessState { prev_state: main, user: u },
                chat_id,
                user_entries(s0.users),
                role_entries(s0.roles),
            ),
        MainMenu::Links(level) => s1 == s0 && if shares_role(actor.role@, member_roles()) {
            links_entered(r, main, chat_id, level@, root)
        } else {
            refuses(r, main, chat_id, actor.name@, no_links_text())
        },
        MainMenu::Notice => s1 == s0 && if shares_role(actor.role@, sender_roles()) {
            r.state matches State::Notice(n) && n.prev_state == main && n.chat_id == chat_id && n.group@.len() == 0
                && shows_notice(r, n, chat_id, group_entries(s0.groups))
        } else {
            refuses(r, main, chat_id, actor.name@, no_notice_text())
        },
        MainMenu::Subscribe => if shares_role(actor.role@, member_roles()) {
            &&& s1.users == s0.users && s1.roles == s0.roles
            &&& r.state matches State::Subscribe(b) && b.prev_state == main && b.chat_id == chat_id && b.group@.len() == 0
                && subscribed(r, b, chat_id, user_entries(s0.users), group_entries(s0.groups), group_entries(s1.groups))
        } else {
            s1 == s0 && refuses(r, main, chat_id, actor.name@, no_subscribe_text())
        },
        MainMenu::Help => s1 == s0 && shows_help(r, main, chat_id, actor),
        MainMenu::Done => {
            &&& s1 == s0
            &&& r.state == State::Start(main.prev_state)
            &&& r.effects@.len() == 1
            &&& redraws(r.effects@[0], chat_id, bye_text(actor.name@), None)
            &&& r.failure is None
        },
        MainMenu::Unknown => s1 == s0 && if typed {
            &&& r.state == State::Main(main)
            &&& r.effects@.len() == 3
            &&& sends(r.effects@[0], chat_id, unknown_text(raw), None)
            &&& r.effects@[1] == Effect::Pause { secs: 2 }
            &&& redraws(r.effects@[2], chat_id, main_text(), Some(main_layout(standard_items(), actor.role@)))
            &&& r.failure is None
        } else {
            unknown_reply(r, State::Main(main), chat_id, raw)
        },
    }
}

/// Whether `r` stays in `state` and answers that `raw` is an unknown command.
pub open spec fn unknown_reply(r: Outcome, state: State, chat_id: i64, raw: Seq<char>) -> bool {
    &&& r.state == state
    &&& r.effects@.len() == 1
    &&& sends(r.effects@[0], chat_id, unknown_text(raw), None)
    &&& r.failure is None
}

/// Stays in `state` and answers that `raw` is an unknown command.
pub fn reply_unknown(state: State, chat_id: i64, raw: &str) -> (r: Outcome)
    ensures
        unknown_reply(r, state, chat_id, raw@),
{
    let a = joined("Unknown command '", raw);
    let text = joined(a.as_str(), "'");
    let mut effects = Vec::new();
    effects.push(Effect::Send { chat_id, text, keyboard: None });
    Outcome { state, effects, failure: None }
}

fn refuse(main: MainState, chat_id: i64, actor: &User, why: &str) -> (r: Outcome)
    ensures
        refuses(r, main, chat_id, actor.name@, why@),
{
    let mut effects = Vec::new();
    effects.push(Effect::Notify {
        to: Recipient::Chat(chat_id),
        header: String::from_str(BOT_NAME),
        text: joined(actor.name.as_str(), why),
    });
    Outcome { state: State::Main(main), effects, failure: None }
}

/// Carries out command `cmd` of the main menu `main` for `actor`.
pub fn main_command(
    main: MainState,
    chat_id: i64,
    cmd: MainMenu,
    typed: bool,
    raw: &str,
    actor: &User,
    from: Option<ChatUser>,
    store: &mut Store,
    root: Option<Links>,
) -> (r: Outcome)
    ensures
        main_step(r, main, chat_id, cmd, typed, raw@, *actor, root, *old(store), *final(store)),
{
    match cmd {
        MainMenu::RequestAccess => {
            let u = actor.profile();
            let ghost uu = u;
            let r = crate::request_access::enter(RequestAccessState { prev_state: main, user: u }, chat_id, &mut store.users, &store.roles);
            assert(same_profile(uu, *actor));
            r
        },
        MainMenu::Links(level) => {
            if is_member(actor) {
                crate::links::enter(main, chat_id, level, root)
            } else {
                refuse(main, chat_id, actor, ", you can't access shared resources according to your roles")
            }
        },
        MainMenu::Notice => {
            if is_sender(actor) {
                crate::notice::enter(NoticeState { prev_state: main, group: String::new(), chat_id }, chat_id, &store.groups)
            } else {
                refuse(main, chat_id, actor, ", you can't send notice's according to your roles")
            }
        },
        MainMenu::Subscribe => {
            if is_member(actor) {
                let state = SubscribeState { prev_state: main, group: String::new(), chat_id, user: from };
                crate::subscribe::enter(state, chat_id, &store.users, &mut store.groups)
            } else {
                refuse(main, chat_id, actor, ", you can't subscribe for notice's according to your roles")
            }
        },
        MainMenu::Help => crate::help::enter(main, chat_id, actor),
        MainMenu::Done => exit(main, chat_id, actor),
        MainMenu::Unknown => {
            if typed {
                let a = joined("Unknown command '", raw);
                let text = joined(a.as_str(), "'");
                let shown = reload(main, chat_id, actor);
                let Outcome { state, effects: mut redraw, failure: _ } = shown;
                let mut effects = Vec::new();
                effects.push(Effect::Send { chat_id, text, keyboard: None });
                effects.push(Effect::Pause { secs: 2 });
                effects.append(&mut redraw);
                Outcome { state, effects, failure: None }
            } else {
                reply_unknown(State::Main(main), chat_id, raw)
            }
        },
    }
}

/// Name a user is stored under: first name, then last name when there is one.
pub open spec fn display_name(u: ChatUser) -> Seq<char> {
    match u.last_name {
        Some(l) => u.first_name@ + " "@ + l@,
        None => u.first_name@,
    }
}

/// Contact a user is stored with: the user name, or `-`.
pub open spec fn contact_of(u: ChatUser) -> Seq<char> {
    match u.username {
        Some(n) => n@,
        None => "-"@,
    }
}

/// Name and contact of a platform user, as stored.
pub fn profile_of(u: &ChatUser) -> (r: (String, String))
    ensures
        r.0@ == display_name(*u),
        r.1@ == contact_of(*u),
{
    let name = match &u.last_name {
        Some(l) => {
            let a = joined(u.first_name.as_str(), " ");
            joined(a.as_str(), l.as_str())
        },
        None => u.first_name.clone(),
    };
    let contact = match &u.username {
        Some(n) => n.clone(),
        None => String::from_str("-"),
    };
    (name, contact)
}

/// Text asking for `/start`.
pub open spec fn type_start_text() -> Seq<char> {
    "Please type '/Start' to begin"@
}

/// Text sent when a message has no sender.
pub open spec fn no_user_text() -> Seq<char> {
    "Error, no user"@
}

/// What a message `text` in the entry state `state` yields. The sender is
/// recorded as seen at `now` (new ones as guests); `/start`, in any letter
/// case, opens the main menu.
pub open spec fn start_step(
    r: Outcome,
    state: StartState,
    chat_id: i64,
    text: Seq<char>,
    from: Option<ChatUser>,
    now: Seq<char>,
    s0: Store,
    s1: Store,
) -> bool {
    match from {
        None => {
            &&& s1 == s0
            &&& r.state == State::Start(StartState { restarted: false })
            &&& r.effects@.len() == 1
            &&& sends(r.effects@[0], chat_id, no_user_text(), None)
            &&& r.failure is None
        },
        Some(u) => {
            &&& s1.groups == s0.groups && s1.roles == s0.roles
            &&& has_key(user_entries(s0.users), id_key(u.id)) ==> exists|i: int|
                key_only_at(user_entries(s0.users), id_key(u.id), i)
                && user_entries(s1.users).len() == user_entries(s0.users).len()
                && (forall|j: int| 0 <= j < user_entries(s0.users).len() && j != i
                    ==> user_entries(s1.users)[j] == user_entries(s0.users)[j])
                && user_entries(s1.users)[i].0 == id_key(u.id)
                && refreshed(user_entries(s0.users)[i].1, user_entries(s1.users)[i].1, display_name(u), Some(contact_of(u)), None, now)
            &&& !has_key(user_entries(s0.users), id_key(u.id)) ==> {
                &&& user_entries(s1.users).drop_last() == user_entries(s0.users)
                &&& user_entries(s1.users).last().0 == id_key(u.id)
                &&& user_entries(s1.users).len() == user_entries(s0.users).len() + 1
                &&& fresh_user(user_entries(s1.users).last().1, u.id, display_name(u), Some(contact_of(u)), None, now, seq![UserRole::Guest])
            }
            &&& r.effects@.len() >= 1
            &&& r.effects@[0] is SaveUsers
            &&& if lower_of(text) == "/start"@ {
                &&& actor_of(s1, u.id) is Some
                &&& r.state == State::Main(MainState { prev_state: StartState { restarted: false }, chat_id })
                &&& r.effects@.len() == 2
                &&& sends(r.effects@[1], chat_id, main_text(), Some(main_layout(standard_items(), actor_of(s1, u.id)->0.role@)))
                &&& r.failure is None
            } else {
                r.state == State::Start(state) && r.effects@.len() == 2 && sends(r.effects@[1], chat_id, type_start_text(), None)
                    && r.failure is None
            }
        },
    }
}

/// Handles a message `text` in the entry state: records the sender as seen
/// at `now`, new ones as guests, and opens the main menu on `/start`.
pub fn start(state: StartState, chat_id: i64, text: &str, from: Option<ChatUser>, store: &mut Store, now: String) -> (r: Outcome)
    ensures
        start_step(r, state, chat_id, text@, from, now@, *old(store), *final(store)),
{
    let u = match from {
        None => {
            let mut effects = Vec::new();
            effects.push(Effect::Send { chat_id, text: String::from_str("Error, no user"), keyboard: None });
            return Outcome { state: State::Start(StartState { restarted: false }), effects, failure: None };
        },
        Some(u) => u,
    };
    let (name, contact) = profile_of(&u);
    let guest = [UserRole::Guest];
    assert(guest@ =~= seq![UserRole::Guest]);
    let ghost e0 = user_entries(store.users);
    user_insert(&mut store.users, u.id, name, Some(contact), None, now, &guest);
    proof {
        let e1 = user_entries(store.users);
        if has_key(e0, id_key(u.id)) {
            let i = choose|i: int| key_only_at(e0, id_key(u.id), i) && e1.len() == e0.len() && e1[i].0 == id_key(u.id);
            assert(e1[i].0 == id_key(u.id));
        } else {
            assert(e1[e1.len() - 1].0 == id_key(u.id));
        }
        assert(has_key(e1, id_key(u.id)));
    }
    let mut effects = Vec::new();
    effects.push(Effect::SaveUsers);
    let folded = lowercase(text);
    if same_text(folded.as_str(), "/start") {
        match user(&store.users, u.id) {
            Some(a) => {
                let shown = enter(MainState { prev_state: StartState { restarted: false }, chat_id }, chat_id, a);
                let Outcome { state: next, effects: mut more, failure: _ } = shown;
                effects.append(&mut more);
                Outcome { state: next, effects, failure: None }
            },
            None => Outcome { state: State::Start(state), effects, failure: Some(Failure::UnknownUser(u.id)) },
        }
    } else {
        effects.push(Effect::Send { chat_id, text: String::from_str("Please type '/Start' to begin"), keyboard: None });
        Outcome { state: State::Start(state), effects, failure: None }
    }
}

/// What a typed message `text` yields in `state` for the stored user `a`.
pub open spec fn typed_step(r: Outcome, state: State, chat_id: i64, text: Seq<char>, a: User, root: Option<Links>, s0: Store, s1: Store) -> bool {
    match state {
        State::Start(_) => s1 == s0 && enters_main(r, MainState { prev_state: StartState { restarted: false }, chat_id }, chat_id, a.role@),
        State::Main(m) => exists|c: MainMenu| main_parsed(lower_of(text), text, c) && main_step(r, m, chat_id, c, true, text, a, root, s0, s1),
        State::Links(l) => s1 == s0 && reloads_main(r, l.prev_state, chat_id, a.role@),
        State::Notice(n) => s1 == s0 && reloads_main(r, n.prev_state, chat_id, a.role@),
        State::Subscribe(b) => s1 == s0 && reloads_main(r, b.prev_state, chat_id, a.role@),
        State::RequestAccess(q) => s1 == s0 && reloads_main(r, q.prev_state, chat_id, a.role@),
        State::Help(h) => s1 == s0 && reloads_main(r, h.prev_state, chat_id, a.role@),
        State::GrantAccess(g) => {
            &&& s1 == s0
            &&& r.state == *g.prev_state
            &&& r.effects@.len() == 1
            &&& redraws(r.effects@[0], chat_id, main_text(), Some(main_layout(standard_items(), a.role@)))
            &&& r.failure is None
        },
    }
}

/// Whether `r` fails for want of a stored user and changes nothing.
pub open spec fn lacks_user(r: Outcome, state: State, chat_id: i64, s0: Store, s1: Store) -> bool {
    &&& s1 == s0
    &&& r.state == state
    &&& r.effects@.len() == 0
    &&& r.failure == Some(Failure::UnknownUser(chat_id))
}

/// What a typed message `text` yields in `state`: a failure when the
/// conversation has no stored user, else `typed_step` for that user.
pub open spec fn typed_done(r: Outcome, state: State, chat_id: i64, text: Seq<char>, root: Option<Links>, s0: Store, s1: Store) -> bool {
    match actor_of(s0, chat_id) {
        None => lacks_user(r, state, chat_id, s0, s1),
        Some(a) => exists|a2: User| same_profile(a2, a) && typed_step(r, state, chat_id, text, a2, root, s0, s1),
    }
}

/// Handles a message typed in `state`: the main menu reads it as a command,
/// the other menus go back to the main menu.
pub fn command(state: State, chat_id: i64, text: &str, from: Option<ChatUser>, store: &mut Store, root: Option<Links>) -> (r: Outcome)
    ensures
        typed_done(r, state, chat_id, text@, root, *old(store), *final(store)),
{
    let actor = match user(&store.users, chat_id) {
        Some(u) => u.profile(),
        None => {
            return Outcome { state, effects: Vec::new(), failure: Some(Failure::UnknownUser(chat_id)) };
        },
    };
    let ghost a2 = actor;
    let r = match state {
        State::Start(_) => enter(MainState { prev_state: StartState { restarted: false }, chat_id }, chat_id, &actor),
        State::Main(m) => {
            let cmd = MainMenu::parse(text, loc_tag(None));
            main_command(m, chat_id, cmd, true, text, &actor, from, store, root)
        },
        State::Links(l) => reload(l.prev_state, chat_id, &actor),
        State::Notice(n) => reload(n.prev_state, chat_id, &actor),
        State::Subscribe(b) => reload(b.prev_state, chat_id, &actor),
        State::RequestAccess(q) => reload(q.prev_state, chat_id, &actor),
        State::Help(h) => reload(h.prev_state, chat_id, &actor),
        State::GrantAccess(g) => {
            let (text, keyboard) = crate::menu::view(&actor);
            let mut effects = Vec::new();
            effects.push(Effect::Redraw { chat_id, text, keyboard: Some(keyboard) });
            Outcome { state: *g.prev_state, effects, failure: None }
        },
    };
    r
}

/// What a button press with payload `data` yields in `state`, apart from
/// granting roles, for the stored user `a`.
pub open spec fn pressed_step(
    r: Outcome,
    state: State,
    chat_id: i64,
    data: Seq<char>,
    from: Option<ChatUser>,
    a: User,
    root: Option<Links>,
    s0: Store,
    s1: Store,
) -> bool {
    match state {
        State::Main(m) => exists|c: MainMenu| main_parsed(lower_of(data), data, c) && main_step(r, m, chat_id, c, false, data, a, root, s0, s1),
        State::Links(l) => s1 == s0 && exists|c: LinksMenu|
            links_parsed(lower_of(data), data, c) && match c {
                LinksMenu::Link(id) => opens(r, l, id@, root),
                LinksMenu::Done => goes_back(r, l, a.role@, root),
                LinksMenu::Unknown(_) => unknown_reply(r, State::Links(l), chat_id, data),
            },
        State::Notice(n) => s1 == s0 && exists|c: GroupPick|
            group_parsed(lower_of(after_slash(data)), data, c) && match c {
                GroupPick::Group(g) => shows_notice(r, NoticeState { prev_state: n.prev_state, group: g, chat_id: n.chat_id }, chat_id, group_entries(s0.groups)),
                GroupPick::Unknown(_) => shows_notice(r, n, chat_id, group_entries(s0.groups)),
                GroupPick::Done => reloads_main(r, n.prev_state, chat_id, a.role@),
            },
        State::Subscribe(b) => exists|c: GroupPick|
            group_parsed(lower_of(after_slash(data)), data, c) && match c {
                GroupPick::Group(g) => s1.users == s0.users && s1.roles == s0.roles && subscribed(
                    r,
                    SubscribeState { prev_state: b.prev_state, group: g, chat_id: b.chat_id, user: from },
                    chat_id,
                    user_entries(s0.users),
                    group_entries(s0.groups),
                    group_entries(s1.groups),
                ),
                GroupPick::Unknown(_) => s1 == s0 && (r.state matches State::Subscribe(x) && x.prev_state == b.prev_state
                    && x.chat_id == b.chat_id && x.group@.len() == 0
                    && subscribed(r, x, chat_id, user_entries(s0.users), group_entries(s0.groups), group_entries(s1.groups))),
                GroupPick::Done => s1 == s0 && reloads_main(r, b.prev_state, chat_id, a.role@),
            },
        State::Help(h) => s1 == s0 && reloads_main(r, h.prev_state, chat_id, a.role@),
        State::RequestAccess(q) => s1 == s0 && reloads_main(r, q.prev_state, chat_id, a.role@),
        _ => s1 == s0 && unknown_reply(r, state, chat_id, data),
    }
}

/// What a button press with payload `data` yields in `state` for the stored
/// user `a`: a role choice is granted from any state, a cancel ends a grant,
/// anything else goes to the menu of the state.
pub open spec fn button_step(
    r: Outcome,
    state: State,
    chat_id: i64,
    data: Seq<char>,
    from: Option<ChatUser>,
    a: User,
    root: Option<Links>,
    s0: Store,
    s1: Store,
) -> bool {
    exists|g: GrantAccessMenu|
        grant_parsed(lower_of(data.drop_first()), lower_of(head_part(data.drop_first())), data, g) && match g {
            GrantAccessMenu::Role(role, target) => s1.groups == s0.groups && s1.roles == s0.roles
                && grant_done(r, state, chat_id, a, role, target, user_entries(s0.users), user_entries(s1.users), role_entries(s0.roles)),
            GrantAccessMenu::Done => match state {
                State::GrantAccess(ga) => s1 == s0 && r.state == *ga.prev_state && r.effects@.len() == 1
                    && redraws(r.effects@[0], chat_id, cancel_text(ga.user.name@), None) && r.failure is None,
                _ => pressed_step(r, state, chat_id, data, from, a, root, s0, s1),
            },
            GrantAccessMenu::Unknown(_) => pressed_step(r, state, chat_id, data, from, a, root, s0, s1),
        }
}

/// What a button press with payload `data` yields in `state`: a failure when
/// the conversation has no stored user, else `button_step` for that user.
pub open spec fn button_done(
    r: Outcome,
    state: State,
    chat_id: i64,
    data: Seq<char>,
    from: Option<ChatUser>,
    root: Option<Links>,
    s0: Store,
    s1: Store,
) -> bool {
    match actor_of(s0, chat_id) {
        None => lacks_user(r, state, chat_id, s0, s1),
        Some(a) => exists|a2: User| same_profile(a2, a) && button_step(r, state, chat_id, data, from, a2, root, s0, s1),
    }
}

fn pressed(state: State, chat_id: i64, data: &str, from: Option<ChatUser>, actor: &User, store: &mut Store, root: Option<Links>) -> (r: Outcome)
    ensures
        pressed_step(r, state, chat_id, data@, from, *actor, root, *old(store), *final(store)),
{
    match state {
        State::Main(m) => {
            let cmd = MainMenu::parse(data, loc_tag(None));
            main_command(m, chat_id, cmd, false, data, actor, from, store, root)
        },
        State::Links(l) => {
            match LinksMenu::parse(data, loc_tag(None)) {
                LinksMenu::Link(id) => crate::links::open(l, id, root),
                LinksMenu::Done => crate::links::back(l, actor, root),
                LinksMenu::Unknown(_) => reply_unknown(State::Links(l), chat_id, data),
            }
        },
        State::Notice(n) => {
            match GroupPick::parse(data, loc_tag(None)) {
                GroupPick::Group(g) => {
                    let next = NoticeState { prev_state: n.prev_state, group: g, chat_id: n.chat_id };
                    crate::notice::enter(next, chat_id, &store.groups)
                },
                GroupPick::Unknown(_) => crate::notice::enter(n, chat_id, &store.groups),
                GroupPick::Done => reload(n.prev_state, chat_id, actor),
            }
        },
        State::Subscribe(b) => {
            match GroupPick::parse(data, loc_tag(None)) {
                GroupPick::Group(g) => {
                    let next = SubscribeState { prev_state: b.prev_state, group: g, chat_id: b.chat_id, user: from };
                    crate::subscribe::enter(next, chat_id, &store.users, &mut store.groups)
                },
                GroupPick::Unknown(_) => {
                    let next = SubscribeState { prev_state: b.prev_state, group: String::new(), chat_id: b.chat_id, user: b.user };
                    crate::subscribe::enter(next, chat_id, &store.users, &mut store.groups)
                },
                GroupPick::Done => reload(b.prev_state, chat_id, actor),
            }
        },
        State::Help(h) => reload(h.prev_state, chat_id, actor),
        State::RequestAccess(q) => reload(q.prev_state, chat_id, actor),
        other => reply_unknown(other, chat_id, data),
    }
}

/// Handles a button press with payload `data` in `state`: a failure when the
/// conversation has no stored user, else `button_step` for that user.
pub fn callback(state: State, chat_id: i64, data: &str, from: Option<ChatUser>, store: &mut Store, root: Option<Links>) -> (r: Outcome)
    ensures
        button_done(r, state, chat_id, data@, from, root, *old(store), *final(store)),
{
    let actor = match user(&store.users, chat_id) {
        Some(u) => u.profile(),
        None => {
            return Outcome { state, effects: Vec::new(), failure: Some(Failure::UnknownUser(chat_id)) };
        },
    };
    match GrantAccessMenu::parse(data, loc_tag(None)) {
        GrantAccessMenu::Role(role, target) => grant(state, chat_id, &actor, role, target, &mut store.users, &store.roles),
        GrantAccessMenu::Done => match state {
            State::GrantAccess(ga) => cancel(ga, chat_id),
            other => pressed(other, chat_id, data, from, &actor, store, root),
        },
        GrantAccessMenu::Unknown(_) => pressed(state, chat_id, data, from, &actor, store, root),
    }
}

/// Text of a message, or the empty text.
pub open spec fn text_or_empty(text: Option<String>) -> Seq<char> {
    match text {
        Some(t) => t@,
        None => Seq::empty(),
    }
}

/// What a message in a private chat yields in `state`: `start_step` in the
/// entry state, `noticed` in the notice menu, `typed_done` elsewhere.
pub open spec fn message_done(
    r: Outcome,
    state: State,
    chat_id: i64,
    text: Option<String>,
    from: Option<ChatUser>,
    root: Option<Links>,
    now: Seq<char>,
    s0: Store,
    s1: Store,
) -> bool {
    match state {
        State::Start(s) => start_step(r, s, chat_id, text_or_empty(text), from, now, s0, s1),
        State::Notice(n) => match actor_of(s0, chat_id) {
            None => lacks_user(r, state, chat_id, s0, s1),
            Some(a) => s1 == s0 && noticed(
                r,
                n,
                chat_id,
                match text {
                    Some(t) => Some(t@),
                    None => None,
                },
                a.name@,
                group_entries(s0.groups),
            ),
        },
        _ => typed_done(r, state, chat_id, text_or_empty(text), root, s0, s1),
    }
}

/// Handles a message in a private chat in `state`: the entry state waits for
/// `/start`, the notice menu takes the text of a notice, the other states read
/// it as `command` does.
pub fn on_message(
    state: State,
    chat_id: i64,
    text: Option<String>,
    from: Option<ChatUser>,
    store: &mut Store,
    root: Option<Links>,
    now: String,
) -> (r: Outcome)
    ensures
        message_done(r, state, chat_id, text, from, root, now@, *old(store), *final(store)),
{
    let body = match &text {
        Some(t) => t.clone(),
        None => String::new(),
    };
    match state {
        State::Start(s) => start(s, chat_id, body.as_str(), from, store, now),
        State::Notice(n) => {
            match user(&store.users, chat_id) {
                Some(a) => {
                    let t = match &text {
                        Some(t) => Some(t.as_str()),
                        None => None,
                    };
                    crate::notice::notice(n, chat_id, t, a, &store.groups)
                },
                None => Outcome { state: State::Notice(n), effects: Vec::new(), failure: Some(Failure::UnknownUser(chat_id)) },
            }
        },
        other => command(other, chat_id, body.as_str(), from, store, root),
    }
}

/// Whether a message in a group chat asks for the chat's id: it begins with `/chat`.
pub open spec fn asks_chat_id(text: Seq<char>) -> bool {
    text.len() >= 5 && text.subrange(0, 5) == "/chat"@
}

/// Reply to a message in a group chat: the chat's id when asked, else nothing.
pub fn chat_message_handler(chat_id: i64, text: Option<&str>) -> (r: Option<String>)
    ensures
        r is Some <==> (text matches Some(t) && asks_chat_id(t@)),
        r matches Some(x) ==> x@ == "Chat id="@ + decimal_text(chat_id as int),
{
    match text {
        Some(t) => {
            if t.unicode_len() >= 5 && same_text(t.substring_char(0, 5), "/chat") {
                Some(joined("Chat id=", i64_text(chat_id).as_str()))
            } else {
                None
            }
        },
        None => None,
    }
}

/// Title a chat is registered under: its title, else its user name, else its id.
pub open spec fn chat_title(id: i64, title: Option<Seq<char>>, username: Option<Seq<char>>) -> Seq<char> {
    match title {
        Some(t) => t,
        None => match username {
            Some(u) => u,
            None => decimal_text(id as int),
        },
    }
}

/// The bot was added to chat `chat_id`: registers it as a group keyed by its
/// id, unless it is registered already, and saves the groups when it was added.
pub fn new_chat_member(groups: &mut Subscriptions, chat_id: i64, title: Option<&str>, username: Option<&str>) -> (r: Vec<Effect>)
    ensures
        insert_subscription_done(*old(groups), *final(groups), decimal_text(chat_id as int), chat_title(chat_id, opt_slice_text(title), opt_slice_text(username))),
        r@.len() == (if has_key(group_entries(*old(groups)), decimal_text(chat_id as int)) { 0int } else { 1int }),
        r@.len() == 1 ==> r@[0] is SaveGroups,
{
    let key = i64_text(chat_id);
    let name = match title {
        Some(t) => String::from_str(t),
        None => match username {
            Some(u) => String::from_str(u),
            None => key.clone(),
        },
    };
    let mut effects = Vec::new();
    if crate::db::insert_subscription(groups, key.as_str(), name.as_str()) {
        effects.push(Effect::SaveGroups);
    }
    effects
}

} // verus!
