use indexmap::IndexMap;
use notice_bot::dispatch::{callback, chat_message_handler, new_chat_member, on_message, profile_of};
use notice_bot::keyboard::{Button, ButtonKind};
use notice_bot::links::{Link, Links};
use notice_bot::role::{UserRole, UserRoleDb};
use notice_bot::states::{Effect, Failure, GrantAccessState, RequestAccessState, LinksState, MainState, NoticeState, Outcome, Recipient, StartState, State, Store, SubscribeState};
use notice_bot::subscription::Subscription;
use notice_bot::table::{LinkTable, UserTable};
use notice_bot::user::{ChatUser, User};

fn person(id: i64, name: &str, roles: &[UserRole]) -> User {
    User::new(id, name.to_string(), None, None, Vec::new(), String::new(), roles.to_vec())
}

fn chat_user(id: i64, first: &str) -> ChatUser {
    ChatUser { id, first_name: first.to_string(), last_name: None, username: None }
}

fn store_with(users: Vec<User>) -> Store {
    let mut table = UserTable::new();
    for u in users {
        table.insert(u.id.to_string(), u);
    }
    let mut roles = IndexMap::new();
    for (key, title, role, hidden) in [
        ("member", "Member", UserRole::Member, false),
        ("sender", "Sender", UserRole::Sender, false),
        ("admin", "Administrator", UserRole::Admin, true),
    ] {
        roles.insert(key.to_string(), UserRoleDb { hidden, id: None, title: title.to_string(), role });
    }
    Store { users: table, groups: IndexMap::new(), roles }
}

fn add_group(store: &mut Store, id: &str, title: &str, chat: Option<&str>, members: Vec<User>) {
    let mut table = UserTable::new();
    for u in members {
        table.insert(u.id.to_string(), u);
    }
    store.groups.insert(id.to_string(), Subscription { id: chat.map(|c| c.to_string()), title: title.to_string(), members: table });
}

fn labels(k: &[Vec<Button>]) -> Vec<Vec<String>> {
    k.iter().map(|row| row.iter().map(|b| b.text.clone()).collect()).collect()
}

fn payload(b: &Button) -> String {
    match &b.kind {
        ButtonKind::Callback(p) => p.clone(),
        ButtonKind::Url(u) => u.clone(),
    }
}

fn main_of(chat_id: i64) -> MainState {
    MainState { prev_state: StartState { restarted: false }, chat_id }
}

fn roles_of(store: &Store, id: i64) -> Vec<UserRole> {
    let mut i = 0;
    while let Some((_, u)) = store.users.entry(i) {
        if u.id == id {
            return u.role.clone();
        }
        i += 1;
    }
    panic!("user {} is not stored", id);
}

fn is_member_of(store: &Store, group: &str, id: i64) -> bool {
    let g = store.groups.get(group).expect("group is stored");
    let mut i = 0;
    while let Some((k, _)) = g.members.entry(i) {
        if *k == id.to_string() {
            return true;
        }
        i += 1;
    }
    false
}

#[test]
fn start_creates_guest_and_shows_guest_menu() {
    let mut store = store_with(Vec::new());
    let out = on_message(
        State::Start(StartState { restarted: true }),
        10,
        Some("/start".to_string()),
        Some(chat_user(10, "Ann")),
        &mut store,
        None,
        "2024-01-01T00:00:00+00:00".to_string(),
    );
    assert!(out.failure.is_none());
    assert!(matches!(out.state, State::Main(MainState { prev_state: StartState { restarted: false }, chat_id: 10 })));
    assert_eq!(roles_of(&store, 10), vec![UserRole::Guest]);
    let (_, stored) = store.users.entry(0).unwrap();
    assert_eq!(stored.name, "Ann");
    assert_eq!(stored.contact, Some("-".to_string()));
    assert_eq!(stored.last_seen, "2024-01-01T00:00:00+00:00");
    assert_eq!(out.effects.len(), 2);
    assert!(matches!(out.effects[0], Effect::SaveUsers));
    match &out.effects[1] {
        Effect::Send { chat_id, text, keyboard: Some(k) } => {
            assert_eq!(*chat_id, 10);
            assert_eq!(text, "Main menu");
            assert_eq!(labels(k), vec![vec!["RequestAccess".to_string(), "Help".to_string()], vec!["⏪Back".to_string()]]);
            assert_eq!(payload(&k[1][0]), "/back");
        }
        other => panic!("unexpected effect {:?}", other),
    }
}

#[test]
fn start_asks_for_start_command() {
    let mut store = store_with(Vec::new());
    let out = on_message(State::Start(StartState { restarted: false }), 3, Some("hello".to_string()), Some(chat_user(3, "Bo")), &mut store, None, String::new());
    assert!(matches!(out.state, State::Start(_)));
    match &out.effects[1] {
        Effect::Send { text, .. } => assert_eq!(text, "Please type '/Start' to begin"),
        other => panic!("unexpected effect {:?}", other),
    }
}

#[test]
fn start_without_sender() {
    let mut store = store_with(Vec::new());
    let out = on_message(State::Start(StartState { restarted: true }), 3, Some("/start".to_string()), None, &mut store, None, String::new());
    assert!(matches!(out.state, State::Start(StartState { restarted: false })));
    assert_eq!(store.users.len(), 0);
    match &out.effects[0] {
        Effect::Send { text, .. } => assert_eq!(text, "Error, no user"),
        other => panic!("unexpected effect {:?}", other),
    }
}

#[test]
fn member_sees_paired_menu() {
    let mut store = store_with(vec![person(5, "Max", &[UserRole::Sender])]);
    let out = on_message(State::Start(StartState { restarted: false }), 5, Some("/Start".to_string()), Some(chat_user(5, "Max")), &mut store, None, String::new());
    match &out.effects[1] {
        Effect::Send { keyboard: Some(k), .. } => assert_eq!(
            labels(k),
            vec![
                vec!["Links".to_string(), "Notice".to_string()],
                vec!["Subscribe".to_string(), "Help".to_string()],
                vec!["⏪Back".to_string()],
            ]
        ),
        other => panic!("unexpected effect {:?}", other),
    }
}

#[test]
fn request_access_without_moderator_fails() {
    let mut store = store_with(vec![person(1, "Guest One", &[UserRole::Guest])]);
    let out = callback(State::Main(main_of(1)), 1, "/RequestAccess", None, &mut store, None);
    assert_eq!(out.failure, Some(Failure::NoModerator));
    assert!(matches!(out.state, State::Start(StartState { restarted: false })));
    assert_eq!(roles_of(&store, 1), vec![UserRole::Guest]);
    match &out.effects[0] {
        Effect::Redraw { text, .. } => assert_eq!(text, "Guest One, Access requested"),
        other => panic!("unexpected effect {:?}", other),
    }
}

#[test]
fn request_and_grant_access() {
    let mut store = store_with(vec![person(1, "Gil", &[UserRole::Guest]), person(2, "Mod", &[UserRole::Moder])]);
    let out = callback(State::Main(main_of(1)), 1, "/RequestAccess", None, &mut store, None);
    assert!(out.failure.is_none());
    let picker = match &out.effects[1] {
        Effect::Send { chat_id, text, keyboard: Some(k) } => {
            assert_eq!(*chat_id, 2);
            assert_eq!(text, "Select a Role to be granted for user 'Gil'");
            assert_eq!(labels(k), vec![vec!["Member".to_string()], vec!["Sender".to_string()], vec!["⏪Back".to_string()]]);
            payload(&k[0][0])
        }
        other => panic!("unexpected effect {:?}", other),
    };
    assert_eq!(picker, "/GrantRole/member:1");
    match &out.effects[1] {
        Effect::Send { keyboard: Some(k), .. } => assert_eq!(payload(&k[2][0]), "/back"),
        other => panic!("unexpected effect {:?}", other),
    }
    let before = State::Subscribe(SubscribeState { prev_state: main_of(2), group: String::new(), chat_id: 2, user: None });
    let out = callback(before, 2, &picker, None, &mut store, None);
    assert!(out.failure.is_none());
    assert!(matches!(out.state, State::Subscribe(_)));
    assert_eq!(roles_of(&store, 1), vec![UserRole::Member]);
    assert!(matches!(out.effects[0], Effect::SaveUsers));
    match &out.effects[1] {
        Effect::Send { chat_id, text, .. } => {
            assert_eq!(*chat_id, 1);
            assert_eq!(text, "Gil, role 'Member' granted for you!");
        }
        other => panic!("unexpected effect {:?}", other),
    }
}

#[test]
fn only_moderators_grant() {
    let mut store = store_with(vec![person(1, "Gil", &[UserRole::Guest]), person(3, "Sam", &[UserRole::Sender])]);
    let out = callback(State::Main(main_of(3)), 3, "/GrantRole/admin:1", None, &mut store, None);
    assert_eq!(roles_of(&store, 1), vec![UserRole::Guest]);
    match &out.effects[0] {
        Effect::Send { text, .. } => assert_eq!(text, "Sam, you can't grant roles"),
        other => panic!("unexpected effect {:?}", other),
    }
}

#[test]
fn grant_to_unknown_user_fails() {
    let mut store = store_with(vec![person(2, "Mod", &[UserRole::Moder])]);
    let out = callback(State::Main(main_of(2)), 2, "/GrantRole/member:77", None, &mut store, None);
    assert_eq!(out.failure, Some(Failure::UnknownUser(77)));
    assert!(out.effects.is_empty());
}

#[test]
fn notice_goes_to_every_member_and_back_to_picker() {
    let mut store = store_with(vec![person(4, "Sid", &[UserRole::Sender])]);
    add_group(&mut store, "eng", "Engineers", Some("-100"), vec![person(7, "A", &[UserRole::Member]), person(8, "B", &[UserRole::Member])]);
    let out = callback(State::Main(main_of(4)), 4, "/Notice", None, &mut store, None);
    let state = out.state;
    let out = callback(state, 4, "/eng", None, &mut store, None);
    match &out.effects[0] {
        Effect::Redraw { text, keyboard: Some(k), .. } => {
            assert_eq!(text, "Type a text for group 'Engineers'");
            assert_eq!(labels(k), vec![vec!["⏪Back".to_string()]]);
        }
        other => panic!("unexpected effect {:?}", other),
    }
    let out = on_message(out.state, 4, Some("Hello".to_string()), None, &mut store, None, String::new());
    assert_eq!(out.effects.len(), 4);
    let mut to = Vec::new();
    for e in &out.effects[..3] {
        match e {
            Effect::Notify { to: r, header, text } => {
                assert_eq!(header, "Sid");
                assert_eq!(text, "Hello");
                to.push(match r {
                    Recipient::Chat(c) => c.to_string(),
                    Recipient::Named(n) => n.clone(),
                });
            }
            other => panic!("unexpected effect {:?}", other),
        }
    }
    assert_eq!(to, vec!["-100".to_string(), "7".to_string(), "8".to_string()]);
    match &out.state {
        State::Notice(NoticeState { group, .. }) => assert!(group.is_empty()),
        other => panic!("unexpected state {:?}", other),
    }
    match &out.effects[3] {
        Effect::Redraw { text, keyboard: Some(k), .. } => {
            assert_eq!(text, "Select group to notice");
            assert_eq!(labels(k), vec![vec!["Engineers".to_string()], vec!["⏪Back".to_string()]]);
        }
        other => panic!("unexpected effect {:?}", other),
    }
}

#[test]
fn empty_notice_is_refused() {
    let mut store = store_with(vec![person(4, "Sid", &[UserRole::Sender])]);
    add_group(&mut store, "eng", "Engineers", None, Vec::new());
    let state = State::Notice(NoticeState { prev_state: main_of(4), group: "eng".to_string(), chat_id: 4 });
    let out = on_message(state, 4, None, None, &mut store, None, String::new());
    assert_eq!(out.effects.len(), 2);
    match &out.effects[0] {
        Effect::Send { text, .. } => assert_eq!(text, "Notice text can't be empty"),
        other => panic!("unexpected effect {:?}", other),
    }
}

#[test]
fn guest_cannot_open_notice() {
    let mut store = store_with(vec![person(1, "Gil", &[UserRole::Guest])]);
    let out = on_message(State::Main(main_of(1)), 1, Some("/notice".to_string()), None, &mut store, None, String::new());
    assert!(matches!(out.state, State::Main(_)));
    match &out.effects[0] {
        Effect::Notify { to: Recipient::Chat(1), header, text } => {
            assert_eq!(header, "TKZ Office Notice bot");
            assert_eq!(text, "Gil, you can't send notice's according to your roles");
        }
        other => panic!("unexpected effect {:?}", other),
    }
}

#[test]
fn subscribe_twice_restores_membership() {
    let mut store = store_with(vec![person(6, "Mia", &[UserRole::Member])]);
    add_group(&mut store, "eng", "Engineers", None, Vec::new());
    let out = callback(State::Main(main_of(6)), 6, "/Subscribe", None, &mut store, None);
    let out = callback(out.state, 6, "/eng", None, &mut store, None);
    assert!(is_member_of(&store, "eng", 6));
    assert!(matches!(out.effects[0], Effect::SaveGroups));
    match &out.effects[1] {
        Effect::Redraw { text, keyboard: Some(k), .. } => {
            assert_eq!(text, "Select group to subscribe / unsubscribe");
            assert_eq!(labels(k)[0], vec!["✅ Engineers".to_string()]);
            assert_eq!(payload(&k[0][0]), "/eng");
        }
        other => panic!("unexpected effect {:?}", other),
    }
    let out = callback(out.state, 6, "/eng", None, &mut store, None);
    assert!(!is_member_of(&store, "eng", 6));
    match &out.effects[1] {
        Effect::Redraw { keyboard: Some(k), .. } => assert_eq!(labels(k)[0], vec!["Engineers".to_string()]),
        other => panic!("unexpected effect {:?}", other),
    }
}

#[test]
fn unknown_typed_command_redraws_main() {
    let mut store = store_with(vec![person(6, "Mia", &[UserRole::Member])]);
    let out = on_message(State::Main(main_of(6)), 6, Some("hi".to_string()), None, &mut store, None, String::new());
    assert_eq!(out.effects.len(), 3);
    match &out.effects[0] {
        Effect::Send { text, .. } => assert_eq!(text, "Unknown command 'hi'"),
        other => panic!("unexpected effect {:?}", other),
    }
    assert!(matches!(out.effects[1], Effect::Pause { secs: 2 }));
    assert!(matches!(out.effects[2], Effect::Redraw { .. }));
}

#[test]
fn done_leaves_main_menu() {
    let mut store = store_with(vec![person(6, "Mia", &[UserRole::Member])]);
    let out = callback(State::Main(main_of(6)), 6, "/done", None, &mut store, None);
    assert!(matches!(out.state, State::Start(StartState { restarted: false })));
    match &out.effects[0] {
        Effect::Redraw { text, keyboard: None, .. } => assert_eq!(text, "Bye, Mia"),
        other => panic!("unexpected effect {:?}", other),
    }
}

fn tree() -> Links {
    let mut deep = LinkTable::new();
    deep.insert(
        "api".to_string(),
        Links { title: Some("API".to_string()), links: vec![Link { title: "Spec".to_string(), url: "https://example.org/api".to_string() }], child: LinkTable::new() },
    );
    let mut top = LinkTable::new();
    top.insert("docs".to_string(), Links { title: Some("Docs".to_string()), links: Vec::new(), child: deep });
    top.insert("hidden".to_string(), Links { title: None, links: Vec::new(), child: LinkTable::new() });
    Links { title: None, links: vec![Link { title: "Home".to_string(), url: "https://example.org".to_string() }], child: top }
}

fn links_path(out: &Outcome) -> Vec<String> {
    match &out.state {
        State::Links(LinksState { path, .. }) => path.clone(),
        other => panic!("unexpected state {:?}", other),
    }
}

#[test]
fn links_back_goes_to_parent_then_main() {
    let mut store = store_with(vec![person(6, "Mia", &[UserRole::Member])]);
    let out = callback(State::Main(main_of(6)), 6, "/Links", None, &mut store, Some(tree()));
    assert_eq!(links_path(&out), Vec::<String>::new());
    match &out.effects[0] {
        Effect::Redraw { text, keyboard: Some(k), .. } => {
            assert_eq!(text, "Useful links");
            assert_eq!(labels(k), vec![vec!["Home".to_string()], vec!["Docs".to_string()], vec!["⏪Back".to_string()]]);
            assert!(matches!(&k[0][0].kind, ButtonKind::Url(u) if u == "https://example.org"));
            assert_eq!(payload(&k[1][0]), "/docs");
        }
        other => panic!("unexpected effect {:?}", other),
    }
    let out = callback(out.state, 6, "/docs", None, &mut store, Some(tree()));
    assert_eq!(links_path(&out), vec!["docs".to_string()]);
    let out = callback(out.state, 6, "/api", None, &mut store, Some(tree()));
    assert_eq!(links_path(&out), vec!["docs".to_string(), "api".to_string()]);
    match &out.effects[0] {
        Effect::Redraw { text, .. } => assert_eq!(text, "API"),
        other => panic!("unexpected effect {:?}", other),
    }
    let out = callback(out.state, 6, "/back", None, &mut store, Some(tree()));
    assert_eq!(links_path(&out), vec!["docs".to_string()]);
    match &out.effects[0] {
        Effect::Redraw { text, .. } => assert_eq!(text, "Docs"),
        other => panic!("unexpected effect {:?}", other),
    }
    let out = callback(out.state, 6, "/back", None, &mut store, Some(tree()));
    assert_eq!(links_path(&out), Vec::<String>::new());
    let out = callback(out.state, 6, "/back", None, &mut store, Some(tree()));
    assert!(matches!(out.state, State::Main(_)));
    match &out.effects[0] {
        Effect::Redraw { text, .. } => assert_eq!(text, "Main menu"),
        other => panic!("unexpected effect {:?}", other),
    }
}

#[test]
fn typed_text_in_links_returns_to_main() {
    let mut store = store_with(vec![person(6, "Mia", &[UserRole::Member])]);
    let out = callback(State::Main(main_of(6)), 6, "/Links", None, &mut store, Some(tree()));
    let out = on_message(out.state, 6, Some("docs".to_string()), None, &mut store, None, String::new());
    assert!(matches!(out.state, State::Main(_)));
}

#[test]
fn unknown_user_fails_without_change() {
    let mut store = store_with(Vec::new());
    let out = callback(State::Main(main_of(9)), 9, "/help", None, &mut store, None);
    assert_eq!(out.failure, Some(Failure::UnknownUser(9)));
    assert!(matches!(out.state, State::Main(_)));
}

#[test]
fn help_then_any_button_returns() {
    let mut store = store_with(vec![person(1, "Gil", &[UserRole::Guest])]);
    let out = callback(State::Main(main_of(1)), 1, "/help", None, &mut store, None);
    assert!(matches!(out.state, State::Help(_)));
    let out = callback(out.state, 1, "/anything", None, &mut store, None);
    assert!(matches!(out.state, State::Main(_)));
}

#[test]
fn chat_id_reply_in_groups() {
    assert_eq!(chat_message_handler(-1001, Some("/chat")), Some("Chat id=-1001".to_string()));
    assert_eq!(chat_message_handler(5, Some("/chatty")), Some("Chat id=5".to_string()));
    assert_eq!(chat_message_handler(5, Some("/cha")), None);
    assert_eq!(chat_message_handler(5, None), None);
}

#[test]
fn bot_added_to_chat_registers_group_once() {
    let mut store = store_with(Vec::new());
    let effects = new_chat_member(&mut store.groups, -500, None, Some("team"));
    assert_eq!(effects.len(), 1);
    let g = store.groups.get("-500").unwrap();
    assert_eq!(g.title, "team");
    assert_eq!(g.id, Some("-500".to_string()));
    assert_eq!(g.members.len(), 0);
    let effects = new_chat_member(&mut store.groups, -500, Some("Other"), None);
    assert!(effects.is_empty());
    assert_eq!(store.groups.get("-500").unwrap().title, "team");
}

#[test]
fn profile_names() {
    let u = ChatUser { id: 1, first_name: "Ann".to_string(), last_name: Some("Lee".to_string()), username: Some("ann".to_string()) };
    assert_eq!(profile_of(&u), ("Ann Lee".to_string(), "ann".to_string()));
}

#[test]
fn back_from_request_access_returns_to_main() {
    let mut store = store_with(vec![person(1, "Gil", &[UserRole::Guest])]);
    let state = State::RequestAccess(RequestAccessState { prev_state: main_of(1), user: person(1, "Gil", &[UserRole::Guest]) });
    let out = callback(state, 1, "/back", None, &mut store, None);
    assert!(matches!(out.state, State::Main(MainState { chat_id: 1, .. })));
    match &out.effects[0] {
        Effect::Redraw { text, .. } => assert_eq!(text, "Main menu"),
        other => panic!("unexpected effect {:?}", other),
    }
}

#[test]
fn request_puts_moderator_in_grant_step_and_back_cancels() {
    let mut store = store_with(vec![person(1, "Gil", &[UserRole::Guest]), person(2, "Mod", &[UserRole::Moder])]);
    let out = callback(State::Main(main_of(1)), 1, "/RequestAccess", None, &mut store, None);
    assert_eq!(out.effects.len(), 3);
    let mut effects = out.effects;
    let handed = match effects.pop().unwrap() {
        Effect::AwaitGrant { chat_id, user } => {
            assert_eq!(chat_id, 2);
            assert_eq!(user.id, 1);
            notice_bot::grant_access::await_grant(State::Subscribe(SubscribeState { prev_state: main_of(2), group: String::new(), chat_id: 2, user: None }), user)
        }
        other => panic!("unexpected effect {:?}", other),
    };
    assert!(matches!(handed, State::GrantAccess(_)));
    let out = callback(handed, 2, "/back", None, &mut store, None);
    assert!(matches!(out.state, State::Subscribe(_)));
    assert_eq!(roles_of(&store, 1), vec![UserRole::Guest]);
    match &out.effects[0] {
        Effect::Redraw { text, keyboard: None, .. } => assert_eq!(text, "Canceled role granting for user 'Gil'"),
        other => panic!("unexpected effect {:?}", other),
    }
}

#[test]
fn unknown_button_payloads_are_answered() {
    let mut store = store_with(vec![person(6, "Mia", &[UserRole::Member])]);
    let out = callback(State::Main(main_of(6)), 6, "/nothing", None, &mut store, None);
    assert!(matches!(out.state, State::Main(_)));
    match &out.effects[0] {
        Effect::Send { text, .. } => assert_eq!(text, "Unknown command '/nothing'"),
        other => panic!("unexpected effect {:?}", other),
    }
    let out = callback(State::Start(StartState { restarted: false }), 6, "/x", None, &mut store, None);
    assert!(matches!(out.state, State::Start(_)));
    assert_eq!(out.effects.len(), 1);
    let out = callback(State::Main(main_of(6)), 6, "/Links", None, &mut store, Some(tree()));
    let out = callback(out.state, 6, "docs", None, &mut store, Some(tree()));
    assert!(matches!(out.state, State::Links(_)));
    match &out.effects[0] {
        Effect::Send { text, .. } => assert_eq!(text, "Unknown command 'docs'"),
        other => panic!("unexpected effect {:?}", other),
    }
}

#[test]
fn subscribing_adds_the_stored_record() {
    let mut stored = person(6, "Mia", &[UserRole::Member]);
    stored.contact = Some("mia".to_string());
    let mut store = store_with(vec![stored]);
    add_group(&mut store, "eng", "Engineers", None, Vec::new());
    let state = State::Subscribe(SubscribeState { prev_state: main_of(6), group: String::new(), chat_id: 6, user: None });
    let _ = callback(state, 6, "/eng", None, &mut store, None);
    let (_, member) = store.groups.get("eng").unwrap().members.entry(0).unwrap();
    assert_eq!(member.name, "Mia");
    assert_eq!(member.contact, Some("mia".to_string()));
    assert_eq!(member.role, vec![UserRole::Member]);
}

#[test]
fn start_draws_menu_for_the_sender() {
    let mut store = store_with(vec![person(5, "Max", &[UserRole::Sender])]);
    let out = on_message(State::Start(StartState { restarted: true }), 77, Some("/START".to_string()), Some(chat_user(5, "Max")), &mut store, None, String::new());
    assert!(matches!(out.state, State::Main(MainState { prev_state: StartState { restarted: false }, chat_id: 77 })));
    match &out.effects[1] {
        Effect::Send { chat_id: 77, keyboard: Some(k), .. } => assert_eq!(labels(k)[0], vec!["Links".to_string(), "Notice".to_string()]),
        other => panic!("unexpected effect {:?}", other),
    }
}

#[test]
fn grant_from_grant_state_returns_to_its_origin() {
    let mut store = store_with(vec![person(1, "Gil", &[UserRole::Guest]), person(2, "Mod", &[UserRole::Moder])]);
    let state = State::GrantAccess(GrantAccessState {
        prev_state: Box::new(State::Main(main_of(2))),
        user: person(1, "Gil", &[UserRole::Guest]),
        role: None,
    });
    let out = callback(state, 2, "/GrantRole/member:1", None, &mut store, None);
    assert!(matches!(out.state, State::Main(MainState { chat_id: 2, .. })));
    assert_eq!(roles_of(&store, 1), vec![UserRole::Member]);
    assert_eq!(roles_of(&store, 2), vec![UserRole::Moder]);
    let sent = out.effects.iter().filter(|e| matches!(e, Effect::Send { chat_id: 1, .. })).count();
    assert_eq!(sent, 1);
}

#[test]
fn typed_text_in_grant_state_redraws_main() {
    let mut store = store_with(vec![person(2, "Mod", &[UserRole::Moder])]);
    let state = State::GrantAccess(GrantAccessState {
        prev_state: Box::new(State::Main(main_of(2))),
        user: person(1, "Gil", &[UserRole::Guest]),
        role: None,
    });
    let out = on_message(state, 2, Some("hello".to_string()), None, &mut store, None, String::new());
    assert!(matches!(out.state, State::Main(_)));
    assert_eq!(out.effects.len(), 1);
    assert!(matches!(&out.effects[0], Effect::Redraw { text, .. } if text == "Main menu"));
}
