use indexmap::IndexMap;
use notice_bot::db::{first_moderator, grant_role, insert_subscription, remove_subscription, user, user_insert, user_update};
use notice_bot::error::StrError;
use notice_bot::keyboard::{column_keyboard, paired_keyboard, Button, ButtonKind};
use notice_bot::loc::{loc, loc_tag};
use notice_bot::menu::{back_button, markup, menu};
use notice_bot::role::{default_hidden, UserRole};
use notice_bot::states::{GrantAccessState, MainState, NoticeState, RequestAccessState, StartState, State, SubscribeState};
use notice_bot::subscribe::subscribe;
use notice_bot::subscription::Subscription;
use notice_bot::table::UserTable;
use notice_bot::user::User;
use notice_bot::{same_text, strip_slash};

fn person(id: i64, name: &str, roles: &[UserRole]) -> User {
    User::new(id, name.to_string(), None, None, Vec::new(), String::new(), roles.to_vec())
}

fn button(text: &str) -> Button {
    Button { text: text.to_string(), kind: ButtonKind::Callback(format!("/{}", text)) }
}

fn labels(k: &[Vec<Button>]) -> Vec<Vec<String>> {
    k.iter().map(|row| row.iter().map(|b| b.text.clone()).collect()).collect()
}

#[test]
fn has_role_meets_sets() {
    let u = person(1, "U", &[UserRole::Member, UserRole::Sender]);
    assert!(u.has_role(&[UserRole::Admin, UserRole::Sender]));
    assert!(!u.has_role(&[UserRole::Admin, UserRole::Guest]));
    assert!(!u.has_role(&[]));
    assert!(!person(2, "V", &[]).has_role(&[UserRole::Guest]));
}

#[test]
fn add_role_drops_guest() {
    let mut u = person(1, "U", &[UserRole::Guest]);
    u.add_role(UserRole::Member);
    assert_eq!(u.role, vec![UserRole::Member]);
    u.add_role(UserRole::Member);
    assert_eq!(u.role, vec![UserRole::Member]);
    u.add_role(UserRole::Sender);
    assert_eq!(u.role, vec![UserRole::Member, UserRole::Sender]);
    let mut g = person(2, "G", &[UserRole::Guest, UserRole::Guest, UserRole::Admin]);
    g.add_role(UserRole::Guest);
    assert_eq!(g.role, vec![UserRole::Admin]);
    let mut only_guest = person(3, "O", &[UserRole::Guest]);
    only_guest.add_role(UserRole::Guest);
    assert_eq!(only_guest.role, vec![UserRole::Guest]);
    let mut none = person(4, "N", &[]);
    none.add_role(UserRole::Guest);
    assert_eq!(none.role, vec![UserRole::Guest]);
}

#[test]
fn user_update_replaces_fields() {
    let mut u = person(1, "U", &[UserRole::Guest]);
    u.update(person(2, "W", &[UserRole::Admin]));
    assert_eq!(u.id, 2);
    assert_eq!(u.name, "W");
    assert_eq!(u.role, vec![UserRole::Admin]);
}

#[test]
fn paired_layout_puts_long_labels_alone() {
    let long = "A label longer than twenty-one";
    let k = paired_keyboard(vec![button("a"), button(long), button("b"), button("c")], back_button());
    assert_eq!(
        labels(&k),
        vec![vec![long.to_string()], vec!["a".to_string(), "b".to_string()], vec!["c".to_string(), "⏪Back".to_string()]]
    );
    let k = paired_keyboard(vec![button("123456789012345678901"), button("x")], back_button());
    assert_eq!(labels(&k), vec![vec!["123456789012345678901".to_string(), "x".to_string()], vec!["⏪Back".to_string()]]);
    let k = paired_keyboard(Vec::new(), back_button());
    assert_eq!(labels(&k), vec![vec!["⏪Back".to_string()]]);
}

#[test]
fn column_layout_one_per_row() {
    let k = column_keyboard(vec![button("a"), button("b")], back_button());
    assert_eq!(labels(&k), vec![vec!["a".to_string()], vec!["b".to_string()], vec!["⏪Back".to_string()]]);
}

#[test]
fn admin_sees_every_item_but_request_access() {
    let k = markup(&person(1, "A", &[UserRole::Admin]), &menu());
    assert_eq!(
        labels(&k),
        vec![vec!["Links".to_string(), "Notice".to_string()], vec!["Subscribe".to_string(), "Help".to_string()], vec!["⏪Back".to_string()]]
    );
    let k = markup(&person(2, "M", &[UserRole::Member]), &menu());
    assert_eq!(labels(&k), vec![vec!["Links".to_string(), "Subscribe".to_string()], vec!["Help".to_string(), "⏪Back".to_string()]]);
}

#[test]
fn translations() {
    assert_eq!(loc("Cancel"), "Отмена");
    assert_eq!(loc("You are in the main menu"), "Вы в главном меню");
    assert_eq!(loc("⏪Back"), "⏪Back");
    assert_eq!(loc(""), "");
    assert_eq!(loc_tag(Some("ru")), 0);
    assert_eq!(loc_tag(None), 0);
}

#[test]
fn defaults_and_errors() {
    assert!(default_hidden());
    let e = StrError::from("boom".to_string());
    assert_eq!(e.message(), "boom");
    let r = remove_subscription(-1);
    assert_eq!(r.unwrap_err().message(), "db.remove_subscription | Not implemented yet");
}

#[test]
fn text_helpers() {
    assert!(same_text("abc", "abc"));
    assert!(!same_text("abc", "abd"));
    assert!(!same_text("ab", "abc"));
    assert_eq!(strip_slash("/x"), Some("x"));
    assert_eq!(strip_slash("x"), None);
    assert_eq!(strip_slash(""), None);
}

#[test]
fn user_insert_keeps_roles_of_known_users() {
    let mut users = UserTable::new();
    user_insert(&mut users, 1, "Ann".to_string(), Some("-".to_string()), None, "t1".to_string(), &[UserRole::Guest]);
    user_insert(&mut users, 2, "Bob".to_string(), None, None, "t1".to_string(), &[UserRole::Guest]);
    let mut u = user(&users, 1).unwrap().profile();
    u.add_role(UserRole::Member);
    user_update(&mut users, u);
    user_insert(&mut users, 1, "Ann Lee".to_string(), Some("ann".to_string()), None, "t2".to_string(), &[UserRole::Guest]);
    assert_eq!(users.len(), 2);
    let a = user(&users, 1).unwrap();
    assert_eq!(a.name, "Ann Lee");
    assert_eq!(a.contact, Some("ann".to_string()));
    assert_eq!(a.last_seen, "t2");
    assert_eq!(a.role, vec![UserRole::Member]);
    assert_eq!(users.entry(0).unwrap().0, "1");
    assert!(user(&users, 3).is_none());
}

#[test]
fn moderator_search_and_grant() {
    let mut users = UserTable::new();
    for u in [person(1, "G", &[UserRole::Guest]), person(2, "M1", &[UserRole::Sender, UserRole::Moder]), person(3, "M2", &[UserRole::Moder])] {
        users.insert(u.id.to_string(), u);
    }
    assert_eq!(first_moderator(&users).unwrap().name, "M1");
    assert!(grant_role(&mut users, 1, UserRole::Sender));
    assert_eq!(user(&users, 1).unwrap().role, vec![UserRole::Sender]);
    assert!(!grant_role(&mut users, 9, UserRole::Sender));
    let empty = UserTable::new();
    assert!(first_moderator(&empty).is_none());
}

#[test]
fn subscribe_toggles_and_ignores_missing_groups() {
    let mut groups = IndexMap::new();
    groups.insert("eng".to_string(), Subscription { id: None, title: "Eng".to_string(), members: UserTable::new() });
    assert!(subscribe(&mut groups, "eng", 4, person(4, "D", &[UserRole::Member])));
    assert_eq!(groups.get("eng").unwrap().members.len(), 1);
    assert!(subscribe(&mut groups, "eng", 4, person(4, "D", &[UserRole::Member])));
    assert_eq!(groups.get("eng").unwrap().members.len(), 0);
    assert!(!subscribe(&mut groups, "ops", 4, person(4, "D", &[UserRole::Member])));
    assert_eq!(groups.len(), 1);
}

#[test]
fn register_chat_group() {
    let mut groups = IndexMap::new();
    assert!(insert_subscription(&mut groups, "-7", "Team"));
    assert!(!insert_subscription(&mut groups, "-7", "Renamed"));
    assert_eq!(groups.get("-7").unwrap().title, "Team");
}

#[test]
fn fresh_conversation_starts_restarted() {
    assert!(matches!(State::initial(), State::Start(s) if s.restarted));
}

#[test]
fn defaults_of_states() {
    assert!(matches!(State::default(), State::Start(StartState { restarted: true })));
    assert!(!StartState::default().restarted);
    assert_eq!(MainState::default(), MainState { prev_state: StartState { restarted: false }, chat_id: 0 });
    let n = NoticeState::default();
    assert!(n.group.is_empty());
    assert_eq!(n.chat_id, 0);
    let b = SubscribeState::default();
    assert!(b.user.is_none());
    let q = RequestAccessState::default();
    assert_eq!(q.user.id, 0);
    assert!(q.user.role.is_empty());
    let g = GrantAccessState::default();
    assert!(g.role.is_none());
    assert!(matches!(*g.prev_state, State::Start(StartState { restarted: false })));
}

#[test]
fn main_state_of_any_state() {
    let m = MainState { prev_state: StartState { restarted: true }, chat_id: 8 };
    assert_eq!(MainState::from(State::Main(m)), m);
    assert_eq!(MainState::from(State::Start(StartState { restarted: true })), MainState { prev_state: StartState { restarted: true }, chat_id: 0 });
    let n = NoticeState { prev_state: m, group: "g".to_string(), chat_id: 8 };
    assert_eq!(MainState::from(State::Notice(n)), m);
}

#[test]
fn notice_header() {
    assert_eq!(notice_bot::notice::with_header("Sid", "Hi"), "<b>Sid:</b>\nHi");
}
