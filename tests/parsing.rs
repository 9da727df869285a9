use notice_bot::callback::Command as CodeCommand;
use notice_bot::db::{user, user_update};
use notice_bot::general::Command as ChatCommand;
use notice_bot::grant_access::GrantAccessMenu;
use notice_bot::table::UserTable;
use notice_bot::user::User;
use notice_bot::group_menu::GroupPick;
use notice_bot::links::LinksMenu;
use notice_bot::menu::MainMenu;
use notice_bot::notice::NoticeMenu;
use notice_bot::role::UserRole;
use notice_bot::subscribe::SubscribeMenu;

#[test]
fn main_menu_reads_commands_in_any_case() {
    assert_eq!(MainMenu::parse("/notice", 0), MainMenu::Notice);
    assert_eq!(MainMenu::parse("/NOTICE", 0), MainMenu::Notice);
    assert_eq!(MainMenu::parse("/Subscribe", 0), MainMenu::Subscribe);
    assert_eq!(MainMenu::parse("/RequestAccess", 0), MainMenu::RequestAccess);
    assert_eq!(MainMenu::parse("/help", 0), MainMenu::Help);
    assert_eq!(MainMenu::parse("/Links", 0), MainMenu::Links("/Links".to_string()));
}

#[test]
fn main_menu_leave_words() {
    assert_eq!(MainMenu::parse("/done", 0), MainMenu::Done);
    assert_eq!(MainMenu::parse("/Back", 0), MainMenu::Done);
    assert_eq!(MainMenu::parse("/EXIT", 0), MainMenu::Done);
}

#[test]
fn main_menu_unknown_inputs() {
    assert_eq!(MainMenu::parse("", 0), MainMenu::Unknown);
    assert_eq!(MainMenu::parse("notice", 0), MainMenu::Unknown);
    assert_eq!(MainMenu::parse("/notices", 0), MainMenu::Unknown);
    assert_eq!(MainMenu::parse("/", 0), MainMenu::Unknown);
}

#[test]
fn links_menu_payloads() {
    assert_eq!(LinksMenu::parse("/back", 0), LinksMenu::Done);
    assert_eq!(LinksMenu::parse("/DONE", 0), LinksMenu::Done);
    assert_eq!(LinksMenu::parse("/docs", 0), LinksMenu::Link("docs".to_string()));
    assert_eq!(LinksMenu::parse("/", 0), LinksMenu::Link(String::new()));
    assert_eq!(LinksMenu::parse("docs", 0), LinksMenu::Unknown("docs".to_string()));
    assert_eq!(LinksMenu::parse("", 0), LinksMenu::Unknown(String::new()));
}

#[test]
fn group_menu_payloads() {
    assert_eq!(NoticeMenu::parse("/eng", 0), GroupPick::Group("eng".to_string()));
    assert_eq!(SubscribeMenu::parse("/Done", 0), GroupPick::Done);
    assert_eq!(NoticeMenu::parse("/back", 0), GroupPick::Done);
    assert_eq!(NoticeMenu::parse("/EXIT", 0), GroupPick::Done);
    assert_eq!(SubscribeMenu::parse("eng", 0), GroupPick::Unknown("eng".to_string()));
    assert_eq!(SubscribeMenu::parse("", 0), GroupPick::Unknown(String::new()));
    assert_eq!(NoticeMenu::parse("/", 0), GroupPick::Group(String::new()));
}

#[test]
fn grant_menu_payloads() {
    assert_eq!(GrantAccessMenu::parse("/GrantRole/member:123", 0), GrantAccessMenu::Role(UserRole::Member, 123));
    assert_eq!(GrantAccessMenu::parse("/admin:-42", 0), GrantAccessMenu::Role(UserRole::Admin, -42));
    assert_eq!(GrantAccessMenu::parse("/Moder:7:extra", 0), GrantAccessMenu::Role(UserRole::Moder, 7));
    assert_eq!(GrantAccessMenu::parse("/grantrole/GUEST:+5", 0), GrantAccessMenu::Role(UserRole::Guest, 5));
    assert_eq!(GrantAccessMenu::parse("/back", 0), GrantAccessMenu::Done);
    assert_eq!(GrantAccessMenu::parse("/GrantRole/cancel:12", 0), GrantAccessMenu::Unknown("/GrantRole/cancel:12".to_string()));
    assert_eq!(GrantAccessMenu::parse("/cancel:5", 0), GrantAccessMenu::Unknown("/cancel:5".to_string()));
}

#[test]
fn grant_menu_malformed_payloads() {
    for s in ["", "member:1", "/member", "/member:", "/member:abc", "/boss:1", "/member:99999999999999999999", "/:1"] {
        assert_eq!(GrantAccessMenu::parse(s, 0), GrantAccessMenu::Unknown(s.to_string()), "payload {:?}", s);
    }
}

#[test]
fn role_names_and_words() {
    assert_eq!(UserRole::Admin.to_string(), "admin");
    assert_eq!(UserRole::Moder.to_string(), "moder");
    assert_eq!(UserRole::Guest.to_string(), "guest");
    assert_eq!(UserRole::from_word("grantrole/sender"), Some(UserRole::Sender));
    assert_eq!(UserRole::from_word("member"), Some(UserRole::Member));
    assert_eq!(UserRole::from_word("Member"), None);
}

#[test]
fn callback_codes() {
    type Command = CodeCommand;
    assert_eq!(Command::parse("pas12"), Command::Pass(12));
    assert_eq!(Command::parse("tic"), Command::TicketMake(0));
    assert_eq!(Command::parse("tcaX"), Command::TicketCancel(0));
    assert_eq!(Command::parse("tne-3"), Command::TicketNext(-3));
    assert_eq!(Command::parse("tco+4"), Command::TicketConfirm(4));
    assert_eq!(Command::parse("xyz1"), Command::Unknown);
    assert_eq!(Command::parse("pa"), Command::Unknown);
    assert_eq!(Command::parse(""), Command::Unknown);
    assert_eq!(Command::TicketCancel(1).buttton_caption(0), "Отмена");
    assert_eq!(Command::TicketNext(1).buttton_caption(0), "Next");
    assert_eq!(Command::Pass(1).buttton_caption(0), "callback::button_caption unsupported command");
}

#[test]
fn plain_chat_commands() {
    type Command = ChatCommand;
    assert_eq!(Command::parse("/start"), Command::Start);
    assert_eq!(Command::parse("/Start"), Command::Unknown("/Start".to_string()));
    assert_eq!(Command::parse("hi"), Command::Message("hi".to_string()));
    assert_eq!(Command::parse(""), Command::Message(String::new()));
}

#[test]
fn negative_chat_ids_are_keys() {
    let mut users = UserTable::new();
    user_update(&mut users, User::new(-42, "G".to_string(), None, None, Vec::new(), String::new(), vec![UserRole::Guest]));
    assert_eq!(users.entry(0).unwrap().0, "-42");
    assert_eq!(user(&users, -42).unwrap().name, "G");
}
