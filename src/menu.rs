//! The main menu: its commands, its items and who sees them.
use vstd::prelude::*;
use crate::command::{is_leave_command, leave_command};
use crate::keyboard::{
    callback_view, paired_keyboard, paired_layout, rows_of, views, Button, ButtonKind, ButtonView,
    Keyboard,
};
use crate::loc::{loc, loc_text, LocaleTag};
use crate::role::UserRole;
use crate::text::{lower_of, lowercase, same_text};
use crate::user::{shares_role, User};

verus! {

/// Commands of the main menu.
#[derive(Debug, PartialEq, Eq)]
pub enum MainMenu {
    /// Browse the link tree, carrying the command as typed.
    Links(String),
    Notice,
    Subscribe,
    RequestAccess,
    Help,
    /// Leave the menu.
    Done,
    Unknown,
}

/// What the main menu makes of a command whose lower-case form is `folded`.
pub open spec fn main_parsed(folded: Seq<char>, raw: Seq<char>, r: MainMenu) -> bool {
    if folded == "/notice"@ {
        r is Notice
    } else if folded == "/links"@ {
        r matches MainMenu::Links(t) && t@ == raw
    } else if folded == "/subscribe"@ {
        r is Subscribe
    } else if folded == "/requestaccess"@ {
        r is RequestAccess
    } else if folded == "/help"@ {
        r is Help
    } else if is_leave_command(folded) {
        r is Done
    } else {
        r is Unknown
    }
}

impl MainMenu {
    /// Reads a command of the main menu, in any letter case.
    pub fn parse(s: &str, _loc_tag: LocaleTag) -> (r: Self)
        ensures
            main_parsed(lower_of(s@), s@, r),
    {
        let folded = lowercase(s);
        Self::from_folded(folded.as_str(), s)
    }

    /// Reads a command given as typed (`raw`) and in lower case (`folded`).
    pub fn from_folded(folded: &str, raw: &str) -> (r: Self)
        ensures
            main_parsed(folded@, raw@, r),
    {
        if same_text(folded, "/notice") {
            MainMenu::Notice
        } else if same_text(folded, "/links") {
            MainMenu::Links(String::from_str(raw))
        } else if same_text(folded, "/subscribe") {
            MainMenu::Subscribe
        } else if same_text(folded, "/requestaccess") {
            MainMenu::RequestAccess
        } else if same_text(folded, "/help") {
            MainMenu::Help
        } else if leave_command(folded) {
            MainMenu::Done
        } else {
            MainMenu::Unknown
        }
    }
}

/// An entry of the main menu.
#[derive(Debug)]
pub struct MenuItem {
    pub title: String,
    pub command: String,
}

/// Roles that may browse links and subscribe.
pub open spec fn member_roles() -> Seq<UserRole> {
    seq![UserRole::Admin, UserRole::Moder, UserRole::Sender, UserRole::Member]
}

/// Roles that may send notices.
pub open spec fn sender_roles() -> Seq<UserRole> {
    seq![UserRole::Admin, UserRole::Moder, UserRole::Sender]
}

/// Roles that may grant roles.
pub open spec fn granter_roles() -> Seq<UserRole> {
    seq![UserRole::Admin, UserRole::Moder]
}

/// Whether `user` may browse links and subscribe.
pub fn is_member(user: &User) -> (r: bool)
    ensures
        r == shares_role(user.role@, member_roles()),
{
    let roles = [UserRole::Admin, UserRole::Moder, UserRole::Sender, UserRole::Member];
    assert(roles@ =~= member_roles());
    user.has_role(&roles)
}

/// Whether `user` may send notices.
pub fn is_sender(user: &User) -> (r: bool)
    ensures
        r == shares_role(user.role@, sender_roles()),
{
    let roles = [UserRole::Admin, UserRole::Moder, UserRole::Sender];
    assert(roles@ =~= sender_roles());
    user.has_role(&roles)
}

/// Whether `user` may grant roles.
pub fn is_granter(user: &User) -> (r: bool)
    ensures
        r == shares_role(user.role@, granter_roles()),
{
    let roles = [UserRole::Admin, UserRole::Moder];
    assert(roles@ =~= granter_roles());
    user.has_role(&roles)
}

/// Whether `user` is a guest.
pub fn is_guest(user: &User) -> (r: bool)
    ensures
        r == shares_role(user.role@, seq![UserRole::Guest]),
{
    let roles = [UserRole::Guest];
    assert(roles@ =~= seq![UserRole::Guest]);
    user.has_role(&roles)
}

/// Whether the item titled `title` is shown to a user with `roles`.
pub open spec fn item_visible(title: Seq<char>, roles: Seq<UserRole>) -> bool {
    if title == "RequestAccess"@ {
        shares_role(roles, seq![UserRole::Guest])
    } else if title == "Links"@ || title == "Subscribe"@ {
        shares_role(roles, member_roles())
    } else if title == "Notice"@ {
        shares_role(roles, sender_roles())
    } else if title == "Help"@ {
        true
    } else {
        shares_role(roles, seq![UserRole::Admin])
    }
}

/// Titles and commands of menu items.
pub open spec fn item_pairs(items: Seq<MenuItem>) -> Seq<(Seq<char>, Seq<char>)> {
    items.map_values(|m: MenuItem| (m.title@, m.command@))
}

/// Titles and commands of the main menu's items, in order.
pub open spec fn standard_items() -> Seq<(Seq<char>, Seq<char>)> {
    seq![
        ("Links"@, "/Links"@),
        ("Notice"@, "/Notice"@),
        ("RequestAccess"@, "/RequestAccess"@),
        ("Subscribe"@, "/Subscribe"@),
        ("Help"@, "/Help"@),
    ]
}

/// Buttons of the items shown to a user with `roles`, in order.
pub open spec fn shown_items(items: Seq<(Seq<char>, Seq<char>)>, roles: Seq<UserRole>) -> Seq<ButtonView>
    decreases items.len(),
{
    if items.len() == 0 {
        Seq::empty()
    } else if item_visible(items.last().0, roles) {
        shown_items(items.drop_last(), roles).push(callback_view(items.last().0, items.last().1))
    } else {
        shown_items(items.drop_last(), roles)
    }
}

/// The button that leaves a menu.
pub open spec fn back_view() -> ButtonView {
    callback_view(loc_text("⏪Back"@), "/back"@)
}

/// Builds the button that leaves a menu.
pub fn back_button() -> (r: Button)
    ensures
        r@ == back_view(),
{
    Button { text: loc("⏪Back"), kind: ButtonKind::Callback(String::from_str("/back")) }
}

/// Keyboard of the main menu for a user with `roles`.
pub open spec fn main_layout(items: Seq<(Seq<char>, Seq<char>)>, roles: Seq<UserRole>) -> Seq<Seq<ButtonView>> {
    paired_layout(shown_items(items, roles), back_view())
}

fn item(title: &str, command: &str) -> (r: MenuItem)
    ensures
        r.title@ == title@,
        r.command@ == command@,
{
    MenuItem { title: String::from_str(title), command: String::from_str(command) }
}

/// The items of the main menu, in order.
pub fn menu() -> (r: Vec<MenuItem>)
    ensures
        item_pairs(r@) == standard_items(),
{
    let mut items: Vec<MenuItem> = Vec::new();
    items.push(item("Links", "/Links"));
    items.push(item("Notice", "/Notice"));
    items.push(item("RequestAccess", "/RequestAccess"));
    items.push(item("Subscribe", "/Subscribe"));
    items.push(item("Help", "/Help"));
    assert(item_pairs(items@) =~= standard_items());
    items
}

/// Whether `user` sees the item titled `title`.
pub fn shows_item(user: &User, title: &str) -> (r: bool)
    ensures
        r == item_visible(title@, user.role@),
{
    if same_text(title, "RequestAccess") {
        is_guest(user)
    } else if same_text(title, "Links") || same_text(title, "Subscribe") {
        is_member(user)
    } else if same_text(title, "Notice") {
        is_sender(user)
    } else if same_text(title, "Help") {
        true
    } else {
        let roles = [UserRole::Admin];
        assert(roles@ =~= seq![UserRole::Admin]);
        user.has_role(&roles)
    }
}

/// Keyboard of the main menu as `user` sees it: the items their roles allow,
/// long labels one per row, short ones in pairs, and the back button last.
pub fn markup(user: &User, menu: &Vec<MenuItem>) -> (r: Keyboard)
    ensures
        rows_of(r@) == main_layout(item_pairs(menu@), user.role@),
{
    let mut buttons: Vec<Button> = Vec::new();
    let mut i: usize = 0;
    while i < menu.len()
        invariant
            i <= menu@.len(),
            views(buttons@) == shown_items(item_pairs(menu@.subrange(0, i as int)), user.role@),
        decreases menu@.len() - i,
    {
        let it = &menu[i];
        proof {
            let t = menu@.subrange(0, i + 1);
            assert(t.drop_last() =~= menu@.subrange(0, i as int));
            assert(t.last() == menu@[i as int]);
            assert(item_pairs(t).drop_last() =~= item_pairs(menu@.subrange(0, i as int)));
        }
        if shows_item(user, it.title.as_str()) {
            let ghost before = buttons@;
            buttons.push(Button { text: it.title.clone(), kind: ButtonKind::Callback(it.command.clone()) });
            assert(views(buttons@) =~= views(before).push(callback_view(it.title@, it.command@)));
        }
        i = i + 1;
    }
    assert(menu@.subrange(0, menu@.len() as int) =~= menu@);
    paired_keyboard(buttons, back_button())
}

/// Text of the main menu.
pub open spec fn main_text() -> Seq<char> {
    "Main menu"@
}

/// The main menu as `user` sees it: its text and keyboard.
pub fn view(user: &User) -> (r: (String, Keyboard))
    ensures
        r.0@ == main_text(),
        rows_of(r.1@) == main_layout(standard_items(), user.role@),
{
    let items = menu();
    (String::from_str("Main menu"), markup(user, &items))
}

} // verus!
