//! Roles of users and the catalog that titles them.
use vstd::prelude::*;
use crate::text::same_text;

verus! {

/// Capability tag of a user.
#[derive(Debug, Clone, Copy, PartialEq, Eq, Structural)]
pub enum UserRole {
    /// Full access.
    Admin,
    /// Grants roles to guests.
    Moder,
    /// Sends notices.
    Sender,
    /// Subscribes to groups and receives notices.
    Member,
    /// Asks a moderator for access.
    Guest,
}

/// Name of a role as stored and sent in button payloads.
pub open spec fn role_name(r: UserRole) -> Seq<char> {
    match r {
        UserRole::Admin => "admin"@,
        UserRole::Moder => "moder"@,
        UserRole::Sender => "sender"@,
        UserRole::Member => "member"@,
        UserRole::Guest => "guest"@,
    }
}

/// Role named by a lower-case word: its plain name or `grantrole/<name>`.
pub open spec fn role_of_word(w: Seq<char>) -> Option<UserRole> {
    if w == "admin"@ || w == "grantrole/admin"@ {
        Some(UserRole::Admin)
    } else if w == "moder"@ || w == "grantrole/moder"@ {
        Some(UserRole::Moder)
    } else if w == "sender"@ || w == "grantrole/sender"@ {
        Some(UserRole::Sender)
    } else if w == "member"@ || w == "grantrole/member"@ {
        Some(UserRole::Member)
    } else if w == "guest"@ || w == "grantrole/guest"@ {
        Some(UserRole::Guest)
    } else {
        None
    }
}

impl UserRole {
    /// Name of the role: `admin`, `moder`, `sender`, `member` or `guest`.
    pub fn to_string(&self) -> (r: String)
        ensures
            r@ == role_name(*self),
    {
        match self {
            UserRole::Admin => String::from_str("admin"),
            UserRole::Moder => String::from_str("moder"),
            UserRole::Sender => String::from_str("sender"),
            UserRole::Member => String::from_str("member"),
            UserRole::Guest => String::from_str("guest"),
        }
    }

    /// Role named by a lower-case word, if any.
    pub fn from_word(w: &str) -> (r: Option<UserRole>)
        ensures
            r == role_of_word(w@),
    {
        if same_text(w, "admin") || same_text(w, "grantrole/admin") {
            Some(UserRole::Admin)
        } else if same_text(w, "moder") || same_text(w, "grantrole/moder") {
            Some(UserRole::Moder)
        } else if same_text(w, "sender") || same_text(w, "grantrole/sender") {
            Some(UserRole::Sender)
        } else if same_text(w, "member") || same_text(w, "grantrole/member") {
            Some(UserRole::Member)
        } else if same_text(w, "guest") || same_text(w, "grantrole/guest") {
            Some(UserRole::Guest)
        } else {
            None
        }
    }
}

/// Catalog entry of a role.
#[derive(Debug, Clone)]
pub struct UserRoleDb {
    /// Hidden roles are not offered when granting access.
    pub hidden: bool,
    pub id: Option<String>,
    pub title: String,
    pub role: UserRole,
}

/// Value of `hidden` for a catalog entry that does not state it.
pub fn default_hidden() -> (r: bool)
    ensures
        r,
{
    true
}

} // verus!
