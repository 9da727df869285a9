//! Payloads of the menus that pick a group: notice and subscribe.
use vstd::prelude::*;
use crate::command::{is_leave_word, leave_word};
use crate::loc::LocaleTag;
use crate::text::{lower_of, lowercase, strip_slash};

verus! {

/// A payload of a group-picking menu.
#[derive(Debug, PartialEq, Eq)]
pub enum GroupPick {
    /// The group with this id.
    Group(String),
    /// A payload without a leading slash.
    Unknown(String),
    /// Leave the menu.
    Done,
}

/// What a group-picking menu makes of `raw`, where `folded` is the lower-case
/// form of the text after its slash.
pub open spec fn group_parsed(folded: Seq<char>, raw: Seq<char>, r: GroupPick) -> bool {
    if raw.len() > 0 && raw[0] == '/' {
        if is_leave_word(folded) {
            r is Done
        } else {
            r matches GroupPick::Group(t) && t@ == raw.drop_first()
        }
    } else {
        r matches GroupPick::Unknown(t) && t@ == raw
    }
}

/// The text whose lower-case form a group payload is judged by: what follows the slash.
pub open spec fn after_slash(raw: Seq<char>) -> Seq<char> {
    if raw.len() > 0 && raw[0] == '/' {
        raw.drop_first()
    } else {
        raw
    }
}

impl GroupPick {
    /// Reads a payload; leaving words in any letter case.
    pub fn parse(s: &str, _loc_tag: LocaleTag) -> (r: Self)
        ensures
            group_parsed(lower_of(after_slash(s@)), s@, r),
    {
        match strip_slash(s) {
            Some(rest) => {
                let folded = lowercase(rest);
                Self::from_folded(folded.as_str(), s)
            },
            None => GroupPick::Unknown(String::from_str(s)),
        }
    }

    /// Reads payload `raw`, given the lower-case form of what follows its slash.
    pub fn from_folded(folded: &str, raw: &str) -> (r: Self)
        ensures
            group_parsed(folded@, raw@, r),
    {
        match strip_slash(raw) {
            Some(rest) => {
                if leave_word(folded) {
                    GroupPick::Done
                } else {
                    GroupPick::Group(String::from_str(rest))
                }
            },
            None => GroupPick::Unknown(String::from_str(raw)),
        }
    }
}

} // verus!
