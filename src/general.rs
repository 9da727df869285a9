//! Commands of a plain chat: `/start`, other slash commands, and messages.
use vstd::prelude::*;
use crate::text::same_text;

verus! {

/// A plain chat input.
#[derive(Debug, PartialEq, Eq)]
pub enum Command {
    /// Exactly `/start`.
    Start,
    /// Text that is no command.
    Message(String),
    /// Another slash command.
    Unknown(String),
}

impl Command {
    /// Reads a plain chat input.
    pub fn parse(s: &str) -> (r: Self)
        ensures
            s@ == "/start"@ ==> r is Start,
            s@ != "/start"@ && s@.len() > 0 && s@[0] == '/' ==> (r matches Command::Unknown(t) && t@ == s@),
            s@ != "/start"@ && !(s@.len() > 0 && s@[0] == '/') ==> (r matches Command::Message(t) && t@ == s@),
    {
        if same_text(s, "/start") {
            Command::Start
        } else if s.unicode_len() > 0 && s.get_char(0) == '/' {
            Command::Unknown(String::from_str(s))
        } else {
            Command::Message(String::from_str(s))
        }
    }
}

} // verus!
