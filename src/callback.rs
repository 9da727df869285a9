//! Short callback codes: a three-letter command followed by a number.
use vstd::prelude::*;
use crate::loc::{loc, loc_text, LocaleTag};
use crate::text::{i32_value, parse_i32, same_text};

verus! {

/// A callback code.
#[derive(Debug, Clone, Copy, PartialEq, Eq, Structural)]
pub enum Command {
    /// `pas<n>`: make node `n` active.
    Pass(i32),
    /// `tic<n>`: start a ticket for node `n`.
    TicketMake(i32),
    /// `tca<n>`: cancel the ticket.
    TicketCancel(i32),
    /// `tne<n>`: next stage of the ticket.
    TicketNext(i32),
    /// `tco<n>`: confirm the ticket.
    TicketConfirm(i32),
    Unknown,
}

/// Argument of a code: the number after its three letters, or 0.
pub open spec fn code_arg(s: Seq<char>) -> i32 {
    match i32_value(s.subrange(3, s.len() as int)) {
        Some(v) => v,
        None => 0,
    }
}

/// Whether `s` begins with the three letters `code`.
pub open spec fn has_code(s: Seq<char>, code: Seq<char>) -> bool {
    s.len() >= 3 && s.subrange(0, 3) == code
}

/// The command a callback code stands for.
pub open spec fn code_command(s: Seq<char>) -> Command {
    if has_code(s, "pas"@) {
        Command::Pass(code_arg(s))
    } else if has_code(s, "tic"@) {
        Command::TicketMake(code_arg(s))
    } else if has_code(s, "tca"@) {
        Command::TicketCancel(code_arg(s))
    } else if has_code(s, "tne"@) {
        Command::TicketNext(code_arg(s))
    } else if has_code(s, "tco"@) {
        Command::TicketConfirm(code_arg(s))
    } else {
        Command::Unknown
    }
}

impl Command {
    /// Reads a callback code; a missing or unreadable number counts as 0.
    pub fn parse(s: &str) -> (r: Self)
        ensures
            r == code_command(s@),
    {
        let n = s.unicode_len();
        if n < 3 {
            return Command::Unknown;
        }
        let code = s.substring_char(0, 3);
        let arg = match parse_i32(s.substring_char(3, n)) {
            Some(v) => v,
            None => 0,
        };
        if same_text(code, "pas") {
            Command::Pass(arg)
        } else if same_text(code, "tic") {
            Command::TicketMake(arg)
        } else if same_text(code, "tca") {
            Command::TicketCancel(arg)
        } else if same_text(code, "tne") {
            Command::TicketNext(arg)
        } else if same_text(code, "tco") {
            Command::TicketConfirm(arg)
        } else {
            Command::Unknown
        }
    }

    /// Caption of the button that sends this command.
    pub fn buttton_caption(&self, _loc_tag: LocaleTag) -> (r: String)
        ensures
            self is TicketCancel ==> r@ == loc_text("Cancel"@),
            self is TicketNext ==> r@ == loc_text("Next"@),
            self is TicketConfirm ==> r@ == loc_text("Confirm"@),
            !(self is TicketCancel || self is TicketNext || self is TicketConfirm) ==> r@ == "callback::button_caption unsupported command"@,
    {
        match self {
            Command::TicketCancel(_) => loc("Cancel"),
            Command::TicketNext(_) => loc("Next"),
            Command::TicketConfirm(_) => loc("Confirm"),
            _ => String::from_str("callback::button_caption unsupported command"),
        }
    }
}

} // verus!
