//! Words shared by the menus' command parsers.
use vstd::prelude::*;
use crate::text::same_text;

verus! {

/// Whether a lower-case payload without its slash asks to leave the menu.
pub open spec fn is_leave_word(w: Seq<char>) -> bool {
    w == "done"@ || w == "back"@ || w == "exit"@
}

/// Whether a lower-case command asks to leave the menu.
pub open spec fn is_leave_command(w: Seq<char>) -> bool {
    w == "/done"@ || w == "/back"@ || w == "/exit"@
}

/// Whether `w` is `done`, `back` or `exit`.
pub fn leave_word(w: &str) -> (r: bool)
    ensures
        r == is_leave_word(w@),
{
    same_text(w, "done") || same_text(w, "back") || same_text(w, "exit")
}

/// Whether `w` is `/done`, `/back` or `/exit`.
pub fn leave_command(w: &str) -> (r: bool)
    ensures
        r == is_leave_command(w@),
{
    same_text(w, "/done") || same_text(w, "/back") || same_text(w, "/exit")
}

} // verus!
