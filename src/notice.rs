//! The notice menu: pick a group, then type the notice.
use vstd::prelude::*;
use crate::group_menu::GroupPick;
use crate::keyboard::{callback_view, column_keyboard, column_layout, rows_of, views, Button, ButtonKind, ButtonView, Keyboard};
use crate::menu::{back_button, back_view};
use crate::subscription::Subscription;
use crate::states::{redraws, sends, Effect, NoticeState, Outcome, Recipient, State};
use crate::table::{
    group_entries, groups_get_index, groups_index_of, groups_len, lemma_lookup_at, lookup,
    user_entries, users_get_index, users_len, Subscriptions,
};
use crate::text::joined;
use crate::user::User;

verus! {

/// Payloads of the notice menu.
pub type NoticeMenu = GroupPick;

/// Payload that picks the entry keyed `id`.
pub open spec fn pick_payload(id: Seq<char>) -> Seq<char> {
    "/"@ + id
}

/// One button per group, titled by the group and picking its id.
pub open spec fn group_buttons(e: Seq<(Seq<char>, Subscription)>) -> Seq<ButtonView> {
    Seq::new(e.len(), |i: int| callback_view(e[i].1.title@, pick_payload(e[i].0)))
}

/// Builds the payload that picks `id`.
pub fn pick(id: &str) -> (r: String)
    ensures
        r@ == pick_payload(id@),
{
    joined("/", id)
}

/// Buttons that pick each group, in table order.
pub fn group_picker(groups: &Subscriptions) -> (r: Vec<Button>)
    ensures
        views(r@) == group_buttons(group_entries(*groups)),
{
    let n = groups_len(groups);
    let mut buttons: Vec<Button> = Vec::new();
    let mut i: usize = 0;
    while i < n
        invariant
            n == group_entries(*groups).len(),
            i <= n,
            views(buttons@) == group_buttons(group_entries(*groups)).subrange(0, i as int),
        decreases n - i,
    {
        match groups_get_index(groups, i) {
            Some(p) => {
                let b = Button { text: p.1.title.clone(), kind: ButtonKind::Callback(pick(p.0.as_str())) };
                let ghost before = buttons@;
                buttons.push(b);
                assert(views(buttons@) =~= views(before).push(b@));
                assert(group_buttons(group_entries(*groups)).subrange(0, i + 1) =~= group_buttons(
                    group_entries(*groups),
                ).subrange(0, i as int).push(b@));
            },
            None => {},
        }
        i = i + 1;
    }
    assert(group_buttons(group_entries(*groups)).subrange(0, n as int) =~= group_buttons(group_entries(*groups)));
    buttons
}

/// Text of the group picker.
pub open spec fn picker_text() -> Seq<char> {
    "Select group to notice"@
}

/// Text that asks for the notice to the group titled `title`.
pub open spec fn prompt_text(title: Seq<char>) -> Seq<char> {
    "Type a text for group '"@ + title + "'"@
}

/// Keyboard of the notice menu: the groups and the back button while picking,
/// only the back button while waiting for the text.
pub fn view(groups: &Subscriptions, picking: bool) -> (r: Keyboard)
    ensures
        picking ==> rows_of(r@) == column_layout(group_buttons(group_entries(*groups)), back_view()),
        !picking ==> rows_of(r@) == column_layout(Seq::empty(), back_view()),
{
    if picking {
        column_keyboard(group_picker(groups), back_button())
    } else {
        let none: Vec<Button> = Vec::new();
        assert(views(none@) =~= Seq::<ButtonView>::empty());
        column_keyboard(none, back_button())
    }
}

/// Title of group `group` for the prompt: its title when it is stored, else its id.
pub open spec fn group_title(e: Seq<(Seq<char>, Subscription)>, group: Seq<char>) -> Seq<char> {
    match lookup(e, group) {
        Some(g) => g.title@,
        None => group,
    }
}

/// Whether `r` shows the notice menu for `state`: the group picker while no
/// group is picked, else the prompt for the notice text.
pub open spec fn shows_notice(r: Outcome, state: NoticeState, chat_id: i64, e: Seq<(Seq<char>, Subscription)>) -> bool {
    &&& r.state == State::Notice(state)
    &&& r.effects@.len() == 1
    &&& state.group@.len() == 0 ==> redraws(r.effects@[0], chat_id, picker_text(), Some(column_layout(group_buttons(e), back_view())))
    &&& state.group@.len() > 0 ==> redraws(r.effects@[0], chat_id, prompt_text(group_title(e, state.group@)), Some(column_layout(Seq::empty(), back_view())))
    &&& r.failure is None
}

/// Shows the notice menu for `state`.
pub fn enter(state: NoticeState, chat_id: i64, groups: &Subscriptions) -> (r: Outcome)
    ensures
        shows_notice(r, state, chat_id, group_entries(*groups)),
{
    let picking = state.group.as_str().unicode_len() == 0;
    let text = if picking {
        String::from_str("Select group to notice")
    } else {
        let title = match groups_index_of(groups, state.group.as_str()) {
            Some(i) => {
                proof {
                    lemma_lookup_at(group_entries(*groups), state.group@, i as int);
                }
                match groups_get_index(groups, i) {
                    Some(p) => p.1.title.clone(),
                    None => state.group.clone(),
                }
            },
            None => state.group.clone(),
        };
        let a = joined("Type a text for group '", title.as_str());
        joined(a.as_str(), "'")
    };
    let keyboard = view(groups, picking);
    let mut effects = Vec::new();
    effects.push(Effect::Redraw { chat_id, text, keyboard: Some(keyboard) });
    Outcome { state: State::Notice(state), effects, failure: None }
}

/// Whether `e` sends `text` under `header` to `to`.
pub open spec fn notifies(e: Effect, to: Recipient, header: Seq<char>, text: Seq<char>) -> bool {
    e matches Effect::Notify { to: t, header: h, text: x } && t == to && h@ == header && x@ == text
}

/// Whether `e` sends `text` under `header` to the chat with id text `id`.
pub open spec fn notifies_named(e: Effect, id: Seq<char>, header: Seq<char>, text: Seq<char>) -> bool {
    e matches Effect::Notify { to: Recipient::Named(n), header: h, text: x } && n@ == id && h@ == header && x@ == text
}

/// Whether `effs` hand notice `text` from `header` to group `g`: first to the
/// group's own chat when it has one, then to each member in table order.
pub open spec fn broadcasts(effs: Seq<Effect>, g: Subscription, header: Seq<char>, text: Seq<char>) -> bool {
    let m = user_entries(g.members);
    let lead: int = if g.id is Some { 1 } else { 0 };
    &&& effs.len() == lead + m.len()
    &&& g.id matches Some(id) ==> notifies_named(effs[0], id@, header, text)
    &&& forall|i: int| 0 <= i < m.len() ==> notifies(#[trigger] effs[lead + i], Recipient::Chat(m[i].1.id), header, text)
}

/// A notice `text` under a bold `header`, in the messenger's HTML.
pub open spec fn headed_text(header: Seq<char>, text: Seq<char>) -> Seq<char> {
    "<b>"@ + header + ":</b>\n"@ + text
}

/// Builds notice `text` under a bold `header`.
pub fn with_header(header: &str, text: &str) -> (r: String)
    ensures
        r@ == headed_text(header@, text@),
{
    let a = joined("<b>", header);
    let b = joined(a.as_str(), ":</b>\n");
    joined(b.as_str(), text)
}

/// Text sent back when a notice has no text.
pub open spec fn empty_notice_text() -> Seq<char> {
    "Notice text can't be empty"@
}

/// The notice `text` from `user` for group `g`, one effect per recipient.
pub fn broadcast(g: &Subscription, user: &User, text: &str) -> (r: Vec<Effect>)
    ensures
        broadcasts(r@, *g, user.name@, text@),
{
    let mut effects: Vec<Effect> = Vec::new();
    match &g.id {
        Some(id) => {
            effects.push(Effect::Notify { to: Recipient::Named(id.clone()), header: user.name.clone(), text: String::from_str(text) });
        },
        None => {},
    }
    let ghost lead: int = if g.id is Some { 1 } else { 0 };
    let n = users_len(&g.members);
    let mut i: usize = 0;
    while i < n
        invariant
            n == user_entries(g.members).len(),
            i <= n,
            effects@.len() == lead + i,
            lead == (if g.id is Some { 1int } else { 0int }),
            g.id matches Some(id) ==> notifies_named(effects@[0], id@, user.name@, text@),
            forall|j: int| 0 <= j < i ==> notifies(#[trigger] effects@[lead + j], Recipient::Chat(user_entries(g.members)[j].1.id), user.name@, text@),
        decreases n - i,
    {
        match users_get_index(&g.members, i) {
            Some(p) => {
                effects.push(Effect::Notify { to: Recipient::Chat(p.1.id), header: user.name.clone(), text: String::from_str(text) });
            },
            None => {},
        }
        i = i + 1;
    }
    effects
}

/// Whether `r` is the outcome of the notice `text` sent in `state`: the notice
/// goes to the picked group when it is stored, an empty notice is refused, and
/// the menu goes back to the group picker.
pub open spec fn noticed(r: Outcome, state: NoticeState, chat_id: i64, text: Option<Seq<char>>, header: Seq<char>, e: Seq<(Seq<char>, Subscription)>) -> bool {
    let picker = Some(column_layout(group_buttons(e), back_view()));
    let effs = r.effects@;
    &&& r.state matches State::Notice(s) && s.prev_state == state.prev_state && s.chat_id == state.chat_id && s.group@.len() == 0
    &&& r.failure is None
    &&& effs.len() >= 1
    &&& redraws(effs.last(), chat_id, picker_text(), picker)
    &&& text matches Some(t) ==> match lookup(e, state.group@) {
        Some(g) => broadcasts(effs.drop_last(), g, header, t),
        None => effs.len() == 1,
    }
    &&& text is None ==> effs.len() == 2 && sends(effs[0], state.chat_id, empty_notice_text(), None)
}

/// Text of an optional string slice.
pub open spec fn opt_slice_text(o: Option<&str>) -> Option<Seq<char>> {
    match o {
        Some(t) => Some(t@),
        None => None,
    }
}

/// Handles a message typed in the notice menu: sends it as a notice to the
/// picked group, then shows the group picker again.
pub fn notice(state: NoticeState, chat_id: i64, text: Option<&str>, user: &User, groups: &Subscriptions) -> (r: Outcome)
    ensures
        noticed(r, state, chat_id, opt_slice_text(text), user.name@, group_entries(*groups)),
{
    let mut effects: Vec<Effect> = Vec::new();
    match text {
        Some(t) => {
            match groups_index_of(groups, state.group.as_str()) {
                Some(i) => {
                    proof {
                        lemma_lookup_at(group_entries(*groups), state.group@, i as int);
                    }
                    match groups_get_index(groups, i) {
                        Some(p) => {
                            effects = broadcast(p.1, user, t);
                        },
                        None => {},
                    }
                },
                None => {},
            }
        },
        None => {
            effects.push(Effect::Send { chat_id: state.chat_id, text: String::from_str("Notice text can't be empty"), keyboard: None });
        },
    }
    let ghost sent = effects@;
    let next = NoticeState { prev_state: state.prev_state, group: String::new(), chat_id: state.chat_id };
    let shown = enter(next, chat_id, groups);
    let Outcome { state: st, effects: mut more, failure: _ } = shown;
    let mut all = effects;
    all.append(&mut more);
    assert(all@.drop_last() =~= sent);
    Outcome { state: st, effects: all, failure: None }
}

} // verus!
