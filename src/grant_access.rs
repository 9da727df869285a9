//! Granting a role to a user who asked for access.
use vstd::prelude::*;
use crate::command::{is_leave_word, leave_word};
use crate::loc::LocaleTag;
use crate::menu::{back_button, back_view};
use crate::keyboard::{callback_view, column_keyboard, column_layout, rows_of, views, Button, ButtonKind, ButtonView, Keyboard};
use crate::role::{role_name, role_of_word, UserRole, UserRoleDb};
use crate::db::{first_moderator, grant_role, granted, id_key, is_moder, no_moder_before, user};
use crate::menu::{granter_roles, is_granter};
use crate::states::{redraws, sends, Effect, Failure, GrantAccessState, Outcome, RequestAccessState, StartState, State};
use crate::table::{
    has_key, key_only_at, lemma_lookup_at, lookup, role_entries, roles_get_index, roles_index_of,
    roles_len, user_entries, UserRoles, UserTable,
};
use crate::user::{shares_role, User};
use crate::text::{colon_at, lemma_colon_at, decimal_text, find_colon, i64_text, i64_value, joined, lower_of, lowercase, parse_i64, strip_slash};

verus! {

/// Payloads of the role picker a moderator gets.
#[derive(Debug, PartialEq, Eq)]
pub enum GrantAccessMenu {
    /// Grant this role to the user with this chat id.
    Role(UserRole, i64),
    /// A payload that names no role and user.
    Unknown(String),
    /// Cancel.
    Done,
}

/// Text of `s` before its first `:`.
pub open spec fn head_part(s: Seq<char>) -> Seq<char> {
    s.subrange(0, colon_at(s))
}

/// Text of `s` between its first and second `:`, or to its end.
pub open spec fn second_part(s: Seq<char>) -> Seq<char> {
    let after = s.subrange(colon_at(s) + 1, s.len() as int);
    after.subrange(0, colon_at(after))
}

/// What the role picker makes of payload `raw` (`/<role>:<chat id>`), given the
/// lower-case forms of the text after its slash (`folded`) and of the role part
/// (`folded_role`).
pub open spec fn grant_parsed(folded: Seq<char>, folded_role: Seq<char>, raw: Seq<char>, r: GrantAccessMenu) -> bool {
    let rest = raw.drop_first();
    if !(raw.len() > 0 && raw[0] == '/') {
        r matches GrantAccessMenu::Unknown(t) && t@ == raw
    } else if is_leave_word(folded) {
        r is Done
    } else if colon_at(rest) < rest.len() && role_of_word(folded_role) is Some && i64_value(second_part(rest)) is Some {
        r == GrantAccessMenu::Role(role_of_word(folded_role)->0, i64_value(second_part(rest))->0)
    } else {
        r matches GrantAccessMenu::Unknown(t) && t@ == raw
    }
}

/// Payload that grants `role` to the user with chat id `target`.
pub open spec fn grant_payload(role: UserRole, target: i64) -> Seq<char> {
    "/GrantRole/"@ + role_name(role) + ":"@ + decimal_text(target as int)
}

/// One button per role of the catalog that is not hidden, in catalog order.
pub open spec fn grant_buttons(e: Seq<(Seq<char>, UserRoleDb)>, target: i64) -> Seq<ButtonView>
    decreases e.len(),
{
    if e.len() == 0 {
        Seq::empty()
    } else if e.last().1.hidden {
        grant_buttons(e.drop_last(), target)
    } else {
        grant_buttons(e.drop_last(), target).push(callback_view(e.last().1.title@, grant_payload(e.last().1.role, target)))
    }
}

/// Text a moderator gets when the user named `name` asks for access.
pub open spec fn request_text(name: Seq<char>) -> Seq<char> {
    "Select a Role to be granted for user '"@ + name + "'"@
}

/// Builds the payload that grants `role` to the user with chat id `target`.
pub fn grant_command(role: UserRole, target: i64) -> (r: String)
    ensures
        r@ == grant_payload(role, target),
{
    let a = joined("/GrantRole/", role.to_string().as_str());
    let b = joined(a.as_str(), ":");
    joined(b.as_str(), i64_text(target).as_str())
}

/// Keyboard of the role picker for the user with chat id `target`: the roles
/// that are not hidden, then the back button.
pub fn view(roles: &UserRoles, target: i64) -> (r: Keyboard)
    ensures
        rows_of(r@) == column_layout(grant_buttons(role_entries(*roles), target), back_view()),
{
    let n = roles_len(roles);
    let mut buttons: Vec<Button> = Vec::new();
    let mut i: usize = 0;
    while i < n
        invariant
            n == role_entries(*roles).len(),
            i <= n,
            views(buttons@) == grant_buttons(role_entries(*roles).subrange(0, i as int), target),
        decreases n - i,
    {
        proof {
            let t = role_entries(*roles).subrange(0, i + 1);
            assert(t.drop_last() =~= role_entries(*roles).subrange(0, i as int));
        }
        match roles_get_index(roles, i) {
            Some(p) => {
                if !p.1.hidden {
                    let b = Button { text: p.1.title.clone(), kind: ButtonKind::Callback(grant_command(p.1.role, target)) };
                    let ghost before = buttons@;
                    buttons.push(b);
                    assert(views(buttons@) =~= views(before).push(b@));
                }
            },
            None => {},
        }
        i = i + 1;
    }
    assert(role_entries(*roles).subrange(0, n as int) =~= role_entries(*roles));
    column_keyboard(buttons, back_button())
}

/// Title of `role` in the catalog, or its name when the catalog lacks it.
pub open spec fn role_title(e: Seq<(Seq<char>, UserRoleDb)>, role: UserRole) -> Seq<char> {
    match lookup(e, role_name(role)) {
        Some(d) => d.title@,
        None => role_name(role),
    }
}

/// Text that tells the user named `name` they were granted the role titled `title`.
pub open spec fn granted_text(name: Seq<char>, title: Seq<char>) -> Seq<char> {
    name + ", role '"@ + title + "' granted for you!"@
}

/// Text that tells the user named `name` they may not grant roles.
pub open spec fn cannot_grant_text(name: Seq<char>) -> Seq<char> {
    name + ", you can't grant roles"@
}

/// Text that confirms that granting a role to the user named `name` was cancelled.
pub open spec fn cancel_text(name: Seq<char>) -> Seq<char> {
    "Canceled role granting for user '"@ + name + "'"@
}

/// Text that tells the user named `name` their request went out.
pub open spec fn requested_text(name: Seq<char>) -> Seq<char> {
    name + ", Access requested"@
}

/// Where a conversation goes once a grant is done or cancelled.
pub open spec fn after_grant(s: State) -> State {
    match s {
        State::GrantAccess(g) => *g.prev_state,
        _ => s,
    }
}

/// Looks up the title of `role` in the catalog.
pub fn title_of(roles: &UserRoles, role: UserRole) -> (r: String)
    ensures
        r@ == role_title(role_entries(*roles), role),
{
    let name = role.to_string();
    match roles_index_of(roles, name.as_str()) {
        Some(i) => {
            proof {
                lemma_lookup_at(role_entries(*roles), name@, i as int);
            }
            match roles_get_index(roles, i) {
                Some(p) => p.1.title.clone(),
                None => name,
            }
        },
        None => name,
    }
}

/// Whether `r` grants `role` to the user stored under `target` and goes to
/// `next`: the user's roles change as `add_role` changes them and nothing else
/// in the table, the users are saved and that user is told.
pub open spec fn grant_applied(
    r: Outcome,
    next: State,
    target: i64,
    role: UserRole,
    before: Seq<(Seq<char>, User)>,
    after: Seq<(Seq<char>, User)>,
    roles: Seq<(Seq<char>, UserRoleDb)>,
) -> bool {
    if !has_key(before, id_key(target)) {
        &&& r.state == next
        &&& after == before
        &&& r.effects@.len() == 0
        &&& r.failure == Some(Failure::UnknownUser(target))
    } else {
        &&& exists|i: int|
            key_only_at(before, id_key(target), i) && after.len() == before.len()
            && (forall|j: int| 0 <= j < before.len() && j != i ==> after[j] == before[j])
            && after[i].0 == id_key(target)
            && granted(before[i].1, after[i].1, role)
        &&& r.state == next
        &&& r.effects@.len() == 2
        &&& r.effects@[0] is SaveUsers
        &&& sends(r.effects@[1], target, granted_text(lookup(before, id_key(target))->0.name@, role_title(roles, role)), None)
        &&& r.failure is None
    }
}

/// Whether `r` sends the role picker for `user` to the first stored moderator,
/// puts that moderator's conversation in the grant step for `user`, and goes to
/// `next`; or fails when no moderator is stored.
pub open spec fn picker_sent(r: Outcome, next: State, user: User, users: Seq<(Seq<char>, User)>, roles: Seq<(Seq<char>, UserRoleDb)>) -> bool {
    &&& r.state == next
    &&& no_moder_before(users, users.len() as int) ==> r.effects@.len() == 0 && r.failure == Some(Failure::NoModerator)
    &&& !no_moder_before(users, users.len() as int) ==> {
        &&& r.effects@.len() == 2
        &&& r.failure is None
        &&& exists|i: int|
            0 <= i < users.len() && is_moder(users[i].1) && no_moder_before(users, i)
            && sends(r.effects@[0], users[i].1.id, request_text(user.name@), Some(column_layout(grant_buttons(roles, user.id), back_view())))
            && r.effects@[1] == Effect::AwaitGrant { chat_id: users[i].1.id, user }
    }
}

/// What a grant step with `state` yields: without a role, the role picker for
/// the user goes to the first stored moderator and the users are not touched;
/// with a role, the role is granted to the user as stored.
pub open spec fn entered(
    r: Outcome,
    state: GrantAccessState,
    before: Seq<(Seq<char>, User)>,
    after: Seq<(Seq<char>, User)>,
    roles: Seq<(Seq<char>, UserRoleDb)>,
) -> bool {
    match state.role {
        None => after == before && picker_sent(r, *state.prev_state, state.user, before, roles),
        Some(role) => grant_applied(r, *state.prev_state, state.user.id, role, before, after, roles),
    }
}

/// A grant step: asks the first moderator to pick a role for `state.user`
/// while no role is chosen, else grants the chosen role to that user as stored.
/// Either way the conversation goes to `state.prev_state`.
pub fn enter(state: GrantAccessState, users: &mut UserTable, roles: &UserRoles) -> (r: Outcome)
    ensures
        entered(r, state, user_entries(*old(users)), user_entries(*final(users)), role_entries(*roles)),
        state.role is None ==> *final(users) == *old(users),
{
    let GrantAccessState { prev_state, user: to_user, role } = state;
    let next = *prev_state;
    match role {
        None => match first_moderator(users) {
            None => Outcome { state: next, effects: Vec::new(), failure: Some(Failure::NoModerator) },
            Some(m) => {
                let a = joined("Select a Role to be granted for user '", to_user.name.as_str());
                let text = joined(a.as_str(), "'");
                let keyboard = view(roles, to_user.id);
                let mut effects = Vec::new();
                effects.push(Effect::Send { chat_id: m.id, text, keyboard: Some(keyboard) });
                effects.push(Effect::AwaitGrant { chat_id: m.id, user: to_user });
                Outcome { state: next, effects, failure: None }
            },
        },
        Some(role) => {
            let target = to_user.id;
            let name = match user(users, target) {
                Some(u) => u.name.clone(),
                None => {
                    return Outcome { state: next, effects: Vec::new(), failure: Some(Failure::UnknownUser(target)) };
                },
            };
            let _ = grant_role(users, target, role);
            let title = title_of(roles, role);
            let a = joined(name.as_str(), ", role '");
            let b = joined(a.as_str(), title.as_str());
            let text = joined(b.as_str(), "' granted for you!");
            let mut effects = Vec::new();
            effects.push(Effect::SaveUsers);
            effects.push(Effect::Send { chat_id: target, text, keyboard: None });
            Outcome { state: next, effects, failure: None }
        },
    }
}

/// Whether `r` is the outcome of a moderator `actor`, in conversation state
/// `current`, choosing `role` for the user stored under `target`. Only admins
/// and moderators may grant.
pub open spec fn grant_done(
    r: Outcome,
    current: State,
    chat_id: i64,
    actor: User,
    role: UserRole,
    target: i64,
    before: Seq<(Seq<char>, User)>,
    after: Seq<(Seq<char>, User)>,
    roles: Seq<(Seq<char>, UserRoleDb)>,
) -> bool {
    if !shares_role(actor.role@, granter_roles()) {
        &&& r.state == current
        &&& after == before
        &&& r.effects@.len() == 1
        &&& sends(r.effects@[0], chat_id, cannot_grant_text(actor.name@), None)
        &&& r.failure is None
    } else if !has_key(before, id_key(target)) {
        &&& r.state == current
        &&& after == before
        &&& r.effects@.len() == 0
        &&& r.failure == Some(Failure::UnknownUser(target))
    } else {
        grant_applied(r, after_grant(current), target, role, before, after, roles)
    }
}

/// A moderator's choice: grants `role` to the user stored under `target`,
/// saves the users and tells that user; the moderator's conversation goes back
/// where it came from.
pub fn grant(current: State, chat_id: i64, actor: &User, role: UserRole, target: i64, users: &mut UserTable, roles: &UserRoles) -> (r: Outcome)
    ensures
        grant_done(r, current, chat_id, *actor, role, target, user_entries(*old(users)), user_entries(*final(users)), role_entries(*roles)),
{
    if !is_granter(actor) {
        let mut effects = Vec::new();
        effects.push(Effect::Send { chat_id, text: joined(actor.name.as_str(), ", you can't grant roles"), keyboard: None });
        return Outcome { state: current, effects, failure: None };
    }
    let mut to_user = match user(users, target) {
        Some(u) => u.profile(),
        None => {
            return Outcome { state: current, effects: Vec::new(), failure: Some(Failure::UnknownUser(target)) };
        },
    };
    to_user.id = target;
    let ghost next = after_grant(current);
    let prev_state = match current {
        State::GrantAccess(g) => g.prev_state,
        other => Box::new(other),
    };
    assert(*prev_state == next);
    enter(GrantAccessState { prev_state, user: to_user, role: Some(role) }, users, roles)
}

/// The conversation `current` waits for a role to be picked for `user`; it
/// goes back to `current` once the pick is made or cancelled.
pub fn await_grant(current: State, user: User) -> (r: State)
    ensures
        r matches State::GrantAccess(g) && *g.prev_state == current && g.user == user && g.role is None,
{
    State::GrantAccess(GrantAccessState { prev_state: Box::new(current), user, role: None })
}

/// Cancels a grant: says so in place of the role picker and goes back.
pub fn cancel(state: GrantAccessState, chat_id: i64) -> (r: Outcome)
    ensures
        r.state == *state.prev_state,
        r.effects@.len() == 1,
        redraws(r.effects@[0], chat_id, cancel_text(state.user.name@), None),
        r.failure is None,
{
    let a = joined("Canceled role granting for user '", state.user.name.as_str());
    let text = joined(a.as_str(), "'");
    let mut effects = Vec::new();
    effects.push(Effect::Redraw { chat_id, text, keyboard: None });
    Outcome { state: *state.prev_state, effects, failure: None }
}

impl GrantAccessMenu {
    /// Reads a payload of the role picker; leaving words and role names in any
    /// letter case.
    pub fn parse(s: &str, _loc_tag: LocaleTag) -> (r: Self)
        ensures
            grant_parsed(
                lower_of(s@.drop_first()),
                lower_of(head_part(s@.drop_first())),
                s@,
                r,
            ),
    {
        match strip_slash(s) {
            None => GrantAccessMenu::Unknown(String::from_str(s)),
            Some(rest) => {
                let folded = lowercase(rest);
                let c = find_colon(rest);
                proof {
                    lemma_colon_at(rest@);
                }
                let role_part = rest.substring_char(0, c);
                let folded_role = lowercase(role_part);
                Self::from_folded(folded.as_str(), folded_role.as_str(), s)
            },
        }
    }

    /// Reads payload `raw`, given the lower-case forms of the text after its
    /// slash and of the role part.
    pub fn from_folded(folded: &str, folded_role: &str, raw: &str) -> (r: Self)
        ensures
            grant_parsed(folded@, folded_role@, raw@, r),
    {
        let rest = match strip_slash(raw) {
            None => return GrantAccessMenu::Unknown(String::from_str(raw)),
            Some(rest) => rest,
        };
        if leave_word(folded) {
            return GrantAccessMenu::Done;
        }
        let n = rest.unicode_len();
        let c = find_colon(rest);
        proof {
            lemma_colon_at(rest@);
        }
        if c == n {
            return GrantAccessMenu::Unknown(String::from_str(raw));
        }
        let after = rest.substring_char(c + 1, n);
        let d = find_colon(after);
        proof {
            lemma_colon_at(after@);
        }
        let id_part = after.substring_char(0, d);
        proof {
            assert(id_part@ == second_part(rest@));
        }
        match (UserRole::from_word(folded_role), parse_i64(id_part)) {
            (Some(role), Some(id)) => GrantAccessMenu::Role(role, id),
            _ => GrantAccessMenu::Unknown(String::from_str(raw)),
        }
    }
}

} // verus!
