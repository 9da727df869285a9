//! A user asks for access.
use vstd::prelude::*;
use crate::db::{is_moder, no_moder_before};
use crate::grant_access::{enter as grant_enter, grant_buttons, request_text, requested_text};
use crate::keyboard::column_layout;
use crate::menu::back_view;
use crate::role::UserRoleDb;
use crate::states::{redraws, sends, Effect, Failure, GrantAccessState, Outcome, RequestAccessState, StartState, State};
use crate::table::{role_entries, user_entries, UserRoles, UserTable};
use crate::text::joined;
use crate::user::User;

verus! {

/// Whether `r` is the outcome of the user of `state` asking for access: they
/// are told the request went out and their conversation restarts; the first
/// stored moderator gets the role picker, and without one the step fails.
pub open spec fn access_requested(
    r: Outcome,
    state: RequestAccessState,
    chat_id: i64,
    users: Seq<(Seq<char>, User)>,
    roles: Seq<(Seq<char>, UserRoleDb)>,
) -> bool {
    &&& r.state == State::Start(StartState { restarted: false })
    &&& r.effects@.len() >= 1
    &&& redraws(r.effects@[0], chat_id, requested_text(state.user.name@), None)
    &&& no_moder_before(users, users.len() as int) ==> r.effects@.len() == 1 && r.failure == Some(Failure::NoModerator)
    &&& !no_moder_before(users, users.len() as int) ==> {
        &&& r.effects@.len() == 3
        &&& r.failure is None
        &&& exists|i: int|
            0 <= i < users.len() && is_moder(users[i].1) && no_moder_before(users, i)
            && sends(r.effects@[1], users[i].1.id, request_text(state.user.name@), Some(column_layout(grant_buttons(roles, state.user.id), back_view())))
            && r.effects@[2] == Effect::AwaitGrant { chat_id: users[i].1.id, user: state.user }
    }
}

/// The user of `state` asks for access: they are told so, their conversation
/// restarts, and the grant step without a role sends the role picker to the
/// first stored moderator and puts that moderator's conversation in the grant
/// step. The users are not changed.
pub fn enter(state: RequestAccessState, chat_id: i64, users: &mut UserTable, roles: &UserRoles) -> (r: Outcome)
    ensures
        access_requested(r, state, chat_id, user_entries(*old(users)), role_entries(*roles)),
        *final(users) == *old(users),
{
    let mut effects = Vec::new();
    effects.push(Effect::Redraw { chat_id, text: joined(state.user.name.as_str(), ", Access requested"), keyboard: None });
    let ghost name = state.user.name@;
    let grant = GrantAccessState { prev_state: Box::new(State::Start(StartState { restarted: false })), user: state.user, role: None };
    let out = grant_enter(grant, users, roles);
    let Outcome { state: next, effects: mut more, failure } = out;
    effects.append(&mut more);
    Outcome { state: next, effects, failure }
}

} // verus!
