//! The subscribe menu: toggle membership in groups.
use vstd::prelude::*;
use crate::db::{id_key, user};
use crate::group_menu::GroupPick;
use crate::keyboard::{callback_view, column_keyboard, column_layout, rows_of, views, Button, ButtonKind, ButtonView, Keyboard};
use crate::menu::{back_button, back_view};
use crate::notice::{pick, pick_payload};
use crate::subscription::Subscription;
use crate::table::{
    group_entries, groups_get_index, groups_index_of, groups_insert, groups_len, has_key,
    key_only_at, lemma_inserted_at, user_entries, users_index_of, users_insert, users_new, users_remove_index,
    lookup, Subscriptions, UserTable,
};
use crate::text::{i64_text, joined};
use crate::states::{redraws, Effect, Failure, Outcome, State, SubscribeState};
use crate::user::{same_profile, User};

verus! {

/// Payloads of the subscribe menu.
pub type SubscribeMenu = GroupPick;

/// Whether group `g` is `old` with the membership of key `k` flipped: the
/// member removed when present, `u` appended under `k` when absent.
pub open spec fn toggled(old: Subscription, g: Subscription, k: Seq<char>, u: User) -> bool {
    let before = user_entries(old.members);
    let after = user_entries(g.members);
    &&& g.id == old.id
    &&& g.title == old.title
    &&& has_key(before, k) ==> exists|j: int| key_only_at(before, k, j) && after == before.remove(j)
    &&& !has_key(before, k) ==> after == before.push((k, u))
}

/// What toggling key `k` in group `group` does to group entries `e`, giving `f`.
pub open spec fn toggle_step(
    e: Seq<(Seq<char>, Subscription)>,
    f: Seq<(Seq<char>, Subscription)>,
    group: Seq<char>,
    k: Seq<char>,
    u: User,
) -> bool {
    &&& !has_key(e, group) ==> f == e
    &&& has_key(e, group) ==> exists|i: int|
        key_only_at(e, group, i) && f.len() == e.len()
        && (forall|j: int| 0 <= j < e.len() && j != i ==> f[j] == e[j])
        && f[i].0 == group
        && toggled(e[i].1, f[i].1, k, u)
}

/// Whether the user keyed `k` is a member of group `group`.
pub open spec fn is_subscribed(e: Seq<(Seq<char>, Subscription)>, group: Seq<char>, k: Seq<char>) -> bool {
    exists|i: int| 0 <= i < e.len() && (#[trigger] e[i]).0 == group && has_key(user_entries(e[i].1.members), k)
}

fn empty_group() -> (r: Subscription) {
    Subscription { id: None, title: String::new(), members: users_new() }
}

/// Flips the membership of the user with chat id `user_id` in group `group`:
/// a member is removed, a non-member is added as `user`. Returns whether the
/// group exists; when it does not, nothing changes.
pub fn subscribe(subscriptions: &mut Subscriptions, group: &str, user_id: i64, user: User) -> (r: bool)
    ensures
        r == has_key(group_entries(*old(subscriptions)), group@),
        !r ==> *final(subscriptions) == *old(subscriptions),
        toggle_step(group_entries(*old(subscriptions)), group_entries(*final(subscriptions)), group@, id_key(user_id), user),
{
    let i = match groups_index_of(subscriptions, group) {
        None => return false,
        Some(i) => i,
    };
    let ghost e0 = group_entries(*subscriptions);
    let key = String::from_str(group);
    let ph = empty_group();
    let ghost phv = ph;
    let prev = groups_insert(subscriptions, key.clone(), ph);
    let ghost e1 = group_entries(*subscriptions);
    proof {
        lemma_inserted_at(e0, e1, key@, phv, prev, i as int);
    }
    let mut g = match prev {
        Some(g) => g,
        None => return true,
    };
    let ghost g0 = g;
    let uk = i64_text(user_id);
    match users_index_of(&g.members, uk.as_str()) {
        Some(j) => {
            let _ = users_remove_index(&mut g.members, j);
        },
        None => {
            let _ = users_insert(&mut g.members, uk, user);
        },
    }
    let ghost gg = g;
    assert(toggled(g0, gg, id_key(user_id), user));
    let again = groups_insert(subscriptions, key, g);
    proof {
        lemma_inserted_at(e1, group_entries(*subscriptions), key@, gg, again, i as int);
        let f = group_entries(*subscriptions);
        assert(forall|j: int| 0 <= j < e0.len() && j != i ==> f[j] == e0[j]);
    }
    true
}

/// Toggling the same user in the same group twice leaves every group's key set
/// as it was (only the order of members may change) and every other group
/// untouched.
pub proof fn lemma_toggle_twice(
    e0: Seq<(Seq<char>, Subscription)>,
    e1: Seq<(Seq<char>, Subscription)>,
    e2: Seq<(Seq<char>, Subscription)>,
    group: Seq<char>,
    k: Seq<char>,
    u1: User,
    u2: User,
    other: Seq<char>,
    k2: Seq<char>,
)
    requires
        toggle_step(e0, e1, group, k, u1),
        toggle_step(e1, e2, group, k, u2),
    ensures
        e2.len() == e0.len(),
        forall|j: int| 0 <= j < e0.len() && e0[j].0 != group ==> e2[j] == e0[j],
        is_subscribed(e2, other, k2) == is_subscribed(e0, other, k2),
{
    if has_key(e0, group) {
        let i = choose|i: int|
            key_only_at(e0, group, i) && e1.len() == e0.len()
            && (forall|j: int| 0 <= j < e0.len() && j != i ==> e1[j] == e0[j])
            && e1[i].0 == group
            && toggled(e0[i].1, e1[i].1, k, u1);
        assert(key_only_at(e1, group, i)) by {
            assert forall|j: int| 0 <= j < e1.len() && j != i implies (#[trigger] e1[j]).0 != group by {
                assert(e1[j] == e0[j]);
            }
        }
        assert(has_key(e1, group)) by {
            assert(e1[i].0 == group);
        }
        let i2 = choose|i2: int|
            key_only_at(e1, group, i2) && e2.len() == e1.len()
            && (forall|j: int| 0 <= j < e1.len() && j != i2 ==> e2[j] == e1[j])
            && e2[i2].0 == group
            && toggled(e1[i2].1, e2[i2].1, k, u2);
        assert(i2 == i);
        let m0 = user_entries(e0[i].1.members);
        let m1 = user_entries(e1[i].1.members);
        let m2 = user_entries(e2[i].1.members);
        lemma_flip(m0, m1, k, u1, k2);
        lemma_flip(m1, m2, k, u2, k2);
        assert(has_key(m2, k2) == has_key(m0, k2));
        assert forall|j: int| 0 <= j < e0.len() && e0[j].0 != group implies e2[j] == e0[j] by {
            assert(j != i);
        }
        if is_subscribed(e0, other, k2) {
            let a = choose|a: int| 0 <= a < e0.len() && (#[trigger] e0[a]).0 == other && has_key(user_entries(e0[a].1.members), k2);
            assert(e2[a].0 == other);
        }
        if is_subscribed(e2, other, k2) {
            let a = choose|a: int| 0 <= a < e2.len() && (#[trigger] e2[a]).0 == other && has_key(user_entries(e2[a].1.members), k2);
            assert(e0[a].0 == other);
        }
    } else {
        assert(e1 == e0);
        assert(e2 == e1);
    }
}

/// One toggle of key `k` flips whether `k` is among the members and keeps
/// every other key as it was.
proof fn lemma_flip(m0: Seq<(Seq<char>, User)>, m1: Seq<(Seq<char>, User)>, k: Seq<char>, u: User, k2: Seq<char>)
    requires
        has_key(m0, k) ==> exists|j: int| key_only_at(m0, k, j) && m1 == m0.remove(j),
        !has_key(m0, k) ==> m1 == m0.push((k, u)),
    ensures
        k2 == k ==> has_key(m1, k2) == !has_key(m0, k2),
        k2 != k ==> has_key(m1, k2) == has_key(m0, k2),
{
    if has_key(m0, k) {
        let j = choose|j: int| key_only_at(m0, k, j) && m1 == m0.remove(j);
        if has_key(m1, k2) {
            let a = choose|a: int| 0 <= a < m1.len() && (#[trigger] m1[a]).0 == k2;
            if a < j {
                assert(m1[a] == m0[a]);
            } else {
                assert(m1[a] == m0[a + 1]);
            }
        }
        if k2 != k && has_key(m0, k2) {
            let a = choose|a: int| 0 <= a < m0.len() && (#[trigger] m0[a]).0 == k2;
            assert(a != j);
            if a < j {
                assert(m1[a] == m0[a]);
            } else {
                assert(m1[a - 1] == m0[a]);
            }
        }
    } else {
        assert(m1[m1.len() - 1].0 == k);
        if has_key(m0, k2) {
            let a = choose|a: int| 0 <= a < m0.len() && (#[trigger] m0[a]).0 == k2;
            assert(m1[a] == m0[a]);
        }
        if k2 != k && has_key(m1, k2) {
            let a = choose|a: int| 0 <= a < m1.len() && (#[trigger] m1[a]).0 == k2;
            assert(a < m0.len());
            assert(m1[a] == m0[a]);
        }
    }
}

/// Label of a group in the subscribe menu: checked when key `k` is a member.
pub open spec fn subscribe_label(g: Subscription, k: Seq<char>) -> Seq<char> {
    if has_key(user_entries(g.members), k) {
        "✅ "@ + g.title@
    } else {
        g.title@
    }
}

/// One button per group, checked where key `k` is a member.
pub open spec fn subscribe_buttons(e: Seq<(Seq<char>, Subscription)>, k: Seq<char>) -> Seq<ButtonView> {
    Seq::new(e.len(), |i: int| callback_view(subscribe_label(e[i].1, k), pick_payload(e[i].0)))
}

/// Text of the subscribe menu.
pub open spec fn subscribe_text() -> Seq<char> {
    "Select group to subscribe / unsubscribe"@
}

/// Keyboard of the subscribe menu for the user with chat id `user_id`: each
/// group, checked where the user is a member, then the back button.
pub fn view(groups: &Subscriptions, user_id: i64) -> (r: Keyboard)
    ensures
        rows_of(r@) == column_layout(subscribe_buttons(group_entries(*groups), id_key(user_id)), back_view()),
{
    let key = i64_text(user_id);
    let n = groups_len(groups);
    let mut buttons: Vec<Button> = Vec::new();
    let mut i: usize = 0;
    while i < n
        invariant
            n == group_entries(*groups).len(),
            i <= n,
            key@ == id_key(user_id),
            views(buttons@) == subscribe_buttons(group_entries(*groups), key@).subrange(0, i as int),
        decreases n - i,
    {
        match groups_get_index(groups, i) {
            Some(p) => {
                let label = match users_index_of(&p.1.members, key.as_str()) {
                    Some(_) => joined("✅ ", p.1.title.as_str()),
                    None => p.1.title.clone(),
                };
                let b = Button { text: label, kind: ButtonKind::Callback(pick(p.0.as_str())) };
                let ghost before = buttons@;
                buttons.push(b);
                assert(views(buttons@) =~= views(before).push(b@));
                assert(subscribe_buttons(group_entries(*groups), key@).subrange(0, i + 1) =~= subscribe_buttons(
                    group_entries(*groups),
                    key@,
                ).subrange(0, i as int).push(b@));
            },
            None => {},
        }
        i = i + 1;
    }
    assert(subscribe_buttons(group_entries(*groups), key@).subrange(0, n as int) =~= subscribe_buttons(
        group_entries(*groups),
        key@,
    ));
    column_keyboard(buttons, back_button())
}

/// Whether `r` is the subscribe menu after `state` was entered, given the
/// stored users: the membership of the user with chat id `state.chat_id` in
/// the group `state` names is flipped and saved when the group is stored, the
/// member added being that user's stored record (its own group list left out,
/// as a group does not hold groups), then the menu is redrawn. Without a stored
/// record for that user nothing changes and the step fails.
pub open spec fn subscribed(
    r: Outcome,
    state: SubscribeState,
    chat_id: i64,
    users: Seq<(Seq<char>, User)>,
    before: Seq<(Seq<char>, Subscription)>,
    after: Seq<(Seq<char>, Subscription)>,
) -> bool {
    let layout = Some(column_layout(subscribe_buttons(after, id_key(state.chat_id)), back_view()));
    let toggling = state.group@.len() > 0;
    &&& r.state == State::Subscribe(state)
    &&& !toggling ==> after == before && r.failure is None && r.effects@.len() == 1
        && redraws(r.effects@[0], chat_id, subscribe_text(), layout)
    &&& toggling ==> match lookup(users, id_key(state.chat_id)) {
        None => after == before && r.effects@.len() == 0 && r.failure == Some(Failure::UnknownUser(state.chat_id)),
        Some(stored) => {
            &&& r.failure is None
            &&& exists|u: User| same_profile(u, stored) && toggle_step(before, after, state.group@, id_key(state.chat_id), u)
            &&& if has_key(before, state.group@) {
                r.effects@.len() == 2 && r.effects@[0] is SaveGroups && redraws(r.effects@[1], chat_id, subscribe_text(), layout)
            } else {
                r.effects@.len() == 1 && redraws(r.effects@[0], chat_id, subscribe_text(), layout)
            }
        },
    }
}

/// Enters the subscribe menu with `state`: flips the membership of the user
/// with chat id `state.chat_id` in the group it names, if any, and shows the
/// groups.
pub fn enter(state: SubscribeState, chat_id: i64, users: &UserTable, groups: &mut Subscriptions) -> (r: Outcome)
    ensures
        subscribed(r, state, chat_id, user_entries(*users), group_entries(*old(groups)), group_entries(*final(groups))),
        *final(groups) == *old(groups) || (state.group@.len() > 0 && lookup(user_entries(*users), id_key(state.chat_id)) is Some),
{
    let mut effects: Vec<Effect> = Vec::new();
    if state.group.as_str().unicode_len() > 0 {
        let stored = match user(users, state.chat_id) {
            Some(s) => s,
            None => {
                let id = state.chat_id;
                return Outcome { state: State::Subscribe(state), effects, failure: Some(Failure::UnknownUser(id)) };
            },
        };
        let u = stored.profile();
        let ghost uu = u;
        if subscribe(groups, state.group.as_str(), state.chat_id, u) {
            effects.push(Effect::SaveGroups);
        }
        assert(same_profile(uu, *stored));
    }
    let keyboard = view(groups, state.chat_id);
    effects.push(Effect::Redraw { chat_id, text: String::from_str("Select group to subscribe / unsubscribe"), keyboard: Some(keyboard) });
    Outcome { state: State::Subscribe(state), effects, failure: None }
}

} // verus!
