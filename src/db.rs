//! Updates of the stored collections, as values.
use vstd::prelude::*;
use crate::error::StrError;
use crate::role::UserRole;
use crate::subscription::Subscription;
use crate::table::{
    group_entries, groups_index_of, groups_insert, has_key, key_only_at, lemma_inserted_at, lemma_lookup_at, placed,
    lookup, user_entries, users_get_index, users_index_of, users_insert, users_len, users_new,
    Subscriptions, UserTable,
};
use crate::text::{decimal_text, i64_text};
use crate::user::User;

verus! {

/// Key of a user in the user table: the decimal text of the chat id.
pub open spec fn id_key(id: i64) -> Seq<char> {
    decimal_text(id as int)
}

/// The user stored under chat id `chat_id`, if any.
pub fn user(users: &UserTable, chat_id: i64) -> (r: Option<&User>)
    ensures
        r is None <==> lookup(user_entries(*users), id_key(chat_id)) is None,
        r matches Some(u) ==> lookup(user_entries(*users), id_key(chat_id)) == Some(*u),
{
    let key = i64_text(chat_id);
    match users_index_of(users, key.as_str()) {
        Some(i) => {
            proof {
                lemma_lookup_at(user_entries(*users), key@, i as int);
            }
            match users_get_index(users, i) {
                Some(p) => Some(p.1),
                None => None,
            }
        },
        None => None,
    }
}

/// Text of an optional string.
pub open spec fn opt_text(o: Option<String>) -> Option<Seq<char>> {
    match o {
        Some(s) => Some(s@),
        None => None,
    }
}

/// Whether `u` is `old` with name, contact, address and last-seen time replaced.
pub open spec fn refreshed(old: User, u: User, name: Seq<char>, contact: Option<Seq<char>>, address: Option<Seq<char>>, last_seen: Seq<char>) -> bool {
    &&& u.id == old.id
    &&& u.name@ == name
    &&& opt_text(u.contact) == contact
    &&& opt_text(u.address) == address
    &&& u.subscriptions == old.subscriptions
    &&& u.last_seen@ == last_seen
    &&& u.role == old.role
}

/// Whether `u` is a new user with the given fields and no subscriptions.
pub open spec fn fresh_user(u: User, id: i64, name: Seq<char>, contact: Option<Seq<char>>, address: Option<Seq<char>>, last_seen: Seq<char>, role: Seq<UserRole>) -> bool {
    &&& u.id == id
    &&& u.name@ == name
    &&& opt_text(u.contact) == contact
    &&& opt_text(u.address) == address
    &&& u.subscriptions@.len() == 0
    &&& u.last_seen@ == last_seen
    &&& u.role@ == role
}

fn placeholder() -> (r: User) {
    User {
        id: 0,
        name: String::new(),
        contact: None,
        address: None,
        subscriptions: Vec::new(),
        last_seen: String::new(),
        role: Vec::new(),
    }
}

/// Records a user seen now: a known user gets the new name, contact, address
/// and last-seen time and keeps the rest; an unknown one is appended with
/// `role`.
pub fn user_insert(
    users: &mut UserTable,
    user_id: i64,
    name: String,
    contact: Option<String>,
    address: Option<String>,
    last_seen: String,
    role: &[UserRole],
)
    ensures
        has_key(user_entries(*old(users)), id_key(user_id)) ==> exists|i: int|
            key_only_at(user_entries(*old(users)), id_key(user_id), i)
            && user_entries(*final(users)).len() == user_entries(*old(users)).len()
            && (forall|j: int| 0 <= j < user_entries(*old(users)).len() && j != i
                ==> user_entries(*final(users))[j] == user_entries(*old(users))[j])
            && user_entries(*final(users))[i].0 == id_key(user_id)
            && refreshed(user_entries(*old(users))[i].1, user_entries(*final(users))[i].1, name@, opt_text(contact), opt_text(address), last_seen@),
        !has_key(user_entries(*old(users)), id_key(user_id)) ==> {
            &&& user_entries(*final(users)).len() == user_entries(*old(users)).len() + 1
            &&& user_entries(*final(users)).drop_last() == user_entries(*old(users))
            &&& user_entries(*final(users)).last().0 == id_key(user_id)
            &&& fresh_user(user_entries(*final(users)).last().1, user_id, name@, opt_text(contact), opt_text(address), last_seen@, role@)
        },
{
    let key = i64_text(user_id);
    match users_index_of(users, key.as_str()) {
        Some(i) => {
            let ghost e0 = user_entries(*users);
            let ph = placeholder();
            let ghost phv = ph;
            let prev = users_insert(users, key.clone(), ph);
            let ghost e1 = user_entries(*users);
            proof {
                lemma_inserted_at(e0, e1, key@, phv, prev, i as int);
            }
            match prev {
                Some(old_user) => {
                    let u = User {
                        id: old_user.id,
                        name,
                        contact,
                        address,
                        subscriptions: old_user.subscriptions,
                        last_seen,
                        role: old_user.role,
                    };
                    let ghost uu = u;
                    let again = users_insert(users, key, u);
                    proof {
                        lemma_inserted_at(e1, user_entries(*users), key@, uu, again, i as int);
                    }
                },
                None => {},
            }
        },
        None => {
            let u = User {
                id: user_id,
                name,
                contact,
                address,
                subscriptions: Vec::new(),
                last_seen,
                role: vstd::slice::slice_to_vec(role),
            };
            let ghost e0 = user_entries(*users);
            let _ = users_insert(users, key, u);
            assert(user_entries(*users).drop_last() =~= e0);
        },
    }
}

/// Stores `user` under its chat id: a known user is replaced in its place, an
/// unknown one is appended.
pub fn user_update(users: &mut UserTable, user: User)
    ensures
        placed(user_entries(*old(users)), user_entries(*final(users)), id_key(user.id), user),
{
    let key = i64_text(user.id);
    let ghost u = user;
    let _ = users_insert(users, key, user);
}

/// Whether a user holds the moderator role.
pub open spec fn is_moder(u: User) -> bool {
    u.role@.contains(UserRole::Moder)
}

/// Whether no user among the first `n` entries is a moderator.
pub open spec fn no_moder_before<K>(e: Seq<(K, User)>, n: int) -> bool {
    forall|j: int| 0 <= j < n ==> !is_moder((#[trigger] e[j]).1)
}

fn holds_moder(u: &User) -> (r: bool)
    ensures
        r == is_moder(*u),
{
    let mut i: usize = 0;
    while i < u.role.len()
        invariant
            i <= u.role@.len(),
            forall|j: int| 0 <= j < i ==> u.role@[j] != UserRole::Moder,
        decreases u.role@.len() - i,
    {
        if u.role[i] == UserRole::Moder {
            return true;
        }
        i = i + 1;
    }
    false
}

/// The first user, in table order, who is a moderator.
pub fn first_moderator(users: &UserTable) -> (r: Option<&User>)
    ensures
        r is None <==> no_moder_before(user_entries(*users), user_entries(*users).len() as int),
        r matches Some(u) ==> exists|i: int|
            0 <= i < user_entries(*users).len() && (#[trigger] user_entries(*users)[i]).1 == *u
            && is_moder(*u) && no_moder_before(user_entries(*users), i),
{
    let n = users_len(users);
    let mut i: usize = 0;
    while i < n
        invariant
            n == user_entries(*users).len(),
            i <= n,
            no_moder_before(user_entries(*users), i as int),
        decreases n - i,
    {
        match users_get_index(users, i) {
            Some(p) => {
                if holds_moder(p.1) {
                    assert(user_entries(*users)[i as int].1 == *p.1);
                    return Some(p.1);
                }
            },
            None => {},
        }
        i = i + 1;
    }
    None
}

/// Gives the user stored under `target` the role `role` as `add_role` does, in
/// place. Returns whether such a user is stored.
pub fn grant_role(users: &mut UserTable, target: i64, role: UserRole) -> (r: bool)
    ensures
        r == has_key(user_entries(*old(users)), id_key(target)),
        !r ==> *final(users) == *old(users),
        r ==> exists|i: int|
            key_only_at(user_entries(*old(users)), id_key(target), i)
            && user_entries(*final(users)).len() == user_entries(*old(users)).len()
            && (forall|j: int| 0 <= j < user_entries(*old(users)).len() && j != i
                ==> user_entries(*final(users))[j] == user_entries(*old(users))[j])
            && user_entries(*final(users))[i].0 == id_key(target)
            && granted(user_entries(*old(users))[i].1, user_entries(*final(users))[i].1, role),
{
    let key = i64_text(target);
    match users_index_of(users, key.as_str()) {
        Some(i) => {
            let ghost e0 = user_entries(*users);
            let ph = placeholder();
            let ghost phv = ph;
            let prev = users_insert(users, key.clone(), ph);
            let ghost e1 = user_entries(*users);
            proof {
                lemma_inserted_at(e0, e1, key@, phv, prev, i as int);
            }
            match prev {
                Some(mut u) => {
                    u.add_role(role);
                    let ghost uu = u;
                    let again = users_insert(users, key, u);
                    proof {
                        lemma_inserted_at(e1, user_entries(*users), key@, uu, again, i as int);
                        let f = user_entries(*users);
                        assert(forall|j: int| 0 <= j < e0.len() && j != i ==> f[j] == e0[j]);
                    }
                },
                None => {},
            }
            true
        },
        None => false,
    }
}

/// Whether `u` is `old` with role `role` added as `add_role` adds it.
pub open spec fn granted(old: User, u: User, role: UserRole) -> bool {
    &&& u.id == old.id
    &&& u.name == old.name
    &&& u.contact == old.contact
    &&& u.address == old.address
    &&& u.subscriptions == old.subscriptions
    &&& u.last_seen == old.last_seen
    &&& u.role@ == crate::user::added_role(old.role@, role)
}

/// Whether `g1` is `g0` with the chat keyed `id` registered under `title`,
/// unless a group with that key was there, in which case nothing changed.
pub open spec fn insert_subscription_done(g0: Subscriptions, g1: Subscriptions, id: Seq<char>, title: Seq<char>) -> bool {
    let e0 = group_entries(g0);
    let e1 = group_entries(g1);
    &&& has_key(e0, id) ==> g1 == g0
    &&& !has_key(e0, id) ==> {
        &&& e1.drop_last() == e0
        &&& e1.len() == e0.len() + 1
        &&& e1.last().0 == id
        &&& e1.last().1.id matches Some(x) && x@ == id
        &&& e1.last().1.title@ == title
        &&& user_entries(e1.last().1.members).len() == 0
    }
}

/// Registers the chat `chat_id` titled `chat_title` as a group with no members,
/// unless a group with that id is already there. Returns whether it was added.
pub fn insert_subscription(groups: &mut Subscriptions, chat_id: &str, chat_title: &str) -> (r: bool)
    ensures
        r == !has_key(group_entries(*old(groups)), chat_id@),
        insert_subscription_done(*old(groups), *final(groups), chat_id@, chat_title@),
        !r ==> *final(groups) == *old(groups),
        r ==> group_entries(*final(groups)).drop_last() == group_entries(*old(groups)),
        r ==> group_entries(*final(groups)).len() == group_entries(*old(groups)).len() + 1,
        r ==> group_entries(*final(groups)).last().0 == chat_id@,
        r ==> (group_entries(*final(groups)).last().1.id matches Some(id) && id@ == chat_id@),
        r ==> group_entries(*final(groups)).last().1.title@ == chat_title@,
        r ==> user_entries(group_entries(*final(groups)).last().1.members).len() == 0,
{
    match groups_index_of(groups, chat_id) {
        Some(_) => false,
        None => {
            let group = Subscription {
                id: Some(String::from_str(chat_id)),
                title: String::from_str(chat_title),
                members: users_new(),
            };
            let ghost e0 = group_entries(*groups);
            let _ = groups_insert(groups, String::from_str(chat_id), group);
            assert(group_entries(*groups).drop_last() =~= e0);
            true
        },
    }
}

/// Removing a group when the bot leaves its chat is not implemented: always an error.
pub fn remove_subscription(chat_id: i64) -> (r: Result<(), StrError>)
    ensures
        r matches Err(e) && e.0@ == "db.remove_subscription | Not implemented yet"@,
{
    Err(StrError(String::from_str("db.remove_subscription | Not implemented yet")))
}

} // verus!
