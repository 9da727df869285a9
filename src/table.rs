//! Insertion-ordered tables keyed by text, kept in `indexmap::IndexMap`.
//!
//! The contents of each table are named as a sequence of (key, value) entries
//! in insertion order; the operations below state what `IndexMap` does to them.
use vstd::prelude::*;
use indexmap::IndexMap;
use crate::links::Links;
use crate::role::UserRoleDb;
use crate::subscription::Subscription;
use crate::user::User;

verus! {

#[verifier::external_type_specification]
#[verifier::external_body]
#[verifier::reject_recursive_types(K)]
#[verifier::reject_recursive_types(V)]
#[verifier::reject_recursive_types(S)]
pub struct ExIndexMap<K, V, S>(IndexMap<K, V, S>);

/// Whether some entry has key `k`.
pub open spec fn has_key<V>(e: Seq<(Seq<char>, V)>, k: Seq<char>) -> bool {
    exists|i: int| 0 <= i < e.len() && (#[trigger] e[i]).0 == k
}

/// Whether `i` is the one position of key `k`.
pub open spec fn key_only_at<V>(e: Seq<(Seq<char>, V)>, k: Seq<char>, i: int) -> bool {
    &&& 0 <= i < e.len()
    &&& e[i].0 == k
    &&& forall|j: int| 0 <= j < e.len() && j != i ==> (#[trigger] e[j]).0 != k
}

/// The value under key `k`, if any.
pub open spec fn lookup<V>(e: Seq<(Seq<char>, V)>, k: Seq<char>) -> Option<V> {
    if has_key(e, k) {
        Some(e[choose|i: int| 0 <= i < e.len() && (#[trigger] e[i]).0 == k].1)
    } else {
        None
    }
}

/// The value at the one position of a key is the value under that key.
pub proof fn lemma_lookup_at<V>(e: Seq<(Seq<char>, V)>, k: Seq<char>, i: int)
    requires
        key_only_at(e, k, i),
    ensures
        lookup(e, k) == Some(e[i].1),
{
    assert(has_key(e, k));
    let j = choose|j: int| 0 <= j < e.len() && (#[trigger] e[j]).0 == k;
    assert(j == i);
}

/// Entries `f` are `e` with `v` put under `k`: in the key's place when it is
/// present, appended when it is not.
pub open spec fn placed<V>(e: Seq<(Seq<char>, V)>, f: Seq<(Seq<char>, V)>, k: Seq<char>, v: V) -> bool {
    &&& has_key(e, k) ==> exists|i: int| 0 <= i < e.len() && (#[trigger] e[i]).0 == k && f == e.update(i, (k, v))
    &&& !has_key(e, k) ==> f == e.push((k, v))
}

/// What inserting `(k, v)` does to entries `e`: a present key keeps its place and
/// takes the new value, an absent one is appended.
pub open spec fn inserted<V>(e: Seq<(Seq<char>, V)>, f: Seq<(Seq<char>, V)>, k: Seq<char>, v: V, r: Option<V>) -> bool {
    &&& has_key(e, k) ==> exists|i: int| 0 <= i < e.len() && (#[trigger] e[i]).0 == k && f == e.update(i, (k, v)) && r == Some(e[i].1)
    &&& !has_key(e, k) ==> f == e.push((k, v)) && r is None
}


/// Subscription groups keyed by group id.
pub type Subscriptions = IndexMap<String, Subscription>;

/// Role catalog keyed by role name.
pub type UserRoles = IndexMap<String, UserRoleDb>;

/// Inserting under a key that sits at position `i` replaces the value there
/// and returns the old one; the key stays at `i` alone.
pub proof fn lemma_inserted_at<V>(e: Seq<(Seq<char>, V)>, f: Seq<(Seq<char>, V)>, k: Seq<char>, v: V, r: Option<V>, i: int)
    requires
        inserted(e, f, k, v, r),
        key_only_at(e, k, i),
    ensures
        f == e.update(i, (k, v)),
        r == Some(e[i].1),
        key_only_at(f, k, i),
{
    assert(has_key(e, k)) by {
        assert(e[i].0 == k);
    }
    let j = choose|j: int| 0 <= j < e.len() && (#[trigger] e[j]).0 == k && f == e.update(j, (k, v)) && r == Some(e[j].1);
    assert(j == i);
    assert forall|m: int| 0 <= m < f.len() && m != i implies (#[trigger] f[m]).0 != k by {
        assert(f[m] == e[m]);
    }
}

/// Users keyed by their id text.
///
/// A user holds subscription groups and a group holds users, so the map is
/// kept in a field of its own type.
#[verifier::external_body]
#[derive(Debug)]
pub struct UserTable {
    map: IndexMap<String, User>,
}

/// Child nodes of a link tree node keyed by child id.
///
/// A link node holds this table and the table holds link nodes, so the map is
/// kept in a field of its own type.
#[verifier::external_body]
#[derive(Debug)]
pub struct LinkTable {
    map: IndexMap<String, Links>,
}

/// Entries of a user table, in insertion order.
pub uninterp spec fn user_entries(m: UserTable) -> Seq<(Seq<char>, User)>;

/// Entries of a group table, in insertion order.
pub uninterp spec fn group_entries(m: Subscriptions) -> Seq<(Seq<char>, Subscription)>;

/// Entries of a role catalog, in insertion order.
pub uninterp spec fn role_entries(m: UserRoles) -> Seq<(Seq<char>, UserRoleDb)>;

/// Entries of a link table, in insertion order.
pub uninterp spec fn link_entries(m: LinkTable) -> Seq<(Seq<char>, Links)>;


/// Relies on `IndexMap::new`: an empty user table.
#[verifier::external_body]
pub(crate) fn users_new() -> (r: UserTable)
    ensures
        user_entries(r) == Seq::<(Seq<char>, User)>::empty(),
{
    UserTable { map: IndexMap::new() }
}

/// Relies on `IndexMap::len`: the number of entries.
#[verifier::external_body]
pub(crate) fn users_len(m: &UserTable) -> (r: usize)
    ensures
        r == user_entries(*m).len(),
{
    m.map.len()
}

/// Relies on `IndexMap::get_index`: the entry at position `i`, if there is one.
#[verifier::external_body]
pub(crate) fn users_get_index(m: &UserTable, i: usize) -> (r: Option<(&String, &User)>)
    ensures
        r is Some <==> i < user_entries(*m).len(),
        r matches Some(p) ==> p.0@ == user_entries(*m)[i as int].0 && *p.1 == user_entries(*m)[i as int].1,
{
    m.map.get_index(i)
}

/// Relies on `IndexMap::get_index_of`: the position of key `k`; keys are unique.
#[verifier::external_body]
pub(crate) fn users_index_of(m: &UserTable, k: &str) -> (r: Option<usize>)
    ensures
        r is None <==> !has_key(user_entries(*m), k@),
        r matches Some(i) ==> key_only_at(user_entries(*m), k@, i as int),
{
    m.map.get_index_of(k)
}

/// Relies on `IndexMap::insert`: a present key keeps its place and takes the
/// new value, an absent one is appended; the replaced value is returned.
#[verifier::external_body]
pub(crate) fn users_insert(m: &mut UserTable, k: String, v: User) -> (r: Option<User>)
    ensures
        inserted(user_entries(*old(m)), user_entries(*final(m)), k@, v, r),
{
    m.map.insert(k, v)
}

/// Relies on `IndexMap::shift_remove_index`: removes the entry at `i`, and the
/// entries after it move up by one.
#[verifier::external_body]
pub(crate) fn users_remove_index(m: &mut UserTable, i: usize) -> (r: Option<(String, User)>)
    ensures
        i < user_entries(*old(m)).len() ==> user_entries(*final(m)) == user_entries(*old(m)).remove(i as int),
        i < user_entries(*old(m)).len() ==> (r matches Some(p) && p.0@ == user_entries(*old(m))[i as int].0 && p.1 == user_entries(*old(m))[i as int].1),
        i >= user_entries(*old(m)).len() ==> user_entries(*final(m)) == user_entries(*old(m)) && r is None,
{
    m.map.shift_remove_index(i)
}

/// Relies on `IndexMap::len`: the number of entries.
#[verifier::external_body]
pub(crate) fn groups_len(m: &Subscriptions) -> (r: usize)
    ensures
        r == group_entries(*m).len(),
{
    m.len()
}

/// Relies on `IndexMap::get_index`: the entry at position `i`, if there is one.
#[verifier::external_body]
pub(crate) fn groups_get_index(m: &Subscriptions, i: usize) -> (r: Option<(&String, &Subscription)>)
    ensures
        r is Some <==> i < group_entries(*m).len(),
        r matches Some(p) ==> p.0@ == group_entries(*m)[i as int].0 && *p.1 == group_entries(*m)[i as int].1,
{
    m.get_index(i)
}

/// Relies on `IndexMap::get_index_of`: the position of key `k`; keys are unique.
#[verifier::external_body]
pub(crate) fn groups_index_of(m: &Subscriptions, k: &str) -> (r: Option<usize>)
    ensures
        r is None <==> !has_key(group_entries(*m), k@),
        r matches Some(i) ==> key_only_at(group_entries(*m), k@, i as int),
{
    m.get_index_of(k)
}

/// Relies on `IndexMap::insert`: a present key keeps its place and takes the
/// new value, an absent one is appended; the replaced value is returned.
#[verifier::external_body]
pub(crate) fn groups_insert(m: &mut Subscriptions, k: String, v: Subscription) -> (r: Option<Subscription>)
    ensures
        inserted(group_entries(*old(m)), group_entries(*final(m)), k@, v, r),
{
    m.insert(k, v)
}

/// Relies on `IndexMap::len`: the number of entries.
#[verifier::external_body]
pub(crate) fn roles_len(m: &UserRoles) -> (r: usize)
    ensures
        r == role_entries(*m).len(),
{
    m.len()
}

/// Relies on `IndexMap::get_index`: the entry at position `i`, if there is one.
#[verifier::external_body]
pub(crate) fn roles_get_index(m: &UserRoles, i: usize) -> (r: Option<(&String, &UserRoleDb)>)
    ensures
        r is Some <==> i < role_entries(*m).len(),
        r matches Some(p) ==> p.0@ == role_entries(*m)[i as int].0 && *p.1 == role_entries(*m)[i as int].1,
{
    m.get_index(i)
}

/// Relies on `IndexMap::get_index_of`: the position of key `k`; keys are unique.
#[verifier::external_body]
pub(crate) fn roles_index_of(m: &UserRoles, k: &str) -> (r: Option<usize>)
    ensures
        r is None <==> !has_key(role_entries(*m), k@),
        r matches Some(i) ==> key_only_at(role_entries(*m), k@, i as int),
{
    m.get_index_of(k)
}

/// Relies on `IndexMap::new`: an empty link table.
#[verifier::external_body]
pub(crate) fn links_new() -> (r: LinkTable)
    ensures
        link_entries(r) == Seq::<(Seq<char>, Links)>::empty(),
{
    LinkTable { map: IndexMap::new() }
}

/// Relies on `IndexMap::len`: the number of entries.
#[verifier::external_body]
pub(crate) fn links_len(m: &LinkTable) -> (r: usize)
    ensures
        r == link_entries(*m).len(),
{
    m.map.len()
}

/// Relies on `IndexMap::get_index`: the entry at position `i`, if there is one.
#[verifier::external_body]
pub(crate) fn links_get_index(m: &LinkTable, i: usize) -> (r: Option<(&String, &Links)>)
    ensures
        r is Some <==> i < link_entries(*m).len(),
        r matches Some(p) ==> p.0@ == link_entries(*m)[i as int].0 && *p.1 == link_entries(*m)[i as int].1,
{
    m.map.get_index(i)
}

/// Relies on `IndexMap::get_index_of`: the position of key `k`; keys are unique.
#[verifier::external_body]
pub(crate) fn links_index_of(m: &LinkTable, k: &str) -> (r: Option<usize>)
    ensures
        r is None <==> !has_key(link_entries(*m), k@),
        r matches Some(i) ==> key_only_at(link_entries(*m), k@, i as int),
{
    m.map.get_index_of(k)
}

/// Relies on `IndexMap::insert`: a present key keeps its place and takes the
/// new value, an absent one is appended; the replaced value is returned.
#[verifier::external_body]
pub(crate) fn links_insert(m: &mut LinkTable, k: String, v: Links) -> (r: Option<Links>)
    ensures
        inserted(link_entries(*old(m)), link_entries(*final(m)), k@, v, r),
{
    m.map.insert(k, v)
}

/// Relies on `IndexMap::shift_remove_index`: removes the entry at `i`, and the
/// entries after it move up by one.
#[verifier::external_body]
pub(crate) fn links_remove_index(m: &mut LinkTable, i: usize) -> (r: Option<(String, Links)>)
    ensures
        i < link_entries(*old(m)).len() ==> link_entries(*final(m)) == link_entries(*old(m)).remove(i as int),
        i < link_entries(*old(m)).len() ==> (r matches Some(p) && p.0@ == link_entries(*old(m))[i as int].0 && p.1 == link_entries(*old(m))[i as int].1),
        i >= link_entries(*old(m)).len() ==> link_entries(*final(m)) == link_entries(*old(m)) && r is None,
{
    m.map.shift_remove_index(i)
}

impl UserTable {
    /// An empty table.
    pub fn new() -> (r: Self)
        ensures
            user_entries(r) == Seq::<(Seq<char>, User)>::empty(),
    {
        users_new()
    }

    /// Number of users.
    pub fn len(&self) -> (r: usize)
        ensures
            r == user_entries(*self).len(),
    {
        users_len(self)
    }

    /// The entry at position `i`, if there is one.
    pub fn entry(&self, i: usize) -> (r: Option<(&String, &User)>)
        ensures
            r is Some <==> i < user_entries(*self).len(),
            r matches Some(p) ==> p.0@ == user_entries(*self)[i as int].0 && *p.1 == user_entries(*self)[i as int].1,
    {
        users_get_index(self, i)
    }

    /// Puts `v` under key `k`: a present key keeps its place, an absent one is appended.
    pub fn insert(&mut self, k: String, v: User) -> (r: Option<User>)
        ensures
            inserted(user_entries(*old(self)), user_entries(*final(self)), k@, v, r),
    {
        users_insert(self, k, v)
    }
}

impl LinkTable {
    /// An empty table.
    pub fn new() -> (r: Self)
        ensures
            link_entries(r) == Seq::<(Seq<char>, Links)>::empty(),
    {
        links_new()
    }

    /// Number of children.
    pub fn len(&self) -> (r: usize)
        ensures
            r == link_entries(*self).len(),
    {
        links_len(self)
    }

    /// The entry at position `i`, if there is one.
    pub fn entry(&self, i: usize) -> (r: Option<(&String, &Links)>)
        ensures
            r is Some <==> i < link_entries(*self).len(),
            r matches Some(p) ==> p.0@ == link_entries(*self)[i as int].0 && *p.1 == link_entries(*self)[i as int].1,
    {
        links_get_index(self, i)
    }

    /// Puts `v` under key `k`: a present key keeps its place, an absent one is appended.
    pub fn insert(&mut self, k: String, v: Links) -> (r: Option<Links>)
        ensures
            inserted(link_entries(*old(self)), link_entries(*final(self)), k@, v, r),
    {
        links_insert(self, k, v)
    }
}

} // verus!
