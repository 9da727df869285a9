//! Users and what their roles allow.
use vstd::prelude::*;
use crate::role::UserRole;
use crate::subscription::Subscription;

verus! {

/// A user of the bot as the store keeps it.
#[derive(Debug)]
pub struct User {
    /// Chat id of the user.
    pub id: i64,
    pub name: String,
    pub contact: Option<String>,
    pub address: Option<String>,
    pub subscriptions: Vec<Subscription>,
    /// Time of the last interaction, RFC 3339, or empty.
    pub last_seen: String,
    pub role: Vec<UserRole>,
}

/// The platform's account of who sent a message.
#[derive(Debug, Clone)]
pub struct ChatUser {
    pub id: i64,
    pub first_name: String,
    pub last_name: Option<String>,
    pub username: Option<String>,
}

/// Whether `u` has the profile and roles of `v` and no subscriptions.
pub open spec fn same_profile(u: User, v: User) -> bool {
    &&& u.id == v.id
    &&& u.name == v.name
    &&& u.contact == v.contact
    &&& u.address == v.address
    &&& u.last_seen == v.last_seen
    &&& u.role@ == v.role@
    &&& u.subscriptions@.len() == 0
}

/// Whether some role of `have` is among `want`.
pub open spec fn shares_role(have: Seq<UserRole>, want: Seq<UserRole>) -> bool {
    exists|i: int, j: int| 0 <= i < have.len() && 0 <= j < want.len() && have[i] == want[j]
}

/// `roles` with `r` appended when it is not there yet.
pub open spec fn with_role(roles: Seq<UserRole>, r: UserRole) -> Seq<UserRole> {
    if roles.contains(r) {
        roles
    } else {
        roles.push(r)
    }
}

/// `roles` without any `Guest`.
pub open spec fn without_guest(roles: Seq<UserRole>) -> Seq<UserRole>
    decreases roles.len(),
{
    if roles.len() == 0 {
        roles
    } else {
        let rest = without_guest(roles.drop_last());
        if roles.last() == UserRole::Guest {
            rest
        } else {
            rest.push(roles.last())
        }
    }
}

/// `has_role` is true exactly when the role sets meet.
pub proof fn lemma_has_role_meets(have: Seq<UserRole>, want: Seq<UserRole>)
    ensures
        shares_role(have, want) <==> have.to_set().intersect(want.to_set()) != Set::<UserRole>::empty(),
{
    let both = have.to_set().intersect(want.to_set());
    if shares_role(have, want) {
        let (i, j) = choose|i: int, j: int| 0 <= i < have.len() && 0 <= j < want.len() && have[i] == want[j];
        assert(have.contains(have[i]));
        assert(want.contains(want[j]));
        assert(both.contains(have[i]));
        assert(!Set::<UserRole>::empty().contains(have[i]));
    } else {
        assert forall|x: UserRole| !both.contains(x) by {
            if both.contains(x) {
                let i = choose|i: int| 0 <= i < have.len() && have[i] == x;
                let j = choose|j: int| 0 <= j < want.len() && want[j] == x;
                assert(have[i] == want[j]);
            }
        }
        assert(both =~= Set::<UserRole>::empty());
    }
}

/// No role list without guests holds `Guest`.
pub proof fn lemma_no_guest_left(roles: Seq<UserRole>)
    ensures
        !without_guest(roles).contains(UserRole::Guest),
    decreases roles.len(),
{
    if roles.len() > 0 {
        lemma_no_guest_left(roles.drop_last());
        let rest = without_guest(roles.drop_last());
        if roles.last() != UserRole::Guest {
            assert forall|i: int| 0 <= i < rest.len() + 1 implies rest.push(roles.last())[i] != UserRole::Guest by {
                if i < rest.len() {
                    assert(rest.push(roles.last())[i] == rest[i]);
                }
            }
        }
    }
}

/// Whether some role other than `Guest` is in `roles`.
pub open spec fn has_non_guest(roles: Seq<UserRole>) -> bool {
    exists|i: int| 0 <= i < roles.len() && roles[i] != UserRole::Guest
}

/// Roles after adding `role` to `roles`: `Guest` goes once a role other than
/// `Guest` is there; a user with no other role keeps or gets `Guest`.
pub open spec fn added_role(roles: Seq<UserRole>, role: UserRole) -> Seq<UserRole> {
    if role == UserRole::Guest && !has_non_guest(roles) {
        with_role(roles, UserRole::Guest)
    } else {
        without_guest(with_role(roles, role))
    }
}

/// Dropping guests keeps exactly the other roles.
pub proof fn lemma_without_guest_contains(roles: Seq<UserRole>, x: UserRole)
    ensures
        without_guest(roles).contains(x) <==> (roles.contains(x) && x != UserRole::Guest),
    decreases roles.len(),
{
    if roles.len() > 0 {
        let init = roles.drop_last();
        lemma_without_guest_contains(init, x);
        let rest = without_guest(init);
        assert(roles =~= init.push(roles.last()));
        if roles.contains(x) && x != UserRole::Guest {
            let i = choose|i: int| 0 <= i < roles.len() && roles[i] == x;
            if i < init.len() {
                assert(init[i] == x);
            }
        }
        if roles.last() != UserRole::Guest {
            if rest.push(roles.last()).contains(x) {
                let j = choose|j: int| 0 <= j < rest.len() + 1 && rest.push(roles.last())[j] == x;
                if j < rest.len() {
                    assert(rest[j] == x);
                }
            }
            if rest.contains(x) {
                let j = choose|j: int| 0 <= j < rest.len() && rest[j] == x;
                assert(rest.push(roles.last())[j] == x);
            }
            assert(rest.push(roles.last())[rest.len() as int] == roles.last());
        }
        if init.contains(x) {
            let j = choose|j: int| 0 <= j < init.len() && init[j] == x;
            assert(roles[j] == x);
        }
    }
}

/// After `add_role` a user holds `Guest` exactly when they hold no other role,
/// holds some role, and holds the same other roles as before plus the one added.
pub proof fn lemma_add_role_roles(roles: Seq<UserRole>, role: UserRole)
    ensures
        added_role(roles, role).len() > 0,
        has_non_guest(added_role(roles, role)) ==> !added_role(roles, role).contains(UserRole::Guest),
        !has_non_guest(added_role(roles, role)) ==> added_role(roles, role).contains(UserRole::Guest),
        forall|x: UserRole| x != UserRole::Guest ==> (#[trigger] added_role(roles, role).contains(x) <==> (roles.contains(x) || x == role)),
{
    let w = with_role(roles, role);
    assert(w.contains(role)) by {
        if !roles.contains(role) {
            assert(w[roles.len() as int] == role);
        }
    }
    assert forall|x: UserRole| #[trigger] w.contains(x) <==> (roles.contains(x) || x == role) by {
        if !roles.contains(role) {
            if roles.contains(x) {
                let i = choose|i: int| 0 <= i < roles.len() && roles[i] == x;
                assert(w[i] == x);
            }
            if w.contains(x) {
                let i = choose|i: int| 0 <= i < w.len() && w[i] == x;
                if i < roles.len() {
                    assert(roles[i] == x);
                }
            }
        }
    }
    let a = added_role(roles, role);
    assert forall|x: UserRole| x != UserRole::Guest implies (#[trigger] a.contains(x) <==> (roles.contains(x) || x == role)) by {
        lemma_without_guest_contains(w, x);
        lemma_without_guest_contains(roles, x);
        if role == UserRole::Guest && !has_non_guest(roles) {
            if roles.contains(x) {
                let i = choose|i: int| 0 <= i < roles.len() && roles[i] == x;
                assert(roles[i] != UserRole::Guest);
            }
        }
    }
    if role == UserRole::Guest && !has_non_guest(roles) {
        assert(!has_non_guest(a)) by {
            if has_non_guest(a) {
                let i = choose|i: int| 0 <= i < a.len() && a[i] != UserRole::Guest;
                assert(a.contains(a[i]));
            }
        }
    } else {
        lemma_no_guest_left(w);
        if role != UserRole::Guest {
            lemma_without_guest_contains(w, role);
            assert(a.contains(role));
        } else {
            let i = choose|i: int| 0 <= i < roles.len() && roles[i] != UserRole::Guest;
            assert(roles.contains(roles[i]));
            lemma_without_guest_contains(w, roles[i]);
            assert(a.contains(roles[i]));
        }
    }
}

impl User {
    /// A user with the given fields.
    pub fn new(
        id: i64,
        name: String,
        contact: Option<String>,
        address: Option<String>,
        subscriptions: Vec<Subscription>,
        last_seen: String,
        role: Vec<UserRole>,
    ) -> (r: Self)
        ensures
            r.id == id,
            r.name == name,
            r.contact == contact,
            r.address == address,
            r.subscriptions == subscriptions,
            r.last_seen == last_seen,
            r.role == role,
    {
        User { id, name, contact, address, subscriptions, last_seen, role }
    }

    /// A copy of the user's profile and roles, without subscriptions.
    pub fn profile(&self) -> (r: User)
        ensures
            same_profile(r, *self),
    {
        let contact = match &self.contact {
            Some(c) => Some(c.clone()),
            None => None,
        };
        let address = match &self.address {
            Some(a) => Some(a.clone()),
            None => None,
        };
        let mut role: Vec<UserRole> = Vec::new();
        let mut i: usize = 0;
        while i < self.role.len()
            invariant
                i <= self.role@.len(),
                role@ == self.role@.subrange(0, i as int),
            decreases self.role@.len() - i,
        {
            role.push(self.role[i]);
            assert(role@ =~= self.role@.subrange(0, i + 1));
            i = i + 1;
        }
        assert(role@ =~= self.role@);
        User {
            id: self.id,
            name: self.name.clone(),
            contact,
            address,
            subscriptions: Vec::new(),
            last_seen: self.last_seen.clone(),
            role,
        }
    }

    /// Takes every field of `other`.
    pub fn update(&mut self, other: Self)
        ensures
            *final(self) == other,
    {
        *self = other;
    }

    /// Whether the user holds one of `roles`.
    pub fn has_role(&self, roles: &[UserRole]) -> (r: bool)
        ensures
            r == shares_role(self.role@, roles@),
    {
        let mut i: usize = 0;
        while i < self.role.len()
            invariant
                i <= self.role@.len(),
                forall|a: int, b: int| 0 <= a < i && 0 <= b < roles@.len() ==> self.role@[a] != roles@[b],
            decreases self.role@.len() - i,
        {
            let mut j: usize = 0;
            while j < roles.len()
                invariant
                    i < self.role@.len(),
                    j <= roles@.len(),
                    forall|b: int| 0 <= b < j ==> self.role@[i as int] != roles@[b],
                decreases roles@.len() - j,
            {
                if self.role[i] == roles[j] {
                    return true;
                }
                j = j + 1;
            }
            i = i + 1;
        }
        false
    }

    /// Gives the user `role`; `Guest` is taken away once the user holds
    /// another role.
    pub fn add_role(&mut self, role: UserRole)
        ensures
            final(self).role@ == added_role(old(self).role@, role),
            final(self).id == old(self).id,
            final(self).name == old(self).name,
            final(self).contact == old(self).contact,
            final(self).address == old(self).address,
            final(self).subscriptions == old(self).subscriptions,
            final(self).last_seen == old(self).last_seen,
    {
        let mut present = false;
        let mut other = false;
        let mut i: usize = 0;
        while i < self.role.len()
            invariant
                i <= self.role@.len(),
                present == (exists|j: int| 0 <= j < i && self.role@[j] == role),
                other == (exists|j: int| 0 <= j < i && self.role@[j] != UserRole::Guest),
            decreases self.role@.len() - i,
        {
            if self.role[i] == role {
                present = true;
            }
            if self.role[i] != UserRole::Guest {
                other = true;
            }
            i = i + 1;
        }
        assert(present == self.role@.contains(role));
        if role == UserRole::Guest && !other {
            if !present {
                self.role.push(role);
            }
            return;
        }
        let ghost grown = with_role(self.role@, role);
        let mut roles: Vec<UserRole> = Vec::new();
        let mut k: usize = 0;
        let n = self.role.len();
        while k < n
            invariant
                n == self.role@.len(),
                k <= n,
                roles@ == without_guest(self.role@.subrange(0, k as int)),
            decreases n - k,
        {
            let r = self.role[k];
            proof {
                let s = self.role@.subrange(0, k + 1);
                assert(s.drop_last() == self.role@.subrange(0, k as int));
                assert(s.last() == r);
            }
            if r != UserRole::Guest {
                roles.push(r);
            }
            k = k + 1;
        }
        proof {
            assert(self.role@.subrange(0, n as int) == self.role@);
        }
        if !present && role != UserRole::Guest {
            proof {
                let s = self.role@.push(role);
                assert(s.drop_last() == self.role@);
            }
            roles.push(role);
        } else if !present {
            proof {
                let s = self.role@.push(role);
                assert(s.drop_last() == self.role@);
            }
        }
        self.role = roles;
    }
}

} // verus!
