//! The role registry: identity to role label, set at most once. The one
//! authorization check in the system lives here: the restricted action is
//! open exactly to identities whose role is the admin label.

use vstd::prelude::*;
use crate::UserId;
use crate::errors::Error;
use crate::store::Store;

verus! {

/// The privileged role label. Exactly one operation recognizes it, by plain
/// string equality; every other label is an ordinary, unprivileged role.
pub open spec fn admin_label() -> Seq<char> {
    "admin"@
}

/// Whether a role label carries the privilege for the restricted action.
pub open spec fn is_admin(role: Seq<char>) -> bool {
    role == admin_label()
}

/// What a registration attempt leaves in the registry: a role is set at most
/// once per identity, so an existing record is never overwritten.
pub open spec fn register_post(
    pre: Map<UserId, String>,
    user: UserId,
    role: String,
) -> Map<UserId, String> {
    if pre.contains_key(user) {
        pre
    } else {
        pre.insert(user, role)
    }
}

/// Identity to role label, one role per identity, immutable once set.
pub struct Registry {
    roles: Store<String>,
}

impl View for Registry {
    type V = Map<UserId, String>;

    closed spec fn view(&self) -> Map<UserId, String> {
        self.roles@
    }
}

impl Registry {
    /// An empty registry: nobody is registered.
    pub fn new() -> (r: Self)
        ensures
            r@ == Map::<UserId, String>::empty(),
    {
        Registry { roles: Store::new() }
    }

    /// Records the identity's role, unless one is already on file: a role can
    /// never be changed once set.
    pub fn register(&mut self, user: UserId, role: String) -> (r: Result<(), Error>)
        ensures
            final(self)@ == register_post(old(self)@, user, role),
            r == (if old(self)@.contains_key(user) {
                Err::<(), Error>(Error::AlreadyExists)
            } else {
                Ok::<(), Error>(())
            }),
    {
        if self.roles.contains(user) {
            Err(Error::AlreadyExists)
        } else {
            self.roles.upsert(user, role);
            Ok(())
        }
    }

    /// The identity's stored role, or `NotFound` if it never registered.
    pub fn get_role(&self, user: UserId) -> (r: Result<String, Error>)
        ensures
            self@.contains_key(user) ==> r == Ok::<String, Error>(self@[user]),
            !self@.contains_key(user) ==> r == Err::<String, Error>(Error::NotFound),
    {
        match self.roles.get(user) {
            Some(role) => Ok(role.clone()),
            None => Err(Error::NotFound),
        }
    }

    /// Whether the identity has registered; total, never fails.
    pub fn is_registered(&self, user: UserId) -> (b: bool)
        ensures
            b == self@.contains_key(user),
    {
        self.roles.contains(user)
    }

    /// The single authorization gate: refused with `NotRegistered` for an
    /// identity with no role, with `InsufficientPermissions` for any
    /// registered non-admin role, and permitted exactly when the stored role
    /// is the admin label.
    pub fn restricted_action(&self, user: UserId) -> (r: Result<(), Error>)
        ensures
            !self@.contains_key(user) ==> r == Err::<(), Error>(Error::NotRegistered),
            self@.contains_key(user) && is_admin(self@[user]@) ==> r == Ok::<(), Error>(()),
            self@.contains_key(user) && !is_admin(self@[user]@) ==> r == Err::<(), Error>(
                Error::InsufficientPermissions,
            ),
    {
        match self.roles.get(user) {
            None => Err(Error::NotRegistered),
            Some(role) => {
                let admin = "admin".to_owned();
                if *role == admin {
                    Ok(())
                } else {
                    Err(Error::InsufficientPermissions)
                }
            },
        }
    }
}

/// Law: once an identity registers a role, a repeated registration under any
/// other role leaves the registry exactly as it was, and the stored role is
/// still the first one.
pub proof fn lemma_role_immutable_once_set(
    pre: Map<UserId, String>,
    user: UserId,
    first: String,
    second: String,
)
    requires
        !pre.contains_key(user),
    ensures
        register_post(pre, user, first).contains_key(user),
        register_post(pre, user, first)[user] == first,
        register_post(register_post(pre, user, first), user, second) == register_post(
            pre,
            user,
            first,
        ),
{
}

} // verus!
