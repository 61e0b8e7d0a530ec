//! The error taxonomy shared by every store: each operation that can fail
//! returns one of these conditions as a value.

use vstd::prelude::*;

verus! {

/// Why an operation was refused. Every failure is reported to the immediate
/// caller as a value; no error escapes an operation any other way.
#[derive(Clone, Copy, Debug, PartialEq, Eq)]
pub enum Error {
    /// A registration or creation was attempted twice for the same identity.
    AlreadyExists,
    /// A lookup found no record for the identity in the relevant store.
    NotFound,
    /// The restricted action was invoked by an identity with no role on file.
    NotRegistered,
    /// The restricted action was invoked by a registered, non-admin identity.
    InsufficientPermissions,
    /// A savings-goal index was out of range for the identity's goal list.
    InvalidIndex,
    /// A staking summary was requested with no active session.
    NoActiveSession,
}

impl Error {
    /// The stable, human-readable description of each error condition.
    pub open spec fn message_view(self) -> Seq<char> {
        match self {
            Error::AlreadyExists => "a record already exists for this identity"@,
            Error::NotFound => "no record found for this identity"@,
            Error::NotRegistered => "user not registered"@,
            Error::InsufficientPermissions => "insufficient permissions"@,
            Error::InvalidIndex => "invalid goal or user"@,
            Error::NoActiveSession => "no active staking session"@,
        }
    }

    /// A short, stable message for the condition, for the dispatch layer to
    /// render to users.
    pub fn message(&self) -> (r: &'static str)
        ensures
            r@ == self.message_view(),
    {
        match self {
            Error::AlreadyExists => "a record already exists for this identity",
            Error::NotFound => "no record found for this identity",
            Error::NotRegistered => "user not registered",
            Error::InsufficientPermissions => "insufficient permissions",
            Error::InvalidIndex => "invalid goal or user",
            Error::NoActiveSession => "no active staking session",
        }
    }
}

} // verus!
