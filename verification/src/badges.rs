//! Badges: an append-only list of awards per identity. The same badge can be
//! earned any number of times; nothing is ever deduplicated or removed.

use vstd::prelude::*;
use crate::UserId;
use crate::store::Store;

verus! {

/// One earned badge: its name and what it was earned for.
#[derive(Debug, PartialEq, Eq)]
pub struct Badge {
    pub name: String,
    pub description: String,
}

impl Clone for Badge {
    fn clone(&self) -> (r: Self)
        ensures
            r == *self,
    {
        Badge { name: self.name.clone(), description: self.description.clone() }
    }
}

/// Identity to list of earned badges.
pub struct BadgeStore {
    badges: Store<Vec<Badge>>,
}

impl View for BadgeStore {
    type V = Map<UserId, Vec<Badge>>;

    closed spec fn view(&self) -> Map<UserId, Vec<Badge>> {
        self.badges@
    }
}

impl BadgeStore {
    /// The identity's badge list; an identity never awarded one has none.
    pub open spec fn badges_of(self, user: UserId) -> Seq<Badge> {
        if self@.contains_key(user) {
            self@[user]@
        } else {
            Seq::<Badge>::empty()
        }
    }

    /// An empty badge store: nothing has been awarded.
    pub fn new() -> (s: Self)
        ensures
            s@ == Map::<UserId, Vec<Badge>>::empty(),
    {
        BadgeStore { badges: Store::new() }
    }

    /// Unconditionally appends a badge to the identity's list, creating the
    /// list on the first award; always succeeds, and no other identity's
    /// badges move.
    pub fn award(&mut self, user: UserId, name: String, description: String)
        ensures
            final(self).badges_of(user) == old(self).badges_of(user).push(
                (Badge { name, description }),
            ),
            forall|u: UserId| u != user ==> final(self).badges_of(u) == old(self).badges_of(u),
    {
        let mut list = self.badges.take_or(user, Vec::new());
        list.push(Badge { name, description });
        self.badges.upsert(user, list);
    }

    /// A copy of the identity's badge list, empty if it has none; never
    /// fails.
    pub fn list_badges(&self, user: UserId) -> (r: Vec<Badge>)
        ensures
            r@ == self.badges_of(user),
    {
        match self.badges.get(user) {
            None => Vec::new(),
            Some(list) => {
                let copy = list.clone();
                proof {
                    assert(copy@ =~= list@);
                }
                copy
            },
        }
    }
}

} // verus!
