//! Savings goals: each identity owns an ordered list of goals, referenced by
//! position. Progress only ever moves forward: a goal's saved amount is
//! incremented with a saturating addition and never decreased or removed.

use vstd::prelude::*;
use crate::UserId;
use crate::errors::Error;
use crate::store::Store;

verus! {

/// One savings goal: what it is for, the amount aimed at, and the amount
/// saved so far.
#[derive(Debug, PartialEq, Eq)]
pub struct SavingsGoal {
    pub description: String,
    pub target_amount: u64,
    pub current_amount: u64,
}

impl Clone for SavingsGoal {
    fn clone(&self) -> (r: Self)
        ensures
            r == *self,
    {
        SavingsGoal {
            description: self.description.clone(),
            target_amount: self.target_amount,
            current_amount: self.current_amount,
        }
    }
}

/// The two success outcomes of a progress update, distinguished by whether
/// the target has been met. Both carry the interpolated data a user-facing
/// message needs.
#[derive(Debug, PartialEq, Eq)]
pub enum GoalProgress {
    /// The saved amount has reached or passed the target.
    Achieved { description: String },
    /// The goal is still open: `current` of `target` saved so far.
    InProgress { current: u64, target: u64, description: String },
}

/// A goal after `amount` more has been saved toward it. The addition
/// saturates: progress can never wrap around or decrease.
pub open spec fn advanced(goal: SavingsGoal, amount: u64) -> SavingsGoal {
    SavingsGoal { current_amount: goal.current_amount.saturating_add(amount), ..goal }
}

/// The outcome a progress update reports for a goal: achieved once the new
/// saved amount reaches the target, otherwise the updated running total.
pub open spec fn progress_of(goal: SavingsGoal, amount: u64) -> GoalProgress {
    let updated = advanced(goal, amount);
    if updated.current_amount >= updated.target_amount {
        GoalProgress::Achieved { description: goal.description }
    } else {
        GoalProgress::InProgress {
            current: updated.current_amount,
            target: updated.target_amount,
            description: goal.description,
        }
    }
}

/// Identity to ordered list of savings goals.
pub struct SavingsStore {
    goals: Store<Vec<SavingsGoal>>,
}

impl SavingsStore {
    /// The identity's goal list; an identity with no list yet has no goals.
    pub open spec fn goals_of(self, user: UserId) -> Seq<SavingsGoal> {
        if self@.contains_key(user) {
            self@[user]@
        } else {
            Seq::<SavingsGoal>::empty()
        }
    }

    /// An empty savings store: nobody has goals yet.
    pub fn new() -> (s: Self)
        ensures
            s@ == Map::<UserId, Vec<SavingsGoal>>::empty(),
    {
        SavingsStore { goals: Store::new() }
    }

    /// Appends a fresh goal, with nothing saved yet, to the identity's list;
    /// always succeeds, and no other identity's goals move.
    pub fn set_goal(&mut self, user: UserId, description: String, target_amount: u64)
        ensures
            final(self).goals_of(user) == old(self).goals_of(user).push(
                (SavingsGoal { description, target_amount, current_amount: 0 }),
            ),
            forall|u: UserId| u != user ==> final(self).goals_of(u) == old(self).goals_of(u),
    {
        let mut list = self.goals.take_or(user, Vec::new());
        list.push(SavingsGoal { description, target_amount, current_amount: 0 });
        self.goals.upsert(user, list);
    }

    /// Adds `amount` to the goal at `index` in the identity's list,
    /// saturating rather than overflowing, and reports whether the target is
    /// now met. Refused with `InvalidIndex`, and the store left untouched,
    /// exactly when the identity has no goal at that position.
    pub fn update_progress(&mut self, user: UserId, index: usize, amount: u64) -> (r: Result<
        GoalProgress,
        Error,
    >)
        ensures
            index < old(self).goals_of(user).len() ==> {
                let goal = old(self).goals_of(user)[index as int];
                &&& r == Ok::<GoalProgress, Error>(progress_of(goal, amount))
                &&& final(self).goals_of(user) == old(self).goals_of(user).update(
                    index as int,
                    advanced(goal, amount),
                )
                &&& advanced(goal, amount).current_amount >= goal.current_amount
            },
            index >= old(self).goals_of(user).len() ==> {
                &&& r == Err::<GoalProgress, Error>(Error::InvalidIndex)
                &&& final(self)@ == old(self)@
            },
            forall|u: UserId| u != user ==> final(self).goals_of(u) == old(self).goals_of(u),
    {
        match self.goals.take(user) {
            None => Err(Error::InvalidIndex),
            Some(mut list) => {
                if index >= list.len() {
                    self.goals.upsert(user, list);
                    proof {
                        assert(self@ =~= old(self)@);
                    }
                    Err(Error::InvalidIndex)
                } else {
                    let goal = list.remove(index);
                    let current = goal.current_amount.saturating_add(amount);
                    let target = goal.target_amount;
                    let achieved = current >= target;
                    let description = goal.description;
                    let reported = description.clone();
                    list.insert(
                        index,
                        SavingsGoal { description, target_amount: target, current_amount: current },
                    );
                    self.goals.upsert(user, list);
                    proof {
                        assert(self.goals_of(user) =~= old(self).goals_of(user).update(
                            index as int,
                            advanced(old(self).goals_of(user)[index as int], amount),
                        ));
                    }
                    if achieved {
                        Ok(GoalProgress::Achieved { description: reported })
                    } else {
                        Ok(GoalProgress::InProgress {
                            current,
                            target,
                            description: reported,
                        })
                    }
                }
            },
        }
    }

    /// A copy of the identity's goal list, empty if it has none; never fails.
    pub fn list_goals(&self, user: UserId) -> (r: Vec<SavingsGoal>)
        ensures
            r@ == self.goals_of(user),
    {
        match self.goals.get(user) {
            None => Vec::new(),
            Some(list) => {
                let copy = list.clone();
                proof {
                    assert(copy@ =~= list@);
                }
                copy
            },
        }
    }
}

impl View for SavingsStore {
    type V = Map<UserId, Vec<SavingsGoal>>;

    closed spec fn view(&self) -> Map<UserId, Vec<SavingsGoal>> {
        self.goals@
    }
}

} // verus!
