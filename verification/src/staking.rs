//! The staking reward simulator: at most one open session per identity, and
//! a reward computed from the staked amount, the session's reward rate, and
//! the whole seconds elapsed since the session opened.
//!
//! The reward rate is an exact fraction, numerator over a nonzero
//! denominator, and the reward is the product `amount * rate * elapsed`
//! rounded to the nearest whole token, halves away from zero, capped at the
//! largest token count a balance can hold.

use vstd::prelude::*;
use vstd::arithmetic::div_mod::{lemma_div_is_ordered, lemma_div_multiples_vanish};
use crate::UserId;
use crate::errors::Error;
use crate::store::Store;

verus! {

/// An exact reward fraction: `numerator / denominator` with a nonzero
/// denominator, built only through [`RewardRate::new`].
#[derive(Clone, Copy, Debug, PartialEq, Eq)]
pub struct RewardRate {
    numerator: u64,
    denominator: u64,
}

impl RewardRate {
    #[verifier::type_invariant]
    spec fn inv(self) -> bool {
        self.denominator != 0
    }

    /// The fraction's numerator.
    pub closed spec fn num(self) -> u64 {
        self.numerator
    }

    /// The fraction's denominator; nonzero for every rate that exists.
    pub closed spec fn den(self) -> u64 {
        self.denominator
    }

    /// A rate of `numerator / denominator`; refused only for a zero
    /// denominator, which names no fraction at all.
    pub fn new(numerator: u64, denominator: u64) -> (r: Option<RewardRate>)
        ensures
            denominator != 0 ==> (r matches Some(rate) && rate.num() == numerator && rate.den()
                == denominator),
            denominator == 0 ==> r is None,
    {
        if denominator == 0 {
            None
        } else {
            Some(RewardRate { numerator, denominator })
        }
    }

    /// Reads the numerator back.
    pub fn numerator(&self) -> (n: u64)
        ensures
            n == self.num(),
    {
        self.numerator
    }

    /// Reads the denominator back; it is never zero.
    pub fn denominator(&self) -> (d: u64)
        ensures
            d == self.den(),
            d != 0,
    {
        proof {
            use_type_invariant(self);
        }
        self.denominator
    }
}

/// One open staking session: the staked amount, the rate, and when it began.
#[derive(Clone, Copy, Debug, PartialEq, Eq)]
pub struct StakingInfo {
    pub amount: u64,
    pub start_time: u64,
    pub rate: RewardRate,
}

/// What a staking summary reports: the staked amount and the reward earned
/// so far.
#[derive(Clone, Copy, Debug, PartialEq, Eq)]
pub struct StakeSummary {
    pub amount: u64,
    pub reward: u64,
}

/// Whole seconds since the session opened, clamped at zero so a clock that
/// regresses can never yield a negative span.
pub open spec fn elapsed_secs(start_time: u64, now: u64) -> nat {
    if now >= start_time {
        (now - start_time) as nat
    } else {
        0
    }
}

/// `amount * (num / den) * secs`, rounded to the nearest whole token with
/// halves away from zero, capped at `u64::MAX`.
pub open spec fn rounded_reward(amount: nat, num: nat, den: nat, secs: nat) -> nat
    recommends
        den > 0,
{
    let nearest = (amount * num * secs + den / 2) / den;
    if nearest > u64::MAX {
        u64::MAX as nat
    } else {
        nearest
    }
}

/// The reward a session has earned by time `now`.
pub open spec fn reward_of(info: StakingInfo, now: u64) -> u64 {
    rounded_reward(
        info.amount as nat,
        info.rate.num() as nat,
        info.rate.den() as nat,
        elapsed_secs(info.start_time, now),
    ) as u64
}

/// Identity to at most one open staking session; no operation ever closes
/// one.
pub struct StakingStore {
    sessions: Store<StakingInfo>,
}

impl View for StakingStore {
    type V = Map<UserId, StakingInfo>;

    closed spec fn view(&self) -> Map<UserId, StakingInfo> {
        self.sessions@
    }
}

impl StakingStore {
    /// An empty staking store: no sessions are open.
    pub fn new() -> (s: Self)
        ensures
            s@ == Map::<UserId, StakingInfo>::empty(),
    {
        StakingStore { sessions: Store::new() }
    }

    /// Opens a session starting at `now`, unless the identity already has
    /// one: refused with `AlreadyExists`, and nothing changed, in that case.
    pub fn open_session(&mut self, user: UserId, amount: u64, rate: RewardRate, now: u64) -> (r:
        Result<(), Error>)
        ensures
            old(self)@.contains_key(user) ==> r == Err::<(), Error>(Error::AlreadyExists)
                && final(self)@ == old(self)@,
            !old(self)@.contains_key(user) ==> r == Ok::<(), Error>(()) && final(self)@ == old(
                self,
            )@.insert(user, (StakingInfo { amount, start_time: now, rate })),
    {
        if self.sessions.contains(user) {
            Err(Error::AlreadyExists)
        } else {
            self.sessions.upsert(user, StakingInfo { amount, start_time: now, rate });
            Ok(())
        }
    }

    /// The staked amount and the reward earned by time `now`, or
    /// `NoActiveSession` if the identity has no open session.
    pub fn summary(&self, user: UserId, now: u64) -> (r: Result<StakeSummary, Error>)
        ensures
            self@.contains_key(user) ==> r == Ok::<StakeSummary, Error>(
                (StakeSummary { amount: self@[user].amount, reward: reward_of(self@[user], now) }),
            ),
            !self@.contains_key(user) ==> r == Err::<StakeSummary, Error>(Error::NoActiveSession),
    {
        match self.sessions.get(user) {
            None => Err(Error::NoActiveSession),
            Some(info) => {
                let elapsed = if now >= info.start_time {
                    now - info.start_time
                } else {
                    0
                };
                let num = info.rate.numerator();
                let den = info.rate.denominator();
                let reward = rounded_reward_exec(info.amount, num, den, elapsed);
                Ok(StakeSummary { amount: info.amount, reward })
            },
        }
    }
}

/// Computes [`rounded_reward`] exactly, working in 128-bit arithmetic and
/// capping at `u64::MAX` wherever the true product would go past it.
fn rounded_reward_exec(amount: u64, num: u64, den: u64, secs: u64) -> (r: u64)
    requires
        den != 0,
    ensures
        r as nat == rounded_reward(amount as nat, num as nat, den as nat, secs as nat),
{
    proof {
        lemma_wide_product_bound(amount as nat, num as nat);
    }
    let scaled_rate: u128 = (amount as u128) * (num as u128);
    let half: u128 = (den / 2) as u128;
    match scaled_rate.checked_mul(secs as u128) {
        None => {
            proof {
                lemma_reward_saturates(amount as nat, num as nat, den as nat, secs as nat);
            }
            u64::MAX
        },
        Some(scaled) => match scaled.checked_add(half) {
            None => {
                proof {
                    lemma_reward_saturates(amount as nat, num as nat, den as nat, secs as nat);
                }
                u64::MAX
            },
            Some(biased) => {
                let nearest = biased / (den as u128);
                if nearest > u64::MAX as u128 {
                    u64::MAX
                } else {
                    nearest as u64
                }
            },
        },
    }
}

/// The product of two 64-bit values always fits in 128 bits.
proof fn lemma_wide_product_bound(a: nat, b: nat)
    requires
        a <= u64::MAX,
        b <= u64::MAX,
    ensures
        a * b <= u64::MAX * u64::MAX,
{
    assert(a * b <= u64::MAX * u64::MAX) by (nonlinear_arith)
        requires
            a <= u64::MAX,
            b <= u64::MAX,
    ;
}

/// Once the biased product leaves 128-bit range, the rounded reward is pinned
/// at the cap.
proof fn lemma_reward_saturates(amount: nat, num: nat, den: nat, secs: nat)
    requires
        den != 0,
        den <= u64::MAX,
        amount * num * secs + den / 2 > u128::MAX,
    ensures
        rounded_reward(amount, num, den, secs) == u64::MAX as nat,
{
    let biased = amount * num * secs + den / 2;
    let threshold = (u64::MAX + 1) * den;
    vstd::arithmetic::mul::lemma_mul_inequality(den as int, u64::MAX as int, u64::MAX as int + 1);
    vstd::arithmetic::mul::lemma_mul_is_commutative(u64::MAX as int + 1, den as int);
    assert(threshold <= u64::MAX * (u64::MAX as int + 1));
    assert(biased >= threshold);
    lemma_div_is_ordered(threshold as int, biased as int, den as int);
    lemma_div_multiples_vanish(u64::MAX as int + 1, den as int);
    assert(threshold as int / den as int == u64::MAX + 1);
    assert(biased / den >= u64::MAX + 1);
}

} // verus!
