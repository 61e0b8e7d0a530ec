//! An in-memory, multi-tenant record store: each feature keeps per-caller
//! state keyed by an opaque caller identity, mutated through a small set of
//! request handlers.
//!
//! The features are an identity/role registry, savings-goal tracking, a
//! staking reward simulator, token wallets, badges, and a leaderboard.
//! Caller identity and the current time are supplied by the hosting
//! dispatch layer as explicit parameters; the stores themselves hold no
//! ambient state and perform no input or output.

use vstd::prelude::*;

pub mod badges;
pub mod errors;
pub mod leaderboard;
pub mod registry;
pub mod savings;
pub mod staking;
pub mod store;
pub mod wallet;

verus! {

/// An opaque caller identity. The hosting dispatch layer resolves each call
/// to one of these; the stores only ever compare identities for equality and
/// use them as keys.
pub type UserId = u64;

/// The whole record store: one owned instance of every per-feature store,
/// constructed empty at process start and threaded into every handler. No
/// operation touches more than one of the six stores.
pub struct State {
    pub registry: registry::Registry,
    pub savings: savings::SavingsStore,
    pub staking: staking::StakingStore,
    pub wallets: wallet::WalletStore,
    pub badges: badges::BadgeStore,
    pub leaderboard: leaderboard::Leaderboard,
}

impl State {
    /// A fresh state: every store starts empty.
    pub fn new() -> (s: State)
        ensures
            s.registry@ == Map::<UserId, String>::empty(),
            s.savings@ == Map::<UserId, Vec<savings::SavingsGoal>>::empty(),
            s.staking@ == Map::<UserId, staking::StakingInfo>::empty(),
            s.wallets@ == Map::<UserId, wallet::Wallet>::empty(),
            s.badges@ == Map::<UserId, Vec<badges::Badge>>::empty(),
            s.leaderboard@ == Seq::<leaderboard::LeaderboardEntry>::empty(),
    {
        State {
            registry: registry::Registry::new(),
            savings: savings::SavingsStore::new(),
            staking: staking::StakingStore::new(),
            wallets: wallet::WalletStore::new(),
            badges: badges::BadgeStore::new(),
            leaderboard: leaderboard::Leaderboard::new(),
        }
    }
}

} // verus!
