//! Token wallets: one per identity, created explicitly with a zero balance.
//! This surface only creates and reads wallets; nothing here moves tokens.

use vstd::prelude::*;
use crate::UserId;
use crate::errors::Error;
use crate::store::Store;

verus! {

/// A wallet's state: its token balance.
#[derive(Clone, Copy, Debug, PartialEq, Eq)]
pub struct Wallet {
    pub tokens: u64,
}

/// What a creation attempt reports: creation is idempotent with notice, never
/// a hard failure.
#[derive(Clone, Copy, Debug, PartialEq, Eq)]
pub enum WalletCreation {
    /// A fresh wallet with a zero balance now exists.
    Created,
    /// The identity already had a wallet; nothing changed.
    AlreadyExisted,
}

/// What a creation attempt leaves in the store: an existing wallet is never
/// replaced, a missing one appears with a zero balance.
pub open spec fn create_post(pre: Map<UserId, Wallet>, user: UserId) -> Map<UserId, Wallet> {
    if pre.contains_key(user) {
        pre
    } else {
        pre.insert(user, Wallet { tokens: 0 })
    }
}

/// Identity to token wallet.
pub struct WalletStore {
    wallets: Store<Wallet>,
}

impl View for WalletStore {
    type V = Map<UserId, Wallet>;

    closed spec fn view(&self) -> Map<UserId, Wallet> {
        self.wallets@
    }
}

impl WalletStore {
    /// An empty wallet store: nobody has a wallet yet.
    pub fn new() -> (s: Self)
        ensures
            s@ == Map::<UserId, Wallet>::empty(),
    {
        WalletStore { wallets: Store::new() }
    }

    /// Creates the identity's wallet with a zero balance, or reports, without
    /// failing, that one already exists.
    pub fn create(&mut self, user: UserId) -> (r: WalletCreation)
        ensures
            final(self)@ == create_post(old(self)@, user),
            r == (if old(self)@.contains_key(user) {
                WalletCreation::AlreadyExisted
            } else {
                WalletCreation::Created
            }),
    {
        if self.wallets.contains(user) {
            WalletCreation::AlreadyExisted
        } else {
            self.wallets.upsert(user, Wallet { tokens: 0 });
            WalletCreation::Created
        }
    }

    /// The identity's token balance, or `NotFound` if it has no wallet.
    pub fn get_balance(&self, user: UserId) -> (r: Result<u64, Error>)
        ensures
            self@.contains_key(user) ==> r == Ok::<u64, Error>(self@[user].tokens),
            !self@.contains_key(user) ==> r == Err::<u64, Error>(Error::NotFound),
    {
        match self.wallets.get(user) {
            Some(wallet) => Ok(wallet.tokens),
            None => Err(Error::NotFound),
        }
    }
}

/// Law: wallet creation is idempotent. However many times creation is
/// attempted, the identity ends up with exactly one wallet, its balance zero,
/// and every attempt after the first leaves the store untouched.
pub proof fn lemma_create_idempotent(pre: Map<UserId, Wallet>, user: UserId)
    requires
        !pre.contains_key(user),
    ensures
        create_post(create_post(pre, user), user) == create_post(pre, user),
        create_post(pre, user).contains_key(user),
        create_post(pre, user)[user] == (Wallet { tokens: 0 }),
{
}

} // verus!
