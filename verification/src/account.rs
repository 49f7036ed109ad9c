//! Accounts: the mutable records that subscriptions watch.

use vstd::prelude::*;
use crate::pubkey::{system_program_id, system_program_key, Pubkey};

verus! {

/// One account as the ledger stores it: a balance, a raw payload and the
/// authority that currently owns it.
#[derive(Debug, PartialEq, Eq)]
pub struct Account {
    pub lamports: u64,
    pub data: Vec<u8>,
    pub owner: Pubkey,
}

/// The mathematical content of an [`Account`].
pub struct AccountState {
    pub lamports: u64,
    pub data: Seq<u8>,
    pub owner: Pubkey,
}

impl AccountState {
    /// An account is alive while it has a payload or a balance.
    pub open spec fn is_alive(self) -> bool {
        self.data.len() > 0 || self.lamports > 0
    }

    /// An account is logically destroyed once its payload is empty, its
    /// balance is zero and it has been handed to the neutral authority.
    pub open spec fn is_destroyed(self) -> bool {
        &&& self.data.len() == 0
        &&& self.lamports == 0
        &&& self.owner == system_program_key()
    }
}

impl View for Account {
    type V = AccountState;

    open spec fn view(&self) -> AccountState {
        AccountState { lamports: self.lamports, data: self.data@, owner: self.owner }
    }
}

/// The contents of a list of accounts, one state per account.
pub open spec fn account_states(accounts: Seq<Account>) -> Seq<AccountState> {
    Seq::new(accounts.len(), |i: int| accounts[i]@)
}

impl Clone for Account {
    /// An independent copy with the same balance, payload and owner.
    fn clone(&self) -> (r: Account)
        ensures
            r@ == self@,
    {
        Account { lamports: self.lamports, data: self.data.clone(), owner: self.owner }
    }
}

impl Account {
    /// An account with the given balance, payload and owner.
    pub fn new(lamports: u64, data: Vec<u8>, owner: Pubkey) -> (r: Account)
        ensures
            r@ == (AccountState { lamports, data: data@, owner }),
    {
        Account { lamports, data, owner }
    }

    /// Whether the account still has a payload or a balance.
    pub fn is_alive(&self) -> (r: bool)
        ensures
            r == self@.is_alive(),
    {
        self.data.len() > 0 || self.lamports > 0
    }

    /// Whether the account shows the state a closure leaves behind.
    pub fn is_destroyed(&self) -> (r: bool)
        ensures
            r == self@.is_destroyed(),
    {
        self.data.len() == 0 && self.lamports == 0 && self.owner == system_program_id()
    }
}

} // verus!
