//! Notifications: what a subscription is told about one committed mutation.

use vstd::prelude::*;
use crate::account::{Account, AccountState};
use crate::pubkey::Pubkey;

verus! {

/// One observed state transition: which account changed, at which slot the
/// ledger committed the change, and the account as the change left it.
#[derive(Debug, PartialEq, Eq)]
pub struct Notification {
    pub key: Pubkey,
    pub slot: u64,
    pub account: Account,
}

/// The mathematical content of a [`Notification`].
pub struct NotificationView {
    pub key: Pubkey,
    pub slot: nat,
    pub account: AccountState,
}

impl NotificationView {
    /// Whether this notification shows its account destroyed.
    pub open spec fn reports_closure(self) -> bool {
        self.account.is_destroyed()
    }
}

impl View for Notification {
    type V = NotificationView;

    open spec fn view(&self) -> NotificationView {
        NotificationView { key: self.key, slot: self.slot as nat, account: self.account@ }
    }
}

impl Clone for Notification {
    /// An independent copy of the same observation.
    fn clone(&self) -> (r: Notification)
        ensures
            r@ == self@,
    {
        Notification { key: self.key, slot: self.slot, account: self.account.clone() }
    }
}

/// The contents of a list of notifications, in the same order.
pub open spec fn notification_views(log: Seq<Notification>) -> Seq<NotificationView> {
    Seq::new(log.len(), |i: int| log[i]@)
}

impl Notification {
    /// Whether this notification shows its account destroyed: no payload, no
    /// balance, and the neutral authority as owner.
    pub fn reports_closure(&self) -> (r: bool)
        ensures
            r == self@.reports_closure(),
    {
        self.account.is_destroyed()
    }
}

} // verus!
