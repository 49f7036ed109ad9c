//! Live subscriptions to counter accounts: what each subscription sees of the
//! mutations a ledger commits, and why only a subscription bound to one
//! account can see that account being closed.
//!
//! A counter account holds a one-byte counter and is owned by the counter
//! program. The program can increment the counter, and it can close the
//! account: empty its payload, burn its balance and hand it to the neutral
//! authority. A subscription is bound either to one account or to one
//! authority. The filter of a subscription is asked of the account as the
//! mutation left it, so the closure of an account reaches the subscription
//! bound to that account and never the one bound to the authority that
//! owned it.
//!
//! - [`pubkey`], [`account`], [`notification`]: the plain values.
//! - [`program`], [`instruction`]: the counter program and the requests it
//!   takes.
//! - [`test_validator`]: an in-memory ledger that commits mutations and says
//!   what subscribers are to be told.
//! - [`pubsub`], [`registry`]: subscription endpoints, alone and together.
//! - [`laws`]: what holds of all of them.
//!
//! Opening a transport, waiting for its notifications and releasing it are
//! left to the caller, who tells an endpoint what happened: the outcome of
//! the attempt to connect, each notification as it arrives, a transport cut
//! from the far side.

pub mod account;
pub mod instruction;
pub mod laws;
pub mod notification;
pub mod program;
pub mod pubkey;
pub mod pubsub;
pub mod registry;
pub mod test_validator;
