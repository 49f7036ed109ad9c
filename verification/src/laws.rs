//! What holds of every ledger and every subscription: the laws that relate
//! the mutations a ledger commits to the logs of the endpoints watching it.

use vstd::prelude::*;
use crate::notification::NotificationView;
use crate::program::counter_program_key;
use crate::pubkey::{system_program_key, Pubkey};
use crate::pubsub::{Liveness, SubscriptionKind, SubscriptionView};
use crate::test_validator::{AccountError, LedgerView};

verus! {

/// One thing that can happen to an endpoint.
pub enum EndpointEvent {
    /// A notification is offered.
    Deliver(NotificationView),
    /// The transport is cut from the far side.
    Sever,
    /// Shutdown is asked for.
    BeginShutdown,
    /// The endpoint is shut down.
    Shutdown,
}

/// The endpoint after one event.
pub open spec fn after_event(endpoint: SubscriptionView, event: EndpointEvent) -> SubscriptionView {
    match event {
        EndpointEvent::Deliver(notification) => endpoint.deliver(notification),
        EndpointEvent::Sever => endpoint.sever(),
        EndpointEvent::BeginShutdown => endpoint.begin_shutdown(),
        EndpointEvent::Shutdown => endpoint.shutdown(),
    }
}

/// The endpoint after a history of events, the earliest first.
pub open spec fn after_events(
    endpoint: SubscriptionView,
    events: Seq<EndpointEvent>,
) -> SubscriptionView
    decreases events.len(),
{
    if events.len() == 0 {
        endpoint
    } else {
        after_event(after_events(endpoint, events.drop_last()), events.last())
    }
}

/// One mutation asked of the ledger.
pub enum Mutation {
    /// Increment the counter of this account.
    Increment(Pubkey),
    /// Close this account.
    Close(Pubkey),
}

/// What the ledger reports for one mutation.
pub open spec fn mutation_outcome(ledger: LedgerView, mutation: Mutation) -> Result<
    NotificationView,
    AccountError,
> {
    match mutation {
        Mutation::Increment(key) => ledger.increment_outcome(key),
        Mutation::Close(key) => ledger.close_outcome(key),
    }
}

/// The ledger after one mutation was asked of it.
pub open spec fn after_mutation(ledger: LedgerView, mutation: Mutation) -> LedgerView {
    match mutation {
        Mutation::Increment(key) => ledger.after_increment(key),
        Mutation::Close(key) => ledger.after_close(key),
    }
}

/// The endpoint after the ledger was asked for each mutation of `trace` in
/// turn, the notification of every commit being offered to the endpoint.
pub open spec fn watching(
    ledger: LedgerView,
    endpoint: SubscriptionView,
    trace: Seq<Mutation>,
) -> SubscriptionView
    decreases trace.len(),
{
    if trace.len() == 0 {
        endpoint
    } else {
        let told = match mutation_outcome(ledger, trace.first()) {
            Ok(notification) => endpoint.deliver(notification),
            Err(_) => endpoint,
        };
        watching(after_mutation(ledger, trace.first()), told, trace.drop_first())
    }
}

/// `times` increments of `key`, one after the other.
pub open spec fn increments(key: Pubkey, times: nat) -> Seq<Mutation> {
    Seq::new(times, |i: int| Mutation::Increment(key))
}

/// How often `key` is incremented in `trace`.
pub open spec fn increments_of(trace: Seq<Mutation>, key: Pubkey) -> nat
    decreases trace.len(),
{
    if trace.len() == 0 {
        0
    } else {
        let rest = increments_of(trace.drop_first(), key);
        if trace.first() == Mutation::Increment(key) {
            rest + 1
        } else {
            rest
        }
    }
}

/// How many mutations of `trace` the ledger commits on the account `key`.
pub open spec fn commits_on(ledger: LedgerView, trace: Seq<Mutation>, key: Pubkey) -> nat
    decreases trace.len(),
{
    if trace.len() == 0 {
        0
    } else {
        let rest = commits_on(after_mutation(ledger, trace.first()), trace.drop_first(), key);
        match mutation_outcome(ledger, trace.first()) {
            Ok(notification) => if notification.key == key {
                rest + 1
            } else {
                rest
            },
            Err(_) => rest,
        }
    }
}

/// How many increments of `trace` the ledger commits, on whatever account.
pub open spec fn committed_increments(ledger: LedgerView, trace: Seq<Mutation>) -> nat
    decreases trace.len(),
{
    if trace.len() == 0 {
        0
    } else {
        let rest = committed_increments(
            after_mutation(ledger, trace.first()),
            trace.drop_first(),
        );
        if trace.first() is Increment && mutation_outcome(ledger, trace.first()) is Ok {
            rest + 1
        } else {
            rest
        }
    }
}

/// Whether the notifications of a log carry strictly increasing slots.
pub open spec fn in_commit_order(log: Seq<NotificationView>) -> bool {
    forall|i: int, j: int| 0 <= i < j < log.len() ==> log[i].slot < log[j].slot
}

/// A log only grows: whatever happens to an endpoint, the log it had at an
/// earlier moment is the beginning of the log it has at any later moment, so
/// its length never decreases between two observations.
pub proof fn law_log_only_grows(
    endpoint: SubscriptionView,
    events: Seq<EndpointEvent>,
    earlier: int,
    later: int,
)
    requires
        0 <= earlier <= later <= events.len(),
    ensures
        after_events(endpoint, events.take(earlier)).log.is_prefix_of(
            after_events(endpoint, events.take(later)).log,
        ),
        after_events(endpoint, events.take(earlier)).log.len() <= after_events(
            endpoint,
            events.take(later),
        ).log.len(),
    decreases later - earlier,
{
    if earlier < later {
        law_log_only_grows(endpoint, events, earlier, later - 1);
        assert(events.take(later).drop_last() =~= events.take(later - 1));
    }
}

/// Every endpoint keeps its log filtered: whatever happens to it, each
/// logged notification has passed its filter.
pub proof fn law_log_stays_filtered(endpoint: SubscriptionView, event: EndpointEvent)
    requires
        endpoint.well_formed(),
    ensures
        after_event(endpoint, event).well_formed(),
{
}

/// A log is in commit order: an endpoint that is offered the commits of a
/// ledger as they happen, and has logged nothing from beyond the ledger's
/// latest slot, holds its notifications in strictly increasing slot order.
pub proof fn law_log_is_in_commit_order(
    ledger: LedgerView,
    endpoint: SubscriptionView,
    trace: Seq<Mutation>,
)
    requires
        in_commit_order(endpoint.log),
        forall|i: int|
            0 <= i < endpoint.log.len() ==> (#[trigger] endpoint.log[i]).slot <= ledger.slot,
    ensures
        in_commit_order(watching(ledger, endpoint, trace).log),
    decreases trace.len(),
{
    if trace.len() > 0 {
        let told = match mutation_outcome(ledger, trace.first()) {
            Ok(notification) => endpoint.deliver(notification),
            Err(_) => endpoint,
        };
        law_log_is_in_commit_order(
            after_mutation(ledger, trace.first()),
            told,
            trace.drop_first(),
        );
    }
}

/// Once shutdown is asked for, nothing more is logged, whether or not the
/// shutdown has been completed.
pub proof fn law_nothing_arrives_after_shutdown(
    endpoint: SubscriptionView,
    notification: NotificationView,
)
    ensures
        endpoint.begin_shutdown().deliver(notification) == endpoint.begin_shutdown(),
        endpoint.shutdown().deliver(notification) == endpoint.shutdown(),
{
}

/// Idempotent shutdown: shutting down an endpoint that is already shut down
/// changes nothing and reports no failure.
pub proof fn law_shutdown_is_idempotent(endpoint: SubscriptionView)
    ensures
        endpoint.shutdown().state == Liveness::Closed,
        endpoint.shutdown().log == endpoint.log,
        endpoint.shutdown().shutdown() == endpoint.shutdown(),
        endpoint.shutdown().shutdown_outcome() is Ok,
{
}

/// The transport is released at most once: an endpoint that is no longer
/// open never opens again, so after the first request for shutdown no later
/// one asks the caller to release the transport.
pub proof fn law_release_is_asked_once(endpoint: SubscriptionView, events: Seq<EndpointEvent>)
    requires
        endpoint.state != Liveness::Open,
    ensures
        after_events(endpoint, events).state != Liveness::Open,
        after_events(endpoint, events).begin_shutdown() == after_events(endpoint, events),
    decreases events.len(),
{
    if events.len() > 0 {
        law_release_is_asked_once(endpoint, events.drop_last());
    }
}

/// The counter program is not the neutral authority.
pub proof fn law_counter_program_is_not_neutral()
    ensures
        counter_program_key() != system_program_key(),
{
}

/// Closure asymmetry: when an account owned by `authority` is closed, an
/// endpoint bound to that account logs the closure if it is receiving, and
/// an endpoint bound to the authority logs nothing, because the account as
/// the closure left it is no longer owned by the authority.
pub proof fn law_closure_asymmetry(
    ledger: LedgerView,
    key: Pubkey,
    authority: Pubkey,
    by_account: SubscriptionView,
    by_authority: SubscriptionView,
)
    requires
        ledger.well_formed(),
        ledger.accounts.contains_key(key),
        ledger.accounts[key].owner == authority,
        by_account.kind == SubscriptionKind::Account,
        by_account.target == key,
        by_authority.kind == SubscriptionKind::Program,
        by_authority.target == authority,
    ensures
        ledger.close_outcome(key) is Ok,
        ledger.close_outcome(key)->Ok_0.reports_closure(),
        by_account.is_receiving() ==> by_account.deliver(ledger.close_outcome(key)->Ok_0).log.len()
            == by_account.log.len() + 1,
        by_authority.deliver(ledger.close_outcome(key)->Ok_0) == by_authority,
{
}

/// Only an endpoint bound to one account can see a closure: the log of an
/// endpoint bound to an authority other than the neutral one never holds a
/// notification that shows an account destroyed.
pub proof fn law_closure_is_invisible_by_authority(endpoint: SubscriptionView)
    requires
        endpoint.well_formed(),
        endpoint.kind == SubscriptionKind::Program,
        endpoint.target != system_program_key(),
    ensures
        !endpoint.detects_closure(),
{
}

/// Count exactness: an endpoint bound to one account, receiving throughout,
/// logs exactly one notification for each of `times` increments of that
/// account and one more for the closure that follows them.
pub proof fn law_account_log_counts_every_mutation(
    ledger: LedgerView,
    key: Pubkey,
    endpoint: SubscriptionView,
    times: nat,
)
    requires
        ledger.accounts.contains_key(key),
        ledger.accounts[key].data.len() > 0,
        endpoint.kind == SubscriptionKind::Account,
        endpoint.target == key,
        endpoint.is_receiving(),
    ensures
        watching(ledger, endpoint, increments(key, times).push(Mutation::Close(key))).log.len()
            == endpoint.log.len() + times + 1,
    decreases times,
{
    let trace = increments(key, times).push(Mutation::Close(key));
    if times == 0 {
        let told = endpoint.deliver(ledger.close_outcome(key)->Ok_0);
        assert(watching(ledger.after_close(key), told, trace.drop_first()) == told);
    } else {
        assert(trace.drop_first() =~= increments(key, (times - 1) as nat).push(
            Mutation::Close(key),
        ));
        let told = endpoint.deliver(ledger.increment_outcome(key)->Ok_0);
        law_account_log_counts_every_mutation(
            ledger.after_increment(key),
            key,
            told,
            (times - 1) as nat,
        );
    }
}

/// An endpoint bound to one account, receiving throughout, logs exactly the
/// commits on that account, closures included, whatever else the ledger is
/// asked for.
pub proof fn law_account_log_counts_its_commits(
    ledger: LedgerView,
    endpoint: SubscriptionView,
    trace: Seq<Mutation>,
)
    requires
        endpoint.kind == SubscriptionKind::Account,
        endpoint.is_receiving(),
    ensures
        watching(ledger, endpoint, trace).log.len() == endpoint.log.len() + commits_on(
            ledger,
            trace,
            endpoint.target,
        ),
    decreases trace.len(),
{
    if trace.len() > 0 {
        let told = match mutation_outcome(ledger, trace.first()) {
            Ok(notification) => endpoint.deliver(notification),
            Err(_) => endpoint,
        };
        law_account_log_counts_its_commits(
            after_mutation(ledger, trace.first()),
            told,
            trace.drop_first(),
        );
    }
}

/// An endpoint bound to an authority, receiving throughout, logs one
/// notification for every increment of a trace that only increments two
/// accounts the authority owns.
proof fn lemma_authority_log_counts_increments(
    ledger: LedgerView,
    first: Pubkey,
    second: Pubkey,
    authority: Pubkey,
    endpoint: SubscriptionView,
    trace: Seq<Mutation>,
)
    requires
        ledger.accounts.contains_key(first),
        ledger.accounts.contains_key(second),
        ledger.accounts[first].data.len() > 0,
        ledger.accounts[second].data.len() > 0,
        ledger.accounts[first].owner == authority,
        ledger.accounts[second].owner == authority,
        endpoint.kind == SubscriptionKind::Program,
        endpoint.target == authority,
        endpoint.is_receiving(),
        forall|i: int|
            0 <= i < trace.len() ==> #[trigger] trace[i] == Mutation::Increment(first) || trace[i]
                == Mutation::Increment(second),
    ensures
        watching(ledger, endpoint, trace).log.len() == endpoint.log.len() + trace.len(),
    decreases trace.len(),
{
    if trace.len() > 0 {
        let key = if trace.first() == Mutation::Increment(first) {
            first
        } else {
            second
        };
        let told = endpoint.deliver(ledger.increment_outcome(key)->Ok_0);
        let rest = trace.drop_first();
        lemma_authority_log_counts_increments(
            ledger.after_increment(key),
            first,
            second,
            authority,
            told,
            rest,
        );
    }
}

/// A trace that only increments two different accounts is as long as the
/// increments of the one and of the other together.
proof fn lemma_increments_add_up(trace: Seq<Mutation>, first: Pubkey, second: Pubkey)
    requires
        first != second,
        forall|i: int|
            0 <= i < trace.len() ==> #[trigger] trace[i] == Mutation::Increment(first) || trace[i]
                == Mutation::Increment(second),
    ensures
        trace.len() == increments_of(trace, first) + increments_of(trace, second),
    decreases trace.len(),
{
    if trace.len() > 0 {
        let rest = trace.drop_first();
        lemma_increments_add_up(rest, first, second);
    }
}

/// Aggregate exactness: when two different accounts owned by one authority
/// are each incremented `times` times, in any order and with no closure, an
/// endpoint bound to that authority, receiving throughout, logs exactly
/// twice `times` notifications.
pub proof fn law_authority_log_counts_both_accounts(
    ledger: LedgerView,
    first: Pubkey,
    second: Pubkey,
    authority: Pubkey,
    endpoint: SubscriptionView,
    trace: Seq<Mutation>,
    times: nat,
)
    requires
        first != second,
        ledger.accounts.contains_key(first),
        ledger.accounts.contains_key(second),
        ledger.accounts[first].data.len() > 0,
        ledger.accounts[second].data.len() > 0,
        ledger.accounts[first].owner == authority,
        ledger.accounts[second].owner == authority,
        endpoint.kind == SubscriptionKind::Program,
        endpoint.target == authority,
        endpoint.is_receiving(),
        forall|i: int|
            0 <= i < trace.len() ==> #[trigger] trace[i] == Mutation::Increment(first) || trace[i]
                == Mutation::Increment(second),
        increments_of(trace, first) == times,
        increments_of(trace, second) == times,
    ensures
        watching(ledger, endpoint, trace).log.len() == endpoint.log.len() + 2 * times,
{
    lemma_authority_log_counts_increments(ledger, first, second, authority, endpoint, trace);
    lemma_increments_add_up(trace, first, second);
}

/// An endpoint bound to the authority that owns the accounts of a
/// well-formed ledger, receiving throughout, logs exactly the committed
/// increments: no closure ever reaches it, however many accounts are closed.
pub proof fn law_authority_log_counts_only_increments(
    ledger: LedgerView,
    endpoint: SubscriptionView,
    trace: Seq<Mutation>,
)
    requires
        ledger.well_formed(),
        endpoint.kind == SubscriptionKind::Program,
        endpoint.target == counter_program_key(),
        endpoint.is_receiving(),
    ensures
        watching(ledger, endpoint, trace).log.len() == endpoint.log.len() + committed_increments(
            ledger,
            trace,
        ),
    decreases trace.len(),
{
    if trace.len() > 0 {
        let told = match mutation_outcome(ledger, trace.first()) {
            Ok(notification) => endpoint.deliver(notification),
            Err(_) => endpoint,
        };
        law_authority_log_counts_only_increments(
            after_mutation(ledger, trace.first()),
            told,
            trace.drop_first(),
        );
    }
}

/// A ledger at genesis is well formed.
pub proof fn law_genesis_is_well_formed(keys: Seq<Pubkey>)
    ensures
        LedgerView::genesis(keys).well_formed(),
{
}

/// A mutation, committed or not, leaves a well-formed ledger well formed.
pub proof fn law_ledger_stays_well_formed(ledger: LedgerView, mutation: Mutation)
    requires
        ledger.well_formed(),
    ensures
        after_mutation(ledger, mutation).well_formed(),
{
}

/// Post-closure read: an account that can be closed is found with its
/// current state before the closure, and is not found after it.
pub proof fn law_closed_account_is_not_found(ledger: LedgerView, key: Pubkey)
    requires
        ledger.close_outcome(key) is Ok,
    ensures
        ledger.read(key) == Some(ledger.accounts[key]),
        ledger.after_close(key).read(key) is None,
{
}

} // verus!
