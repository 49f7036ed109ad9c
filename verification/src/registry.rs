//! The registry: the endpoints a caller tracks together, so that one
//! notification reaches all of them and one call shuts all of them down.

use vstd::prelude::*;
use crate::notification::{Notification, NotificationView};
use crate::pubsub::{Liveness, ShutdownError, SubscriptionContext, SubscriptionView};

verus! {

/// One endpoint whose shutdown could not be confirmed, and why.
#[derive(Clone, Copy, Debug, PartialEq, Eq, Structural)]
pub struct ShutdownFailure {
    /// The handle of the endpoint within its registry.
    pub endpoint: usize,
    pub error: ShutdownError,
}

/// What shutting down a whole registry came to: every failure, by handle in
/// ascending order. Empty when every shutdown was confirmed.
#[derive(Debug)]
pub struct ShutdownReport {
    pub failures: Vec<ShutdownFailure>,
}

/// The endpoints after `notification` was offered to each of them.
pub open spec fn delivered_to_all(
    endpoints: Seq<SubscriptionView>,
    notification: NotificationView,
) -> Seq<SubscriptionView> {
    Seq::new(endpoints.len(), |i: int| endpoints[i].deliver(notification))
}

/// How many of the endpoints log `notification` when it is offered.
pub open spec fn accepting_count(
    endpoints: Seq<SubscriptionView>,
    notification: NotificationView,
) -> nat
    decreases endpoints.len(),
{
    if endpoints.len() == 0 {
        0
    } else {
        let before = accepting_count(endpoints.drop_last(), notification);
        if endpoints.last().accepts(notification) {
            before + 1
        } else {
            before
        }
    }
}

/// The endpoints after each of them was shut down.
pub open spec fn all_shut_down(endpoints: Seq<SubscriptionView>) -> Seq<SubscriptionView> {
    Seq::new(endpoints.len(), |i: int| endpoints[i].shutdown())
}

/// The failures that shutting down each of the endpoints reports, by handle
/// in ascending order.
pub open spec fn shutdown_failures(endpoints: Seq<SubscriptionView>) -> Seq<ShutdownFailure>
    decreases endpoints.len(),
{
    if endpoints.len() == 0 {
        Seq::empty()
    } else {
        let before = shutdown_failures(endpoints.drop_last());
        match endpoints.last().shutdown_outcome() {
            Ok(_) => before,
            Err(error) => before.push(
                ShutdownFailure { endpoint: (endpoints.len() - 1) as usize, error },
            ),
        }
    }
}

/// The contents of a list of endpoints, in the same order.
pub open spec fn endpoint_views(endpoints: Seq<SubscriptionContext>) -> Seq<SubscriptionView> {
    Seq::new(endpoints.len(), |i: int| endpoints[i]@)
}

/// The endpoints a caller coordinates, each known by its handle: its place
/// in the order of registration.
#[derive(Debug)]
pub struct SubscriptionRegistry {
    endpoints: Vec<SubscriptionContext>,
}

impl View for SubscriptionRegistry {
    type V = Seq<SubscriptionView>;

    closed spec fn view(&self) -> Seq<SubscriptionView> {
        endpoint_views(self.endpoints@)
    }
}

impl SubscriptionRegistry {
    /// A registry that tracks nothing yet.
    pub fn new() -> (r: SubscriptionRegistry)
        ensures
            r@ == Seq::<SubscriptionView>::empty(),
    {
        let r = SubscriptionRegistry { endpoints: Vec::new() };
        r
    }

    /// Starts tracking `endpoint` and hands back its handle.
    pub fn register(&mut self, endpoint: SubscriptionContext) -> (handle: usize)
        ensures
            final(self)@ == old(self)@.push(endpoint@),
            handle == old(self)@.len(),
    {
        let handle = self.endpoints.len();
        self.endpoints.push(endpoint);
        handle
    }

    /// The number of endpoints tracked.
    pub fn len(&self) -> (r: usize)
        ensures
            r == self@.len(),
    {
        self.endpoints.len()
    }

    /// The endpoint registered under `handle`.
    pub fn get(&self, handle: usize) -> (r: Option<&SubscriptionContext>)
        ensures
            match r {
                Some(endpoint) => handle < self@.len() && endpoint@ == self@[handle as int],
                None => handle >= self@.len(),
            },
    {
        if handle < self.endpoints.len() {
            Some(&self.endpoints[handle])
        } else {
            None
        }
    }

    /// Offers `notification` to every endpoint, in order of registration.
    /// Each endpoint that is open and whose filter it passes logs it once.
    /// Hands back how many did.
    pub fn publish(&mut self, notification: &Notification) -> (logged: usize)
        ensures
            final(self)@ == delivered_to_all(old(self)@, notification@),
            logged == accepting_count(old(self)@, notification@),
    {
        let mut logged: usize = 0;
        let mut i: usize = 0;
        while i < self.endpoints.len()
            invariant
                i <= self.endpoints.len(),
                self.endpoints.len() == old(self).endpoints.len(),
                logged == accepting_count(old(self)@.take(i as int), notification@),
                logged <= i,
                forall|j: int|
                    0 <= j < i ==> (#[trigger] self@[j]) == old(self)@[j].deliver(notification@),
                forall|j: int|
                    i <= j < self.endpoints.len() ==> (#[trigger] self@[j]) == old(self)@[j],
            decreases self.endpoints.len() - i,
        {
            let ghost before = self@;
            assert(before[i as int] == old(self)@[i as int]);
            let appended = self.endpoints[i].deliver(notification);
            assert forall|j: int| 0 <= j < self.endpoints.len() && j != i implies (
            #[trigger] self@[j]) == before[j] by {}
            assert(old(self)@.take(i + 1).drop_last() =~= old(self)@.take(i as int));
            if appended {
                logged = logged + 1;
            }
            i = i + 1;
        }
        assert(old(self)@.take(i as int) =~= old(self)@);
        logged
    }

    /// Offers `notification` to the endpoint under `handle` alone. Says
    /// whether that endpoint logged it.
    pub fn deliver(&mut self, handle: usize, notification: &Notification) -> (appended: bool)
        ensures
            appended == (handle < old(self)@.len() && old(self)@[handle as int].accepts(
                notification@,
            )),
            handle < old(self)@.len() ==> final(self)@ == old(self)@.update(
                handle as int,
                old(self)@[handle as int].deliver(notification@),
            ),
            handle >= old(self)@.len() ==> final(self)@ == old(self)@,
    {
        if handle < self.endpoints.len() {
            self.endpoints[handle].deliver(notification)
        } else {
            false
        }
    }

    /// Asks the endpoint under `handle` for shutdown without completing it.
    /// The answer is `true` if the endpoint was open: the caller is then to
    /// release its transport, once.
    pub fn begin_shutdown(&mut self, handle: usize) -> (release: bool)
        ensures
            release == (handle < old(self)@.len() && old(self)@[handle as int].state
                == Liveness::Open),
            handle < old(self)@.len() ==> final(self)@ == old(self)@.update(
                handle as int,
                old(self)@[handle as int].begin_shutdown(),
            ),
            handle >= old(self)@.len() ==> final(self)@ == old(self)@,
    {
        if handle < self.endpoints.len() {
            self.endpoints[handle].begin_shutdown()
        } else {
            false
        }
    }

    /// Records that the transport of the endpoint under `handle` was cut
    /// from the far side. Says whether there is such an endpoint.
    pub fn sever(&mut self, handle: usize) -> (known: bool)
        ensures
            known == (handle < old(self)@.len()),
            known ==> final(self)@ == old(self)@.update(
                handle as int,
                old(self)@[handle as int].sever(),
            ),
            !known ==> final(self)@ == old(self)@,
    {
        if handle < self.endpoints.len() {
            self.endpoints[handle].sever();
            true
        } else {
            false
        }
    }

    /// Shuts down every endpoint. A failure does not stop the others from
    /// being shut down: every failure is collected into the report. No log
    /// is touched.
    pub fn shutdown_all(&mut self) -> (report: ShutdownReport)
        ensures
            final(self)@ == all_shut_down(old(self)@),
            report.failures@ == shutdown_failures(old(self)@),
    {
        let mut failures: Vec<ShutdownFailure> = Vec::new();
        let mut i: usize = 0;
        while i < self.endpoints.len()
            invariant
                i <= self.endpoints.len(),
                self.endpoints.len() == old(self).endpoints.len(),
                failures@ == shutdown_failures(old(self)@.take(i as int)),
                forall|j: int|
                    0 <= j < i ==> (#[trigger] self@[j]) == old(self)@[j].shutdown(),
                forall|j: int|
                    i <= j < self.endpoints.len() ==> (#[trigger] self@[j]) == old(self)@[j],
            decreases self.endpoints.len() - i,
        {
            let ghost before = self@;
            assert(before[i as int] == old(self)@[i as int]);
            let outcome = self.endpoints[i].shutdown();
            assert forall|j: int| 0 <= j < self.endpoints.len() && j != i implies (
            #[trigger] self@[j]) == before[j] by {}
            assert(old(self)@.take(i + 1).drop_last() =~= old(self)@.take(i as int));
            match outcome {
                Ok(_) => {},
                Err(error) => {
                    failures.push(ShutdownFailure { endpoint: i, error });
                },
            }
            i = i + 1;
        }
        assert(old(self)@.take(i as int) =~= old(self)@);
        ShutdownReport { failures }
    }

    /// Whether every endpoint has been shut down. An endpoint that is not
    /// closed still holds its transport.
    pub fn all_closed(&self) -> (r: bool)
        ensures
            r == (forall|i: int|
                0 <= i < self@.len() ==> (#[trigger] self@[i]).state == Liveness::Closed),
    {
        let mut i: usize = 0;
        while i < self.endpoints.len()
            invariant
                i <= self.endpoints.len(),
                forall|j: int| 0 <= j < i ==> (#[trigger] self@[j]).state == Liveness::Closed,
            decreases self.endpoints.len() - i,
        {
            if self.endpoints[i].state() != Liveness::Closed {
                assert(self@[i as int].state != Liveness::Closed);
                return false;
            }
            i = i + 1;
        }
        true
    }
}

} // verus!
