//! Subscription endpoints: one live subscription each, with the ordered log
//! of everything it has been told.

use vstd::prelude::*;
use crate::notification::{notification_views, Notification, NotificationView};
use crate::pubkey::Pubkey;

verus! {

/// What a subscription is bound to.
#[derive(Clone, Copy, Debug, PartialEq, Eq, Structural)]
pub enum SubscriptionKind {
    /// Bound to one account: told of every update to that account.
    Account,
    /// Bound to one authority: told of an update only if the account is owned
    /// by that authority once the update is applied.
    Program,
}

impl SubscriptionKind {
    /// The diagnostic for a subscription of this kind that could not be
    /// opened.
    pub fn failure_message(&self) -> (r: &'static str)
        ensures
            r@ == match *self {
                SubscriptionKind::Account => "Failed to create account subscription"@,
                SubscriptionKind::Program => "Failed to create program subscription"@,
            },
    {
        match self {
            SubscriptionKind::Account => "Failed to create account subscription",
            SubscriptionKind::Program => "Failed to create program subscription",
        }
    }
}

/// How settled a mutation must be before a subscription is told of it.
#[derive(Clone, Copy, Debug, PartialEq, Eq, Structural)]
pub enum CommitmentLevel {
    /// As soon as the ledger has processed the mutation.
    Processed,
    /// Once the mutation is confirmed.
    Confirmed,
    /// Once the mutation is final.
    Finalized,
}

/// The options a subscription is opened with.
#[derive(Clone, Copy, Debug, PartialEq, Eq, Structural)]
pub struct SubscriptionOptions {
    pub commitment: CommitmentLevel,
}

impl SubscriptionOptions {
    /// The options of the subscriptions to accounts and programs: to be told
    /// of every mutation as soon as it is processed.
    pub fn processed() -> (r: SubscriptionOptions)
        ensures
            r == (SubscriptionOptions { commitment: CommitmentLevel::Processed }),
    {
        SubscriptionOptions { commitment: CommitmentLevel::Processed }
    }
}

/// How far an endpoint is in its life.
#[derive(Clone, Copy, Debug, PartialEq, Eq, Structural)]
pub enum Liveness {
    /// Receiving notifications.
    Open,
    /// Shutdown was asked for; the transport has not been released yet.
    ShuttingDown,
    /// The transport is released; nothing further arrives.
    Closed,
}

/// Why a subscription could not be opened.
#[derive(Clone, Copy, Debug, PartialEq, Eq, Structural)]
pub enum SubscriptionError {
    /// The ledger process did not accept the connection.
    ConnectionRefused,
    /// The place to subscribe at could not be understood.
    MalformedTarget,
}

/// Why a shutdown could not be confirmed.
#[derive(Clone, Copy, Debug, PartialEq, Eq, Structural)]
pub enum ShutdownError {
    /// The transport had already been cut from the far side.
    TransportSevered,
}

/// The mathematical content of a [`SubscriptionContext`].
pub struct SubscriptionView {
    pub kind: SubscriptionKind,
    pub target: Pubkey,
    pub options: SubscriptionOptions,
    pub log: Seq<NotificationView>,
    pub state: Liveness,
    pub severed: bool,
}

impl SubscriptionView {
    /// A freshly opened endpoint: nothing logged, open, transport intact.
    pub open spec fn opened(
        kind: SubscriptionKind,
        target: Pubkey,
        options: SubscriptionOptions,
    ) -> SubscriptionView {
        SubscriptionView {
            kind,
            target,
            options,
            log: Seq::empty(),
            state: Liveness::Open,
            severed: false,
        }
    }

    /// The filter: whether a notification is meant for this subscription. It
    /// is asked of the account as the mutation left it, so an update that
    /// hands an account to another authority is no longer that of the old one.
    pub open spec fn matches(self, notification: NotificationView) -> bool {
        match self.kind {
            SubscriptionKind::Account => notification.key == self.target,
            SubscriptionKind::Program => notification.account.owner == self.target,
        }
    }

    /// Whether the endpoint can still receive anything.
    pub open spec fn is_receiving(self) -> bool {
        self.state == Liveness::Open && !self.severed
    }

    /// Whether a notification offered now would be logged.
    pub open spec fn accepts(self, notification: NotificationView) -> bool {
        self.is_receiving() && self.matches(notification)
    }

    /// The endpoint after a notification was offered to it.
    pub open spec fn deliver(self, notification: NotificationView) -> SubscriptionView {
        if self.accepts(notification) {
            SubscriptionView { log: self.log.push(notification), ..self }
        } else {
            self
        }
    }

    /// The endpoint after its transport was cut from the far side.
    pub open spec fn sever(self) -> SubscriptionView {
        if self.state == Liveness::Closed {
            self
        } else {
            SubscriptionView { severed: true, ..self }
        }
    }

    /// The endpoint after shutdown was asked for.
    pub open spec fn begin_shutdown(self) -> SubscriptionView {
        if self.state == Liveness::Open {
            SubscriptionView { state: Liveness::ShuttingDown, ..self }
        } else {
            self
        }
    }

    /// What a shutdown asked for now would report.
    pub open spec fn shutdown_outcome(self) -> Result<(), ShutdownError> {
        if self.state != Liveness::Closed && self.severed {
            Err(ShutdownError::TransportSevered)
        } else {
            Ok(())
        }
    }

    /// The endpoint after a shutdown: closed, its log as it was.
    pub open spec fn shutdown(self) -> SubscriptionView {
        if self.state == Liveness::Closed {
            self
        } else {
            SubscriptionView { state: Liveness::Closed, ..self }
        }
    }

    /// Every logged notification passed the filter.
    pub open spec fn well_formed(self) -> bool {
        forall|i: int| 0 <= i < self.log.len() ==> self.matches(#[trigger] self.log[i])
    }

    /// Whether the log holds a notification that shows an account destroyed.
    pub open spec fn detects_closure(self) -> bool {
        exists|i: int| 0 <= i < self.log.len() && (#[trigger] self.log[i]).reports_closure()
    }
}

/// One subscription endpoint: what it is bound to, the notifications it has
/// received so far, in order, and how far it is in its life.
#[derive(Debug)]
pub struct SubscriptionContext {
    kind: SubscriptionKind,
    target: Pubkey,
    options: SubscriptionOptions,
    log: Vec<Notification>,
    state: Liveness,
    severed: bool,
}

impl View for SubscriptionContext {
    type V = SubscriptionView;

    closed spec fn view(&self) -> SubscriptionView {
        SubscriptionView {
            kind: self.kind,
            target: self.target,
            options: self.options,
            log: notification_views(self.log@),
            state: self.state,
            severed: self.severed,
        }
    }
}

impl SubscriptionContext {
    #[verifier::type_invariant]
    spec fn log_is_filtered(self) -> bool {
        self@.well_formed()
    }

    /// Opens an endpoint of the given kind on `target`, once the attempt to
    /// reach the ledger process with these options has ended as `transport`
    /// says.
    pub fn open(
        kind: SubscriptionKind,
        target: Pubkey,
        options: SubscriptionOptions,
        transport: Result<(), SubscriptionError>,
    ) -> (r: Result<SubscriptionContext, SubscriptionError>)
        ensures
            match transport {
                Ok(_) => r matches Ok(endpoint) && endpoint@ == SubscriptionView::opened(
                    kind,
                    target,
                    options,
                ),
                Err(why) => r matches Err(e) && e == why,
            },
    {
        match transport {
            Ok(_) => {
                let endpoint = SubscriptionContext {
                    kind,
                    target,
                    options,
                    log: Vec::new(),
                    state: Liveness::Open,
                    severed: false,
                };
                assert(endpoint@.log =~= Seq::empty());
                Ok(endpoint)
            },
            Err(why) => Err(why),
        }
    }

    /// Opens a subscription to every update of the account `pubkey`, told as
    /// soon as the update is processed.
    pub fn account(pubkey: &Pubkey, transport: Result<(), SubscriptionError>) -> (r: Result<
        SubscriptionContext,
        SubscriptionError,
    >)
        ensures
            match transport {
                Ok(_) => r matches Ok(endpoint) && endpoint@ == SubscriptionView::opened(
                    SubscriptionKind::Account,
                    *pubkey,
                    SubscriptionOptions { commitment: CommitmentLevel::Processed },
                ),
                Err(why) => r matches Err(e) && e == why,
            },
    {
        SubscriptionContext::open(
            SubscriptionKind::Account,
            *pubkey,
            SubscriptionOptions::processed(),
            transport,
        )
    }

    /// Opens a subscription to the updates of every account that
    /// `program_id` owns once the update is applied, told as soon as the
    /// update is processed.
    pub fn program(program_id: &Pubkey, transport: Result<(), SubscriptionError>) -> (r: Result<
        SubscriptionContext,
        SubscriptionError,
    >)
        ensures
            match transport {
                Ok(_) => r matches Ok(endpoint) && endpoint@ == SubscriptionView::opened(
                    SubscriptionKind::Program,
                    *program_id,
                    SubscriptionOptions { commitment: CommitmentLevel::Processed },
                ),
                Err(why) => r matches Err(e) && e == why,
            },
    {
        SubscriptionContext::open(
            SubscriptionKind::Program,
            *program_id,
            SubscriptionOptions::processed(),
            transport,
        )
    }

    /// The number of notifications received so far.
    pub fn len(&self) -> (r: usize)
        ensures
            r == self@.log.len(),
    {
        self.log.len()
    }

    /// What this subscription is bound to: one account, or one authority.
    pub fn kind(&self) -> (r: SubscriptionKind)
        ensures
            r == self@.kind,
    {
        self.kind
    }

    /// The account or authority this subscription is bound to.
    pub fn target(&self) -> (r: Pubkey)
        ensures
            r == self@.target,
    {
        self.target
    }

    /// The options this subscription was opened with.
    pub fn options(&self) -> (r: SubscriptionOptions)
        ensures
            r == self@.options,
    {
        self.options
    }

    /// How far the endpoint is in its life.
    pub fn state(&self) -> (r: Liveness)
        ensures
            r == self@.state,
    {
        self.state
    }

    /// Whether the transport has been cut from the far side.
    pub fn is_severed(&self) -> (r: bool)
        ensures
            r == self@.severed,
    {
        self.severed
    }

    /// The notification received as number `index`, counting from zero.
    pub fn get(&self, index: usize) -> (r: Option<&Notification>)
        ensures
            self@.well_formed(),
            match r {
                Some(n) => index < self@.log.len() && n@ == self@.log[index as int],
                None => index >= self@.log.len(),
            },
    {
        proof {
            use_type_invariant(self);
        }
        if index < self.log.len() {
            Some(&self.log[index])
        } else {
            None
        }
    }

    /// Whether `notification` passes this subscription's filter.
    pub fn matches(&self, notification: &Notification) -> (r: bool)
        ensures
            r == self@.matches(notification@),
    {
        match self.kind {
            SubscriptionKind::Account => notification.key == self.target,
            SubscriptionKind::Program => notification.account.owner == self.target,
        }
    }

    /// Offers one notification to the endpoint. It is appended to the log if
    /// the endpoint is open, its transport is intact and the notification
    /// passes the filter; otherwise nothing changes. Says whether it was
    /// appended.
    pub fn deliver(&mut self, notification: &Notification) -> (appended: bool)
        ensures
            final(self)@ == old(self)@.deliver(notification@),
            appended == old(self)@.accepts(notification@),
            final(self)@.well_formed(),
    {
        proof {
            use_type_invariant(&*self);
        }
        if self.state == Liveness::Open && !self.severed && self.matches(notification) {
            let mut log: Vec<Notification> = Vec::new();
            core::mem::swap(&mut self.log, &mut log);
            log.push(notification.clone());
            assert(notification_views(log@) =~= old(self)@.log.push(notification@));
            self.log = log;
            true
        } else {
            false
        }
    }

    /// Records that the transport was cut from the far side. Nothing further
    /// is received, and a later shutdown reports the loss. An endpoint that
    /// is already closed stays as it is.
    pub fn sever(&mut self)
        ensures
            final(self)@ == old(self)@.sever(),
            final(self)@.well_formed(),
    {
        proof {
            use_type_invariant(&*self);
        }
        if self.state != Liveness::Closed {
            self.severed = true;
        }
    }

    /// Asks for shutdown without completing it: an open endpoint stops
    /// receiving and the answer is `true`, which tells the caller to release
    /// the transport once. Any other endpoint stays as it is.
    pub fn begin_shutdown(&mut self) -> (release: bool)
        ensures
            final(self)@ == old(self)@.begin_shutdown(),
            release == (old(self)@.state == Liveness::Open),
            final(self)@.well_formed(),
    {
        proof {
            use_type_invariant(&*self);
        }
        if self.state == Liveness::Open {
            self.state = Liveness::ShuttingDown;
            true
        } else {
            false
        }
    }

    /// Stops receiving and releases the channel. The log stays as it is. On
    /// an endpoint that is already closed this does nothing and succeeds; on
    /// one whose transport was cut it still closes the endpoint and reports
    /// the loss.
    pub fn shutdown(&mut self) -> (r: Result<(), ShutdownError>)
        ensures
            final(self)@ == old(self)@.shutdown(),
            r == old(self)@.shutdown_outcome(),
            final(self)@.well_formed(),
    {
        proof {
            use_type_invariant(&*self);
        }
        if self.state == Liveness::Closed {
            Ok(())
        } else {
            self.state = Liveness::Closed;
            if self.severed {
                Err(ShutdownError::TransportSevered)
            } else {
                Ok(())
            }
        }
    }

    /// Whether some received notification shows an account destroyed.
    pub fn detects_closure(&self) -> (r: bool)
        ensures
            r == self@.detects_closure(),
            self@.well_formed(),
    {
        proof {
            use_type_invariant(self);
        }
        let mut i: usize = 0;
        while i < self.log.len()
            invariant
                i <= self.log.len(),
                self@.well_formed(),
                forall|j: int| 0 <= j < i ==> !(#[trigger] self@.log[j]).reports_closure(),
            decreases self.log.len() - i,
        {
            if self.log[i].reports_closure() {
                assert(self@.log[i as int].reports_closure());
                return true;
            }
            i = i + 1;
        }
        false
    }
}

} // verus!
