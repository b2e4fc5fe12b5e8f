//! Admitting a connection, step by step. The caller performs what is asked for
//! and hands back what came of it; what comes next is decided here.

use tokio::sync::OwnedSemaphorePermit;
use vstd::prelude::*;

use super::lease::{revalidated, revalidation, token_is_current};
use super::policy::{
    listener_decision_is_valid_at, resolved_scope_is_valid, valid_name,
    AdmissionDecision, AdmissionError, DecisionView, ListenerSecurityPolicy, PeerIdentity,
    SetupAuthorization,
};
use crate::session::setup::text_view;

verus! {

/// Why a session is closed.
#[derive(Clone, Copy, Debug, PartialEq, Eq, Structural)]
pub enum SessionTerminationCode {
    NoError,
    InternalError,
    Unauthorized,
    ProtocolViolation,
}

impl SessionTerminationCode {
    pub open spec fn spec_code(self) -> u32 {
        match self {
            SessionTerminationCode::NoError => 0x0,
            SessionTerminationCode::InternalError => 0x1,
            SessionTerminationCode::Unauthorized => 0x2,
            SessionTerminationCode::ProtocolViolation => 0x3,
        }
    }

    /// The code on the wire.
    pub fn as_u32(&self) -> (code: u32)
        ensures
            code == self.spec_code(),
    {
        match self {
            SessionTerminationCode::NoError => 0x0,
            SessionTerminationCode::InternalError => 0x1,
            SessionTerminationCode::Unauthorized => 0x2,
            SessionTerminationCode::ProtocolViolation => 0x3,
        }
    }
}

/// Where a connection was turned away. Each place is counted on its own.
#[derive(Clone, Copy, Debug, PartialEq, Eq, Structural)]
pub enum RefusalStage {
    AdmissionCapacity,
    SessionAccept,
    SetupTimeout,
    AdmissionClaims,
    Admission,
    AdmissionTimeout,
    SessionCapacity,
    PolicyCapacity,
    PolicyCapacityTimeout,
    ScopeResolve,
    ScopeTimeout,
    ScopeMissing,
    ScopeInvalid,
    AdmissionActivation,
    AdmissionRevalidation,
}

impl RefusalStage {
    pub open spec fn spec_name(self) -> Seq<char> {
        match self {
            RefusalStage::AdmissionCapacity => "admission_capacity"@,
            RefusalStage::SessionAccept => "session_accept"@,
            RefusalStage::SetupTimeout => "setup_timeout"@,
            RefusalStage::AdmissionClaims => "admission_claims"@,
            RefusalStage::Admission => "admission"@,
            RefusalStage::AdmissionTimeout => "admission_timeout"@,
            RefusalStage::SessionCapacity => "session_capacity"@,
            RefusalStage::PolicyCapacity => "policy_capacity"@,
            RefusalStage::PolicyCapacityTimeout => "policy_capacity_timeout"@,
            RefusalStage::ScopeResolve => "scope_resolve"@,
            RefusalStage::ScopeTimeout => "scope_timeout"@,
            RefusalStage::ScopeMissing => "scope_missing"@,
            RefusalStage::ScopeInvalid => "scope_invalid"@,
            RefusalStage::AdmissionActivation => "admission_activation"@,
            RefusalStage::AdmissionRevalidation => "admission_revalidation"@,
        }
    }

    /// The name under which the stage is counted.
    pub fn name(&self) -> (name: &'static str)
        ensures
            name@ == self.spec_name(),
    {
        match self {
            RefusalStage::AdmissionCapacity => "admission_capacity",
            RefusalStage::SessionAccept => "session_accept",
            RefusalStage::SetupTimeout => "setup_timeout",
            RefusalStage::AdmissionClaims => "admission_claims",
            RefusalStage::Admission => "admission",
            RefusalStage::AdmissionTimeout => "admission_timeout",
            RefusalStage::SessionCapacity => "session_capacity",
            RefusalStage::PolicyCapacity => "policy_capacity",
            RefusalStage::PolicyCapacityTimeout => "policy_capacity_timeout",
            RefusalStage::ScopeResolve => "scope_resolve",
            RefusalStage::ScopeTimeout => "scope_timeout",
            RefusalStage::ScopeMissing => "scope_missing",
            RefusalStage::ScopeInvalid => "scope_invalid",
            RefusalStage::AdmissionActivation => "admission_activation",
            RefusalStage::AdmissionRevalidation => "admission_revalidation",
        }
    }

    /// The code with which the connection is closed. Only what concerns the
    /// relay itself is an internal error.
    pub open spec fn spec_code(self) -> SessionTerminationCode {
        match self {
            RefusalStage::AdmissionCapacity
            | RefusalStage::SetupTimeout
            | RefusalStage::SessionCapacity
            | RefusalStage::PolicyCapacity
            | RefusalStage::PolicyCapacityTimeout => SessionTerminationCode::InternalError,
            RefusalStage::SessionAccept => SessionTerminationCode::ProtocolViolation,
            _ => SessionTerminationCode::Unauthorized,
        }
    }

    pub fn code(&self) -> (code: SessionTerminationCode)
        ensures
            code == self.spec_code(),
    {
        match self {
            RefusalStage::AdmissionCapacity
            | RefusalStage::SetupTimeout
            | RefusalStage::SessionCapacity
            | RefusalStage::PolicyCapacity
            | RefusalStage::PolicyCapacityTimeout => SessionTerminationCode::InternalError,
            RefusalStage::SessionAccept => SessionTerminationCode::ProtocolViolation,
            _ => SessionTerminationCode::Unauthorized,
        }
    }

    pub open spec fn spec_reason(self) -> Seq<char> {
        match self {
            RefusalStage::AdmissionCapacity => "pending admission capacity exhausted"@,
            RefusalStage::SessionAccept => "invalid SETUP"@,
            RefusalStage::SetupTimeout => "SETUP timeout"@,
            RefusalStage::AdmissionClaims => "session admission denied"@,
            RefusalStage::Admission => "session admission denied"@,
            RefusalStage::AdmissionTimeout => "session admission timeout"@,
            RefusalStage::SessionCapacity => "active session capacity exhausted"@,
            RefusalStage::PolicyCapacity => "session capacity exhausted"@,
            RefusalStage::PolicyCapacityTimeout => "session capacity timeout"@,
            RefusalStage::ScopeResolve => "scope resolution failed"@,
            RefusalStage::ScopeTimeout => "scope resolution timeout"@,
            RefusalStage::ScopeMissing => "admitted scope not found"@,
            RefusalStage::ScopeInvalid => "invalid resolved scope"@,
            RefusalStage::AdmissionActivation => "token admission expired before activation"@,
            RefusalStage::AdmissionRevalidation => "token admission lease expired"@,
        }
    }

    /// The reason that the peer is told.
    pub fn reason(&self) -> (reason: &'static str)
        ensures
            reason@ == self.spec_reason(),
    {
        match self {
            RefusalStage::AdmissionCapacity => "pending admission capacity exhausted",
            RefusalStage::SessionAccept => "invalid SETUP",
            RefusalStage::SetupTimeout => "SETUP timeout",
            RefusalStage::AdmissionClaims => "session admission denied",
            RefusalStage::Admission => "session admission denied",
            RefusalStage::AdmissionTimeout => "session admission timeout",
            RefusalStage::SessionCapacity => "active session capacity exhausted",
            RefusalStage::PolicyCapacity => "session capacity exhausted",
            RefusalStage::PolicyCapacityTimeout => "session capacity timeout",
            RefusalStage::ScopeResolve => "scope resolution failed",
            RefusalStage::ScopeTimeout => "scope resolution timeout",
            RefusalStage::ScopeMissing => "admitted scope not found",
            RefusalStage::ScopeInvalid => "invalid resolved scope",
            RefusalStage::AdmissionActivation => "token admission expired before activation",
            RefusalStage::AdmissionRevalidation => "token admission lease expired",
        }
    }

    pub open spec fn spec_sampled(self) -> bool {
        self == RefusalStage::AdmissionClaims || self == RefusalStage::Admission || self
            == RefusalStage::AdmissionTimeout
    }

    /// Whether the warning is one of those that are only sampled: a peer can
    /// cause any number of them.
    pub fn is_sampled(&self) -> (sampled: bool)
        ensures
            sampled == self.spec_sampled(),
    {
        *self == RefusalStage::AdmissionClaims || *self == RefusalStage::Admission || *self
            == RefusalStage::AdmissionTimeout
    }
}

/// What came of something that was waited for.
#[derive(Debug)]
pub enum Waited<T> {
    Done(T),
    Failed,
    TimedOut,
}

/// What a scope allows.
#[derive(Clone, Copy, Debug, PartialEq, Eq, Structural)]
pub enum ScopePermissions {
    ReadOnly,
    WriteOnly,
    ReadWrite,
}

impl ScopePermissions {
    pub open spec fn publishes(self) -> bool {
        self != ScopePermissions::ReadOnly
    }

    pub open spec fn subscribes(self) -> bool {
        self != ScopePermissions::WriteOnly
    }

    pub fn can_publish(&self) -> (can: bool)
        ensures
            can == self.publishes(),
    {
        *self != ScopePermissions::ReadOnly
    }

    pub fn can_subscribe(&self) -> (can: bool)
        ensures
            can == self.subscribes(),
    {
        *self != ScopePermissions::WriteOnly
    }
}

/// A scope that a coordinator resolved.
#[derive(Debug)]
pub struct ScopeInfo {
    pub scope_id: String,
    pub permissions: ScopePermissions,
}

/// The model of a [`ScopeInfo`].
pub struct ScopeView {
    pub scope_id: Seq<char>,
    pub permissions: ScopePermissions,
}

impl View for ScopeInfo {
    type V = ScopeView;

    open spec fn view(&self) -> ScopeView {
        ScopeView { scope_id: self.scope_id@, permissions: self.permissions }
    }
}

/// The model of a scope that may not have been found.
pub open spec fn scope_view(scope: Option<ScopeInfo>) -> Option<ScopeView> {
    match scope {
        Some(scope) => Some(scope@),
        None => None,
    }
}

/// What happened to a connection that is being admitted.
#[derive(Debug)]
pub enum AdmissionEvent {
    /// The SETUP messages were exchanged: who the peer is, and the token that
    /// it brought.
    Setup(Waited<(PeerIdentity, Option<SetupAuthorization>)>),
    /// The policy decided, and the clock was read.
    Decided { decision: Waited<AdmissionDecision>, now: u64 },
    /// Whether a place among the active sessions was free.
    SessionPermit(bool),
    /// The policy gave a lease.
    SessionLease(Waited<()>),
    /// The coordinator resolved the scope.
    Scope(Waited<Option<ScopeInfo>>),
    /// The clock was read.
    Clock(u64),
    /// The policy was asked again; `None` is no answer in time.
    Revalidated(Option<Result<(), AdmissionError>>),
    /// The lease was lost while the session ran.
    LeaseLost,
    /// The session ended: `None` is an end without error, otherwise whether the
    /// peer closed it in good order.
    SessionEnded(Option<bool>),
    /// A connection that was turned away is closed, or was not in time.
    CleanedUp,
}

/// What a decision was held against.
#[derive(Clone, Copy, Debug, PartialEq, Eq, Structural)]
pub struct Grounds {
    /// Whether the peer brought a certificate.
    pub authenticated: bool,
    /// Whether the peer brought a token.
    pub token: bool,
    /// When it was.
    pub now: u64,
}

/// A decision that held, and what it was held against.
#[derive(Debug)]
pub struct Admitted {
    pub decision: AdmissionDecision,
    pub grounds: Grounds,
}

/// The model of an [`Admitted`].
pub struct AdmittedView {
    pub decision: DecisionView,
    pub grounds: Grounds,
}

impl View for Admitted {
    type V = AdmittedView;

    open spec fn view(&self) -> AdmittedView {
        AdmittedView { decision: self.decision@, grounds: self.grounds }
    }
}

impl AdmittedView {
    /// Whether the decision holds on a listener on these grounds.
    pub open spec fn holds(self, policy: ListenerSecurityPolicy, production: bool) -> bool {
        self.decision.holds(
            policy,
            self.grounds.authenticated,
            self.grounds.token,
            production,
            self.grounds.now,
        )
    }
}

/// What a session that is admitted starts with.
#[derive(Debug)]
pub struct Activation {
    pub admitted: Admitted,
    pub scope_id: Option<String>,
    /// Whether the peer may publish. Its publications are consumed, or each of
    /// them is refused.
    pub can_publish: bool,
    /// Whether the peer may subscribe. Its subscriptions are served, or each of
    /// them is refused.
    pub can_subscribe: bool,
    /// Whether the lease of a token is watched while the session runs.
    pub watch_lease: bool,
}

/// What to do next for a connection.
#[derive(Debug)]
pub enum AdmissionAction {
    /// Ask the policy to decide, and read the clock.
    Decide,
    /// Take a place among the active sessions.
    AcquirePermit,
    /// Ask the policy for a lease.
    AcquireLease,
    /// Ask the coordinator for the scope.
    ResolveScope,
    ReadClock,
    /// Ask the policy again.
    Revalidate,
    /// Run the session.
    Activate(Activation),
    /// Close the connection.
    Refuse(RefusalStage),
    /// The connection is closed; whether its end is counted as an error.
    Close { error: bool },
}

/// Where admitting a connection stands.
#[derive(Debug)]
pub enum AdmissionPhase {
    AwaitingSetup,
    AwaitingDecision { peer: PeerIdentity, authorization: Option<SetupAuthorization> },
    AwaitingPermit(Admitted),
    AwaitingLease(Admitted),
    AwaitingScope(Admitted),
    AwaitingClock { admitted: Admitted, scope: Option<ScopeInfo> },
    AwaitingRevalidation { admitted: Admitted, scope: Option<ScopeInfo> },
    Running,
    /// The connection was turned away and is being closed.
    Refused,
    Closed,
}

/// A connection that is being admitted.
#[derive(Debug)]
pub struct SessionAdmission {
    pub policy: ListenerSecurityPolicy,
    pub production: bool,
    pub phase: AdmissionPhase,
    /// The place among those that wait to be admitted. It is given back once
    /// the connection is admitted or closed.
    pub place: Option<OwnedSemaphorePermit>,
}

/// What a session is activated with.
pub struct ActivationView {
    pub admitted: AdmittedView,
    pub scope_id: Option<Seq<char>>,
    pub can_publish: bool,
    pub can_subscribe: bool,
    pub watch_lease: bool,
}

impl View for Activation {
    type V = ActivationView;

    open spec fn view(&self) -> ActivationView {
        ActivationView {
            admitted: self.admitted@,
            scope_id: text_view(self.scope_id),
            can_publish: self.can_publish,
            can_subscribe: self.can_subscribe,
            watch_lease: self.watch_lease,
        }
    }
}

/// The model of an [`AdmissionAction`].
pub enum AdmissionActionView {
    Decide,
    AcquirePermit,
    AcquireLease,
    ResolveScope,
    ReadClock,
    Revalidate,
    Activate(ActivationView),
    Refuse(RefusalStage),
    Close { error: bool },
}

impl View for AdmissionAction {
    type V = AdmissionActionView;

    open spec fn view(&self) -> AdmissionActionView {
        match self {
            AdmissionAction::Decide => AdmissionActionView::Decide,
            AdmissionAction::AcquirePermit => AdmissionActionView::AcquirePermit,
            AdmissionAction::AcquireLease => AdmissionActionView::AcquireLease,
            AdmissionAction::ResolveScope => AdmissionActionView::ResolveScope,
            AdmissionAction::ReadClock => AdmissionActionView::ReadClock,
            AdmissionAction::Revalidate => AdmissionActionView::Revalidate,
            AdmissionAction::Activate(activation) => AdmissionActionView::Activate(activation@),
            AdmissionAction::Refuse(stage) => AdmissionActionView::Refuse(*stage),
            AdmissionAction::Close { error } => AdmissionActionView::Close { error: *error },
        }
    }
}

/// What a decision about a peer is held against.
pub open spec fn grounds_of(
    peer: PeerIdentity,
    authorization: Option<SetupAuthorization>,
    now: u64,
) -> Grounds {
    Grounds {
        authenticated: peer is Certificate,
        token: authorization is Some && authorization->0@.len() > 0,
        now,
    }
}

impl SessionAdmission {
    pub open spec fn refused(self, stage: RefusalStage) -> (AdmissionPhase, AdmissionActionView) {
        (AdmissionPhase::Refused, AdmissionActionView::Refuse(stage))
    }

    /// Whether the lease of a token goes with the session.
    pub open spec fn leased(self) -> bool {
        self.policy == ListenerSecurityPolicy::TokenSubscriber && self.production
    }

    /// A session starts with what both its claims and its scope allow.
    pub open spec fn activated(self, admitted: AdmittedView, scope: Option<ScopeView>) -> (
        AdmissionPhase,
        AdmissionActionView,
    ) {
        (
            AdmissionPhase::Running,
            AdmissionActionView::Activate(
                ActivationView {
                    admitted,
                    scope_id: match scope {
                        Some(scope) => Some(scope.scope_id),
                        None => None,
                    },
                    can_publish: admitted.decision.claims.publish && (scope is None
                        || scope->0.permissions.publishes()),
                    can_subscribe: admitted.decision.claims.subscribe && (scope is None
                        || scope->0.permissions.subscribes()),
                    watch_lease: self.leased(),
                },
            ),
        )
    }

    /// What an event leads to.
    pub open spec fn after(self, event: AdmissionEvent) -> (AdmissionPhase, AdmissionActionView) {
        match (self.phase, event) {
            (AdmissionPhase::AwaitingSetup, AdmissionEvent::Setup(setup)) => match setup {
                Waited::Done((peer, authorization)) => (
                    AdmissionPhase::AwaitingDecision { peer, authorization },
                    AdmissionActionView::Decide,
                ),
                Waited::Failed => self.refused(RefusalStage::SessionAccept),
                Waited::TimedOut => self.refused(RefusalStage::SetupTimeout),
            },
            (
                AdmissionPhase::AwaitingDecision { peer, authorization },
                AdmissionEvent::Decided { decision, now },
            ) => match decision {
                Waited::Done(decision) => {
                    let admitted = Admitted { decision, grounds: grounds_of(peer, authorization, now) };
                    if admitted@.holds(self.policy, self.production) {
                        (
                            AdmissionPhase::AwaitingPermit(admitted),
                            AdmissionActionView::AcquirePermit,
                        )
                    } else {
                        self.refused(RefusalStage::AdmissionClaims)
                    }
                },
                Waited::Failed => self.refused(RefusalStage::Admission),
                Waited::TimedOut => self.refused(RefusalStage::AdmissionTimeout),
            },
            (AdmissionPhase::AwaitingPermit(admitted), AdmissionEvent::SessionPermit(free)) => {
                if free {
                    (AdmissionPhase::AwaitingLease(admitted), AdmissionActionView::AcquireLease)
                } else {
                    self.refused(RefusalStage::SessionCapacity)
                }
            },
            (AdmissionPhase::AwaitingLease(admitted), AdmissionEvent::SessionLease(lease)) => {
                match lease {
                    Waited::Done(_) => (
                        AdmissionPhase::AwaitingScope(admitted),
                        AdmissionActionView::ResolveScope,
                    ),
                    Waited::Failed => self.refused(RefusalStage::PolicyCapacity),
                    Waited::TimedOut => self.refused(RefusalStage::PolicyCapacityTimeout),
                }
            },
            (AdmissionPhase::AwaitingScope(admitted), AdmissionEvent::Scope(scope)) => match scope {
                Waited::Failed => self.refused(RefusalStage::ScopeResolve),
                Waited::TimedOut => self.refused(RefusalStage::ScopeTimeout),
                Waited::Done(scope) => if admitted@.decision.claims.scope is Some && scope is None {
                    self.refused(RefusalStage::ScopeMissing)
                } else if scope is Some && !valid_name(scope->0.scope_id@) {
                    self.refused(RefusalStage::ScopeInvalid)
                } else if self.leased() {
                    (
                        AdmissionPhase::AwaitingClock { admitted, scope },
                        AdmissionActionView::ReadClock,
                    )
                } else {
                    self.activated(admitted@, scope_view(scope))
                },
            },
            (AdmissionPhase::AwaitingClock { admitted, scope }, AdmissionEvent::Clock(now)) => {
                if admitted@.decision.claims.expired(now) {
                    self.refused(RefusalStage::AdmissionActivation)
                } else {
                    (
                        AdmissionPhase::AwaitingRevalidation { admitted, scope },
                        AdmissionActionView::Revalidate,
                    )
                }
            },
            (
                AdmissionPhase::AwaitingRevalidation { admitted, scope },
                AdmissionEvent::Revalidated(answer),
            ) => match revalidation(answer) {
                Ok(()) => self.activated(admitted@, scope_view(scope)),
                Err(_) => self.refused(RefusalStage::AdmissionActivation),
            },
            (AdmissionPhase::Running, AdmissionEvent::LeaseLost) => self.refused(
                RefusalStage::AdmissionRevalidation,
            ),
            (AdmissionPhase::Running, AdmissionEvent::SessionEnded(outcome)) => (
                AdmissionPhase::Closed,
                AdmissionActionView::Close { error: outcome == Some(false) },
            ),
            (AdmissionPhase::Refused, AdmissionEvent::CleanedUp) => (
                AdmissionPhase::Closed,
                AdmissionActionView::Close { error: false },
            ),
            _ => (AdmissionPhase::Closed, AdmissionActionView::Close { error: true }),
        }
    }

    /// Whether a connection in a phase has its place among those that wait to
    /// be admitted.
    pub open spec fn keeps_place(phase: AdmissionPhase) -> bool {
        !(phase is Running || phase is Closed)
    }

    /// The connection after an event.
    pub open spec fn stepped(self, event: AdmissionEvent) -> SessionAdmission {
        let phase = self.after(event).0;
        SessionAdmission {
            phase,
            place: if SessionAdmission::keeps_place(phase) {
                self.place
            } else {
                None
            },
            ..self
        }
    }

    /// What events lead to, one after the other.
    pub open spec fn actions(self, events: Seq<AdmissionEvent>) -> Seq<AdmissionActionView>
        decreases events.len(),
    {
        if events.len() == 0 {
            Seq::empty()
        } else {
            seq![self.after(events[0]).1] + self.stepped(events[0]).actions(events.drop_first())
        }
    }

    /// Starts to admit a connection, if a place among those that wait to be
    /// admitted was free. Otherwise it is turned away at once, and nothing is
    /// kept of it.
    pub fn begin(
        place: Option<OwnedSemaphorePermit>,
        policy: ListenerSecurityPolicy,
        production: bool,
    ) -> (result: Result<Self, RefusalStage>)
        ensures
            match result {
                Ok(admission) => {
                    &&& place is Some
                    &&& admission.policy == policy
                    &&& admission.production == production
                    &&& admission.phase is AwaitingSetup
                    &&& admission.place == place
                    &&& admission.sound()
                },
                Err(stage) => place is None && stage == RefusalStage::AdmissionCapacity,
            },
    {
        if place.is_some() {
            Ok(SessionAdmission { policy, production, phase: AdmissionPhase::AwaitingSetup, place })
        } else {
            Err(RefusalStage::AdmissionCapacity)
        }
    }

    fn activate(&self, admitted: Admitted, scope: Option<ScopeInfo>) -> (action:
        AdmissionAction)
        ensures
            (AdmissionPhase::Running, action@) == self.activated(admitted@, scope_view(scope)),
    {
        let publishes = match &scope {
            Some(scope) => scope.permissions.can_publish(),
            None => true,
        };
        let subscribes = match &scope {
            Some(scope) => scope.permissions.can_subscribe(),
            None => true,
        };
        let can_publish = admitted.decision.claims.publish && publishes;
        let can_subscribe = admitted.decision.claims.subscribe && subscribes;
        let scope_id = match scope {
            Some(scope) => Some(scope.scope_id),
            None => None,
        };
        let watch_lease = self.policy == ListenerSecurityPolicy::TokenSubscriber
            && self.production;
        AdmissionAction::Activate(
            Activation { admitted, scope_id, can_publish, can_subscribe, watch_lease },
        )
    }

    /// Takes what happened, and says what to do next.
    pub fn step(&mut self, event: AdmissionEvent) -> (action: AdmissionAction)
        ensures
            *final(self) == old(self).stepped(event),
            action@ == old(self).after(event).1,
    {
        let action = self.advance(event);
        let admitted_or_closed = match &self.phase {
            AdmissionPhase::Running | AdmissionPhase::Closed => true,
            _ => false,
        };
        if admitted_or_closed {
            self.place = None;
        }
        action
    }

    fn refuse(&mut self, stage: RefusalStage) -> (action: AdmissionAction)
        ensures
            *final(self) == (SessionAdmission { phase: AdmissionPhase::Refused, ..*old(self) }),
            action == AdmissionAction::Refuse(stage),
    {
        self.phase = AdmissionPhase::Refused;
        AdmissionAction::Refuse(stage)
    }

    fn advance(&mut self, event: AdmissionEvent) -> (action: AdmissionAction)
        ensures
            *final(self) == (SessionAdmission { phase: old(self).after(event).0, ..*old(self) }),
            action@ == old(self).after(event).1,
    {
        let mut phase = AdmissionPhase::Closed;
        std::mem::swap(&mut phase, &mut self.phase);
        match (phase, event) {
            (AdmissionPhase::AwaitingSetup, AdmissionEvent::Setup(setup)) => match setup {
                Waited::Done((peer, authorization)) => {
                    self.phase = AdmissionPhase::AwaitingDecision { peer, authorization };
                    AdmissionAction::Decide
                },
                Waited::Failed => self.refuse(RefusalStage::SessionAccept),
                Waited::TimedOut => self.refuse(RefusalStage::SetupTimeout),
            },
            (
                AdmissionPhase::AwaitingDecision { peer, authorization },
                AdmissionEvent::Decided { decision, now },
            ) => match decision {
                Waited::Done(decision) => {
                    let brought = match &authorization {
                        Some(authorization) => Some(authorization),
                        None => None,
                    };
                    if listener_decision_is_valid_at(
                        self.policy,
                        &peer,
                        brought,
                        &decision,
                        self.production,
                        now,
                    ) {
                        let grounds = Grounds {
                            authenticated: peer.is_authenticated(),
                            token: match &authorization {
                                Some(token) => !token.is_empty(),
                                None => false,
                            },
                            now,
                        };
                        let admitted = Admitted { decision, grounds };
                        self.phase = AdmissionPhase::AwaitingPermit(admitted);
                        AdmissionAction::AcquirePermit
                    } else {
                        self.refuse(RefusalStage::AdmissionClaims)
                    }
                },
                Waited::Failed => self.refuse(RefusalStage::Admission),
                Waited::TimedOut => self.refuse(RefusalStage::AdmissionTimeout),
            },
            (AdmissionPhase::AwaitingPermit(admitted), AdmissionEvent::SessionPermit(free)) => {
                if free {
                    self.phase = AdmissionPhase::AwaitingLease(admitted);
                    AdmissionAction::AcquireLease
                } else {
                    self.refuse(RefusalStage::SessionCapacity)
                }
            },
            (AdmissionPhase::AwaitingLease(admitted), AdmissionEvent::SessionLease(lease)) => {
                match lease {
                    Waited::Done(_) => {
                        self.phase = AdmissionPhase::AwaitingScope(admitted);
                        AdmissionAction::ResolveScope
                    },
                    Waited::Failed => self.refuse(RefusalStage::PolicyCapacity),
                    Waited::TimedOut => self.refuse(RefusalStage::PolicyCapacityTimeout),
                }
            },
            (AdmissionPhase::AwaitingScope(admitted), AdmissionEvent::Scope(scope)) => match scope {
                Waited::Failed => self.refuse(RefusalStage::ScopeResolve),
                Waited::TimedOut => self.refuse(RefusalStage::ScopeTimeout),
                Waited::Done(scope) => {
                    if admitted.decision.claims.scope.is_some() && scope.is_none() {
                        return self.refuse(RefusalStage::ScopeMissing);
                    }
                    if let Some(info) = &scope {
                        if !resolved_scope_is_valid(&info.scope_id) {
                            return self.refuse(RefusalStage::ScopeInvalid);
                        }
                    }
                    if self.policy == ListenerSecurityPolicy::TokenSubscriber && self.production {
                        self.phase = AdmissionPhase::AwaitingClock { admitted, scope };
                        AdmissionAction::ReadClock
                    } else {
                        self.phase = AdmissionPhase::Running;
                        self.activate(admitted, scope)
                    }
                },
            },
            (AdmissionPhase::AwaitingClock { admitted, scope }, AdmissionEvent::Clock(now)) => {
                match token_is_current(&admitted.decision, now) {
                    Ok(()) => {
                        self.phase = AdmissionPhase::AwaitingRevalidation { admitted, scope };
                        AdmissionAction::Revalidate
                    },
                    Err(_) => self.refuse(RefusalStage::AdmissionActivation),
                }
            },
            (
                AdmissionPhase::AwaitingRevalidation { admitted, scope },
                AdmissionEvent::Revalidated(answer),
            ) => match revalidated(answer) {
                Ok(()) => {
                    self.phase = AdmissionPhase::Running;
                    self.activate(admitted, scope)
                },
                Err(_) => self.refuse(RefusalStage::AdmissionActivation),
            },
            (AdmissionPhase::Running, AdmissionEvent::LeaseLost) => self.refuse(RefusalStage::AdmissionRevalidation),
            (AdmissionPhase::Refused, AdmissionEvent::CleanedUp) => AdmissionAction::Close {
                error: false,
            },
            (AdmissionPhase::Running, AdmissionEvent::SessionEnded(outcome)) => {
                let error = match outcome {
                    Some(graceful) => !graceful,
                    None => false,
                };
                AdmissionAction::Close { error }
            },
            _ => AdmissionAction::Close { error: true },
        }
    }
}

/// What a phase rests on.
pub open spec fn phase_admitted(phase: AdmissionPhase) -> Option<AdmittedView> {
    match phase {
        AdmissionPhase::AwaitingPermit(admitted) => Some(admitted@),
        AdmissionPhase::AwaitingLease(admitted) => Some(admitted@),
        AdmissionPhase::AwaitingScope(admitted) => Some(admitted@),
        AdmissionPhase::AwaitingClock { admitted, .. } => Some(admitted@),
        AdmissionPhase::AwaitingRevalidation { admitted, .. } => Some(admitted@),
        _ => None,
    }
}

/// Whether a scope is one that claims can be held in: where they name one, one
/// was found, and it is in order.
pub open spec fn scope_serves(decision: DecisionView, scope: Option<ScopeView>) -> bool {
    &&& decision.claims.scope is Some ==> scope is Some
    &&& scope matches Some(scope) ==> valid_name(scope.scope_id)
}

impl SessionAdmission {
    /// What holds of a connection at all times: past the decision, it is one
    /// that held on the listener on the grounds that go with it; past the
    /// scope, it is one that the claims can be held in.
    pub open spec fn sound(self) -> bool {
        &&& phase_admitted(self.phase) matches Some(admitted) ==> admitted.holds(
            self.policy,
            self.production,
        )
        &&& match self.phase {
            AdmissionPhase::AwaitingClock { admitted, scope } => scope_serves(
                admitted@.decision,
                scope_view(scope),
            ),
            AdmissionPhase::AwaitingRevalidation { admitted, scope } => scope_serves(
                admitted@.decision,
                scope_view(scope),
            ),
            _ => true,
        }
    }

    /// Whether an event denies the connection: the policy refused, did not
    /// answer in time, or decided something that does not hold on the listener
    /// for this peer at this time.
    pub open spec fn denied(self, event: AdmissionEvent) -> bool {
        match (self.phase, event) {
            (
                AdmissionPhase::AwaitingDecision { peer, authorization },
                AdmissionEvent::Decided { decision: Waited::Done(decision), now },
            ) => !AdmittedView {
                decision: decision@,
                grounds: grounds_of(peer, authorization, now),
            }.holds(self.policy, self.production),
            (AdmissionPhase::AwaitingDecision { .. }, AdmissionEvent::Decided { .. }) => true,
            _ => false,
        }
    }
}

/// Whatever happens, a connection stays sound.
pub proof fn admission_stays_sound(admission: SessionAdmission, event: AdmissionEvent)
    requires
        admission.sound(),
    ensures
        admission.stepped(event).sound(),
{
}

/// A decision is held against the peer that it is about, the token that it
/// brought and the time at which it was made, and these stay with it.
pub proof fn grounds_are_those_of_the_decision(admission: SessionAdmission, event: AdmissionEvent)
    ensures
        phase_admitted(admission.stepped(event).phase) matches Some(admitted) ==> match (
            admission.phase,
            event,
        ) {
            (
                AdmissionPhase::AwaitingDecision { peer, authorization },
                AdmissionEvent::Decided { decision: Waited::Done(decision), now },
            ) => admitted.decision == decision@ && admitted.grounds == grounds_of(
                peer,
                authorization,
                now,
            ),
            _ => phase_admitted(admission.phase) == Some(admitted),
        },
        admission.after(event).1 matches AdmissionActionView::Activate(activation)
            ==> phase_admitted(admission.phase) == Some(activation.admitted),
{
}

/// A permit, a lease and a scope are asked for, and a session is run, only for
/// a connection that was admitted by a decision that held on the listener for
/// its peer at the time: denial comes before any other effect.
pub proof fn denial_comes_first(admission: SessionAdmission, event: AdmissionEvent)
    requires
        admission.sound(),
    ensures
        match admission.after(event).1 {
            AdmissionActionView::AcquirePermit
            | AdmissionActionView::AcquireLease
            | AdmissionActionView::ResolveScope
            | AdmissionActionView::ReadClock
            | AdmissionActionView::Revalidate => {
                &&& phase_admitted(admission.stepped(event).phase) matches Some(admitted)
                &&& admitted.holds(admission.policy, admission.production)
            },
            AdmissionActionView::Activate(activation) => activation.admitted.holds(
                admission.policy,
                admission.production,
            ),
            _ => true,
        },
{
}

/// Nothing but closing is left of a connection that was turned away.
proof fn only_closing_is_left(admission: SessionAdmission, events: Seq<AdmissionEvent>)
    requires
        admission.phase is Refused || admission.phase is Closed,
    ensures
        admission.actions(events).len() == events.len(),
        forall|i: int|
            0 <= i < events.len() ==> (#[trigger] admission.actions(events)[i]) is Close,
    decreases events.len(),
{
    if events.len() > 0 {
        let rest = events.drop_first();
        let next = admission.stepped(events[0]);
        only_closing_is_left(next, rest);
        assert forall|i: int| 0 <= i < events.len() implies (
        #[trigger] admission.actions(events)[i]) is Close by {
            if i > 0 {
                assert(admission.actions(events)[i] == next.actions(rest)[i - 1]);
            }
        }
    }
}

/// A connection that is denied is closed as unauthorized, and nothing is ever
/// asked for it again, whatever happens: no permit, no lease, no scope and no
/// session. Its place among those that wait is free once it is cleaned up.
pub proof fn denied_connection_is_only_closed(
    admission: SessionAdmission,
    event: AdmissionEvent,
    later: Seq<AdmissionEvent>,
)
    requires
        admission.denied(event),
    ensures
        admission.after(event).1 matches AdmissionActionView::Refuse(stage) && stage.spec_code()
            == SessionTerminationCode::Unauthorized,
        forall|i: int|
            0 <= i < later.len() ==> (#[trigger] admission.stepped(event).actions(later)[i]) is Close,
        admission.stepped(event).stepped(AdmissionEvent::CleanedUp).place is None,
        admission.stepped(event).after(AdmissionEvent::CleanedUp) == (
            AdmissionPhase::Closed,
            AdmissionActionView::Close { error: false },
        ),
{
    only_closing_is_left(admission.stepped(event), later);
}

/// How many of a listener's connections have a place among those that wait.
pub open spec fn places_taken(connections: Seq<SessionAdmission>) -> nat
    decreases connections.len(),
{
    if connections.len() == 0 {
        0
    } else {
        places_taken(connections.drop_last()) + if connections.last().place is Some {
            1nat
        } else {
            0nat
        }
    }
}

/// Connections that are closed take no place, however many there were, so they
/// keep no other from being admitted.
pub proof fn closed_connections_take_no_place(connections: Seq<SessionAdmission>)
    requires
        forall|i: int| 0 <= i < connections.len() ==> (#[trigger] connections[i]).place is None,
    ensures
        places_taken(connections) == 0,
    decreases connections.len(),
{
    if connections.len() > 0 {
        let front = connections.drop_last();
        assert forall|i: int| 0 <= i < front.len() implies (#[trigger] front[i]).place is None by {
            assert(front[i] == connections[i]);
        }
        closed_connections_take_no_place(front);
    }
}

/// A connection gives its place back when it is admitted or closed, and has
/// none from then on.
pub proof fn place_is_given_back(admission: SessionAdmission, event: AdmissionEvent)
    ensures
        admission.after(event).1 is Activate || admission.after(event).1 is Close
            ==> admission.stepped(event).place is None,
        admission.place is None ==> admission.stepped(event).place is None,
{
}

/// A session is never given more than its claims and its listener allow.
pub proof fn activation_grants_no_more_than_claimed(
    admission: SessionAdmission,
    event: AdmissionEvent,
)
    requires
        admission.sound(),
    ensures
        admission.after(event).1 matches AdmissionActionView::Activate(activation) ==> {
            let claims = activation.admitted.decision.claims;
            &&& activation.can_publish ==> claims.publish
            &&& activation.can_subscribe ==> claims.subscribe
            &&& admission.policy == ListenerSecurityPolicy::MutualTlsPublisher
                ==> !activation.can_subscribe
            &&& admission.policy == ListenerSecurityPolicy::TokenSubscriber
                ==> !activation.can_publish
            &&& claims.scope is Some ==> activation.scope_id is Some
            &&& activation.scope_id matches Some(scope_id) ==> valid_name(scope_id)
        },
{
}

/// A connection that is turned away is only closed, and one that is closed is
/// over: nothing more is asked for it.
pub proof fn refusal_is_final(admission: SessionAdmission, event: AdmissionEvent)
    ensures
        admission.after(event).1 is Refuse ==> admission.after(event).0 is Refused,
        admission.after(event).1 is Close ==> admission.after(event).0 is Closed,
        admission.phase is Refused ==> admission.after(event).1 is Close,
        admission.phase is Closed ==> admission.after(event) == (
            AdmissionPhase::Closed,
            AdmissionActionView::Close { error: true },
        ),
{
}

} // verus!
