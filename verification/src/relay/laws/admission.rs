//! Whom a relay admits: everybody in order, and nobody else.

use tokio::sync::OwnedSemaphorePermit;
use vstd::prelude::*;
use vstd::utf8::encode_utf8;

use crate::relay::admission::{
    Admitted, AdmissionAction, AdmissionActionView, AdmissionEvent, AdmissionPhase, RefusalStage,
    ScopeInfo, ScopePermissions, SessionAdmission, SessionTerminationCode, Waited,
};
use crate::relay::lease::{token_is_current, LeaseAction, LeaseEvent, LeaseMonitor};
use crate::relay::listener::{Listener, ListenerAction, ListenerEvent};
use crate::relay::policy::{
    is_control, listener_decision_is_valid_at, resolved_scope_is_valid,
    should_log_admission_warning, valid_name,
    AdmissionClaims, AdmissionDecision, AdmissionError, AdmissionPrincipal, AuthenticationMethod,
    ListenerSecurityPolicy, PeerIdentity, SetupAuthorization,
};

verus! {

/// Whether a text can be a name: it has a character, not too many bytes, and
/// no control character.
pub open spec fn is_name(text: Seq<char>) -> bool {
    &&& text.len() > 0
    &&& encode_utf8(text).len() <= 1024
    &&& forall|i: int|
        0 <= i < text.len() ==> {
            let code = (#[trigger] text[i]) as u32;
            0x20 <= code && (code < 0x7f || 0x9f < code)
        }
}

/// Whether the names in claims are names.
pub open spec fn names_are_proper(claims: AdmissionClaims) -> bool {
    &&& claims.scope matches Some(scope) ==> is_name(scope@)
    &&& claims.token_id matches Some(token_id) ==> is_name(token_id@)
}

/// A scope is in order exactly if its name is one.
pub proof fn scope_is_valid_by_its_name(scope_id: &str, valid: bool)
    requires
        call_ensures(resolved_scope_is_valid, (scope_id,), valid),
    ensures
        valid == is_name(scope_id@),
{
    if valid {
        assert forall|i: int| 0 <= i < scope_id@.len() implies {
            let code = (#[trigger] scope_id@[i]) as u32;
            0x20 <= code && (code < 0x7f || 0x9f < code)
        } by {}
    } else if is_name(scope_id@) {
        assert forall|i: int| 0 <= i < scope_id@.len() implies !is_control(
            #[trigger] scope_id@[i],
        ) by {
            let code = scope_id@[i] as u32;
        }
    }
}

/// On a listener for publishers, exactly the decisions by mutual TLS hold that
/// allow publishing and not subscribing, name a scope and have proper names,
/// for every peer with a certificate. The token that a peer brought or did not
/// bring, the mode and the time make no difference.
pub proof fn publishers_are_admitted_by_certificate(
    peer: &PeerIdentity,
    token: Option<&SetupAuthorization>,
    decision: &AdmissionDecision,
    production: bool,
    now: u64,
    valid: bool,
)
    requires
        call_ensures(
            listener_decision_is_valid_at,
            (
                ListenerSecurityPolicy::MutualTlsPublisher,
                peer,
                token,
                decision,
                production,
                now,
            ),
            valid,
        ),
    ensures
        valid <==> {
            &&& peer is Certificate
            &&& decision.principal.method == AuthenticationMethod::MutualTls
            &&& decision.claims.publish
            &&& !decision.claims.subscribe
            &&& decision.claims.scope is Some
            &&& names_are_proper(decision.claims)
        },
{
    proper_names_are_in_order(decision.claims);
}

/// On a listener for subscribers, exactly the decisions by a token hold that
/// allow subscribing and not publishing and have proper names, for every peer
/// that brought a token. In production they also name a scope and the token,
/// and have a term that has not run out. A certificate makes no difference.
pub proof fn subscribers_are_admitted_by_token(
    peer: &PeerIdentity,
    token: Option<&SetupAuthorization>,
    decision: &AdmissionDecision,
    production: bool,
    now: u64,
    valid: bool,
)
    requires
        call_ensures(
            listener_decision_is_valid_at,
            (ListenerSecurityPolicy::TokenSubscriber, peer, token, decision, production, now),
            valid,
        ),
    ensures
        valid <==> {
            &&& token is Some
            &&& token->0@.len() > 0
            &&& decision.principal.method == AuthenticationMethod::SetupToken
            &&& decision.claims.subscribe
            &&& !decision.claims.publish
            &&& names_are_proper(decision.claims)
            &&& production ==> {
                &&& decision.claims.scope is Some
                &&& decision.claims.token_id is Some
                &&& decision.claims.expires_at_unix_seconds is Some
                &&& now < decision.claims.expires_at_unix_seconds->0
            }
        },
{
    proper_names_are_in_order(decision.claims);
}

/// On a development listener exactly the decisions of development with proper
/// names hold, for every peer.
pub proof fn development_admits_its_own_decisions(
    peer: &PeerIdentity,
    token: Option<&SetupAuthorization>,
    decision: &AdmissionDecision,
    production: bool,
    now: u64,
    valid: bool,
)
    requires
        call_ensures(
            listener_decision_is_valid_at,
            (ListenerSecurityPolicy::Development, peer, token, decision, production, now),
            valid,
        ),
    ensures
        valid <==> decision.principal.method == AuthenticationMethod::Development
            && names_are_proper(decision.claims),
{
    proper_names_are_in_order(decision.claims);
}

proof fn proper_names_are_in_order(claims: AdmissionClaims)
    ensures
        claims@.in_order() == names_are_proper(claims),
{
    if let Some(scope) = claims.scope {
        name_is_valid(scope@);
    }
    if let Some(token_id) = claims.token_id {
        name_is_valid(token_id@);
    }
}

proof fn name_is_valid(text: Seq<char>)
    ensures
        valid_name(text) == is_name(text),
{
    if is_name(text) {
        assert forall|i: int| 0 <= i < text.len() implies !is_control(
            #[trigger] text[i],
        ) by {
            let code = text[i] as u32;
        }
    }
    if valid_name(text) {
        assert forall|i: int| 0 <= i < text.len() implies {
            let code = (#[trigger] text[i]) as u32;
            0x20 <= code && (code < 0x7f || 0x9f < code)
        } by {
            assert(!is_control(text[i]));
        }
    }
}

/// The claims of a token are current until their term runs out; claims without
/// a term are not.
pub proof fn token_is_current_until_it_expires(
    decision: &AdmissionDecision,
    now: u64,
    result: Result<(), AdmissionError>,
)
    requires
        call_ensures(token_is_current, (decision, now), result),
    ensures
        result is Ok <==> decision.claims.expires_at_unix_seconds is Some && now
            < decision.claims.expires_at_unix_seconds->0,
        result is Err ==> result->Err_0 == AdmissionError::PolicyDenied,
{
}

/// Whether a scope that was resolved serves a decision.
pub open spec fn is_proper_scope(decision: AdmissionDecision, scope: Option<ScopeInfo>) -> bool {
    &&& decision.claims.scope is Some ==> scope is Some
    &&& scope matches Some(info) ==> is_name(info.scope_id@)
}

/// What a session may do: what its claims allow, and its scope, if it has one.
pub open spec fn may_publish(decision: AdmissionDecision, scope: Option<ScopeInfo>) -> bool {
    decision.claims.publish && (scope matches Some(info) ==> info.permissions
        == ScopePermissions::WriteOnly || info.permissions == ScopePermissions::ReadWrite)
}

/// Whether a session may subscribe: its claims allow it, and its scope, if it
/// has one.
pub open spec fn may_subscribe(decision: AdmissionDecision, scope: Option<ScopeInfo>) -> bool {
    decision.claims.subscribe && (scope matches Some(info) ==> info.permissions
        == ScopePermissions::ReadOnly || info.permissions == ScopePermissions::ReadWrite)
}

/// A connection whose decision holds, for which there is a place and a lease,
/// and whose scope is in order, becomes a session, step by step, with all that
/// its claims and its scope allow and under the scope that was resolved.
pub proof fn proper_connection_becomes_a_session(
    admission: SessionAdmission,
    peer: PeerIdentity,
    token: Option<SetupAuthorization>,
    decision: AdmissionDecision,
    now: u64,
    valid: bool,
    scope: Option<ScopeInfo>,
)
    requires
        admission.phase is AwaitingSetup,
        !(admission.policy == ListenerSecurityPolicy::TokenSubscriber && admission.production),
        call_ensures(
            listener_decision_is_valid_at,
            (
                admission.policy,
                &peer,
                match token {
                    Some(token) => Some(&token),
                    None => None,
                },
                &decision,
                admission.production,
                now,
            ),
            valid,
        ),
        valid,
        is_proper_scope(decision, scope),
    ensures
        ({
            let events = seq![
                AdmissionEvent::Setup(Waited::Done((peer, token))),
                AdmissionEvent::Decided { decision: Waited::Done(decision), now },
                AdmissionEvent::SessionPermit(true),
                AdmissionEvent::SessionLease(Waited::Done(())),
                AdmissionEvent::Scope(Waited::Done(scope)),
            ];
            let actions = admission.actions(events);
            &&& actions.len() == 5
            &&& actions[0] is Decide
            &&& actions[1] is AcquirePermit
            &&& actions[2] is AcquireLease
            &&& actions[3] is ResolveScope
            &&& actions[4] matches AdmissionActionView::Activate(activation)
            &&& activation.can_publish == may_publish(decision, scope)
            &&& activation.can_subscribe == may_subscribe(decision, scope)
            &&& activation.scope_id is Some <==> scope is Some
            &&& scope matches Some(info) ==> activation.scope_id == Some(info.scope_id@)
            &&& activation.admitted.decision == decision@
            &&& activation.admitted.grounds.authenticated == (peer is Certificate)
            &&& activation.admitted.grounds.now == now
            &&& !activation.watch_lease
        }),
{
    if let Some(info) = scope {
        name_is_valid(info.scope_id@);
    }
    let events = seq![
        AdmissionEvent::Setup(Waited::Done((peer, token))),
        AdmissionEvent::Decided { decision: Waited::Done(decision), now },
        AdmissionEvent::SessionPermit(true),
        AdmissionEvent::SessionLease(Waited::Done(())),
        AdmissionEvent::Scope(Waited::Done(scope)),
    ];
    reveal_with_fuel(SessionAdmission::actions, 6);
    let one = admission.stepped(events[0]);
    let two = one.stepped(events[1]);
    let three = two.stepped(events[2]);
    let four = three.stepped(events[3]);
    let rest1 = events.drop_first();
    let rest2 = rest1.drop_first();
    let rest3 = rest2.drop_first();
    let rest4 = rest3.drop_first();
    assert(rest1[0] == events[1] && rest2[0] == events[2] && rest3[0] == events[3] && rest4[0]
        == events[4]);
    assert(rest4.drop_first().len() == 0);
}

/// In production, a connection by token also has its term looked at and its
/// policy asked again before it becomes a session, whose lease is watched.
pub proof fn proper_token_becomes_a_session(
    admission: SessionAdmission,
    admitted: Admitted,
    scope: Option<ScopeInfo>,
    now: u64,
)
    requires
        admission.phase == AdmissionPhase::AwaitingScope(admitted),
        admission.policy == ListenerSecurityPolicy::TokenSubscriber,
        admission.production,
        is_proper_scope(admitted.decision, scope),
        admitted.decision.claims.expires_at_unix_seconds is Some,
        now < admitted.decision.claims.expires_at_unix_seconds->0,
    ensures
        ({
            let resolved = AdmissionEvent::Scope(Waited::Done(scope));
            let told = AdmissionEvent::Clock(now);
            let confirmed = AdmissionEvent::Revalidated(Some(Ok(())));
            let current = admission.stepped(resolved);
            let asked = current.stepped(told);
            &&& admission.after(resolved).1 is ReadClock
            &&& current.after(told).1 is Revalidate
            &&& asked.after(confirmed).1 matches AdmissionActionView::Activate(activation)
            &&& activation.can_publish == may_publish(admitted.decision, scope)
            &&& activation.can_subscribe == may_subscribe(admitted.decision, scope)
            &&& activation.scope_id is Some <==> scope is Some
            &&& scope matches Some(info) ==> activation.scope_id == Some(info.scope_id@)
            &&& activation.admitted == admitted@
            &&& activation.watch_lease
            &&& asked.after(AdmissionEvent::Revalidated(None)).1 is Refuse
            &&& forall|error: AdmissionError|
                (#[trigger] asked.after(AdmissionEvent::Revalidated(Some(Err(error))))).1 is Refuse
            &&& forall|late: u64|
                late >= admitted.decision.claims.expires_at_unix_seconds->0 ==> (
                #[trigger] current.after(AdmissionEvent::Clock(late))).1 is Refuse
        }),
{
    if let Some(info) = scope {
        name_is_valid(info.scope_id@);
    }
}

/// A connection is turned away exactly where something is missing, and for
/// what is missing.
pub proof fn connection_is_turned_away_for_what_is_missing(
    admission: &mut SessionAdmission,
    event: AdmissionEvent,
    action: AdmissionAction,
)
    requires
        call_ensures(SessionAdmission::step, (admission, event), action),
    ensures
        old(admission).phase is AwaitingSetup ==> {
            &&& event == AdmissionEvent::Setup(Waited::Failed) ==> action
                == AdmissionAction::Refuse(RefusalStage::SessionAccept)
            &&& event == AdmissionEvent::Setup(Waited::TimedOut) ==> action
                == AdmissionAction::Refuse(RefusalStage::SetupTimeout)
        },
        old(admission).phase is AwaitingDecision ==> (event matches AdmissionEvent::Decided {
            decision,
            now,
        } ==> {
            &&& decision is Failed ==> action == AdmissionAction::Refuse(RefusalStage::Admission)
            &&& decision is TimedOut ==> action == AdmissionAction::Refuse(
                RefusalStage::AdmissionTimeout,
            )
            &&& decision is Done && !(action is AcquirePermit) ==> action
                == AdmissionAction::Refuse(RefusalStage::AdmissionClaims)
        }),
        old(admission).phase is AwaitingPermit ==> {
            &&& event == AdmissionEvent::SessionPermit(true) ==> action is AcquireLease
            &&& event == AdmissionEvent::SessionPermit(false) ==> action
                == AdmissionAction::Refuse(RefusalStage::SessionCapacity)
        },
        old(admission).phase is AwaitingLease ==> {
            &&& event == AdmissionEvent::SessionLease(Waited::Done(())) ==> action is ResolveScope
            &&& event == AdmissionEvent::SessionLease(Waited::Failed) ==> action
                == AdmissionAction::Refuse(RefusalStage::PolicyCapacity)
            &&& event == AdmissionEvent::SessionLease(Waited::TimedOut) ==> action
                == AdmissionAction::Refuse(RefusalStage::PolicyCapacityTimeout)
        },
        old(admission).phase matches AdmissionPhase::AwaitingScope(admitted) ==> (
        event matches AdmissionEvent::Scope(found) ==> {
            &&& found is Failed ==> action == AdmissionAction::Refuse(RefusalStage::ScopeResolve)
            &&& found is TimedOut ==> action == AdmissionAction::Refuse(
                RefusalStage::ScopeTimeout,
            )
            &&& found matches Waited::Done(scope) ==> {
                &&& is_proper_scope(admitted.decision, scope) <==> !(action is Refuse)
                &&& admitted.decision.claims.scope is Some && scope is None ==> action
                    == AdmissionAction::Refuse(RefusalStage::ScopeMissing)
                &&& scope is Some && !is_name(scope->0.scope_id@) ==> action
                    == AdmissionAction::Refuse(RefusalStage::ScopeInvalid)
            }
        }),
        old(admission).phase is AwaitingClock && event is Clock && action is Refuse ==> action
            == AdmissionAction::Refuse(RefusalStage::AdmissionActivation),
        old(admission).phase is AwaitingRevalidation && event is Revalidated && action is Refuse
            ==> action == AdmissionAction::Refuse(RefusalStage::AdmissionActivation),
        old(admission).phase is Running ==> {
            &&& event is LeaseLost ==> action == AdmissionAction::Refuse(
                RefusalStage::AdmissionRevalidation,
            )
            &&& event == AdmissionEvent::SessionEnded(None) ==> action == (AdmissionAction::Close {
                error: false,
            })
            &&& event matches AdmissionEvent::SessionEnded(Some(in_order)) ==> action == (
            AdmissionAction::Close { error: !in_order })
        },
        final(admission).policy == old(admission).policy,
        final(admission).production == old(admission).production,
        !(action is Activate || action is Close) ==> final(admission).place == old(admission).place,
{
    if let AdmissionPhase::AwaitingScope(admitted) = old(admission).phase {
        if let AdmissionEvent::Scope(Waited::Done(Some(info))) = event {
            name_is_valid(info.scope_id@);
        }
    }
}

/// Whoever is turned away is told so as unauthorized, unless the relay itself
/// was at its limits, or SETUP was not in order or not in time.
pub proof fn refusals_are_told_apart(stage: &RefusalStage, code: SessionTerminationCode)
    requires
        call_ensures(RefusalStage::code, (stage,), code),
    ensures
        code == SessionTerminationCode::ProtocolViolation <==> *stage
            == RefusalStage::SessionAccept,
        code == SessionTerminationCode::InternalError <==> {
            ||| *stage == RefusalStage::AdmissionCapacity
            ||| *stage == RefusalStage::SetupTimeout
            ||| *stage == RefusalStage::SessionCapacity
            ||| *stage == RefusalStage::PolicyCapacity
            ||| *stage == RefusalStage::PolicyCapacityTimeout
        },
        code == SessionTerminationCode::Unauthorized || code
            == SessionTerminationCode::ProtocolViolation || code
            == SessionTerminationCode::InternalError,
{
}

/// A connection that comes is taken up where a place is free, under the role of
/// its listener, and turned away at once where none is. Only the relay's own
/// failures stop it.
pub proof fn listener_takes_up_what_it_has_places_for(
    listener: &Listener,
    event: ListenerEvent,
    place: Option<OwnedSemaphorePermit>,
    action: ListenerAction,
)
    requires
        call_ensures(Listener::step_with, (listener, event, place), action),
    ensures
        event == ListenerEvent::Arrived && place is Some ==> {
            &&& action matches ListenerAction::Admit(admission)
            &&& admission.policy == listener.policy
            &&& admission.production == listener.production
            &&& admission.phase is AwaitingSetup
            &&& admission.place == place
        },
        event == ListenerEvent::Arrived && place is None ==> action == ListenerAction::TurnAway(
            RefusalStage::AdmissionCapacity,
        ),
        event == ListenerEvent::Handled ==> action is Listen,
        action is Stop <==> event == ListenerEvent::AcceptFailed || event
            == (ListenerEvent::TaskEnded { failed: true }),
        action is Listen <==> event == ListenerEvent::Handled || event
            == (ListenerEvent::TaskEnded { failed: false }),
{
}

/// Whether an event is what was waited for after an action.
pub open spec fn is_lease_awaited(action: LeaseAction, event: LeaseEvent) -> bool {
    match action {
        LeaseAction::ReadClock => event is Clock,
        LeaseAction::Pause(_) => event is Clock,
        LeaseAction::Revalidate => event is Answer,
        LeaseAction::End(_) => false,
    }
}

/// A lease goes on while its term runs and its policy confirms it, and is lost
/// the moment either fails, with the policy's own word where it gave one.
pub proof fn lease_lasts_while_it_is_confirmed(
    monitor: &mut LeaseMonitor,
    event: LeaseEvent,
    action: LeaseAction,
    later_monitor: &mut LeaseMonitor,
    later: LeaseEvent,
    next: LeaseAction,
)
    requires
        call_ensures(LeaseMonitor::step, (monitor, event), action),
        *old(later_monitor) == *final(monitor),
        call_ensures(LeaseMonitor::step, (later_monitor, later), next),
        is_lease_awaited(action, later),
    ensures
        final(later_monitor).expiry == old(monitor).expiry,
        final(later_monitor).interval == old(monitor).interval,
        later matches LeaseEvent::Clock(now) ==> {
            let running = old(monitor).expiry is Some && now < old(monitor).expiry->0;
            &&& !running ==> next == LeaseAction::End(AdmissionError::PolicyDenied)
            &&& running && action is Pause ==> next is Revalidate
            &&& running && action is ReadClock ==> next is Pause
        },
        later matches LeaseEvent::Answer(answer) ==> match answer {
            Some(Ok(())) => next is ReadClock,
            Some(Err(error)) => next == LeaseAction::End(error),
            None => next == LeaseAction::End(AdmissionError::PolicyDenied),
        },
{
}

/// A lease is looked at again after its interval, or at its expiry, whichever
/// comes first, to the nanosecond.
pub proof fn lease_is_looked_at_in_time(
    decision: &AdmissionDecision,
    interval: u128,
    made: LeaseMonitor,
    monitor: &mut LeaseMonitor,
    now: u64,
    action: LeaseAction,
)
    requires
        call_ensures(LeaseMonitor::new, (decision, interval), made),
        old(monitor).expiry == made.expiry,
        old(monitor).interval == made.interval,
        call_ensures(LeaseMonitor::step, (monitor, LeaseEvent::Clock(now)), action),
        action is Pause,
    ensures
        decision.claims.expires_at_unix_seconds is Some,
        ({
            let left = (decision.claims.expires_at_unix_seconds->0 - now) * 1_000_000_000;
            &&& left > 0
            &&& action->Pause_0 == interval || action->Pause_0 == left
            &&& action->Pause_0 <= interval
            &&& action->Pause_0 <= left
        }),
{
    let expiry = decision.claims.expires_at_unix_seconds->0;
    if now < expiry {
        assert(0 < (expiry - now) * 1_000_000_000 <= u128::MAX) by (nonlinear_arith)
            requires
                0 < expiry - now <= u64::MAX,
        ;
    }
}

/// The watch over a lease starts with the clock, and pauses while the term
/// runs.
pub proof fn lease_starts_with_a_pause(
    decision: &AdmissionDecision,
    interval: u128,
    made: LeaseMonitor,
    monitor: &mut LeaseMonitor,
    now: u64,
    action: LeaseAction,
)
    requires
        call_ensures(LeaseMonitor::new, (decision, interval), made),
        *old(monitor) == made,
        call_ensures(LeaseMonitor::step, (monitor, LeaseEvent::Clock(now)), action),
    ensures
        action is Pause <==> decision.claims.expires_at_unix_seconds is Some && now
            < decision.claims.expires_at_unix_seconds->0,
        !(action is Pause) ==> action == LeaseAction::End(AdmissionError::PolicyDenied),
{
}

/// The first warnings are all logged; of the later ones, one in every run of
/// them is, and no two of it.
pub proof fn warnings_are_sampled(sequence: u64, log: bool, further: u64, later: bool)
    requires
        call_ensures(should_log_admission_warning, (sequence,), log),
        call_ensures(should_log_admission_warning, (further,), later),
    ensures
        sequence < 4 ==> log,
        4 <= sequence < further < sequence + 128 ==> !(log && later),
        log && further == sequence + 128 && sequence >= 4 ==> later,
        sequence == 128 ==> log,
{
}

/// A principal is made of every name, and of nothing else; it keeps the name and
/// the way in which it was authenticated.
pub proof fn principals_have_names(
    name: &str,
    method: AuthenticationMethod,
    result: Result<AdmissionPrincipal, AdmissionError>,
)
    requires
        call_ensures(AdmissionPrincipal::new, (name, method), result),
    ensures
        result is Ok <==> is_name(name@),
        result matches Ok(principal) ==> principal.name@ == name@ && principal.method == method,
        result is Err ==> result->Err_0 == AdmissionError::InvalidPrincipal,
{
    name_is_valid(name@);
}

/// Claims are in order exactly if their names are names; a decision is made of
/// such claims, and keeps them.
pub proof fn decisions_have_proper_claims(
    principal: AdmissionPrincipal,
    claims: AdmissionClaims,
    checked: Result<(), AdmissionError>,
    result: Result<AdmissionDecision, AdmissionError>,
)
    requires
        call_ensures(AdmissionClaims::validate, (&claims,), checked),
        call_ensures(AdmissionDecision::new, (principal, claims), result),
    ensures
        checked is Ok <==> names_are_proper(claims),
        result is Ok <==> names_are_proper(claims),
        result matches Ok(decision) ==> decision.principal == principal && decision.claims == claims,
        result is Err ==> result->Err_0 == AdmissionError::InvalidClaims,
{
    proper_names_are_in_order(claims);
}

/// The admission of a connection begins where a place is free, with nothing
/// known of the peer yet.
pub proof fn admission_begins_with_a_place(
    place: Option<OwnedSemaphorePermit>,
    policy: ListenerSecurityPolicy,
    production: bool,
    result: Result<SessionAdmission, RefusalStage>,
)
    requires
        call_ensures(SessionAdmission::begin, (place, policy, production), result),
    ensures
        result is Ok <==> place is Some,
        result matches Ok(admission) ==> {
            &&& admission.phase is AwaitingSetup
            &&& admission.policy == policy
            &&& admission.production == production
            &&& admission.place == place
        },
        result is Err ==> result->Err_0 == RefusalStage::AdmissionCapacity,
{
}

/// A decision that was made is held against the peer and the token of its own
/// connection: the next place is asked for exactly if it holds.
pub proof fn decision_is_held_against_its_peer(
    admission: &mut SessionAdmission,
    peer: PeerIdentity,
    token: Option<SetupAuthorization>,
    decision: AdmissionDecision,
    now: u64,
    valid: bool,
    action: AdmissionAction,
)
    requires
        old(admission).phase == (AdmissionPhase::AwaitingDecision { peer, authorization: token }),
        call_ensures(
            SessionAdmission::step,
            (admission, AdmissionEvent::Decided { decision: Waited::Done(decision), now }),
            action,
        ),
        call_ensures(
            listener_decision_is_valid_at,
            (
                old(admission).policy,
                &peer,
                match token {
                    Some(token) => Some(&token),
                    None => None,
                },
                &decision,
                old(admission).production,
                now,
            ),
            valid,
        ),
    ensures
        valid ==> action is AcquirePermit,
        !valid ==> action == AdmissionAction::Refuse(RefusalStage::AdmissionClaims),
{
}

} // verus!
