//! Who a relay admits, for how long, and what it can be started with.

use std::sync::Arc;

use moq::relay::admission::{
    Activation, AdmissionAction, AdmissionEvent, RefusalStage, ScopeInfo, ScopePermissions,
    SessionAdmission, SessionTerminationCode, Waited,
};
use moq::relay::config::{
    AdmissionPosture, ClientAuthMode, DirectoryFacts, EndpointPosture, RelayConfig,
};
use moq::relay::launch::{
    choose_admission, choose_listener_security, AdmissionChoice, LaunchError,
};
use moq::relay::lease::{
    revalidated, token_is_current, LeaseAction, LeaseEvent, LeaseMonitor, NANOS_PER_SECOND,
};
use moq::relay::listener::{
    relay_end, Listener, ListenerAction, ListenerEvent, RelayEnd,
};
use moq::relay::policy::{
    clock_time, current_unix_seconds, decision_matches_listener_role, listener_decision_is_valid,
    listener_decision_is_valid_at, resolved_scope_is_valid, should_log_admission_warning,
    AdmissionClaims, AdmissionDecision, AdmissionError, AdmissionPrincipal, AuthenticationMethod,
    ListenerSecurityPolicy, PeerIdentity, SetupAuthorization, MAX_SCOPE_BYTES,
};
use tokio::sync::Semaphore;

fn token_decision(
    expires_at_unix_seconds: Option<u64>,
    scope: Option<&str>,
    token_id: Option<&str>,
) -> AdmissionDecision {
    AdmissionDecision::new(
        AdmissionPrincipal::new("token-test", AuthenticationMethod::SetupToken).unwrap(),
        AdmissionClaims {
            scope: scope.map(str::to_owned),
            publish: false,
            subscribe: true,
            expires_at_unix_seconds,
            token_id: token_id.map(str::to_owned),
        },
    )
    .unwrap()
}

fn development_decision(scope: Option<&str>) -> AdmissionDecision {
    AdmissionDecision::new(
        AdmissionPrincipal::new("capacity-test", AuthenticationMethod::Development).unwrap(),
        AdmissionClaims {
            scope: scope.map(str::to_owned),
            publish: true,
            subscribe: true,
            expires_at_unix_seconds: None,
            token_id: None,
        },
    )
    .unwrap()
}

fn token(text: &str) -> SetupAuthorization {
    SetupAuthorization::new(text.as_bytes().to_vec())
}

fn begin(policy: ListenerSecurityPolicy, production: bool) -> SessionAdmission {
    let place = Arc::new(Semaphore::new(1)).try_acquire_owned().ok();
    SessionAdmission::begin(place, policy, production).unwrap()
}

fn listener(policy: ListenerSecurityPolicy, production: bool, places: usize) -> Listener {
    Listener { policy, production, pending: Arc::new(Semaphore::new(places)) }
}

fn arrive(listener: &Listener) -> SessionAdmission {
    match listener.step(ListenerEvent::Arrived) {
        ListenerAction::Admit(admission) => admission,
        other => panic!("unexpected action {:?}", other),
    }
}

/// A connection to a development listener, up to where its scope is asked for.
fn admitted(scope: Option<&str>) -> SessionAdmission {
    let mut admission = begin(ListenerSecurityPolicy::Development, false);
    let action =
        admission.step(AdmissionEvent::Setup(Waited::Done((PeerIdentity::Anonymous, None))));
    assert!(matches!(action, AdmissionAction::Decide));
    let action = admission.step(AdmissionEvent::Decided {
        decision: Waited::Done(development_decision(scope)),
        now: 0,
    });
    assert!(matches!(action, AdmissionAction::AcquirePermit));
    let action = admission.step(AdmissionEvent::SessionPermit(true));
    assert!(matches!(action, AdmissionAction::AcquireLease));
    let action = admission.step(AdmissionEvent::SessionLease(Waited::Done(())));
    assert!(matches!(action, AdmissionAction::ResolveScope));
    admission
}

fn scope(scope_id: &str, permissions: ScopePermissions) -> AdmissionEvent {
    AdmissionEvent::Scope(Waited::Done(Some(ScopeInfo {
        scope_id: scope_id.to_owned(),
        permissions,
    })))
}

fn refused_at(action: AdmissionAction) -> RefusalStage {
    match action {
        AdmissionAction::Refuse(stage) => stage,
        other => panic!("unexpected action {:?}", other),
    }
}

fn activated(action: AdmissionAction) -> Activation {
    match action {
        AdmissionAction::Activate(activation) => activation,
        other => panic!("unexpected action {:?}", other),
    }
}

#[test]
fn exact_token_expiry_boundary_skips_revalidation() {
    let decision = token_decision(Some(101), Some("tenant/broadcast"), Some("jti-1"));
    let mut monitor = LeaseMonitor::new(&decision, 10 * NANOS_PER_SECOND);
    assert_eq!(monitor.step(LeaseEvent::Clock(100)), LeaseAction::Pause(NANOS_PER_SECOND));
    assert_eq!(
        monitor.step(LeaseEvent::Clock(101)),
        LeaseAction::End(AdmissionError::PolicyDenied)
    );
    assert_eq!(
        monitor.step(LeaseEvent::Clock(100)),
        LeaseAction::End(AdmissionError::PolicyDenied)
    );
}

#[test]
fn lease_is_asked_for_between_pauses() {
    let decision = token_decision(Some(200), Some("tenant/broadcast"), Some("jti-1"));
    let mut monitor = LeaseMonitor::new(&decision, 10 * NANOS_PER_SECOND);
    assert_eq!(monitor.step(LeaseEvent::Clock(100)), LeaseAction::Pause(10 * NANOS_PER_SECOND));
    assert_eq!(monitor.step(LeaseEvent::Clock(110)), LeaseAction::Revalidate);
    assert_eq!(monitor.step(LeaseEvent::Answer(Some(Ok(())))), LeaseAction::ReadClock);
    assert_eq!(monitor.step(LeaseEvent::Clock(195)), LeaseAction::Pause(5 * NANOS_PER_SECOND));
    assert_eq!(monitor.step(LeaseEvent::Clock(199)), LeaseAction::Revalidate);
    assert_eq!(
        monitor.step(LeaseEvent::Answer(None)),
        LeaseAction::End(AdmissionError::PolicyDenied)
    );
    assert_eq!(
        revalidated(Some(Err(AdmissionError::InvalidClaims))),
        Err(AdmissionError::InvalidClaims)
    );
    let endless = token_decision(None, None, None);
    let mut monitor = LeaseMonitor::new(&endless, NANOS_PER_SECOND);
    assert_eq!(
        monitor.step(LeaseEvent::Clock(0)),
        LeaseAction::End(AdmissionError::PolicyDenied)
    );
}

#[test]
fn token_expiring_during_admission_is_rejected_before_activation() {
    let decision = token_decision(Some(101), Some("tenant/broadcast"), Some("jti-1"));
    assert_eq!(token_is_current(&decision, 101), Err(AdmissionError::PolicyDenied));
    assert_eq!(token_is_current(&decision, 100), Ok(()));
}

#[test]
fn production_token_claims_fail_closed() {
    let authorization = token("test-token");
    let identity = PeerIdentity::Anonymous;
    let now = std::time::SystemTime::now()
        .duration_since(std::time::UNIX_EPOCH)
        .unwrap()
        .as_secs();
    let valid = token_decision(Some(now + 60), Some("tenant/broadcast"), Some("jti-1"));

    assert!(listener_decision_is_valid(
        ListenerSecurityPolicy::TokenSubscriber,
        &identity,
        Some(&authorization),
        &valid,
        true,
    ));
    for invalid in [
        token_decision(None, Some("tenant/broadcast"), Some("jti-1")),
        token_decision(Some(now + 60), None, Some("jti-1")),
        token_decision(Some(now + 60), Some("tenant/broadcast"), None),
        token_decision(Some(now), Some("tenant/broadcast"), Some("jti-1")),
    ] {
        assert!(!listener_decision_is_valid(
            ListenerSecurityPolicy::TokenSubscriber,
            &identity,
            Some(&authorization),
            &invalid,
            true,
        ));
    }

    let malformed = AdmissionDecision {
        principal: AdmissionPrincipal::new("malformed", AuthenticationMethod::SetupToken)
            .unwrap(),
        claims: AdmissionClaims {
            scope: Some(String::new()),
            publish: false,
            subscribe: true,
            expires_at_unix_seconds: Some(now + 60),
            token_id: Some("jti-malformed".into()),
        },
    };
    assert!(!listener_decision_is_valid(
        ListenerSecurityPolicy::TokenSubscriber,
        &identity,
        Some(&authorization),
        &malformed,
        true,
    ));
}

#[test]
fn mtls_publisher_role_rejects_custom_subscribe_claim() {
    let principal =
        || AdmissionPrincipal::new("custom-mtls", AuthenticationMethod::MutualTls).unwrap();
    let publisher = AdmissionDecision::new(
        principal(),
        AdmissionClaims {
            scope: Some("/tenant/live".into()),
            publish: true,
            subscribe: false,
            expires_at_unix_seconds: None,
            token_id: None,
        },
    )
    .unwrap();
    assert!(decision_matches_listener_role(
        ListenerSecurityPolicy::MutualTlsPublisher,
        &publisher,
        true,
        0,
    ));

    let bidirectional = AdmissionDecision::new(
        principal(),
        AdmissionClaims {
            subscribe: true,
            ..publisher.claims.clone()
        },
    )
    .unwrap();
    assert!(!decision_matches_listener_role(
        ListenerSecurityPolicy::MutualTlsPublisher,
        &bidirectional,
        true,
        0,
    ));
}

#[test]
fn decision_holds_only_for_what_the_peer_proved() {
    let decision = token_decision(Some(60), Some("tenant"), Some("jti-1"));
    let holds = |peer: &PeerIdentity, authorization: Option<&SetupAuthorization>, now| {
        listener_decision_is_valid_at(
            ListenerSecurityPolicy::TokenSubscriber,
            peer,
            authorization,
            &decision,
            true,
            now,
        )
    };
    let authorization = token("test-token");
    let certificate = PeerIdentity::Certificate { sha256: vec![7; 32] };
    assert!(holds(&PeerIdentity::Anonymous, Some(&authorization), 59));
    assert!(!holds(&PeerIdentity::Anonymous, Some(&authorization), 60));
    assert!(!holds(&PeerIdentity::Anonymous, None, 59));
    assert!(!holds(&PeerIdentity::Anonymous, Some(&token("")), 59));
    assert!(!listener_decision_is_valid_at(
        ListenerSecurityPolicy::MutualTlsPublisher,
        &certificate,
        Some(&authorization),
        &decision,
        true,
        0,
    ));
}

#[test]
fn names_and_claims_are_checked() {
    assert!(resolved_scope_is_valid(&"x".repeat(MAX_SCOPE_BYTES)));
    assert!(!resolved_scope_is_valid(&"x".repeat(MAX_SCOPE_BYTES + 1)));
    assert!(!resolved_scope_is_valid(&"\u{e9}".repeat(MAX_SCOPE_BYTES / 2 + 1)));
    assert!(!resolved_scope_is_valid("tenant\u{85}"));
    assert_eq!(
        AdmissionPrincipal::new("", AuthenticationMethod::MutualTls).err(),
        Some(AdmissionError::InvalidPrincipal)
    );
    let claims = AdmissionClaims {
        scope: Some("a\tb".into()),
        publish: true,
        subscribe: false,
        expires_at_unix_seconds: None,
        token_id: None,
    };
    assert_eq!(claims.validate().err(), Some(AdmissionError::InvalidClaims));
    let principal = AdmissionPrincipal::new("p", AuthenticationMethod::MutualTls).unwrap();
    assert_eq!(
        AdmissionDecision::new(principal, claims).err(),
        Some(AdmissionError::InvalidClaims)
    );
}

#[test]
fn clock_fails_closed() {
    assert_eq!(clock_time(Some(5)), 5);
    assert_eq!(clock_time(None), u64::MAX);
    let before = std::time::SystemTime::now()
        .duration_since(std::time::UNIX_EPOCH)
        .unwrap()
        .as_secs();
    assert!(current_unix_seconds() >= before);
}

#[test]
fn warnings_are_sampled() {
    let logged: Vec<u64> = (0..300).filter(|i| should_log_admission_warning(*i)).collect();
    assert_eq!(logged, vec![0, 1, 2, 3, 128, 256]);
    assert!(RefusalStage::Admission.is_sampled());
    assert!(!RefusalStage::SessionCapacity.is_sampled());
}

#[test]
fn admission_denial_precedes_coordinator_mutation_and_cleans_up() {
    // One place only: every connection needs the place of the one before.
    let listener = listener(ListenerSecurityPolicy::MutualTlsPublisher, true, 1);
    for (decision, stage) in [
        (Waited::Failed, RefusalStage::Admission),
        (Waited::TimedOut, RefusalStage::AdmissionTimeout),
        (
            Waited::Done(token_decision(Some(1), Some("tenant"), Some("jti-1"))),
            RefusalStage::AdmissionClaims,
        ),
    ] {
        let mut admission = arrive(&listener);
        admission.step(AdmissionEvent::Setup(Waited::Done((PeerIdentity::Anonymous, None))));
        let action = admission.step(AdmissionEvent::Decided { decision, now: 0 });
        assert_eq!(refused_at(action), stage);
        assert_eq!(stage.code(), SessionTerminationCode::Unauthorized);
        assert_eq!(listener.pending.available_permits(), 0);
        let action = admission.step(AdmissionEvent::CleanedUp);
        assert!(matches!(action, AdmissionAction::Close { error: false }));
        assert_eq!(listener.pending.available_permits(), 1);
        let action = admission.step(AdmissionEvent::SessionPermit(true));
        assert!(matches!(action, AdmissionAction::Close { error: true }));
        assert!(matches!(listener.step(ListenerEvent::Handled), ListenerAction::Listen));
    }
    assert_eq!(RefusalStage::Admission.reason(), "session admission denied");
    assert_eq!(RefusalStage::AdmissionTimeout.name(), "admission_timeout");
}

#[test]
fn setup_deadline_releases_the_pending_admission_permit() {
    let mut admission = begin(ListenerSecurityPolicy::Development, false);
    let stage = refused_at(admission.step(AdmissionEvent::Setup(Waited::TimedOut)));
    assert_eq!(stage, RefusalStage::SetupTimeout);
    assert_eq!(stage.code().as_u32(), 1);
    assert_eq!(stage.reason(), "SETUP timeout");

    let mut admission = begin(ListenerSecurityPolicy::Development, false);
    let stage = refused_at(admission.step(AdmissionEvent::Setup(Waited::Failed)));
    assert_eq!(stage, RefusalStage::SessionAccept);
    assert_eq!(stage.code(), SessionTerminationCode::ProtocolViolation);
}

#[test]
fn overload_flood_is_rejected_inline_and_listener_recovers() {
    let listener = listener(ListenerSecurityPolicy::Development, false, 1);
    let waiting = arrive(&listener);
    for _ in 0..32 {
        assert!(matches!(
            listener.step(ListenerEvent::Arrived),
            ListenerAction::TurnAway(RefusalStage::AdmissionCapacity)
        ));
    }
    drop(waiting);
    assert!(matches!(listener.step(ListenerEvent::Arrived), ListenerAction::Admit(_)));
    let refused = SessionAdmission::begin(None, ListenerSecurityPolicy::Development, false);
    assert_eq!(refused.err(), Some(RefusalStage::AdmissionCapacity));
}

#[test]
fn scoped_admission_rejects_unknown_coordinator_scope() {
    let mut admission = admitted(Some("tenant"));
    let stage = refused_at(admission.step(AdmissionEvent::Scope(Waited::Done(None))));
    assert_eq!(stage, RefusalStage::ScopeMissing);

    let mut unscoped = admitted(None);
    let activation = activated(unscoped.step(AdmissionEvent::Scope(Waited::Done(None))));
    assert_eq!(activation.scope_id, None);
    assert!(activation.can_publish && activation.can_subscribe);
    assert!(!activation.watch_lease);
}

#[test]
fn scoped_admission_rejects_malformed_coordinator_scope() {
    assert!(!resolved_scope_is_valid(&"x".repeat(MAX_SCOPE_BYTES + 1)));
    for malformed in ["", "tenant\nsmuggled"] {
        let mut admission = admitted(Some("tenant"));
        let stage = refused_at(admission.step(scope(malformed, ScopePermissions::ReadWrite)));
        assert_eq!(stage, RefusalStage::ScopeInvalid);
    }
    let mut admission = admitted(None);
    let stage = refused_at(admission.step(AdmissionEvent::Scope(Waited::Failed)));
    assert_eq!(stage, RefusalStage::ScopeResolve);
    let mut admission = admitted(None);
    let stage = refused_at(admission.step(AdmissionEvent::Scope(Waited::TimedOut)));
    assert_eq!(stage, RefusalStage::ScopeTimeout);
}

#[test]
fn scope_narrows_what_claims_allow() {
    for (permissions, publish, subscribe) in [
        (ScopePermissions::ReadOnly, false, true),
        (ScopePermissions::WriteOnly, true, false),
        (ScopePermissions::ReadWrite, true, true),
    ] {
        let mut admission = admitted(Some("tenant"));
        let activation = activated(admission.step(scope("tenant-7", permissions)));
        assert_eq!(activation.scope_id, Some("tenant-7".to_owned()));
        assert_eq!(activation.can_publish, publish);
        assert_eq!(activation.can_subscribe, subscribe);
        let action = admission.step(AdmissionEvent::SessionEnded(Some(publish)));
        assert!(matches!(action, AdmissionAction::Close { error } if error != publish));
    }
}

#[test]
fn capacity_is_asked_for_before_the_scope() {
    let decided = || {
        let mut admission = begin(ListenerSecurityPolicy::Development, false);
        admission.step(AdmissionEvent::Setup(Waited::Done((PeerIdentity::Anonymous, None))));
        admission.step(AdmissionEvent::Decided {
            decision: Waited::Done(development_decision(None)),
            now: 0,
        });
        admission
    };
    let mut admission = decided();
    let stage = refused_at(admission.step(AdmissionEvent::SessionPermit(false)));
    assert_eq!(stage, RefusalStage::SessionCapacity);
    assert_eq!(stage.code(), SessionTerminationCode::InternalError);
    for (lease, expected) in [
        (Waited::Failed, RefusalStage::PolicyCapacity),
        (Waited::TimedOut, RefusalStage::PolicyCapacityTimeout),
    ] {
        let mut admission = decided();
        admission.step(AdmissionEvent::SessionPermit(true));
        assert_eq!(refused_at(admission.step(AdmissionEvent::SessionLease(lease))), expected);
    }
}

#[test]
fn production_token_is_asked_for_again_before_activation() {
    let scoped = || {
        let mut admission = begin(ListenerSecurityPolicy::TokenSubscriber, true);
        admission.step(AdmissionEvent::Setup(Waited::Done((
            PeerIdentity::Anonymous,
            Some(token("test-token")),
        ))));
        admission.step(AdmissionEvent::Decided {
            decision: Waited::Done(token_decision(Some(101), Some("tenant"), Some("jti-1"))),
            now: 99,
        });
        admission.step(AdmissionEvent::SessionPermit(true));
        admission.step(AdmissionEvent::SessionLease(Waited::Done(())));
        let action = admission.step(scope("tenant", ScopePermissions::ReadWrite));
        assert!(matches!(action, AdmissionAction::ReadClock));
        admission
    };
    let mut admission = scoped();
    let stage = refused_at(admission.step(AdmissionEvent::Clock(101)));
    assert_eq!(stage, RefusalStage::AdmissionActivation);

    let mut admission = scoped();
    assert!(matches!(
        admission.step(AdmissionEvent::Clock(100)),
        AdmissionAction::Revalidate
    ));
    let activation = activated(admission.step(AdmissionEvent::Revalidated(Some(Ok(())))));
    assert!(activation.watch_lease);
    assert!(activation.can_subscribe && !activation.can_publish);
    assert_eq!(activation.admitted.decision.principal.name, "token-test");
    let stage = refused_at(admission.step(AdmissionEvent::LeaseLost));
    assert_eq!(stage, RefusalStage::AdmissionRevalidation);
    assert_eq!(stage.reason(), "token admission lease expired");

    let mut admission = scoped();
    admission.step(AdmissionEvent::Clock(100));
    assert_eq!(
        refused_at(admission.step(AdmissionEvent::Revalidated(None))),
        RefusalStage::AdmissionActivation
    );
}

#[test]
fn decision_is_held_against_its_peer_and_time() {
    let listener = listener(ListenerSecurityPolicy::TokenSubscriber, false, 1);
    let mut admission = arrive(&listener);
    admission.step(AdmissionEvent::Setup(Waited::Done((
        PeerIdentity::Anonymous,
        Some(token("test-token")),
    ))));
    admission.step(AdmissionEvent::Decided {
        decision: Waited::Done(token_decision(Some(101), Some("tenant"), Some("jti-1"))),
        now: 99,
    });
    admission.step(AdmissionEvent::SessionPermit(true));
    admission.step(AdmissionEvent::SessionLease(Waited::Done(())));
    assert_eq!(listener.pending.available_permits(), 0);
    let activation = activated(admission.step(scope("tenant", ScopePermissions::ReadWrite)));
    // The place is free while the session runs.
    assert_eq!(listener.pending.available_permits(), 1);
    assert!(!activation.admitted.grounds.authenticated);
    assert!(activation.admitted.grounds.token);
    assert_eq!(activation.admitted.grounds.now, 99);
}

#[test]
fn listening_ends_only_with_the_relay() {
    let listener = listener(ListenerSecurityPolicy::Development, false, 1);
    assert!(matches!(listener.step(ListenerEvent::Handled), ListenerAction::Listen));
    let ended = |failed| listener.step(ListenerEvent::TaskEnded { failed });
    assert!(matches!(ended(false), ListenerAction::Listen));
    assert!(matches!(ended(true), ListenerAction::Stop));
    assert!(matches!(listener.step(ListenerEvent::AcceptFailed), ListenerAction::Stop));
    assert_eq!(relay_end(false, false), RelayEnd::Clean);
    assert_eq!(relay_end(false, true), RelayEnd::ShutdownFailed);
    assert_eq!(relay_end(true, true), RelayEnd::Stopped);
}

#[test]
fn expired_token_is_refused_by_the_clock() {
    let authorization = token("test-token");
    let valid = |expires_at| {
        listener_decision_is_valid(
            ListenerSecurityPolicy::TokenSubscriber,
            &PeerIdentity::Anonymous,
            Some(&authorization),
            &token_decision(Some(expires_at), Some("tenant"), Some("jti-1")),
            true,
        )
    };
    assert!(!valid(1));
    assert!(!valid(current_unix_seconds()));
    assert!(valid(current_unix_seconds() + 60));
}

fn deny_all() -> AdmissionPosture {
    AdmissionPosture {
        development_only: false,
        allow_all: false,
        supports_production_token_leases: false,
        supports_bounded_session_leases: true,
    }
}

fn config(
    verifies_server_certificates: bool,
    client_auth_mode: ClientAuthMode,
    admission: AdmissionPosture,
    listener_security: ListenerSecurityPolicy,
) -> RelayConfig {
    RelayConfig {
        bind: true,
        endpoints: Vec::new(),
        verifies_server_certificates,
        client_auth_mode,
        qlog: false,
        mlog_dir: None,
        admission,
        development: false,
        listener_security,
        setup_timeout: NANOS_PER_SECOND,
        admission_timeout: NANOS_PER_SECOND,
        cleanup_timeout: NANOS_PER_SECOND / 10,
        max_pending_admissions: 1,
        max_active_sessions: 1,
        token_revalidation_interval: NANOS_PER_SECOND,
        limits_error: None,
    }
}

fn secure() -> RelayConfig {
    config(
        true,
        ClientAuthMode::Required,
        deny_all(),
        ListenerSecurityPolicy::MutualTlsPublisher,
    )
}

fn endpoint() -> EndpointPosture {
    EndpointPosture {
        writes_per_connection_diagnostics: false,
        uses_stateless_retry: true,
        tls_key_logging_enabled: false,
        verifies_server_certificates: true,
        client_auth_mode: ClientAuthMode::Required,
    }
}

fn error_of(config: RelayConfig) -> String {
    config.validate().err().expect("a fault").message()
}

#[test]
fn production_rejects_disable_verify_optional_mtls_and_development_allow_all() {
    let insecure = || {
        config(
            false,
            ClientAuthMode::Disabled,
            deny_all(),
            ListenerSecurityPolicy::MutualTlsPublisher,
        )
    };
    let mut diagnostics = insecure();
    diagnostics.mlog_dir =
        Some(DirectoryFacts { path: ".".to_owned(), exists: true, is_dir: true });
    assert!(error_of(diagnostics).contains("development-only"));

    let mut keylog = insecure();
    keylog.bind = false;
    keylog.endpoints = vec![EndpointPosture { tls_key_logging_enabled: true, ..endpoint() }];
    assert!(error_of(keylog).contains("TLS key logging"));

    assert!(error_of(insecure()).contains("tls-disable-verify"));

    assert!(config(
        true,
        ClientAuthMode::Optional,
        deny_all(),
        ListenerSecurityPolicy::MutualTlsPublisher,
    )
    .validate()
    .is_err());

    let allow_all = AdmissionPosture { development_only: true, allow_all: true, ..deny_all() };
    assert!(config(
        false,
        ClientAuthMode::Disabled,
        allow_all,
        ListenerSecurityPolicy::Development,
    )
    .validate()
    .is_err());
}

#[test]
fn secure_configuration_starts() {
    assert!(secure().validate().is_ok());
    assert!(secure().validate_opened().is_ok());
}

#[test]
fn each_fault_has_its_own_sentence() {
    let with = |change: fn(&mut RelayConfig)| {
        let mut config = secure();
        change(&mut config);
        error_of(config)
    };
    let with_endpoint = |change: fn(&mut EndpointPosture)| {
        let mut config = secure();
        let mut endpoint = endpoint();
        change(&mut endpoint);
        config.bind = false;
        config.endpoints = vec![self::endpoint(), endpoint];
        error_of(config)
    };
    assert_eq!(
        with(|config| config.endpoints.push(endpoint())),
        "cannot specify both bind and endpoints"
    );
    assert_eq!(
        with(|config| config.admission.development_only = true),
        "development-only admission requires explicit development mode"
    );
    assert_eq!(
        with(|config| config.admission.allow_all = true),
        "allow-all admission is restricted to development listeners"
    );
    assert_eq!(
        with(|config| config.qlog = true),
        "per-session qlog/mlog files are development-only without bounded retention"
    );
    assert_eq!(
        with_endpoint(|endpoint| endpoint.writes_per_connection_diagnostics = true),
        "production relay endpoints cannot create unbounded per-session qlog files"
    );
    assert_eq!(
        with_endpoint(|endpoint| endpoint.uses_stateless_retry = false),
        "production relay endpoints require QUIC stateless retry"
    );
    assert_eq!(with(|config| config.setup_timeout = 0), "SETUP timeout must be positive");
    assert_eq!(
        with(|config| config.admission_timeout = 0),
        "admission timeout must be positive"
    );
    assert_eq!(
        with(|config| config.cleanup_timeout = 0),
        "pre-admission cleanup timeout must be positive"
    );
    assert_eq!(
        with(|config| config.max_pending_admissions = 0),
        "pending admission limit must be positive"
    );
    assert_eq!(
        with(|config| config.max_pending_admissions = usize::MAX / 8 + 1),
        "pending admission limit exceeds the semaphore maximum"
    );
    assert_eq!(
        with(|config| config.max_active_sessions = 0),
        "active session limit must be positive"
    );
    assert_eq!(
        with(|config| config.max_active_sessions = usize::MAX / 8 + 1),
        "active session limit exceeds the semaphore maximum"
    );
    assert_eq!(
        with(|config| config.token_revalidation_interval = 0),
        "token revalidation interval must be positive"
    );
    assert_eq!(
        with(|config| config.limits_error = Some("no tracks".to_owned())),
        "no tracks"
    );
    assert_eq!(
        with(|config| config.listener_security = ListenerSecurityPolicy::Development),
        "development listener security cannot be used in production"
    );
    assert_eq!(
        with(|config| config.listener_security = ListenerSecurityPolicy::TokenSubscriber),
        "production token listeners require an external replay- and lease-aware admission policy"
    );
    assert_eq!(
        with(|config| config.admission.supports_bounded_session_leases = false),
        "production admission policies must provide bounded principal/tenant session leases"
    );
    assert_eq!(
        with_endpoint(|endpoint| endpoint.verifies_server_certificates = false),
        "all production relay endpoints must verify outbound server certificates"
    );
    assert_eq!(
        with(|config| config.client_auth_mode = ClientAuthMode::Optional),
        "listener TLS client-auth mode does not match its security policy"
    );
    assert_eq!(
        with_endpoint(|endpoint| endpoint.client_auth_mode = ClientAuthMode::Disabled),
        "endpoint TLS client-auth mode does not match listener security policy"
    );
}

#[test]
fn largest_limits_are_accepted() {
    let mut config = secure();
    config.max_pending_admissions = usize::MAX / 8;
    config.max_active_sessions = usize::MAX / 8;
    assert!(config.validate().is_ok());
}

#[test]
fn opened_relay_needs_an_endpoint_and_a_log_directory() {
    let mut config = secure();
    config.bind = false;
    assert_eq!(
        config.validate_opened().err().unwrap().message(),
        "no endpoints available to start the server"
    );
    config.bind = true;
    config.mlog_dir = Some(DirectoryFacts { path: "/x".to_owned(), exists: false, is_dir: false });
    assert_eq!(
        config.validate_opened().err().unwrap().message(),
        "mlog directory does not exist: /x"
    );
    config.mlog_dir = Some(DirectoryFacts { path: "/x".to_owned(), exists: true, is_dir: false });
    assert_eq!(
        config.validate_opened().err().unwrap().message(),
        "mlog path is not a directory: /x"
    );
}

#[test]
fn command_line_chooses_listener_and_admission() {
    use_listener(None, false, ListenerSecurityPolicy::MutualTlsPublisher);
    use_listener(None, true, ListenerSecurityPolicy::Development);
    use_listener(
        Some(ListenerSecurityPolicy::TokenSubscriber),
        true,
        ListenerSecurityPolicy::TokenSubscriber,
    );

    let mtls = ListenerSecurityPolicy::MutualTlsPublisher;
    let tokens = ListenerSecurityPolicy::TokenSubscriber;
    let development = ListenerSecurityPolicy::Development;
    assert_eq!(
        choose_admission(mtls, false, true, false),
        Ok(AdmissionChoice::CertificateFingerprints)
    );
    assert_eq!(
        choose_admission(mtls, false, true, true),
        Err(LaunchError::TokensForPublishers)
    );
    assert_eq!(
        choose_admission(tokens, false, false, true),
        Err(LaunchError::StaticTokensInProduction)
    );
    assert_eq!(
        choose_admission(tokens, true, true, true),
        Err(LaunchError::PublishersForTokens)
    );
    assert_eq!(choose_admission(tokens, true, false, true), Ok(AdmissionChoice::SetupTokens));
    assert_eq!(
        choose_admission(development, false, false, false),
        Err(LaunchError::DevelopmentPolicy)
    );
    assert_eq!(
        choose_admission(development, true, false, true),
        Err(LaunchError::AllowAllWithLists)
    );
    assert_eq!(
        choose_admission(development, true, false, false),
        Ok(AdmissionChoice::DevelopmentAllowAll)
    );
    assert_eq!(LaunchError::MissingCertificates.message(), "missing TLS certificates");
    assert_eq!(
        LaunchError::DevelopmentPolicy.message(),
        "development listener policy requires --dev"
    );
}

fn use_listener(
    asked: Option<ListenerSecurityPolicy>,
    development: bool,
    expected: ListenerSecurityPolicy,
) {
    assert_eq!(choose_listener_security(asked, development), expected);
}
