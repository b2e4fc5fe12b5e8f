//! Who may do what on a listener.

use vstd::prelude::*;
use vstd::string::*;
use vstd::utf8::encode_utf8;

use crate::session::setup::text_view;

verus! {

/// The security role of a listener.
#[derive(Clone, Copy, Debug, PartialEq, Eq, Structural)]
pub enum ListenerSecurityPolicy {
    /// Publishers that prove who they are by a client certificate.
    MutualTlsPublisher,
    /// Subscribers that bring a token in SETUP.
    TokenSubscriber,
    /// Anyone, for development only.
    Development,
}

/// How a principal was authenticated.
#[derive(Clone, Copy, Debug, PartialEq, Eq, Structural)]
pub enum AuthenticationMethod {
    MutualTls,
    SetupToken,
    Development,
}

/// Why a session is not admitted.
#[derive(Clone, Copy, Debug, PartialEq, Eq, Structural)]
pub enum AdmissionError {
    /// The policy does not admit the session, or no longer.
    PolicyDenied,
    /// The name of the principal is not in order.
    InvalidPrincipal,
    /// The claims are not in order.
    InvalidClaims,
}

/// Who the peer of a connection is.
#[derive(Debug)]
pub enum PeerIdentity {
    Anonymous,
    /// The SHA-256 digest of the certificate that the peer proved to hold.
    Certificate { sha256: Vec<u8> },
}

impl PeerIdentity {
    pub fn is_authenticated(&self) -> (authenticated: bool)
        ensures
            authenticated == (self is Certificate),
    {
        match self {
            PeerIdentity::Anonymous => false,
            PeerIdentity::Certificate { .. } => true,
        }
    }
}

/// The authorization that a peer brought in its SETUP.
#[derive(Debug)]
pub struct SetupAuthorization {
    token: Vec<u8>,
}

impl View for SetupAuthorization {
    type V = Seq<u8>;

    closed spec fn view(&self) -> Seq<u8> {
        self.token@
    }
}

impl SetupAuthorization {
    pub fn new(token: Vec<u8>) -> (authorization: Self)
        ensures
            authorization@ == token@,
    {
        SetupAuthorization { token }
    }

    pub fn is_empty(&self) -> (empty: bool)
        ensures
            empty == (self@.len() == 0),
    {
        self.token.len() == 0
    }

    pub fn as_bytes(&self) -> (bytes: &[u8])
        ensures
            bytes@ == self@,
    {
        self.token.as_slice()
    }
}

/// The most bytes that the name of a scope, a token or a principal may take.
pub const MAX_SCOPE_BYTES: usize = 1024;

/// Whether a character is a control character.
pub open spec fn is_control(c: char) -> bool {
    c as u32 <= 0x1f || 0x7f <= c as u32 <= 0x9f
}

/// Whether a name can stand for a scope: it is there, it is not too long, and
/// it holds nothing that a log or a protocol would take for something else.
pub open spec fn valid_name(name: Seq<char>) -> bool {
    &&& name.len() > 0
    &&& encode_utf8(name).len() <= MAX_SCOPE_BYTES
    &&& forall|i: int| 0 <= i < name.len() ==> !is_control(#[trigger] name[i])
}

/// Whether a scope that a coordinator resolved is in order.
pub fn resolved_scope_is_valid(scope_id: &str) -> (valid: bool)
    ensures
        valid == valid_name(scope_id@),
{
    let length: usize = scope_id.unicode_len();
    if length == 0 || scope_id.as_bytes().len() > MAX_SCOPE_BYTES {
        return false;
    }
    let mut i: usize = 0;
    while i < length
        invariant
            i <= length == scope_id@.len(),
            forall|k: int| 0 <= k < i ==> !is_control(#[trigger] scope_id@[k]),
        decreases length - i,
    {
        let c = scope_id.get_char(i);
        let code: u32 = c as u32;
        assert(scope_id@[i as int] == c);
        if code <= 0x1f || (0x7f <= code && code <= 0x9f) {
            return false;
        }
        i = i + 1;
    }
    true
}

/// Who a session belongs to.
#[derive(Debug)]
pub struct AdmissionPrincipal {
    pub name: String,
    pub method: AuthenticationMethod,
}

impl AdmissionPrincipal {
    pub fn new(name: &str, method: AuthenticationMethod) -> (result: Result<Self, AdmissionError>)
        ensures
            match result {
                Ok(principal) => valid_name(name@) && principal.name@ == name@
                    && principal.method == method,
                Err(error) => !valid_name(name@) && error == AdmissionError::InvalidPrincipal,
            },
    {
        if resolved_scope_is_valid(name) {
            Ok(AdmissionPrincipal { name: name.to_string(), method })
        } else {
            Err(AdmissionError::InvalidPrincipal)
        }
    }
}

/// What a session may do.
#[derive(Debug)]
pub struct AdmissionClaims {
    pub scope: Option<String>,
    pub publish: bool,
    pub subscribe: bool,
    pub expires_at_unix_seconds: Option<u64>,
    pub token_id: Option<String>,
}

/// The model of [`AdmissionClaims`].
pub struct ClaimsView {
    pub scope: Option<Seq<char>>,
    pub publish: bool,
    pub subscribe: bool,
    pub expires_at_unix_seconds: Option<u64>,
    pub token_id: Option<Seq<char>>,
}

impl View for AdmissionClaims {
    type V = ClaimsView;

    open spec fn view(&self) -> ClaimsView {
        ClaimsView {
            scope: text_view(self.scope),
            publish: self.publish,
            subscribe: self.subscribe,
            expires_at_unix_seconds: self.expires_at_unix_seconds,
            token_id: text_view(self.token_id),
        }
    }
}

impl Clone for AdmissionClaims {
    fn clone(&self) -> (copy: Self)
        ensures
            copy@ == self@,
    {
        AdmissionClaims {
            scope: match &self.scope {
                Some(scope) => Some(scope.clone()),
                None => None,
            },
            publish: self.publish,
            subscribe: self.subscribe,
            expires_at_unix_seconds: self.expires_at_unix_seconds,
            token_id: match &self.token_id {
                Some(token_id) => Some(token_id.clone()),
                None => None,
            },
        }
    }
}

impl ClaimsView {
    /// Whether the names in the claims are in order.
    pub open spec fn in_order(self) -> bool {
        &&& self.scope matches Some(scope) ==> valid_name(scope)
        &&& self.token_id matches Some(token_id) ==> valid_name(token_id)
    }

    /// Whether the claims have run out, or never had a term.
    pub open spec fn expired(self, now: u64) -> bool {
        match self.expires_at_unix_seconds {
            Some(expiry) => expiry <= now,
            None => true,
        }
    }
}

impl AdmissionClaims {
    /// Whether the names in the claims are in order.
    pub fn validate(&self) -> (result: Result<(), AdmissionError>)
        ensures
            match result {
                Ok(()) => self@.in_order(),
                Err(error) => !self@.in_order() && error == AdmissionError::InvalidClaims,
            },
    {
        if let Some(scope) = &self.scope {
            if !resolved_scope_is_valid(scope) {
                return Err(AdmissionError::InvalidClaims);
            }
        }
        if let Some(token_id) = &self.token_id {
            if !resolved_scope_is_valid(token_id) {
                return Err(AdmissionError::InvalidClaims);
            }
        }
        Ok(())
    }
}

/// What a policy decided about a session.
#[derive(Debug)]
pub struct AdmissionDecision {
    pub principal: AdmissionPrincipal,
    pub claims: AdmissionClaims,
}

/// The model of an [`AdmissionDecision`].
pub struct DecisionView {
    pub principal: Seq<char>,
    pub method: AuthenticationMethod,
    pub claims: ClaimsView,
}

impl View for AdmissionDecision {
    type V = DecisionView;

    open spec fn view(&self) -> DecisionView {
        DecisionView {
            principal: self.principal.name@,
            method: self.principal.method,
            claims: self.claims@,
        }
    }
}

impl AdmissionDecision {
    /// A decision whose claims are in order.
    pub fn new(principal: AdmissionPrincipal, claims: AdmissionClaims) -> (result: Result<
        Self,
        AdmissionError,
    >)
        ensures
            match result {
                Ok(decision) => {
                    &&& claims@.in_order()
                    &&& decision.principal == principal
                    &&& decision.claims == claims
                },
                Err(error) => !claims@.in_order() && error == AdmissionError::InvalidClaims,
            },
    {
        claims.validate()?;
        Ok(AdmissionDecision { principal, claims })
    }
}

impl DecisionView {
    /// Whether a decision is one for the role of the listener. In production
    /// the claims of a token are bound to a scope, to a token that is named
    /// and to a term that has not run out.
    pub open spec fn fits_role(
        self,
        policy: ListenerSecurityPolicy,
        production: bool,
        now: u64,
    ) -> bool {
        match policy {
            ListenerSecurityPolicy::MutualTlsPublisher => {
                &&& self.method == AuthenticationMethod::MutualTls
                &&& self.claims.publish
                &&& !self.claims.subscribe
                &&& self.claims.scope is Some
            },
            ListenerSecurityPolicy::TokenSubscriber => {
                &&& self.method == AuthenticationMethod::SetupToken
                &&& self.claims.subscribe
                &&& !self.claims.publish
                &&& production ==> {
                    &&& self.claims.scope matches Some(scope) && scope.len() > 0
                    &&& self.claims.token_id matches Some(token_id) && token_id.len() > 0
                    &&& !self.claims.expired(now)
                }
            },
            ListenerSecurityPolicy::Development => self.method
                == AuthenticationMethod::Development,
        }
    }

    /// Whether a decision holds on a listener, for a peer that may have been
    /// authenticated and may have brought a token.
    pub open spec fn holds(
        self,
        policy: ListenerSecurityPolicy,
        authenticated: bool,
        token_brought: bool,
        production: bool,
        now: u64,
    ) -> bool {
        &&& self.claims.in_order()
        &&& self.fits_role(policy, production, now)
        &&& match policy {
            ListenerSecurityPolicy::MutualTlsPublisher => authenticated,
            ListenerSecurityPolicy::TokenSubscriber => token_brought,
            ListenerSecurityPolicy::Development => true,
        }
    }
}

/// Whether a peer brought a token that is not empty.
pub open spec fn token_brought(authorization: Option<&SetupAuthorization>) -> bool {
    authorization is Some && authorization->0@.len() > 0
}

/// Whether a text is there and not empty.
fn is_named(text: &Option<String>) -> (named: bool)
    ensures
        named == (text_view(*text) is Some && text_view(*text)->0.len() > 0),
{
    match text {
        Some(text) => text.as_str().unicode_len() > 0,
        None => false,
    }
}

pub fn decision_matches_listener_role(
    policy: ListenerSecurityPolicy,
    decision: &AdmissionDecision,
    production: bool,
    now: u64,
) -> (matches: bool)
    ensures
        matches == decision@.fits_role(policy, production, now),
{
    match policy {
        ListenerSecurityPolicy::MutualTlsPublisher => {
            decision.principal.method == AuthenticationMethod::MutualTls && decision.claims.publish
                && !decision.claims.subscribe && decision.claims.scope.is_some()
        },
        ListenerSecurityPolicy::TokenSubscriber => {
            let base = decision.principal.method == AuthenticationMethod::SetupToken
                && decision.claims.subscribe && !decision.claims.publish;
            if !base || !production {
                return base;
            }
            let current = match decision.claims.expires_at_unix_seconds {
                Some(expiry) => expiry > now,
                None => false,
            };
            is_named(&decision.claims.scope) && is_named(&decision.claims.token_id) && current
        },
        ListenerSecurityPolicy::Development => {
            decision.principal.method == AuthenticationMethod::Development
        },
    }
}

/// Whether a decision holds on a listener at a time.
pub fn listener_decision_is_valid_at(
    policy: ListenerSecurityPolicy,
    peer_identity: &PeerIdentity,
    setup_authorization: Option<&SetupAuthorization>,
    decision: &AdmissionDecision,
    production: bool,
    now: u64,
) -> (valid: bool)
    ensures
        valid == decision@.holds(
            policy,
            peer_identity is Certificate,
            token_brought(setup_authorization),
            production,
            now,
        ),
{
    if decision.claims.validate().is_err() {
        return false;
    }
    let matches = decision_matches_listener_role(policy, decision, production, now);
    match policy {
        ListenerSecurityPolicy::MutualTlsPublisher => peer_identity.is_authenticated() && matches,
        ListenerSecurityPolicy::TokenSubscriber => match setup_authorization {
            Some(token) => !token.is_empty() && matches,
            None => false,
        },
        ListenerSecurityPolicy::Development => matches,
    }
}

/// `std::time::SystemTime::elapsed` of the Unix epoch, in whole seconds. It
/// depends on the clock of the machine, so nothing is said of it; a clock that
/// stands before the epoch gives none.
#[verifier::external_body]
fn seconds_since_epoch() -> (seconds: Option<u64>) {
    std::time::UNIX_EPOCH.elapsed().ok().map(|elapsed| elapsed.as_secs())
}

/// Whether the machine's clock, asked for the time, gave this reading.
pub closed spec fn clock_read(reading: Option<u64>) -> bool {
    call_ensures(seconds_since_epoch, (), reading)
}

/// The time that a reading of the clock stands for. A clock before the Unix
/// epoch counts as the end of time: every term has then run out.
pub open spec fn time_of(reading: Option<u64>) -> u64 {
    match reading {
        Some(seconds) => seconds,
        None => u64::MAX,
    }
}

/// The time that a reading of the clock stands for.
pub fn clock_time(reading: Option<u64>) -> (now: u64)
    ensures
        now == time_of(reading),
{
    match reading {
        Some(seconds) => seconds,
        None => u64::MAX,
    }
}

/// The time of the machine's clock: what its reading stands for.
pub fn current_unix_seconds() -> (now: u64)
    ensures
        exists|reading: Option<u64>| #[trigger] clock_read(reading) && now == time_of(reading),
{
    let reading = seconds_since_epoch();
    assert(clock_read(reading));
    clock_time(reading)
}

/// Whether a decision holds on a listener now, by the machine's clock.
pub fn listener_decision_is_valid(
    policy: ListenerSecurityPolicy,
    peer_identity: &PeerIdentity,
    setup_authorization: Option<&SetupAuthorization>,
    decision: &AdmissionDecision,
    production: bool,
) -> (valid: bool)
    ensures
        exists|reading: Option<u64>| #[trigger]
            clock_read(reading) && valid == decision@.holds(
                policy,
                peer_identity is Certificate,
                token_brought(setup_authorization),
                production,
                time_of(reading),
            ),
{
    let now: u64 = current_unix_seconds();
    listener_decision_is_valid_at(
        policy,
        peer_identity,
        setup_authorization,
        decision,
        production,
        now,
    )
}

/// A listener for publishers admits nobody who may subscribe, and one for
/// subscribers nobody who may publish.
pub proof fn roles_are_kept_apart(
    decision: DecisionView,
    policy: ListenerSecurityPolicy,
    authenticated: bool,
    token: bool,
    production: bool,
    now: u64,
)
    requires
        decision.holds(policy, authenticated, token, production, now),
    ensures
        policy == ListenerSecurityPolicy::MutualTlsPublisher ==> authenticated
            && decision.claims.publish && !decision.claims.subscribe,
        policy == ListenerSecurityPolicy::TokenSubscriber ==> token && decision.claims.subscribe
            && !decision.claims.publish,
{
}

/// A decision that does not hold, or has run out, does not come back to life.
pub proof fn expiry_is_final(
    decision: DecisionView,
    policy: ListenerSecurityPolicy,
    authenticated: bool,
    token: bool,
    production: bool,
    now: u64,
    later: u64,
)
    requires
        now <= later,
        !decision.holds(policy, authenticated, token, production, now),
    ensures
        !decision.holds(policy, authenticated, token, production, later),
{
}

/// Whether a warning about admission is logged: the first few are, and then a
/// sample of them.
pub fn should_log_admission_warning(sequence: u64) -> (log: bool)
    ensures
        log == (sequence < 4 || sequence % 128 == 0),
{
    sequence < 4 || sequence % 128 == 0
}

} // verus!
