//! What a relay can be started with.

use vstd::prelude::*;

use super::policy::ListenerSecurityPolicy;
use crate::text::concat2;

verus! {

/// Whether a listener asks its clients for a certificate.
#[derive(Clone, Copy, Debug, PartialEq, Eq, Structural)]
pub enum ClientAuthMode {
    Disabled,
    Optional,
    Required,
}

/// What is known of the security of an endpoint.
#[derive(Clone, Copy, Debug, PartialEq, Eq, Structural)]
pub struct EndpointPosture {
    pub writes_per_connection_diagnostics: bool,
    pub uses_stateless_retry: bool,
    pub tls_key_logging_enabled: bool,
    pub verifies_server_certificates: bool,
    pub client_auth_mode: ClientAuthMode,
}

/// What is known of an admission policy.
#[derive(Clone, Copy, Debug, PartialEq, Eq, Structural)]
pub struct AdmissionPosture {
    pub development_only: bool,
    pub allow_all: bool,
    pub supports_production_token_leases: bool,
    pub supports_bounded_session_leases: bool,
}

/// What is known of a directory.
#[derive(Debug)]
pub struct DirectoryFacts {
    pub path: String,
    pub exists: bool,
    pub is_dir: bool,
}

/// The configuration of a relay, as far as it decides whether the relay
/// starts. Timeouts are in nanoseconds.
#[derive(Debug)]
pub struct RelayConfig {
    /// Whether an address to listen on is given.
    pub bind: bool,
    /// The endpoints that are given in its place.
    pub endpoints: Vec<EndpointPosture>,
    pub verifies_server_certificates: bool,
    pub client_auth_mode: ClientAuthMode,
    /// Whether per-connection transport logs are written.
    pub qlog: bool,
    /// Where per-session logs are written.
    pub mlog_dir: Option<DirectoryFacts>,
    pub admission: AdmissionPosture,
    pub development: bool,
    pub listener_security: ListenerSecurityPolicy,
    pub setup_timeout: u128,
    pub admission_timeout: u128,
    pub cleanup_timeout: u128,
    pub max_pending_admissions: usize,
    pub max_active_sessions: usize,
    pub token_revalidation_interval: u128,
    /// What is wrong with the limits of capacity, tracks and requests.
    pub limits_error: Option<String>,
}

/// Why a relay does not start.
#[derive(Debug)]
pub enum ConfigError {
    BindAndEndpoints,
    DevelopmentAdmission,
    AllowAllAdmission,
    SessionLogs,
    EndpointSessionLogs,
    StatelessRetry,
    KeyLogging,
    SetupTimeout,
    AdmissionTimeout,
    CleanupTimeout,
    NoPendingAdmissions,
    TooManyPendingAdmissions,
    NoActiveSessions,
    TooManyActiveSessions,
    RevalidationInterval,
    Limits(String),
    DevelopmentListener,
    TokenLeases,
    SessionLeases,
    ServerVerification,
    EndpointServerVerification,
    ClientAuth,
    EndpointClientAuth,
    NoEndpoints,
    LogDirectoryMissing(String),
    LogDirectoryNotDirectory(String),
}

/// The model of a [`ConfigError`].
pub enum ConfigFault {
    BindAndEndpoints,
    DevelopmentAdmission,
    AllowAllAdmission,
    SessionLogs,
    EndpointSessionLogs,
    StatelessRetry,
    KeyLogging,
    SetupTimeout,
    AdmissionTimeout,
    CleanupTimeout,
    NoPendingAdmissions,
    TooManyPendingAdmissions,
    NoActiveSessions,
    TooManyActiveSessions,
    RevalidationInterval,
    Limits(Seq<char>),
    DevelopmentListener,
    TokenLeases,
    SessionLeases,
    ServerVerification,
    EndpointServerVerification,
    ClientAuth,
    EndpointClientAuth,
    NoEndpoints,
    LogDirectoryMissing(Seq<char>),
    LogDirectoryNotDirectory(Seq<char>),
}

impl View for ConfigError {
    type V = ConfigFault;

    open spec fn view(&self) -> ConfigFault {
        match self {
            ConfigError::BindAndEndpoints => ConfigFault::BindAndEndpoints,
            ConfigError::DevelopmentAdmission => ConfigFault::DevelopmentAdmission,
            ConfigError::AllowAllAdmission => ConfigFault::AllowAllAdmission,
            ConfigError::SessionLogs => ConfigFault::SessionLogs,
            ConfigError::EndpointSessionLogs => ConfigFault::EndpointSessionLogs,
            ConfigError::StatelessRetry => ConfigFault::StatelessRetry,
            ConfigError::KeyLogging => ConfigFault::KeyLogging,
            ConfigError::SetupTimeout => ConfigFault::SetupTimeout,
            ConfigError::AdmissionTimeout => ConfigFault::AdmissionTimeout,
            ConfigError::CleanupTimeout => ConfigFault::CleanupTimeout,
            ConfigError::NoPendingAdmissions => ConfigFault::NoPendingAdmissions,
            ConfigError::TooManyPendingAdmissions => ConfigFault::TooManyPendingAdmissions,
            ConfigError::NoActiveSessions => ConfigFault::NoActiveSessions,
            ConfigError::TooManyActiveSessions => ConfigFault::TooManyActiveSessions,
            ConfigError::RevalidationInterval => ConfigFault::RevalidationInterval,
            ConfigError::Limits(text) => ConfigFault::Limits(text@),
            ConfigError::DevelopmentListener => ConfigFault::DevelopmentListener,
            ConfigError::TokenLeases => ConfigFault::TokenLeases,
            ConfigError::SessionLeases => ConfigFault::SessionLeases,
            ConfigError::ServerVerification => ConfigFault::ServerVerification,
            ConfigError::EndpointServerVerification => ConfigFault::EndpointServerVerification,
            ConfigError::ClientAuth => ConfigFault::ClientAuth,
            ConfigError::EndpointClientAuth => ConfigFault::EndpointClientAuth,
            ConfigError::NoEndpoints => ConfigFault::NoEndpoints,
            ConfigError::LogDirectoryMissing(path) => ConfigFault::LogDirectoryMissing(path@),
            ConfigError::LogDirectoryNotDirectory(path) => ConfigFault::LogDirectoryNotDirectory(
                path@,
            ),
        }
    }
}

impl ConfigFault {
    /// The sentence that describes the error.
    pub open spec fn message(self) -> Seq<char> {
        match self {
            ConfigFault::BindAndEndpoints => "cannot specify both bind and endpoints"@,
            ConfigFault::DevelopmentAdmission => {
                "development-only admission requires explicit development mode"@
            },
            ConfigFault::AllowAllAdmission => {
                "allow-all admission is restricted to development listeners"@
            },
            ConfigFault::SessionLogs => {
                "per-session qlog/mlog files are development-only without bounded retention"@
            },
            ConfigFault::EndpointSessionLogs => {
                "production relay endpoints cannot create unbounded per-session qlog files"@
            },
            ConfigFault::StatelessRetry => {
                "production relay endpoints require QUIC stateless retry"@
            },
            ConfigFault::KeyLogging => "production relay endpoints cannot enable TLS key logging"@,
            ConfigFault::SetupTimeout => "SETUP timeout must be positive"@,
            ConfigFault::AdmissionTimeout => "admission timeout must be positive"@,
            ConfigFault::CleanupTimeout => "pre-admission cleanup timeout must be positive"@,
            ConfigFault::NoPendingAdmissions => "pending admission limit must be positive"@,
            ConfigFault::TooManyPendingAdmissions => {
                "pending admission limit exceeds the semaphore maximum"@
            },
            ConfigFault::NoActiveSessions => "active session limit must be positive"@,
            ConfigFault::TooManyActiveSessions => {
                "active session limit exceeds the semaphore maximum"@
            },
            ConfigFault::RevalidationInterval => "token revalidation interval must be positive"@,
            ConfigFault::Limits(text) => text,
            ConfigFault::DevelopmentListener => {
                "development listener security cannot be used in production"@
            },
            ConfigFault::TokenLeases => {
                "production token listeners require an external replay- and lease-aware admission policy"@
            },
            ConfigFault::SessionLeases => {
                "production admission policies must provide bounded principal/tenant session leases"@
            },
            ConfigFault::ServerVerification => {
                "production relay mode forbids --tls-disable-verify for outbound connections"@
            },
            ConfigFault::EndpointServerVerification => {
                "all production relay endpoints must verify outbound server certificates"@
            },
            ConfigFault::ClientAuth => {
                "listener TLS client-auth mode does not match its security policy"@
            },
            ConfigFault::EndpointClientAuth => {
                "endpoint TLS client-auth mode does not match listener security policy"@
            },
            ConfigFault::NoEndpoints => "no endpoints available to start the server"@,
            ConfigFault::LogDirectoryMissing(path) => "mlog directory does not exist: "@ + path,
            ConfigFault::LogDirectoryNotDirectory(path) => "mlog path is not a directory: "@ + path,
        }
    }
}

impl ConfigError {
    /// A sentence that describes the error.
    pub fn message(&self) -> (text: String)
        ensures
            text@ == self@.message(),
    {
        let text = match self {
            ConfigError::BindAndEndpoints => "cannot specify both bind and endpoints",
            ConfigError::DevelopmentAdmission => {
                "development-only admission requires explicit development mode"
            },
            ConfigError::AllowAllAdmission => {
                "allow-all admission is restricted to development listeners"
            },
            ConfigError::SessionLogs => {
                "per-session qlog/mlog files are development-only without bounded retention"
            },
            ConfigError::EndpointSessionLogs => {
                "production relay endpoints cannot create unbounded per-session qlog files"
            },
            ConfigError::StatelessRetry => {
                "production relay endpoints require QUIC stateless retry"
            },
            ConfigError::KeyLogging => "production relay endpoints cannot enable TLS key logging",
            ConfigError::SetupTimeout => "SETUP timeout must be positive",
            ConfigError::AdmissionTimeout => "admission timeout must be positive",
            ConfigError::CleanupTimeout => "pre-admission cleanup timeout must be positive",
            ConfigError::NoPendingAdmissions => "pending admission limit must be positive",
            ConfigError::TooManyPendingAdmissions => {
                "pending admission limit exceeds the semaphore maximum"
            },
            ConfigError::NoActiveSessions => "active session limit must be positive",
            ConfigError::TooManyActiveSessions => {
                "active session limit exceeds the semaphore maximum"
            },
            ConfigError::RevalidationInterval => "token revalidation interval must be positive",
            ConfigError::Limits(text) => text.as_str(),
            ConfigError::DevelopmentListener => {
                "development listener security cannot be used in production"
            },
            ConfigError::TokenLeases => {
                "production token listeners require an external replay- and lease-aware admission policy"
            },
            ConfigError::SessionLeases => {
                "production admission policies must provide bounded principal/tenant session leases"
            },
            ConfigError::ServerVerification => {
                "production relay mode forbids --tls-disable-verify for outbound connections"
            },
            ConfigError::EndpointServerVerification => {
                "all production relay endpoints must verify outbound server certificates"
            },
            ConfigError::ClientAuth => {
                "listener TLS client-auth mode does not match its security policy"
            },
            ConfigError::EndpointClientAuth => {
                "endpoint TLS client-auth mode does not match listener security policy"
            },
            ConfigError::NoEndpoints => "no endpoints available to start the server",
            ConfigError::LogDirectoryMissing(path) => {
                return concat2("mlog directory does not exist: ", path);
            },
            ConfigError::LogDirectoryNotDirectory(path) => {
                return concat2("mlog path is not a directory: ", path);
            },
        };
        text.to_string()
    }
}

/// `tokio::sync::Semaphore::MAX_PERMITS`, the most permits that a semaphore
/// can hold: an eighth of what a `usize` can count.
#[verifier::external_body]
fn max_permits() -> (permits: usize)
    ensures
        permits == usize::MAX / 8,
{
    tokio::sync::Semaphore::MAX_PERMITS
}

/// What a listener asks its clients for.
pub open spec fn required_client_auth(policy: ListenerSecurityPolicy) -> ClientAuthMode {
    match policy {
        ListenerSecurityPolicy::MutualTlsPublisher => ClientAuthMode::Required,
        ListenerSecurityPolicy::TokenSubscriber
        | ListenerSecurityPolicy::Development => ClientAuthMode::Disabled,
    }
}

/// The first of two faults.
pub open spec fn or_else(first: Option<ConfigFault>, second: Option<ConfigFault>) -> Option<
    ConfigFault,
> {
    match first {
        Some(fault) => Some(fault),
        None => second,
    }
}

/// A fault where a demand is not met.
pub open spec fn demand(met: bool, fault: ConfigFault) -> Option<ConfigFault> {
    if met {
        None
    } else {
        Some(fault)
    }
}

impl RelayConfig {
    /// What is wrong with the admission policy on its own.
    pub open spec fn admission_fault(self) -> Option<ConfigFault> {
        or_else(
            demand(!self.bind || self.endpoints@.len() == 0, ConfigFault::BindAndEndpoints),
            or_else(
                demand(
                    !self.admission.development_only || self.development,
                    ConfigFault::DevelopmentAdmission,
                ),
                demand(
                    !self.admission.allow_all || self.listener_security
                        == ListenerSecurityPolicy::Development,
                    ConfigFault::AllowAllAdmission,
                ),
            ),
        )
    }

    /// What is wrong with the diagnostics, in production.
    pub open spec fn diagnostics_fault(self) -> Option<ConfigFault> {
        if self.development {
            None
        } else {
            or_else(
                demand(!self.qlog && self.mlog_dir is None, ConfigFault::SessionLogs),
                or_else(
                    demand(
                        forall|i: int|
                            0 <= i < self.endpoints@.len()
                                ==> !(#[trigger] self.endpoints@[i]).writes_per_connection_diagnostics,
                        ConfigFault::EndpointSessionLogs,
                    ),
                    or_else(
                        demand(
                            forall|i: int|
                                0 <= i < self.endpoints@.len()
                                    ==> (#[trigger] self.endpoints@[i]).uses_stateless_retry,
                            ConfigFault::StatelessRetry,
                        ),
                        demand(
                            forall|i: int|
                                0 <= i < self.endpoints@.len()
                                    ==> !(#[trigger] self.endpoints@[i]).tls_key_logging_enabled,
                            ConfigFault::KeyLogging,
                        ),
                    ),
                ),
            )
        }
    }

    /// What is wrong with the timeouts and limits.
    pub open spec fn limits_fault(self) -> Option<ConfigFault> {
        or_else(
            demand(self.setup_timeout > 0, ConfigFault::SetupTimeout),
            or_else(
                demand(self.admission_timeout > 0, ConfigFault::AdmissionTimeout),
                or_else(
                    demand(self.cleanup_timeout > 0, ConfigFault::CleanupTimeout),
                    or_else(
                        demand(self.max_pending_admissions > 0, ConfigFault::NoPendingAdmissions),
                        or_else(
                            demand(
                                self.max_pending_admissions <= usize::MAX / 8,
                                ConfigFault::TooManyPendingAdmissions,
                            ),
                            or_else(
                                demand(self.max_active_sessions > 0, ConfigFault::NoActiveSessions),
                                or_else(
                                    demand(
                                        self.max_active_sessions <= usize::MAX / 8,
                                        ConfigFault::TooManyActiveSessions,
                                    ),
                                    or_else(
                                        demand(
                                            self.token_revalidation_interval > 0,
                                            ConfigFault::RevalidationInterval,
                                        ),
                                        match self.limits_error {
                                            Some(text) => Some(ConfigFault::Limits(text@)),
                                            None => None,
                                        },
                                    ),
                                ),
                            ),
                        ),
                    ),
                ),
            ),
        )
    }

    /// What is wrong with the security, in production.
    pub open spec fn production_fault(self) -> Option<ConfigFault> {
        if self.development {
            None
        } else {
            or_else(
                demand(
                    self.listener_security != ListenerSecurityPolicy::Development,
                    ConfigFault::DevelopmentListener,
                ),
                or_else(
                    demand(
                        self.listener_security != ListenerSecurityPolicy::TokenSubscriber
                            || self.admission.supports_production_token_leases,
                        ConfigFault::TokenLeases,
                    ),
                    or_else(
                        demand(
                            self.admission.supports_bounded_session_leases,
                            ConfigFault::SessionLeases,
                        ),
                        or_else(
                            demand(
                                self.verifies_server_certificates,
                                ConfigFault::ServerVerification,
                            ),
                            demand(
                                forall|i: int|
                                    0 <= i < self.endpoints@.len()
                                        ==> (#[trigger] self.endpoints@[i]).verifies_server_certificates,
                                ConfigFault::EndpointServerVerification,
                            ),
                        ),
                    ),
                ),
            )
        }
    }

    /// What is wrong with what the listeners ask their clients for.
    pub open spec fn client_auth_fault(self) -> Option<ConfigFault> {
        or_else(
            demand(
                self.client_auth_mode == required_client_auth(self.listener_security),
                ConfigFault::ClientAuth,
            ),
            demand(
                forall|i: int|
                    0 <= i < self.endpoints@.len()
                        ==> (#[trigger] self.endpoints@[i]).client_auth_mode
                        == required_client_auth(self.listener_security),
                ConfigFault::EndpointClientAuth,
            ),
        )
    }

    /// The first thing that is wrong with the configuration.
    pub open spec fn fault(self) -> Option<ConfigFault> {
        or_else(
            self.admission_fault(),
            or_else(
                self.diagnostics_fault(),
                or_else(
                    self.limits_fault(),
                    or_else(self.production_fault(), self.client_auth_fault()),
                ),
            ),
        )
    }

    /// What is wrong once the address was bound: there is nowhere to listen,
    /// or nowhere to write logs.
    pub open spec fn opened_fault(self) -> Option<ConfigFault> {
        or_else(
            demand(self.bind || self.endpoints@.len() > 0, ConfigFault::NoEndpoints),
            match self.mlog_dir {
                None => None,
                Some(dir) => or_else(
                    demand(dir.exists, ConfigFault::LogDirectoryMissing(dir.path@)),
                    demand(dir.is_dir, ConfigFault::LogDirectoryNotDirectory(dir.path@)),
                ),
            },
        )
    }

    fn check_admission(&self) -> (result: Result<(), ConfigError>)
        ensures
            config_outcome(result) == self.admission_fault(),
    {
        if self.bind && self.endpoints.len() > 0 {
            return Err(ConfigError::BindAndEndpoints);
        }
        if self.admission.development_only && !self.development {
            return Err(ConfigError::DevelopmentAdmission);
        }
        if self.admission.allow_all && self.listener_security
            != ListenerSecurityPolicy::Development {
            return Err(ConfigError::AllowAllAdmission);
        }
        Ok(())
    }

    fn check_diagnostics(&self) -> (result: Result<(), ConfigError>)
        ensures
            config_outcome(result) == self.diagnostics_fault(),
    {
        if self.development {
            return Ok(());
        }
        if self.qlog || self.mlog_dir.is_some() {
            return Err(ConfigError::SessionLogs);
        }
        let mut writes = false;
        let mut retries = true;
        let mut logs_keys = false;
        let mut i: usize = 0;
        while i < self.endpoints.len()
            invariant
                i <= self.endpoints@.len(),
                writes == exists|k: int|
                    0 <= k < i && (
                    #[trigger] self.endpoints@[k]).writes_per_connection_diagnostics,
                retries == forall|k: int|
                    0 <= k < i ==> (#[trigger] self.endpoints@[k]).uses_stateless_retry,
                logs_keys == exists|k: int|
                    0 <= k < i && (#[trigger] self.endpoints@[k]).tls_key_logging_enabled,
            decreases self.endpoints@.len() - i,
        {
            if self.endpoints[i].writes_per_connection_diagnostics {
                writes = true;
            }
            if !self.endpoints[i].uses_stateless_retry {
                retries = false;
            }
            if self.endpoints[i].tls_key_logging_enabled {
                logs_keys = true;
            }
            i = i + 1;
        }
        if writes {
            return Err(ConfigError::EndpointSessionLogs);
        }
        if !retries {
            return Err(ConfigError::StatelessRetry);
        }
        if logs_keys {
            return Err(ConfigError::KeyLogging);
        }
        Ok(())
    }

    fn check_limits(&self) -> (result: Result<(), ConfigError>)
        ensures
            config_outcome(result) == self.limits_fault(),
    {
        if self.setup_timeout == 0 {
            return Err(ConfigError::SetupTimeout);
        }
        if self.admission_timeout == 0 {
            return Err(ConfigError::AdmissionTimeout);
        }
        if self.cleanup_timeout == 0 {
            return Err(ConfigError::CleanupTimeout);
        }
        if self.max_pending_admissions == 0 {
            return Err(ConfigError::NoPendingAdmissions);
        }
        if self.max_pending_admissions > max_permits() {
            return Err(ConfigError::TooManyPendingAdmissions);
        }
        if self.max_active_sessions == 0 {
            return Err(ConfigError::NoActiveSessions);
        }
        if self.max_active_sessions > max_permits() {
            return Err(ConfigError::TooManyActiveSessions);
        }
        if self.token_revalidation_interval == 0 {
            return Err(ConfigError::RevalidationInterval);
        }
        match &self.limits_error {
            Some(text) => Err(ConfigError::Limits(text.clone())),
            None => Ok(()),
        }
    }

    fn check_production(&self) -> (result: Result<(), ConfigError>)
        ensures
            config_outcome(result) == self.production_fault(),
    {
        if self.development {
            return Ok(());
        }
        if self.listener_security == ListenerSecurityPolicy::Development {
            return Err(ConfigError::DevelopmentListener);
        }
        if self.listener_security == ListenerSecurityPolicy::TokenSubscriber
            && !self.admission.supports_production_token_leases {
            return Err(ConfigError::TokenLeases);
        }
        if !self.admission.supports_bounded_session_leases {
            return Err(ConfigError::SessionLeases);
        }
        if !self.verifies_server_certificates {
            return Err(ConfigError::ServerVerification);
        }
        let mut i: usize = 0;
        while i < self.endpoints.len()
            invariant
                i <= self.endpoints@.len(),
                forall|k: int|
                    0 <= k < i ==> (#[trigger] self.endpoints@[k]).verifies_server_certificates,
                !self.development,
                self.listener_security != ListenerSecurityPolicy::Development,
                self.listener_security != ListenerSecurityPolicy::TokenSubscriber
                    || self.admission.supports_production_token_leases,
                self.admission.supports_bounded_session_leases,
                self.verifies_server_certificates,
            decreases self.endpoints@.len() - i,
        {
            if !self.endpoints[i].verifies_server_certificates {
                return Err(ConfigError::EndpointServerVerification);
            }
            i = i + 1;
        }
        Ok(())
    }

    fn check_client_auth(&self) -> (result: Result<(), ConfigError>)
        ensures
            config_outcome(result) == self.client_auth_fault(),
    {
        let required = match self.listener_security {
            ListenerSecurityPolicy::MutualTlsPublisher => ClientAuthMode::Required,
            ListenerSecurityPolicy::TokenSubscriber
            | ListenerSecurityPolicy::Development => ClientAuthMode::Disabled,
        };
        if self.client_auth_mode != required {
            return Err(ConfigError::ClientAuth);
        }
        let mut i: usize = 0;
        while i < self.endpoints.len()
            invariant
                i <= self.endpoints@.len(),
                required == required_client_auth(self.listener_security),
                self.client_auth_mode == required,
                forall|k: int|
                    0 <= k < i ==> (#[trigger] self.endpoints@[k]).client_auth_mode == required,
            decreases self.endpoints@.len() - i,
        {
            if self.endpoints[i].client_auth_mode != required {
                return Err(ConfigError::EndpointClientAuth);
            }
            i = i + 1;
        }
        Ok(())
    }

    /// Whether a relay has somewhere to listen and to log, once its address was
    /// bound.
    pub fn validate_opened(&self) -> (result: Result<(), ConfigError>)
        ensures
            config_outcome(result) == self.opened_fault(),
    {
        if !self.bind && self.endpoints.len() == 0 {
            return Err(ConfigError::NoEndpoints);
        }
        if let Some(dir) = &self.mlog_dir {
            if !dir.exists {
                return Err(ConfigError::LogDirectoryMissing(dir.path.clone()));
            }
            if !dir.is_dir {
                return Err(ConfigError::LogDirectoryNotDirectory(dir.path.clone()));
            }
        }
        Ok(())
    }

    /// Whether a relay can be started with the configuration. What is wrong
    /// first is reported.
    pub fn validate(&self) -> (result: Result<(), ConfigError>)
        ensures
            config_outcome(result) == self.fault(),
    {
        self.check_admission()?;
        self.check_diagnostics()?;
        self.check_limits()?;
        self.check_production()?;
        self.check_client_auth()
    }
}

/// The model of what a check came to.
pub open spec fn config_outcome(result: Result<(), ConfigError>) -> Option<ConfigFault> {
    match result {
        Ok(()) => None,
        Err(error) => Some(error@),
    }
}

/// A relay that starts in production is secure: it does not admit everybody,
/// it verifies the servers that it connects to, it asks its clients for exactly
/// the certificates that its policy calls for, and it writes no unbounded logs.
pub proof fn production_is_secure(config: RelayConfig)
    requires
        !config.development,
        config.fault() is None,
    ensures
        !config.admission.development_only,
        !config.admission.allow_all,
        config.listener_security != ListenerSecurityPolicy::Development,
        config.verifies_server_certificates,
        config.admission.supports_bounded_session_leases,
        config.listener_security == ListenerSecurityPolicy::TokenSubscriber
            ==> config.admission.supports_production_token_leases,
        config.client_auth_mode == required_client_auth(config.listener_security),
        !config.qlog && config.mlog_dir is None,
        forall|i: int|
            0 <= i < config.endpoints@.len() ==> {
                let endpoint = #[trigger] config.endpoints@[i];
                &&& endpoint.uses_stateless_retry
                &&& endpoint.verifies_server_certificates
                &&& !endpoint.tls_key_logging_enabled
                &&& !endpoint.writes_per_connection_diagnostics
                &&& endpoint.client_auth_mode == required_client_auth(config.listener_security)
            },
{
}

/// A relay that starts has somewhere to listen, and limits and timeouts that
/// bound what a peer can make it hold.
pub proof fn started_relay_is_bounded(config: RelayConfig)
    requires
        config.fault() is None,
        config.opened_fault() is None,
    ensures
        config.bind != (config.endpoints@.len() > 0),
        config.setup_timeout > 0,
        config.admission_timeout > 0,
        config.cleanup_timeout > 0,
        config.token_revalidation_interval > 0,
        0 < config.max_pending_admissions <= usize::MAX / 8,
        0 < config.max_active_sessions <= usize::MAX / 8,
        config.limits_error is None,
{
}

} // verus!
