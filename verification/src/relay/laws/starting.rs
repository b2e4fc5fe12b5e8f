//! When a relay starts.

use vstd::prelude::*;

use crate::relay::config::{ClientAuthMode, ConfigError, RelayConfig};
use crate::relay::launch::{
    choose_admission, choose_listener_security, AdmissionChoice, LaunchError,
};
use crate::relay::listener::{relay_end, RelayEnd};
use crate::relay::policy::ListenerSecurityPolicy;

verus! {

/// What a listener of a role asks its clients for: publishers for their
/// certificates, others for none.
pub open spec fn asks_rightly(policy: ListenerSecurityPolicy, mode: ClientAuthMode) -> bool {
    mode == (if policy == ListenerSecurityPolicy::MutualTlsPublisher {
        ClientAuthMode::Required
    } else {
        ClientAuthMode::Disabled
    })
}

/// What every relay needs: limits, timeouts and listeners that fit together.
pub open spec fn is_workable(config: RelayConfig) -> bool {
    &&& !(config.bind && config.endpoints@.len() > 0)
    &&& config.admission.allow_all ==> config.listener_security
        == ListenerSecurityPolicy::Development
    &&& config.admission.development_only ==> config.development
    &&& config.setup_timeout > 0
    &&& config.admission_timeout > 0
    &&& config.cleanup_timeout > 0
    &&& 0 < config.max_pending_admissions <= usize::MAX / 8
    &&& 0 < config.max_active_sessions <= usize::MAX / 8
    &&& config.token_revalidation_interval > 0
    &&& config.limits_error is None
    &&& asks_rightly(config.listener_security, config.client_auth_mode)
    &&& forall|i: int|
        0 <= i < config.endpoints@.len() ==> asks_rightly(
            config.listener_security,
            (#[trigger] config.endpoints@[i]).client_auth_mode,
        )
}

/// What a relay needs besides, in production.
pub open spec fn is_hardened(config: RelayConfig) -> bool {
    &&& !config.qlog
    &&& config.mlog_dir is None
    &&& config.listener_security != ListenerSecurityPolicy::Development
    &&& config.listener_security == ListenerSecurityPolicy::TokenSubscriber
        ==> config.admission.supports_production_token_leases
    &&& config.admission.supports_bounded_session_leases
    &&& config.verifies_server_certificates
    &&& forall|i: int|
        0 <= i < config.endpoints@.len() ==> {
            let endpoint = #[trigger] config.endpoints@[i];
            &&& !endpoint.writes_per_connection_diagnostics
            &&& endpoint.uses_stateless_retry
            &&& !endpoint.tls_key_logging_enabled
            &&& endpoint.verifies_server_certificates
        }
}

/// A relay can be started with exactly the configurations that are workable
/// and, in production, hardened.
pub proof fn every_sound_configuration_is_accepted(
    config: &RelayConfig,
    result: Result<(), ConfigError>,
)
    requires
        call_ensures(RelayConfig::validate, (config,), result),
    ensures
        result is Ok <==> is_workable(*config) && (config.development || is_hardened(*config)),
{
}

/// What is reported as wrong with a configuration is wrong with it.
pub proof fn reported_fault_is_there(config: &RelayConfig, result: Result<(), ConfigError>)
    requires
        call_ensures(RelayConfig::validate, (config,), result),
    ensures
        result matches Err(error) ==> match error {
            ConfigError::BindAndEndpoints => config.bind && config.endpoints@.len() > 0,
            ConfigError::DevelopmentAdmission => config.admission.development_only
                && !config.development,
            ConfigError::AllowAllAdmission => config.admission.allow_all
                && config.listener_security != ListenerSecurityPolicy::Development,
            ConfigError::SessionLogs => !config.development && (config.qlog || config.mlog_dir
                is Some),
            ConfigError::EndpointSessionLogs => !config.development && exists|i: int|
                0 <= i < config.endpoints@.len() && (
                #[trigger] config.endpoints@[i]).writes_per_connection_diagnostics,
            ConfigError::StatelessRetry => !config.development && exists|i: int|
                0 <= i < config.endpoints@.len() && !(
                #[trigger] config.endpoints@[i]).uses_stateless_retry,
            ConfigError::KeyLogging => !config.development && exists|i: int|
                0 <= i < config.endpoints@.len() && (
                #[trigger] config.endpoints@[i]).tls_key_logging_enabled,
            ConfigError::SetupTimeout => config.setup_timeout == 0,
            ConfigError::AdmissionTimeout => config.admission_timeout == 0,
            ConfigError::CleanupTimeout => config.cleanup_timeout == 0,
            ConfigError::NoPendingAdmissions => config.max_pending_admissions == 0,
            ConfigError::TooManyPendingAdmissions => config.max_pending_admissions > usize::MAX
                / 8,
            ConfigError::NoActiveSessions => config.max_active_sessions == 0,
            ConfigError::TooManyActiveSessions => config.max_active_sessions > usize::MAX / 8,
            ConfigError::RevalidationInterval => config.token_revalidation_interval == 0,
            ConfigError::Limits(text) => config.limits_error is Some && text@
                == config.limits_error->0@,
            ConfigError::DevelopmentListener => !config.development && config.listener_security
                == ListenerSecurityPolicy::Development,
            ConfigError::TokenLeases => !config.development && config.listener_security
                == ListenerSecurityPolicy::TokenSubscriber
                && !config.admission.supports_production_token_leases,
            ConfigError::SessionLeases => !config.development
                && !config.admission.supports_bounded_session_leases,
            ConfigError::ServerVerification => !config.development
                && !config.verifies_server_certificates,
            ConfigError::EndpointServerVerification => !config.development && exists|i: int|
                0 <= i < config.endpoints@.len() && !(
                #[trigger] config.endpoints@[i]).verifies_server_certificates,
            ConfigError::ClientAuth => !asks_rightly(
                config.listener_security,
                config.client_auth_mode,
            ),
            ConfigError::EndpointClientAuth => exists|i: int|
                0 <= i < config.endpoints@.len() && !asks_rightly(
                    config.listener_security,
                    (#[trigger] config.endpoints@[i]).client_auth_mode,
                ),
            ConfigError::NoEndpoints => false,
            ConfigError::LogDirectoryMissing(_) => false,
            ConfigError::LogDirectoryNotDirectory(_) => false,
        },
{
}

/// A relay whose address was bound starts where it has somewhere to listen
/// and, where it writes logs, a directory to write them to.
pub proof fn opened_relay_has_what_it_needs(config: &RelayConfig, result: Result<(), ConfigError>)
    requires
        call_ensures(RelayConfig::validate_opened, (config,), result),
    ensures
        result is Ok <==> (config.bind || config.endpoints@.len() > 0) && (config.mlog_dir
            matches Some(dir) ==> dir.exists && dir.is_dir),
        !config.bind && config.endpoints@.len() == 0 ==> result == Err::<(), ConfigError>(
            ConfigError::NoEndpoints,
        ),
        result matches Err(ConfigError::LogDirectoryMissing(path)) ==> config.mlog_dir is Some
            && !config.mlog_dir->0.exists && path@ == config.mlog_dir->0.path@,
        result matches Err(ConfigError::LogDirectoryNotDirectory(path)) ==> config.mlog_dir is Some
            && config.mlog_dir->0.exists && !config.mlog_dir->0.is_dir && path@
            == config.mlog_dir->0.path@,
{
}

/// The program chooses the policy that goes with its listener, in every
/// combination but those that contradict it: tokens for publishers, publishers
/// for tokens, lists where everybody is admitted, and anything but certificates
/// without development mode.
pub proof fn admission_goes_with_the_listener(
    policy: ListenerSecurityPolicy,
    development: bool,
    has_publishers: bool,
    has_tokens: bool,
    result: Result<AdmissionChoice, LaunchError>,
)
    requires
        call_ensures(choose_admission, (policy, development, has_publishers, has_tokens), result),
    ensures
        result == Ok::<AdmissionChoice, LaunchError>(AdmissionChoice::CertificateFingerprints)
            <==> policy == ListenerSecurityPolicy::MutualTlsPublisher && !has_tokens,
        result == Ok::<AdmissionChoice, LaunchError>(AdmissionChoice::SetupTokens) <==> policy
            == ListenerSecurityPolicy::TokenSubscriber && development && !has_publishers,
        result == Ok::<AdmissionChoice, LaunchError>(AdmissionChoice::DevelopmentAllowAll)
            <==> policy == ListenerSecurityPolicy::Development && development && !has_publishers
            && !has_tokens,
        result matches Err(error) ==> match error {
            LaunchError::MissingCertificates => false,
            LaunchError::TokensForPublishers => policy
                == ListenerSecurityPolicy::MutualTlsPublisher && has_tokens,
            LaunchError::StaticTokensInProduction => policy
                == ListenerSecurityPolicy::TokenSubscriber && !development,
            LaunchError::PublishersForTokens => policy == ListenerSecurityPolicy::TokenSubscriber
                && has_publishers,
            LaunchError::DevelopmentPolicy => policy == ListenerSecurityPolicy::Development
                && !development,
            LaunchError::AllowAllWithLists => policy == ListenerSecurityPolicy::Development && (
            has_publishers || has_tokens),
        },
{
}

/// The role that is asked for is taken. Where none is, the default can be
/// served: publishers by certificate, or everybody in development.
pub proof fn default_listener_is_served(
    asked: Option<ListenerSecurityPolicy>,
    development: bool,
    policy: ListenerSecurityPolicy,
    result: Result<AdmissionChoice, LaunchError>,
)
    requires
        call_ensures(choose_listener_security, (asked, development), policy),
        call_ensures(choose_admission, (policy, development, false, false), result),
    ensures
        asked is Some ==> policy == asked->0,
        asked is None ==> {
            &&& result is Ok
            &&& development <==> result->Ok_0 == AdmissionChoice::DevelopmentAllowAll
            &&& !development <==> result->Ok_0 == AdmissionChoice::CertificateFingerprints
        },
{
}

/// A relay ends with what it stopped for, or else with what went wrong while it
/// shut down, and cleanly only where nothing did.
pub proof fn relay_ends_with_its_first_error(
    stopped_by_error: bool,
    shutdown_failed: bool,
    end: RelayEnd,
)
    requires
        call_ensures(relay_end, (stopped_by_error, shutdown_failed), end),
    ensures
        end == RelayEnd::Clean <==> !stopped_by_error && !shutdown_failed,
        end == RelayEnd::Stopped <==> stopped_by_error,
{
}

} // verus!
