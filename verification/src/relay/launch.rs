//! What the relay program makes of its command line.

use vstd::prelude::*;

use super::policy::ListenerSecurityPolicy;

verus! {

/// The role of the listener: the one that is asked for, or else the secure
/// one, which development mode replaces.
pub fn choose_listener_security(asked: Option<ListenerSecurityPolicy>, development: bool) -> (policy:
    ListenerSecurityPolicy)
    ensures
        policy == (match asked {
            Some(policy) => policy,
            None => if development {
                ListenerSecurityPolicy::Development
            } else {
                ListenerSecurityPolicy::MutualTlsPublisher
            },
        }),
{
    match asked {
        Some(policy) => policy,
        None => if development {
            ListenerSecurityPolicy::Development
        } else {
            ListenerSecurityPolicy::MutualTlsPublisher
        },
    }
}

/// Which of the built-in admission policies is used.
#[derive(Clone, Copy, Debug, PartialEq, Eq, Structural)]
pub enum AdmissionChoice {
    /// Certificates that are bound to scopes.
    CertificateFingerprints,
    /// Tokens from a fixed list.
    SetupTokens,
    /// Everybody.
    DevelopmentAllowAll,
}

/// Why the command line is refused.
#[derive(Clone, Copy, Debug, PartialEq, Eq, Structural)]
pub enum LaunchError {
    MissingCertificates,
    TokensForPublishers,
    StaticTokensInProduction,
    PublishersForTokens,
    DevelopmentPolicy,
    AllowAllWithLists,
}

impl LaunchError {
    pub open spec fn spec_message(self) -> Seq<char> {
        match self {
            LaunchError::MissingCertificates => "missing TLS certificates"@,
            LaunchError::TokensForPublishers => {
                "subscribe token digests are only valid for token-subscriber listeners"@
            },
            LaunchError::StaticTokensInProduction => {
                "the built-in static token allowlist is non-production; embed Relay with an external replay- and lease-aware SessionAdmission policy"@
            },
            LaunchError::PublishersForTokens => {
                "mTLS publisher bindings are only valid for mTLS publisher listeners"@
            },
            LaunchError::DevelopmentPolicy => "development listener policy requires --dev"@,
            LaunchError::AllowAllWithLists => {
                "development allow-all cannot be combined with production identity allowlists"@
            },
        }
    }

    /// A sentence that describes the error.
    pub fn message(&self) -> (text: &'static str)
        ensures
            text@ == self.spec_message(),
    {
        match self {
            LaunchError::MissingCertificates => "missing TLS certificates",
            LaunchError::TokensForPublishers => {
                "subscribe token digests are only valid for token-subscriber listeners"
            },
            LaunchError::StaticTokensInProduction => {
                "the built-in static token allowlist is non-production; embed Relay with an external replay- and lease-aware SessionAdmission policy"
            },
            LaunchError::PublishersForTokens => {
                "mTLS publisher bindings are only valid for mTLS publisher listeners"
            },
            LaunchError::DevelopmentPolicy => "development listener policy requires --dev",
            LaunchError::AllowAllWithLists => {
                "development allow-all cannot be combined with production identity allowlists"
            },
        }
    }
}

/// Which admission policy goes with a listener. The lists of publishers and
/// tokens go with one listener each.
pub open spec fn admission_for(
    policy: ListenerSecurityPolicy,
    development: bool,
    has_publishers: bool,
    has_tokens: bool,
) -> Result<AdmissionChoice, LaunchError> {
    match policy {
        ListenerSecurityPolicy::MutualTlsPublisher => if has_tokens {
            Err(LaunchError::TokensForPublishers)
        } else {
            Ok(AdmissionChoice::CertificateFingerprints)
        },
        ListenerSecurityPolicy::TokenSubscriber => if !development {
            Err(LaunchError::StaticTokensInProduction)
        } else if has_publishers {
            Err(LaunchError::PublishersForTokens)
        } else {
            Ok(AdmissionChoice::SetupTokens)
        },
        ListenerSecurityPolicy::Development => if !development {
            Err(LaunchError::DevelopmentPolicy)
        } else if has_publishers || has_tokens {
            Err(LaunchError::AllowAllWithLists)
        } else {
            Ok(AdmissionChoice::DevelopmentAllowAll)
        },
    }
}

pub fn choose_admission(
    policy: ListenerSecurityPolicy,
    development: bool,
    has_publishers: bool,
    has_tokens: bool,
) -> (result: Result<AdmissionChoice, LaunchError>)
    ensures
        result == admission_for(policy, development, has_publishers, has_tokens),
{
    match policy {
        ListenerSecurityPolicy::MutualTlsPublisher => if has_tokens {
            Err(LaunchError::TokensForPublishers)
        } else {
            Ok(AdmissionChoice::CertificateFingerprints)
        },
        ListenerSecurityPolicy::TokenSubscriber => if !development {
            Err(LaunchError::StaticTokensInProduction)
        } else if has_publishers {
            Err(LaunchError::PublishersForTokens)
        } else {
            Ok(AdmissionChoice::SetupTokens)
        },
        ListenerSecurityPolicy::Development => if !development {
            Err(LaunchError::DevelopmentPolicy)
        } else if has_publishers || has_tokens {
            Err(LaunchError::AllowAllWithLists)
        } else {
            Ok(AdmissionChoice::DevelopmentAllowAll)
        },
    }
}

/// Without development mode the program admits by certificates and by nothing
/// else.
pub proof fn production_admits_by_certificate(
    asked: Option<ListenerSecurityPolicy>,
    has_publishers: bool,
    has_tokens: bool,
)
    ensures
        asked matches Some(policy) ==> (admission_for(policy, false, has_publishers, has_tokens)
            matches Ok(choice) ==> choice == AdmissionChoice::CertificateFingerprints),
        admission_for(
            ListenerSecurityPolicy::MutualTlsPublisher,
            false,
            has_publishers,
            has_tokens,
        ) matches Ok(choice) ==> choice == AdmissionChoice::CertificateFingerprints,
{
}

} // verus!
