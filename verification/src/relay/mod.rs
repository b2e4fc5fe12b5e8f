//! A relay between publishers and subscribers: whom it admits, and how it is
//! configured.

pub mod admission;
pub mod config;
pub mod launch;
pub mod laws;
pub mod lease;
pub mod listener;
pub mod policy;

pub use policy::{
    AdmissionClaims, AdmissionDecision, AdmissionError, AdmissionPrincipal, AuthenticationMethod,
    ListenerSecurityPolicy, PeerIdentity, SetupAuthorization,
};
