//! What holds of a session's operations, call by call and over many of them.

pub mod asking;
pub mod connecting;
pub mod delivery;
pub mod ending;
pub mod framing;
pub mod receiving;
pub mod requests;
pub mod serving;
pub mod subscriptions;
