//! A session between two endpoints.

pub mod bidi;
pub mod control;
pub mod error;
pub mod kind;
pub mod laws;
pub mod limits;
pub mod path;
pub mod publisher;
pub mod receiving;
pub mod registry;
pub mod request_id;
pub mod response;
pub mod serving;
pub mod setup;
pub mod state;
pub mod subscribe;
pub mod subscribe_recv;
pub mod subscribed;
pub mod subscriber;

pub use error::SessionError;
pub use kind::{RequestKind, RequestUpdateCredits};
pub use state::{Session, Transport};
