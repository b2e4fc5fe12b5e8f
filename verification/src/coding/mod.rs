//! The wire encoding: integers, parameters, names and locations.

pub mod buffer;
pub mod error;
pub mod field;
pub mod kvp;
pub mod laws;
pub mod location;
pub mod name;
pub mod varint;

pub use error::{DecodeError, EncodeError};
pub use kvp::{KeyValuePair, KeyValuePairs, Value};
pub use location::Location;
pub use name::{ReasonPhrase, SessionUri, TrackName, TrackNamespace};
