//! Bounded retention of completed objects.
//!
//! Objects are first committed to a pending group. A pending group counts
//! against every bound of the store, but no snapshot shows it until
//! [`RetainedTrack::complete_group`] publishes the whole group at once.

pub mod laws;
pub mod model;
pub mod object;
pub mod promises;
pub mod track;

pub use model::{
    RetainedRange, RetentionError, RetentionLimit, RetentionLimits, RetentionRangeError,
};
pub use object::{RetainedObject, RetainedObjectBuilder, RetainedObjectMetadata};
pub use track::{RetainedSnapshot, RetainedTrack, RetainedTrackStats};
