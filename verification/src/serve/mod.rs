//! Tracks and what is kept of them.

pub mod cache;
pub mod error;
pub mod track;

pub use error::ServeError;
pub use track::{
    Datagram, DatagramsWriter, FullTrackName, Subgroup, SubgroupWriter, SubgroupsWriter,
    TrackWriter, TrackWriterMode,
};
