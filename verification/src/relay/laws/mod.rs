//! What holds of a relay: whom it admits, how long, and when it starts.

pub mod admission;
pub mod starting;
