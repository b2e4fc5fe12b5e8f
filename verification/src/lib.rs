//! Media over QUIC transport: the protocol logic of a relay and its sessions.
//!
//! Every item of this crate is verified. What talks to the network, the clock
//! or the file system is left to the program around it, which hands plain
//! values in and carries out the actions that come back.

pub mod coding;
pub mod data;
pub mod message;
pub mod relay;
pub mod scenarios;
pub mod serve;
pub mod session;
pub mod text;
pub mod watch;
