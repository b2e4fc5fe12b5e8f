//! What a session knows of itself.

use vstd::prelude::*;

verus! {

/// The transport protocol negotiated for a connection.
///
/// The transport decides where the path of a connection travels: WebTransport
/// has it in the URL of the HTTP/3 CONNECT request, raw QUIC in the PATH
/// parameter of SETUP.
#[derive(Clone, Copy, Debug, PartialEq, Eq, Structural)]
pub enum Transport {
    /// WebTransport over HTTP/3.
    WebTransport,
    /// Raw QUIC, with the protocol's frames directly on QUIC streams.
    RawQuic,
}

/// A session, as it stands once both sides have sent SETUP.
#[derive(Debug)]
pub struct Session {
    pub(super) transport: Transport,
    pub(super) connection_path: Option<String>,
    pub(super) max_request_updates: u64,
    pub(super) peer_max_request_updates: u64,
}

} // verus!
