//! How much work a peer can make this endpoint do at a time.

use std::sync::Arc;

use tokio::sync::{OwnedSemaphorePermit, Semaphore};
use vstd::prelude::*;

use super::error::SessionError;
use super::Session;

verus! {

#[verifier::external_type_specification]
#[verifier::external_body]
pub struct ExSemaphore(tokio::sync::Semaphore);

#[verifier::external_type_specification]
#[verifier::external_body]
pub struct ExOwnedSemaphorePermit(tokio::sync::OwnedSemaphorePermit);

/// How many data streams of one session are handled at a time.
pub const MAX_CONCURRENT_DATA_STREAMS_PER_SESSION: usize = 256;

/// How many data streams of all sessions are handled at a time.
pub const MAX_CONCURRENT_DATA_STREAMS_GLOBAL: usize = 4096;

/// The code with which a data stream beyond these numbers is stopped.
pub const DATA_STREAM_EXCESSIVE_LOAD: u32 = 0x9;

/// How many request streams of one session are handled at a time.
pub const MAX_CONCURRENT_BIDI_STREAMS: usize = 128;

/// `tokio::sync::Semaphore::try_acquire_owned` takes a permit without waiting,
/// or none if none is left at the moment or the semaphore is closed. Which of
/// the two depends on who else holds permits, so nothing is said of it.
#[verifier::external_body]
fn try_acquire(semaphore: &Arc<Semaphore>) -> (permit: Option<OwnedSemaphorePermit>) {
    Arc::clone(semaphore).try_acquire_owned().ok()
}

/// Whether a semaphore, asked for a permit, gave this answer.
pub closed spec fn answered(semaphore: Arc<Semaphore>, permit: Option<OwnedSemaphorePermit>) -> bool {
    call_ensures(try_acquire, (&semaphore,), permit)
}

/// Asks a semaphore for a permit, without waiting for one.
pub fn ask_permit(semaphore: &Arc<Semaphore>) -> (permit: Option<OwnedSemaphorePermit>)
    ensures
        answered(*semaphore, permit),
{
    try_acquire(semaphore)
}

/// Bounds on the data streams that peers open, per session and over all
/// sessions. They are apart from the number of streams that the transport lets
/// a peer open: they bound the handlers that are kept.
#[derive(Debug)]
pub struct DataStreamTaskLimits {
    pub global: Arc<Semaphore>,
    pub per_session: usize,
}

impl DataStreamTaskLimits {
    /// The limits in production. The permits are shared by all sessions.
    pub fn production(global: Arc<Semaphore>) -> (limits: Self)
        ensures
            limits.global == global,
            limits.per_session == MAX_CONCURRENT_DATA_STREAMS_PER_SESSION,
    {
        DataStreamTaskLimits { global, per_session: MAX_CONCURRENT_DATA_STREAMS_PER_SESSION }
    }

    /// Whether a session with so many streams may have one more.
    pub fn session_admits(&self, active_for_session: usize) -> (admits: bool)
        ensures
            admits == (active_for_session < self.per_session),
    {
        active_for_session < self.per_session
    }

    /// Admits a data stream: the permit that is held as long as it is handled.
    /// A session that is at its limit gets none, whatever the others do; below
    /// it, the answer is that of the semaphore that all sessions share.
    pub fn try_admit(&self, active_for_session: usize) -> (permit: Option<OwnedSemaphorePermit>)
        ensures
            if active_for_session >= self.per_session {
                permit is None
            } else {
                answered(self.global, permit)
            },
    {
        if !self.session_admits(active_for_session) {
            return None;
        }
        ask_permit(&self.global)
    }
}

impl Session {
    /// Whether one more request stream is accepted.
    pub fn accepts_request_stream(active: usize) -> (accepts: bool)
        ensures
            accepts == (active < MAX_CONCURRENT_BIDI_STREAMS),
    {
        active < MAX_CONCURRENT_BIDI_STREAMS
    }

    /// What the end of a request stream means to the session: a request that
    /// the peer cancelled is over, any other failure ends the session.
    pub fn request_stream_ended(result: Result<(), SessionError>) -> (outcome: Result<
        (),
        SessionError,
    >)
        ensures
            match result {
                Ok(()) => outcome is Ok,
                Err(error) => if error@.cancels_request() {
                    outcome is Ok
                } else {
                    outcome matches Err(cause) && cause == error
                },
            },
    {
        match result {
            Err(error) => if error.is_request_stream_cancelled() {
                Ok(())
            } else {
                Err(error)
            },
            Ok(()) => Ok(()),
        }
    }
}

} // verus!
