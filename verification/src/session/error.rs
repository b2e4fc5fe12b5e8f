//! Why a session, or a request in it, failed.

use vstd::prelude::*;

use crate::coding::{DecodeError, EncodeError};
use crate::serve::error::{ServeError, ServeFault};
use crate::text::{concat2, decimal, digits};

verus! {

/// The stream error code that cancels a request.
pub const REQUEST_STREAM_CANCELLED: u32 = 0x1;

/// Why a session, or a request in it, failed.
#[derive(Debug, PartialEq, Eq)]
pub enum SessionError {
    Internal,
    Encode(EncodeError),
    Decode(DecodeError),
    /// The peer reset or stopped a stream with this code.
    StreamReset(u32),
    Serve(ServeError),
    RoleViolation,
    ProtocolViolation(String),
    InvalidPath(String),
    InvalidRequestId,
    TooManyRequestUpdates,
    Duplicate,
    WrongSize,
    Unimplemented(String),
}

/// The model of a [`SessionError`].
pub enum SessionFault {
    Internal,
    Encode(EncodeError),
    Decode(DecodeError),
    StreamReset(u32),
    Serve(ServeFault),
    RoleViolation,
    ProtocolViolation(Seq<char>),
    InvalidPath(Seq<char>),
    InvalidRequestId,
    TooManyRequestUpdates,
    Duplicate,
    WrongSize,
    Unimplemented(Seq<char>),
}

impl View for SessionError {
    type V = SessionFault;

    open spec fn view(&self) -> SessionFault {
        match self {
            SessionError::Internal => SessionFault::Internal,
            SessionError::Encode(error) => SessionFault::Encode(*error),
            SessionError::Decode(error) => SessionFault::Decode(*error),
            SessionError::StreamReset(code) => SessionFault::StreamReset(*code),
            SessionError::Serve(error) => SessionFault::Serve(error@),
            SessionError::RoleViolation => SessionFault::RoleViolation,
            SessionError::ProtocolViolation(text) => SessionFault::ProtocolViolation(text@),
            SessionError::InvalidPath(text) => SessionFault::InvalidPath(text@),
            SessionError::InvalidRequestId => SessionFault::InvalidRequestId,
            SessionError::TooManyRequestUpdates => SessionFault::TooManyRequestUpdates,
            SessionError::Duplicate => SessionFault::Duplicate,
            SessionError::WrongSize => SessionFault::WrongSize,
            SessionError::Unimplemented(text) => SessionFault::Unimplemented(text@),
        }
    }
}

impl Clone for SessionError {
    fn clone(&self) -> (copy: Self)
        ensures
            copy@ == self@,
    {
        match self {
            SessionError::Internal => SessionError::Internal,
            SessionError::Encode(error) => SessionError::Encode(*error),
            SessionError::Decode(error) => SessionError::Decode(*error),
            SessionError::StreamReset(code) => SessionError::StreamReset(*code),
            SessionError::Serve(error) => SessionError::Serve(error.clone()),
            SessionError::RoleViolation => SessionError::RoleViolation,
            SessionError::ProtocolViolation(text) => SessionError::ProtocolViolation(text.clone()),
            SessionError::InvalidPath(text) => SessionError::InvalidPath(text.clone()),
            SessionError::InvalidRequestId => SessionError::InvalidRequestId,
            SessionError::TooManyRequestUpdates => SessionError::TooManyRequestUpdates,
            SessionError::Duplicate => SessionError::Duplicate,
            SessionError::WrongSize => SessionError::WrongSize,
            SessionError::Unimplemented(text) => SessionError::Unimplemented(text.clone()),
        }
    }
}

impl SessionFault {
    /// The sentence that describes the error.
    pub open spec fn message(self) -> Seq<char> {
        match self {
            SessionFault::Internal => "internal error"@,
            SessionFault::Encode(error) => "encode error: "@ + error.spec_message(),
            SessionFault::Decode(error) => "decode error: "@ + error.spec_message(),
            SessionFault::StreamReset(code) => "stream reset, code="@ + digits(code as nat, 10),
            SessionFault::Serve(error) => "serve error: "@ + error.message(),
            SessionFault::RoleViolation => "role violation"@,
            SessionFault::ProtocolViolation(text) => "protocol violation: "@ + text,
            SessionFault::InvalidPath(text) => "invalid path: "@ + text,
            SessionFault::InvalidRequestId => "invalid request ID"@,
            SessionFault::TooManyRequestUpdates => "too many request updates"@,
            SessionFault::Duplicate => "duplicate"@,
            SessionFault::WrongSize => "wrong size"@,
            SessionFault::Unimplemented(text) => "unimplemented: "@ + text,
        }
    }

    /// Whether the peer cancelled a request by resetting its stream.
    pub open spec fn cancels_request(self) -> bool {
        self == SessionFault::StreamReset(REQUEST_STREAM_CANCELLED)
    }

    /// What the error is to a track: its own cause, or an internal error.
    pub open spec fn as_serve(self) -> ServeFault {
        match self {
            SessionFault::Serve(error) => error,
            _ => ServeFault::InternalWithId(0, self.message()),
        }
    }
}

/// Whether a result is the expected one.
pub open spec fn same_outcome<T>(
    result: Result<T, SessionError>,
    expected: Result<T, SessionFault>,
) -> bool {
    match result {
        Ok(value) => expected == Ok::<T, SessionFault>(value),
        Err(error) => expected == Err::<T, SessionFault>(error@),
    }
}

impl SessionError {
    /// Something that is not implemented.
    pub fn unimplemented(what: &str) -> (error: Self)
        ensures
            error@ == SessionFault::Unimplemented(what@),
    {
        SessionError::Unimplemented(what.to_string())
    }

    /// A violation of the protocol.
    pub fn violation(what: &str) -> (error: Self)
        ensures
            error@ == SessionFault::ProtocolViolation(what@),
    {
        SessionError::ProtocolViolation(what.to_string())
    }

    /// Whether the peer cancelled a request by resetting its stream.
    pub fn is_request_stream_cancelled(&self) -> (cancelled: bool)
        ensures
            cancelled == self@.cancels_request(),
    {
        match self {
            SessionError::StreamReset(code) => *code == REQUEST_STREAM_CANCELLED,
            _ => false,
        }
    }

    /// What the error is to a track: its own cause, or an internal error.
    pub fn into_serve(self) -> (error: ServeError)
        ensures
            error@ == self@.as_serve(),
    {
        match self {
            SessionError::Serve(error) => error,
            other => {
                let text = other.message();
                ServeError::internal_ctx(&text)
            },
        }
    }

    /// A sentence that describes the error.
    pub fn message(&self) -> (text: String)
        ensures
            text@ == self@.message(),
    {
        match self {
            SessionError::Internal => "internal error".to_string(),
            SessionError::Encode(error) => concat2("encode error: ", &error.message()),
            SessionError::Decode(error) => concat2("decode error: ", &error.message()),
            SessionError::StreamReset(code) => concat2(
                "stream reset, code=",
                &decimal(*code as u64),
            ),
            SessionError::Serve(error) => concat2("serve error: ", &error.message()),
            SessionError::RoleViolation => "role violation".to_string(),
            SessionError::ProtocolViolation(text) => concat2("protocol violation: ", text),
            SessionError::InvalidPath(text) => concat2("invalid path: ", text),
            SessionError::InvalidRequestId => "invalid request ID".to_string(),
            SessionError::TooManyRequestUpdates => "too many request updates".to_string(),
            SessionError::Duplicate => "duplicate".to_string(),
            SessionError::WrongSize => "wrong size".to_string(),
            SessionError::Unimplemented(text) => concat2("unimplemented: ", text),
        }
    }
}

} // verus!
