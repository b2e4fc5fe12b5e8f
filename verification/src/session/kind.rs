//! The kinds of requests, and what their streams allow.

use vstd::prelude::*;

use super::error::{SessionError, SessionFault};
use crate::message::Message;
use crate::text::concat3;

verus! {

/// What a request stream was opened for.
#[derive(Clone, Copy, Debug, PartialEq, Eq, Structural)]
pub enum RequestKind {
    Subscribe,
    Publish,
    Fetch,
    TrackStatus,
    PublishNamespace,
    SubscribeNamespace,
    SubscribeTracks,
}

impl RequestKind {
    pub open spec fn spec_name(self) -> Seq<char> {
        match self {
            RequestKind::Subscribe => "Subscribe"@,
            RequestKind::Publish => "Publish"@,
            RequestKind::Fetch => "Fetch"@,
            RequestKind::TrackStatus => "TrackStatus"@,
            RequestKind::PublishNamespace => "PublishNamespace"@,
            RequestKind::SubscribeNamespace => "SubscribeNamespace"@,
            RequestKind::SubscribeTracks => "SubscribeTracks"@,
        }
    }

    pub fn name(&self) -> (name: &'static str)
        ensures
            name@ == self.spec_name(),
    {
        match self {
            RequestKind::Subscribe => "Subscribe",
            RequestKind::Publish => "Publish",
            RequestKind::Fetch => "Fetch",
            RequestKind::TrackStatus => "TrackStatus",
            RequestKind::PublishNamespace => "PublishNamespace",
            RequestKind::SubscribeNamespace => "SubscribeNamespace",
            RequestKind::SubscribeTracks => "SubscribeTracks",
        }
    }

    /// What a stream is opened for by its first message.
    pub open spec fn opened_by(msg: &Message) -> Option<RequestKind> {
        match msg {
            Message::Subscribe(_) => Some(RequestKind::Subscribe),
            Message::Publish(_) => Some(RequestKind::Publish),
            Message::Fetch(_) => Some(RequestKind::Fetch),
            Message::TrackStatus(_) => Some(RequestKind::TrackStatus),
            Message::PublishNamespace(_) => Some(RequestKind::PublishNamespace),
            Message::SubscribeNamespace(_) => Some(RequestKind::SubscribeNamespace),
            Message::SubscribeTracks(_) => Some(RequestKind::SubscribeTracks),
            _ => None,
        }
    }

    pub fn from_first_message(msg: &Message) -> (result: Result<RequestKind, SessionError>)
        ensures
            match result {
                Ok(kind) => RequestKind::opened_by(msg) == Some(kind),
                Err(error) => {
                    &&& RequestKind::opened_by(msg) is None
                    &&& error@ == SessionFault::ProtocolViolation(
                        msg.spec_name() + " cannot open a request stream"@,
                    )
                },
            },
    {
        match msg {
            Message::Subscribe(_) => Ok(RequestKind::Subscribe),
            Message::Publish(_) => Ok(RequestKind::Publish),
            Message::Fetch(_) => Ok(RequestKind::Fetch),
            Message::TrackStatus(_) => Ok(RequestKind::TrackStatus),
            Message::PublishNamespace(_) => Ok(RequestKind::PublishNamespace),
            Message::SubscribeNamespace(_) => Ok(RequestKind::SubscribeNamespace),
            Message::SubscribeTracks(_) => Ok(RequestKind::SubscribeTracks),
            other => {
                let text = concat3("", other.name(), " cannot open a request stream");
                proof {
                    reveal_strlit("");
                    assert(""@ + other.spec_name() =~= other.spec_name());
                }
                Err(SessionError::ProtocolViolation(text))
            },
        }
    }

    pub open spec fn updatable(self) -> bool {
        self != RequestKind::TrackStatus
    }

    /// Whether the request can be changed while its stream is open. The state
    /// of a track is told once.
    pub fn accepts_request_updates(&self) -> (result: bool)
        ensures
            result == self.updatable(),
    {
        *self != RequestKind::TrackStatus
    }

    pub open spec fn from_publisher(self) -> bool {
        self == RequestKind::Publish || self == RequestKind::PublishNamespace
    }

    /// Whether a publisher sends the request.
    pub fn is_publisher_message(&self) -> (result: bool)
        ensures
            result == self.from_publisher(),
    {
        *self == RequestKind::Publish || *self == RequestKind::PublishNamespace
    }

    pub open spec fn namespace_scoped(self) -> bool {
        self == RequestKind::PublishNamespace || self == RequestKind::SubscribeNamespace || self
            == RequestKind::SubscribeTracks
    }

    /// Whether the request is about a namespace rather than a track.
    pub fn is_namespace_scoped(&self) -> (result: bool)
        ensures
            result == self.namespace_scoped(),
    {
        *self == RequestKind::PublishNamespace || *self == RequestKind::SubscribeNamespace || *self
            == RequestKind::SubscribeTracks
    }
}

/// How many updates of a request wait for their answer. A limit of zero is
/// no limit.
#[derive(Clone, Copy, Debug, PartialEq, Eq, Structural)]
pub struct RequestUpdateCredits {
    pub limit: u64,
    pub outstanding: u64,
}

impl RequestUpdateCredits {
    pub fn new(limit: u64) -> (credits: Self)
        ensures
            credits == (RequestUpdateCredits { limit, outstanding: 0 }),
    {
        RequestUpdateCredits { limit, outstanding: 0 }
    }

    /// Whether one more update may come.
    pub open spec fn available(self) -> bool {
        (self.limit == 0 || self.outstanding < self.limit) && self.outstanding < u64::MAX
    }

    /// Takes an update, or refuses it if too many wait already.
    pub fn receive(&mut self) -> (result: Result<(), SessionError>)
        ensures
            final(self).limit == old(self).limit,
            match result {
                Ok(()) => {
                    &&& old(self).available()
                    &&& final(self).outstanding == old(self).outstanding + 1
                },
                Err(error) => {
                    &&& !old(self).available()
                    &&& error@ == SessionFault::TooManyRequestUpdates
                    &&& *final(self) == *old(self)
                },
            },
    {
        if (self.limit != 0 && self.outstanding >= self.limit) || self.outstanding == u64::MAX {
            return Err(SessionError::TooManyRequestUpdates);
        }
        self.outstanding = self.outstanding + 1;
        Ok(())
    }

    /// An update was answered.
    pub fn respond(&mut self)
        ensures
            final(self).limit == old(self).limit,
            final(self).outstanding == (if old(self).outstanding == 0 {
                0
            } else {
                old(self).outstanding - 1
            }),
    {
        self.outstanding = self.outstanding.saturating_sub(1);
    }
}

} // verus!
