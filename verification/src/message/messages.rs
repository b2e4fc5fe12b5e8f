//! The control messages.

use vstd::prelude::*;

use super::types::{FetchType, Redirect, TrackExtensions, TrackProperties};
use crate::coding::{
    KeyValuePairs, Location, ReasonPhrase, SessionUri, TrackName, TrackNamespace,
};

verus! {

/// Asks for a track.
#[derive(Debug, PartialEq, Eq)]
pub struct Subscribe {
    pub id: u64,
    pub track_namespace: TrackNamespace,
    pub track_name: TrackName,
    pub params: KeyValuePairs,
}

/// Accepts a subscription.
#[derive(Debug, PartialEq, Eq)]
pub struct SubscribeOk {
    pub id: u64,
    pub track_alias: u64,
    pub params: KeyValuePairs,
    pub track_extensions: TrackExtensions,
}

/// Offers a track.
#[derive(Debug, PartialEq, Eq)]
pub struct Publish {
    pub id: u64,
    pub track_namespace: TrackNamespace,
    pub track_name: TrackName,
    pub track_alias: u64,
    pub params: KeyValuePairs,
}

/// Accepts a track that was offered.
#[derive(Debug, PartialEq, Eq)]
pub struct PublishOk {
    pub id: u64,
}

/// Ends a subscription from the publisher's side.
#[derive(Debug, PartialEq, Eq)]
pub struct PublishDone {
    pub id: u64,
    pub status_code: u64,
    pub stream_count: u64,
    pub reason: ReasonPhrase,
}

/// Tells that a track is not offered.
#[derive(Debug, PartialEq, Eq)]
pub struct PublishSkipped {
    pub track_namespace_suffix: TrackNamespace,
    pub track_name: TrackName,
}

/// Offers the tracks of a namespace.
#[derive(Debug, PartialEq, Eq)]
pub struct PublishNamespace {
    pub id: u64,
    pub track_namespace: TrackNamespace,
    pub params: KeyValuePairs,
}

/// Withdraws a namespace.
#[derive(Debug, PartialEq, Eq)]
pub struct PublishNamespaceDone {
    pub id: u64,
}

/// Refuses a namespace that was accepted before.
#[derive(Debug, PartialEq, Eq)]
pub struct PublishNamespaceCancel {
    pub id: u64,
}

/// Names a namespace under a prefix.
#[derive(Debug, PartialEq, Eq)]
pub struct Namespace {
    pub track_namespace_suffix: TrackNamespace,
}

/// Tells that a namespace under a prefix is gone.
#[derive(Debug, PartialEq, Eq)]
pub struct NamespaceDone {
    pub track_namespace_suffix: TrackNamespace,
}

/// Asks for the state of a track.
#[derive(Debug, PartialEq, Eq)]
pub struct TrackStatus {
    pub id: u64,
    pub track_namespace: TrackNamespace,
    pub track_name: TrackName,
    pub params: KeyValuePairs,
}

/// Asks for the namespaces under a prefix.
#[derive(Debug, PartialEq, Eq)]
pub struct SubscribeNamespace {
    pub id: u64,
    pub track_namespace_prefix: TrackNamespace,
}

/// Asks for the tracks under a prefix.
#[derive(Debug, PartialEq, Eq)]
pub struct SubscribeTracks {
    pub id: u64,
    pub track_namespace_prefix: TrackNamespace,
}

/// Ends a subscription from the subscriber's side.
#[derive(Debug, PartialEq, Eq)]
pub struct Unsubscribe {
    pub id: u64,
}

/// Asks for objects of the past.
#[derive(Debug, PartialEq, Eq)]
pub struct Fetch {
    pub id: u64,
    pub fetch_type: FetchType,
}

/// Gives a fetch up.
#[derive(Debug, PartialEq, Eq)]
pub struct FetchCancel {
    pub id: u64,
}

/// Accepts a fetch.
#[derive(Debug, PartialEq, Eq)]
pub struct FetchOk {
    pub id: u64,
    pub end_of_track: bool,
    pub end_location: Location,
    pub params: KeyValuePairs,
    pub track_extensions: TrackExtensions,
}

/// Asks the peer to go to another session.
#[derive(Debug, PartialEq, Eq)]
pub struct GoAway {
    pub uri: SessionUri,
    pub timeout: u64,
}

/// Accepts a request.
#[derive(Debug, PartialEq, Eq)]
pub struct RequestOk {
    pub id: u64,
    pub params: KeyValuePairs,
    pub track_properties: TrackProperties,
}

/// Refuses a request.
#[derive(Debug, PartialEq, Eq)]
pub struct RequestError {
    pub id: u64,
    pub error_code: u64,
    pub retry_interval: u64,
    pub reason: ReasonPhrase,
    pub redirect: Option<Redirect>,
}

/// Changes a request.
#[derive(Debug, PartialEq, Eq)]
pub struct RequestUpdate {
    pub id: u64,
    pub params: KeyValuePairs,
}

/// A control message.
#[derive(Debug, PartialEq, Eq)]
pub enum Message {
    Subscribe(Subscribe),
    SubscribeOk(SubscribeOk),
    PublishNamespace(PublishNamespace),
    Namespace(Namespace),
    NamespaceDone(NamespaceDone),
    TrackStatus(TrackStatus),
    SubscribeNamespace(SubscribeNamespace),
    SubscribeTracks(SubscribeTracks),
    Fetch(Fetch),
    FetchOk(FetchOk),
    Publish(Publish),
    PublishSkipped(PublishSkipped),
    PublishDone(PublishDone),
    GoAway(GoAway),
    RequestOk(RequestOk),
    RequestError(RequestError),
    RequestUpdate(RequestUpdate),
}

/// A message that a publisher sends.
#[derive(Debug, PartialEq, Eq)]
pub enum Publisher {
    PublishNamespace(PublishNamespace),
    PublishNamespaceDone(PublishNamespaceDone),
    Publish(Publish),
    PublishDone(PublishDone),
    SubscribeOk(SubscribeOk),
    RequestOk(RequestOk),
    RequestError(RequestError),
    FetchOk(FetchOk),
}

/// A message that a subscriber sends.
#[derive(Debug, PartialEq, Eq)]
pub enum Subscriber {
    Subscribe(Subscribe),
    RequestUpdate(RequestUpdate),
    RequestOk(RequestOk),
    RequestError(RequestError),
    Unsubscribe(Unsubscribe),
    Fetch(Fetch),
    FetchCancel(FetchCancel),
    TrackStatus(TrackStatus),
    SubscribeNamespace(SubscribeNamespace),
    PublishNamespaceCancel(PublishNamespaceCancel),
    PublishOk(PublishOk),
}

/// Who a message from the peer is for.
#[derive(Debug)]
pub enum Routed {
    /// A publisher's message, for the subscriber.
    ToSubscriber(Publisher),
    /// A subscriber's message, for the publisher.
    ToPublisher(Subscriber),
    /// A message of the session itself.
    Session(Message),
}

impl Message {
    pub open spec fn spec_name(&self) -> Seq<char> {
        match self {
            Message::Subscribe(_) => "Subscribe"@,
            Message::SubscribeOk(_) => "SubscribeOk"@,
            Message::PublishNamespace(_) => "PublishNamespace"@,
            Message::Namespace(_) => "Namespace"@,
            Message::NamespaceDone(_) => "NamespaceDone"@,
            Message::TrackStatus(_) => "TrackStatus"@,
            Message::SubscribeNamespace(_) => "SubscribeNamespace"@,
            Message::SubscribeTracks(_) => "SubscribeTracks"@,
            Message::Fetch(_) => "Fetch"@,
            Message::FetchOk(_) => "FetchOk"@,
            Message::Publish(_) => "Publish"@,
            Message::PublishSkipped(_) => "PublishSkipped"@,
            Message::PublishDone(_) => "PublishDone"@,
            Message::GoAway(_) => "GoAway"@,
            Message::RequestOk(_) => "RequestOk"@,
            Message::RequestError(_) => "RequestError"@,
            Message::RequestUpdate(_) => "RequestUpdate"@,
        }
    }

    /// The name of the message.
    pub fn name(&self) -> (name: &'static str)
        ensures
            name@ == self.spec_name(),
    {
        match self {
            Message::Subscribe(_) => "Subscribe",
            Message::SubscribeOk(_) => "SubscribeOk",
            Message::PublishNamespace(_) => "PublishNamespace",
            Message::Namespace(_) => "Namespace",
            Message::NamespaceDone(_) => "NamespaceDone",
            Message::TrackStatus(_) => "TrackStatus",
            Message::SubscribeNamespace(_) => "SubscribeNamespace",
            Message::SubscribeTracks(_) => "SubscribeTracks",
            Message::Fetch(_) => "Fetch",
            Message::FetchOk(_) => "FetchOk",
            Message::Publish(_) => "Publish",
            Message::PublishSkipped(_) => "PublishSkipped",
            Message::PublishDone(_) => "PublishDone",
            Message::GoAway(_) => "GoAway",
            Message::RequestOk(_) => "RequestOk",
            Message::RequestError(_) => "RequestError",
            Message::RequestUpdate(_) => "RequestUpdate",
        }
    }

    /// The request that a response answers.
    pub open spec fn answers(&self) -> Option<u64> {
        match self {
            Message::SubscribeOk(m) => Some(m.id),
            Message::FetchOk(m) => Some(m.id),
            Message::PublishDone(m) => Some(m.id),
            Message::RequestOk(m) => Some(m.id),
            Message::RequestError(m) => Some(m.id),
            _ => None,
        }
    }

    /// The request that a response answers; `None` for any other message.
    pub fn response_target_id(&self) -> (id: Option<u64>)
        ensures
            id == self.answers(),
    {
        match self {
            Message::SubscribeOk(m) => Some(m.id),
            Message::FetchOk(m) => Some(m.id),
            Message::PublishDone(m) => Some(m.id),
            Message::RequestOk(m) => Some(m.id),
            Message::RequestError(m) => Some(m.id),
            _ => None,
        }
    }

    /// The request ID that a message consumes.
    pub open spec fn consumes(&self) -> Option<u64> {
        match self {
            Message::Subscribe(m) => Some(m.id),
            Message::PublishNamespace(m) => Some(m.id),
            Message::TrackStatus(m) => Some(m.id),
            Message::SubscribeNamespace(m) => Some(m.id),
            Message::SubscribeTracks(m) => Some(m.id),
            Message::Fetch(m) => Some(m.id),
            Message::Publish(m) => Some(m.id),
            Message::RequestUpdate(m) => Some(m.id),
            _ => None,
        }
    }

    /// The request ID that a message consumes; `None` if it consumes none.
    pub fn sequenced_request_id(&self) -> (id: Option<u64>)
        ensures
            id == self.consumes(),
    {
        match self {
            Message::Subscribe(m) => Some(m.id),
            Message::PublishNamespace(m) => Some(m.id),
            Message::TrackStatus(m) => Some(m.id),
            Message::SubscribeNamespace(m) => Some(m.id),
            Message::SubscribeTracks(m) => Some(m.id),
            Message::Fetch(m) => Some(m.id),
            Message::Publish(m) => Some(m.id),
            Message::RequestUpdate(m) => Some(m.id),
            _ => None,
        }
    }

    /// The message as one that a subscriber sends, if subscribers send it.
    pub open spec fn from_subscriber(self) -> Option<Subscriber> {
        match self {
            Message::Subscribe(m) => Some(Subscriber::Subscribe(m)),
            Message::RequestUpdate(m) => Some(Subscriber::RequestUpdate(m)),
            Message::RequestOk(m) => Some(Subscriber::RequestOk(m)),
            Message::RequestError(m) => Some(Subscriber::RequestError(m)),
            Message::Fetch(m) => Some(Subscriber::Fetch(m)),
            Message::TrackStatus(m) => Some(Subscriber::TrackStatus(m)),
            Message::SubscribeNamespace(m) => Some(Subscriber::SubscribeNamespace(m)),
            _ => None,
        }
    }

    /// The message as one that a subscriber sends, if subscribers send it.
    pub fn into_subscriber_message(self) -> (msg: Option<Subscriber>)
        ensures
            msg == self.from_subscriber(),
    {
        match self {
            Message::Subscribe(m) => Some(Subscriber::Subscribe(m)),
            Message::RequestUpdate(m) => Some(Subscriber::RequestUpdate(m)),
            Message::RequestOk(m) => Some(Subscriber::RequestOk(m)),
            Message::RequestError(m) => Some(Subscriber::RequestError(m)),
            Message::Fetch(m) => Some(Subscriber::Fetch(m)),
            Message::TrackStatus(m) => Some(Subscriber::TrackStatus(m)),
            Message::SubscribeNamespace(m) => Some(Subscriber::SubscribeNamespace(m)),
            _ => None,
        }
    }

    /// Who a message is for. The shared responses go to the subscriber.
    pub open spec fn routed(self) -> Routed {
        match self {
            Message::PublishNamespace(m) => Routed::ToSubscriber(Publisher::PublishNamespace(m)),
            Message::Publish(m) => Routed::ToSubscriber(Publisher::Publish(m)),
            Message::PublishDone(m) => Routed::ToSubscriber(Publisher::PublishDone(m)),
            Message::SubscribeOk(m) => Routed::ToSubscriber(Publisher::SubscribeOk(m)),
            Message::RequestOk(m) => Routed::ToSubscriber(Publisher::RequestOk(m)),
            Message::RequestError(m) => Routed::ToSubscriber(Publisher::RequestError(m)),
            Message::FetchOk(m) => Routed::ToSubscriber(Publisher::FetchOk(m)),
            Message::Subscribe(m) => Routed::ToPublisher(Subscriber::Subscribe(m)),
            Message::RequestUpdate(m) => Routed::ToPublisher(Subscriber::RequestUpdate(m)),
            Message::Fetch(m) => Routed::ToPublisher(Subscriber::Fetch(m)),
            Message::TrackStatus(m) => Routed::ToPublisher(Subscriber::TrackStatus(m)),
            Message::SubscribeNamespace(m) => Routed::ToPublisher(Subscriber::SubscribeNamespace(m)),
            other => Routed::Session(other),
        }
    }

    /// Sends a message to the role that it is for.
    pub fn route(self) -> (target: Routed)
        ensures
            target == self.routed(),
    {
        match self {
            Message::PublishNamespace(m) => Routed::ToSubscriber(Publisher::PublishNamespace(m)),
            Message::Publish(m) => Routed::ToSubscriber(Publisher::Publish(m)),
            Message::PublishDone(m) => Routed::ToSubscriber(Publisher::PublishDone(m)),
            Message::SubscribeOk(m) => Routed::ToSubscriber(Publisher::SubscribeOk(m)),
            Message::RequestOk(m) => Routed::ToSubscriber(Publisher::RequestOk(m)),
            Message::RequestError(m) => Routed::ToSubscriber(Publisher::RequestError(m)),
            Message::FetchOk(m) => Routed::ToSubscriber(Publisher::FetchOk(m)),
            Message::Subscribe(m) => Routed::ToPublisher(Subscriber::Subscribe(m)),
            Message::RequestUpdate(m) => Routed::ToPublisher(Subscriber::RequestUpdate(m)),
            Message::Fetch(m) => Routed::ToPublisher(Subscriber::Fetch(m)),
            Message::TrackStatus(m) => Routed::ToPublisher(Subscriber::TrackStatus(m)),
            Message::SubscribeNamespace(m) => Routed::ToPublisher(Subscriber::SubscribeNamespace(m)),
            other => Routed::Session(other),
        }
    }
}

impl Publisher {
    /// The message as it is sent. That a namespace is withdrawn is told by the
    /// end of its request stream.
    pub open spec fn message(self) -> Option<Message> {
        match self {
            Publisher::PublishNamespace(m) => Some(Message::PublishNamespace(m)),
            Publisher::PublishNamespaceDone(_) => None,
            Publisher::Publish(m) => Some(Message::Publish(m)),
            Publisher::PublishDone(m) => Some(Message::PublishDone(m)),
            Publisher::SubscribeOk(m) => Some(Message::SubscribeOk(m)),
            Publisher::RequestOk(m) => Some(Message::RequestOk(m)),
            Publisher::RequestError(m) => Some(Message::RequestError(m)),
            Publisher::FetchOk(m) => Some(Message::FetchOk(m)),
        }
    }

    pub fn into_message(self) -> (msg: Option<Message>)
        ensures
            msg == self.message(),
    {
        match self {
            Publisher::PublishNamespace(m) => Some(Message::PublishNamespace(m)),
            Publisher::PublishNamespaceDone(_) => None,
            Publisher::Publish(m) => Some(Message::Publish(m)),
            Publisher::PublishDone(m) => Some(Message::PublishDone(m)),
            Publisher::SubscribeOk(m) => Some(Message::SubscribeOk(m)),
            Publisher::RequestOk(m) => Some(Message::RequestOk(m)),
            Publisher::RequestError(m) => Some(Message::RequestError(m)),
            Publisher::FetchOk(m) => Some(Message::FetchOk(m)),
        }
    }
}

impl Subscriber {
    /// The message as it is sent. Requests are given up by resetting their
    /// streams.
    pub open spec fn message(self) -> Option<Message> {
        match self {
            Subscriber::Subscribe(m) => Some(Message::Subscribe(m)),
            Subscriber::RequestUpdate(m) => Some(Message::RequestUpdate(m)),
            Subscriber::RequestOk(m) => Some(Message::RequestOk(m)),
            Subscriber::RequestError(m) => Some(Message::RequestError(m)),
            Subscriber::Fetch(m) => Some(Message::Fetch(m)),
            Subscriber::TrackStatus(m) => Some(Message::TrackStatus(m)),
            Subscriber::SubscribeNamespace(m) => Some(Message::SubscribeNamespace(m)),
            _ => None,
        }
    }

    pub fn into_message(self) -> (msg: Option<Message>)
        ensures
            msg == self.message(),
    {
        match self {
            Subscriber::Subscribe(m) => Some(Message::Subscribe(m)),
            Subscriber::RequestUpdate(m) => Some(Message::RequestUpdate(m)),
            Subscriber::RequestOk(m) => Some(Message::RequestOk(m)),
            Subscriber::RequestError(m) => Some(Message::RequestError(m)),
            Subscriber::Fetch(m) => Some(Message::Fetch(m)),
            Subscriber::TrackStatus(m) => Some(Message::TrackStatus(m)),
            Subscriber::SubscribeNamespace(m) => Some(Message::SubscribeNamespace(m)),
            _ => None,
        }
    }
}

} // verus!
