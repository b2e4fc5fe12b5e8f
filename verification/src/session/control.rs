//! The control stream: whom a message is for, and what is logged of it.

use vstd::prelude::*;

use super::error::{SessionError, SessionFault};
use super::publisher::{Publisher, PublisherEvent};
use super::request_id::RequestId;
use super::subscriber::{Subscriber, SubscriberEvent};
use super::Session;
use crate::coding::{TrackName, TrackNamespace};
use crate::message;
use crate::message::messages::Routed;
use crate::message::{FetchType, Message};
use crate::text::concat2;

verus! {

/// What a message from the peer came to.
#[derive(Debug)]
pub enum Dispatched {
    Subscriber(SubscriberEvent),
    Publisher(PublisherEvent),
    /// The message is for neither role.
    Unrouted(Message),
}

impl Session {
    /// Whether a message was handed to the role that it is for. A role that
    /// the session does not play is a violation.
    pub open spec fn dispatched(
        msg: Message,
        publishers: (Option<Publisher>, Option<Publisher>),
        subscribers: (Option<Subscriber>, Option<Subscriber>),
        result: Result<Dispatched, SessionError>,
    ) -> bool {
        match msg.routed() {
            Routed::ToSubscriber(msg) => {
                &&& publishers.1 == publishers.0
                &&& match subscribers.0 {
                    None => {
                        &&& result matches Err(error) && error@ == SessionFault::RoleViolation
                        &&& subscribers.1 is None
                    },
                    Some(before) => {
                        &&& subscribers.1 is Some
                        &&& !(result matches Ok(Dispatched::Publisher(_)))
                        &&& !(result matches Ok(Dispatched::Unrouted(_)))
                        &&& Subscriber::received(
                            before,
                            subscribers.1->0,
                            msg,
                            match result {
                                Ok(Dispatched::Subscriber(event)) => Ok(event),
                                Ok(_) => Ok(SubscriberEvent::Nothing),
                                Err(error) => Err(error),
                            },
                        )
                    },
                }
            },
            Routed::ToPublisher(msg) => {
                &&& subscribers.1 == subscribers.0
                &&& match publishers.0 {
                    None => {
                        &&& result matches Err(error) && error@ == SessionFault::RoleViolation
                        &&& publishers.1 is None
                    },
                    Some(before) => {
                        &&& publishers.1 is Some
                        &&& !(result matches Ok(Dispatched::Subscriber(_)))
                        &&& !(result matches Ok(Dispatched::Unrouted(_)))
                        &&& Publisher::received(
                            before,
                            publishers.1->0,
                            msg,
                            match result {
                                Ok(Dispatched::Publisher(event)) => Ok(event),
                                Ok(_) => Ok(PublisherEvent::Nothing),
                                Err(error) => Err(error),
                            },
                        )
                    },
                }
            },
            Routed::Session(msg) => {
                &&& publishers.1 == publishers.0
                &&& subscribers.1 == subscribers.0
                &&& result == Ok::<Dispatched, SessionError>(Dispatched::Unrouted(msg))
            },
        }
    }

    /// Hands a message to the role that it is for.
    pub fn dispatch(
        msg: Message,
        publisher: &mut Option<Publisher>,
        subscriber: &mut Option<Subscriber>,
    ) -> (result: Result<Dispatched, SessionError>)
        ensures
            Session::dispatched(
                msg,
                (*old(publisher), *final(publisher)),
                (*old(subscriber), *final(subscriber)),
                result,
            ),
    {
        match msg.route() {
            Routed::ToSubscriber(msg) => match subscriber {
                Some(subscriber) => match subscriber.recv_message(msg) {
                    Ok(event) => Ok(Dispatched::Subscriber(event)),
                    Err(error) => Err(error),
                },
                None => Err(SessionError::RoleViolation),
            },
            Routed::ToPublisher(msg) => match publisher {
                Some(publisher) => match publisher.recv_message(msg) {
                    Ok(event) => Ok(Dispatched::Publisher(event)),
                    Err(error) => Err(error),
                },
                None => Err(SessionError::RoleViolation),
            },
            Routed::Session(msg) => Ok(Dispatched::Unrouted(msg)),
        }
    }
}

/// The receiving end of the control stream.
#[derive(Clone, Copy, Debug, PartialEq, Eq, Structural)]
pub struct ControlReceiver {
    pub goaway_received: bool,
}

/// What a message that is for neither role asks for.
#[derive(Debug)]
pub enum ControlEvent {
    Subscriber(SubscriberEvent),
    Publisher(PublisherEvent),
    /// The peer asks to move to another session.
    GoAway(message::GoAway),
}

impl ControlReceiver {
    pub fn new() -> (receiver: Self)
        ensures
            !receiver.goaway_received,
    {
        ControlReceiver { goaway_received: false }
    }

    /// Whether a message whose request ID is in order was taken. The peer may
    /// ask to move once; other messages that are for neither role end the
    /// session.
    pub open spec fn taken(
        receivers: (ControlReceiver, ControlReceiver),
        msg: Message,
        publishers: (Option<Publisher>, Option<Publisher>),
        subscribers: (Option<Subscriber>, Option<Subscriber>),
        result: Result<ControlEvent, SessionError>,
    ) -> bool {
        match msg.routed() {
            Routed::Session(Message::GoAway(goaway)) => {
                &&& publishers.1 == publishers.0
                &&& subscribers.1 == subscribers.0
                &&& receivers.1.goaway_received
                &&& if receivers.0.goaway_received {
                    result matches Err(error) && error@ == SessionFault::ProtocolViolation(
                        "received multiple GOAWAY messages"@,
                    )
                } else {
                    result == Ok::<ControlEvent, SessionError>(ControlEvent::GoAway(goaway))
                }
            },
            Routed::Session(other) => {
                &&& publishers.1 == publishers.0
                &&& subscribers.1 == subscribers.0
                &&& receivers.1 == receivers.0
                &&& result matches Err(error) && error@ == SessionFault::Unimplemented(
                    "message type "@ + other.spec_name(),
                )
            },
            _ => {
                &&& receivers.1 == receivers.0
                &&& !(result matches Ok(ControlEvent::GoAway(_)))
                &&& Session::dispatched(
                    msg,
                    publishers,
                    subscribers,
                    match result {
                        Ok(ControlEvent::Subscriber(event)) => Ok(Dispatched::Subscriber(event)),
                        Ok(ControlEvent::Publisher(event)) => Ok(Dispatched::Publisher(event)),
                        Ok(ControlEvent::GoAway(goaway)) => Ok(
                            Dispatched::Unrouted(Message::GoAway(goaway)),
                        ),
                        Err(error) => Err(error),
                    },
                )
            },
        }
    }

    /// Takes a message. One whose request ID is not in order ends the session
    /// before anybody sees it.
    pub fn receive(
        &mut self,
        msg: Message,
        ids: &mut RequestId,
        publisher: &mut Option<Publisher>,
        subscriber: &mut Option<Subscriber>,
    ) -> (result: Result<ControlEvent, SessionError>)
        ensures
            RequestId::consumed(*old(ids), *final(ids), msg.consumes()),
            if !old(ids).admits_any(msg.consumes()) {
                &&& result matches Err(error) && error@ == SessionFault::InvalidRequestId
                &&& *final(publisher) == *old(publisher)
                &&& *final(subscriber) == *old(subscriber)
                &&& *final(self) == *old(self)
            } else {
                ControlReceiver::taken(
                    (*old(self), *final(self)),
                    msg,
                    (*old(publisher), *final(publisher)),
                    (*old(subscriber), *final(subscriber)),
                    result,
                )
            },
    {
        ids.consume(msg.sequenced_request_id())?;
        match Session::dispatch(msg, publisher, subscriber)? {
            Dispatched::Subscriber(event) => Ok(ControlEvent::Subscriber(event)),
            Dispatched::Publisher(event) => Ok(ControlEvent::Publisher(event)),
            Dispatched::Unrouted(Message::GoAway(goaway)) => {
                if self.goaway_received {
                    return Err(SessionError::violation("received multiple GOAWAY messages"));
                }
                self.goaway_received = true;
                Ok(ControlEvent::GoAway(goaway))
            },
            Dispatched::Unrouted(other) => {
                let text = concat2("message type ", other.name());
                Err(SessionError::Unimplemented(text))
            },
        }
    }
}

/// A value that is logged.
#[derive(Debug)]
pub enum LogValue {
    Number(u64),
    Flag(bool),
    Namespace(TrackNamespace),
    Name(TrackName),
    Fetch(FetchType),
    Text(String),
}

/// The model of a [`LogValue`].
pub enum LogValueView {
    Number(u64),
    Flag(bool),
    Namespace(Seq<Seq<u8>>),
    Name(Seq<u8>),
    Fetch(FetchType),
    Text(Seq<char>),
}

impl View for LogValue {
    type V = LogValueView;

    open spec fn view(&self) -> LogValueView {
        match self {
            LogValue::Number(value) => LogValueView::Number(*value),
            LogValue::Flag(value) => LogValueView::Flag(*value),
            LogValue::Namespace(value) => LogValueView::Namespace(value@),
            LogValue::Name(value) => LogValueView::Name(value@),
            LogValue::Fetch(value) => LogValueView::Fetch(*value),
            LogValue::Text(value) => LogValueView::Text(value@),
        }
    }
}

/// What is logged of a control message: its type and the fields by which it is
/// found again. Parameters and payloads are not logged.
#[derive(Debug)]
pub struct ControlRecord {
    pub msg_type: &'static str,
    pub fields: Vec<(&'static str, LogValue)>,
}

/// The model of a [`ControlRecord`].
pub struct RecordView {
    pub msg_type: Seq<char>,
    pub fields: Seq<(Seq<char>, LogValueView)>,
}

impl View for ControlRecord {
    type V = RecordView;

    open spec fn view(&self) -> RecordView {
        RecordView {
            msg_type: self.msg_type@,
            fields: self.fields@.map_values(
                |field: (&'static str, LogValue)| (field.0@, field.1@),
            ),
        }
    }
}

/// What is logged of a control message.
pub open spec fn logged(msg: &Message) -> RecordView {
    match msg {
        Message::Subscribe(m) => RecordView {
            msg_type: "SUBSCRIBE"@,
            fields: seq![
                ("subscribe_id"@, LogValueView::Number(m.id)),
                ("namespace"@, LogValueView::Namespace(m.track_namespace@)),
                ("track_name"@, LogValueView::Name(m.track_name@)),
            ],
        },
        Message::SubscribeOk(m) => RecordView {
            msg_type: "SUBSCRIBE_OK"@,
            fields: seq![
                ("subscribe_id"@, LogValueView::Number(m.id)),
                ("track_alias"@, LogValueView::Number(m.track_alias)),
            ],
        },
        Message::PublishNamespace(m) => RecordView {
            msg_type: "PUBLISH_NAMESPACE"@,
            fields: seq![
                ("request_id"@, LogValueView::Number(m.id)),
                ("namespace"@, LogValueView::Namespace(m.track_namespace@)),
            ],
        },
        Message::Namespace(m) => RecordView {
            msg_type: "NAMESPACE"@,
            fields: seq![
                ("namespace_suffix"@, LogValueView::Namespace(m.track_namespace_suffix@)),
            ],
        },
        Message::NamespaceDone(m) => RecordView {
            msg_type: "NAMESPACE_DONE"@,
            fields: seq![
                ("namespace_suffix"@, LogValueView::Namespace(m.track_namespace_suffix@)),
            ],
        },
        Message::TrackStatus(m) => RecordView {
            msg_type: "TRACK_STATUS"@,
            fields: seq![
                ("request_id"@, LogValueView::Number(m.id)),
                ("namespace"@, LogValueView::Namespace(m.track_namespace@)),
                ("track_name"@, LogValueView::Name(m.track_name@)),
            ],
        },
        Message::SubscribeNamespace(m) => RecordView {
            msg_type: "SUBSCRIBE_NAMESPACE"@,
            fields: seq![
                ("request_id"@, LogValueView::Number(m.id)),
                ("namespace_prefix"@, LogValueView::Namespace(m.track_namespace_prefix@)),
            ],
        },
        Message::SubscribeTracks(m) => RecordView {
            msg_type: "SUBSCRIBE_TRACKS"@,
            fields: seq![
                ("request_id"@, LogValueView::Number(m.id)),
                ("namespace_prefix"@, LogValueView::Namespace(m.track_namespace_prefix@)),
            ],
        },
        Message::Fetch(m) => RecordView {
            msg_type: "FETCH"@,
            fields: seq![
                ("request_id"@, LogValueView::Number(m.id)),
                ("fetch_type"@, LogValueView::Fetch(m.fetch_type)),
            ],
        },
        Message::FetchOk(m) => RecordView {
            msg_type: "FETCH_OK"@,
            fields: seq![
                ("request_id"@, LogValueView::Number(m.id)),
                ("end_of_track"@, LogValueView::Flag(m.end_of_track)),
            ],
        },
        Message::Publish(m) => RecordView {
            msg_type: "PUBLISH"@,
            fields: seq![
                ("request_id"@, LogValueView::Number(m.id)),
                ("namespace"@, LogValueView::Namespace(m.track_namespace@)),
                ("track_name"@, LogValueView::Name(m.track_name@)),
                ("track_alias"@, LogValueView::Number(m.track_alias)),
            ],
        },
        Message::PublishSkipped(m) => RecordView {
            msg_type: "PUBLISH_SKIPPED"@,
            fields: seq![
                ("namespace_suffix"@, LogValueView::Namespace(m.track_namespace_suffix@)),
                ("track_name"@, LogValueView::Name(m.track_name@)),
            ],
        },
        Message::PublishDone(m) => RecordView {
            msg_type: "PUBLISH_DONE"@,
            fields: seq![
                ("request_id"@, LogValueView::Number(m.id)),
                ("status_code"@, LogValueView::Number(m.status_code)),
                ("stream_count"@, LogValueView::Number(m.stream_count)),
            ],
        },
        Message::GoAway(m) => RecordView {
            msg_type: "GOAWAY"@,
            fields: seq![
                ("uri"@, LogValueView::Text(m.uri.0@)),
                ("timeout_ms"@, LogValueView::Number(m.timeout)),
            ],
        },
        Message::RequestOk(m) => RecordView {
            msg_type: "REQUEST_OK"@,
            fields: seq![("request_id"@, LogValueView::Number(m.id))],
        },
        Message::RequestError(m) => RecordView {
            msg_type: "REQUEST_ERROR"@,
            fields: seq![
                ("request_id"@, LogValueView::Number(m.id)),
                ("error_code"@, LogValueView::Number(m.error_code)),
                ("retry_interval"@, LogValueView::Number(m.retry_interval)),
            ],
        },
        Message::RequestUpdate(m) => RecordView {
            msg_type: "REQUEST_UPDATE"@,
            fields: seq![("request_id"@, LogValueView::Number(m.id))],
        },
    }
}

fn one_field(msg_type: &'static str, first: (&'static str, LogValue)) -> (record: ControlRecord)
    ensures
        record@ == (RecordView {
            msg_type: msg_type@,
            fields: seq![(first.0@, first.1@)],
        }),
{
    let mut fields: Vec<(&'static str, LogValue)> = Vec::new();
    fields.push(first);
    let record = ControlRecord { msg_type, fields };
    assert(record@.fields =~= seq![(first.0@, first.1@)]);
    record
}

fn with_field(record: ControlRecord, next: (&'static str, LogValue)) -> (longer: ControlRecord)
    ensures
        longer@ == (RecordView {
            msg_type: record@.msg_type,
            fields: record@.fields.push((next.0@, next.1@)),
        }),
{
    let ghost before = record@.fields;
    let mut longer = record;
    longer.fields.push(next);
    assert(longer@.fields =~= before.push((next.0@, next.1@)));
    longer
}

impl Session {
    /// What is logged of a control message. The caller adds the direction.
    pub fn log_control_message(msg: &Message) -> (record: ControlRecord)
        ensures
            record@ == logged(msg),
    {
        let record = match msg {
            Message::Subscribe(m) => {
                let record = one_field("SUBSCRIBE", ("subscribe_id", LogValue::Number(m.id)));
                let namespace = LogValue::Namespace(m.track_namespace.clone());
                let record = with_field(record, ("namespace", namespace));
                with_field(record, ("track_name", LogValue::Name(m.track_name.clone())))
            },
            Message::SubscribeOk(m) => {
                let record = one_field("SUBSCRIBE_OK", ("subscribe_id", LogValue::Number(m.id)));
                with_field(record, ("track_alias", LogValue::Number(m.track_alias)))
            },
            Message::PublishNamespace(m) => {
                let record = one_field("PUBLISH_NAMESPACE", ("request_id", LogValue::Number(m.id)));
                with_field(record, ("namespace", LogValue::Namespace(m.track_namespace.clone())))
            },
            Message::Namespace(m) => {
                let suffix = LogValue::Namespace(m.track_namespace_suffix.clone());
                one_field("NAMESPACE", ("namespace_suffix", suffix))
            },
            Message::NamespaceDone(m) => {
                let suffix = LogValue::Namespace(m.track_namespace_suffix.clone());
                one_field("NAMESPACE_DONE", ("namespace_suffix", suffix))
            },
            Message::TrackStatus(m) => {
                let record = one_field("TRACK_STATUS", ("request_id", LogValue::Number(m.id)));
                let namespace = LogValue::Namespace(m.track_namespace.clone());
                let record = with_field(record, ("namespace", namespace));
                with_field(record, ("track_name", LogValue::Name(m.track_name.clone())))
            },
            Message::SubscribeNamespace(m) => {
                let record = one_field(
                    "SUBSCRIBE_NAMESPACE",
                    ("request_id", LogValue::Number(m.id)),
                );
                let prefix = LogValue::Namespace(m.track_namespace_prefix.clone());
                with_field(record, ("namespace_prefix", prefix))
            },
            Message::SubscribeTracks(m) => {
                let record = one_field("SUBSCRIBE_TRACKS", ("request_id", LogValue::Number(m.id)));
                let prefix = LogValue::Namespace(m.track_namespace_prefix.clone());
                with_field(record, ("namespace_prefix", prefix))
            },
            Message::Fetch(m) => {
                let record = one_field("FETCH", ("request_id", LogValue::Number(m.id)));
                with_field(record, ("fetch_type", LogValue::Fetch(m.fetch_type)))
            },
            Message::FetchOk(m) => {
                let record = one_field("FETCH_OK", ("request_id", LogValue::Number(m.id)));
                with_field(record, ("end_of_track", LogValue::Flag(m.end_of_track)))
            },
            Message::Publish(m) => {
                let record = one_field("PUBLISH", ("request_id", LogValue::Number(m.id)));
                let namespace = LogValue::Namespace(m.track_namespace.clone());
                let record = with_field(record, ("namespace", namespace));
                let record = with_field(
                    record,
                    ("track_name", LogValue::Name(m.track_name.clone())),
                );
                with_field(record, ("track_alias", LogValue::Number(m.track_alias)))
            },
            Message::PublishSkipped(m) => {
                let suffix = LogValue::Namespace(m.track_namespace_suffix.clone());
                let record = one_field("PUBLISH_SKIPPED", ("namespace_suffix", suffix));
                with_field(record, ("track_name", LogValue::Name(m.track_name.clone())))
            },
            Message::PublishDone(m) => {
                let record = one_field("PUBLISH_DONE", ("request_id", LogValue::Number(m.id)));
                let record = with_field(record, ("status_code", LogValue::Number(m.status_code)));
                with_field(record, ("stream_count", LogValue::Number(m.stream_count)))
            },
            Message::GoAway(m) => {
                let record = one_field("GOAWAY", ("uri", LogValue::Text(m.uri.0.clone())));
                with_field(record, ("timeout_ms", LogValue::Number(m.timeout)))
            },
            Message::RequestOk(m) => one_field(
                "REQUEST_OK",
                ("request_id", LogValue::Number(m.id)),
            ),
            Message::RequestError(m) => {
                let record = one_field("REQUEST_ERROR", ("request_id", LogValue::Number(m.id)));
                let record = with_field(record, ("error_code", LogValue::Number(m.error_code)));
                with_field(record, ("retry_interval", LogValue::Number(m.retry_interval)))
            },
            Message::RequestUpdate(m) => one_field(
                "REQUEST_UPDATE",
                ("request_id", LogValue::Number(m.id)),
            ),
        };
        assert(record@.fields =~= logged(msg).fields);
        record
    }
}

} // verus!
