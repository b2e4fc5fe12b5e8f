//! The publisher of a session: what it offers, and who is subscribed to it.

use std::collections::HashMap;

use vstd::prelude::*;

use super::error::{SessionError, SessionFault};
use super::registry::{
    distinct_names, distinct_namespaces, dropping_keeps_names_distinct, has_name, has_namespace,
    namespace_request, only_matching_names_are_dropped, request_row, withdrawal_keeps_distinct,
    without_request, without_subscription, NameRow, NamespaceRow, NamespaceTable, SubscribedNames,
};
use super::request_id::RequestId;
use super::subscribe::{info_of, InfoView};
use super::subscribed::{Farewell, ServingView, Subscribed, SubscribedRecv, SubscriptionInitiator};
use super::subscriber::{not_supported, refuses_unsupported};
use crate::coding::{KeyValuePairs, ReasonPhrase, TrackNamespace};
use crate::message;
use crate::message::RequestErrorCode;
use crate::serve::error::ServeFault;
use crate::serve::track::FullName;
use crate::serve::{FullTrackName, ServeError};
use crate::text::{concat2, concat3, decimal, digits};

verus! {

/// The publisher of a session.
#[derive(Debug)]
pub struct Publisher {
    /// The namespaces that this endpoint offers.
    publish_namespaces: NamespaceTable,
    /// The subscriptions of the peer, by request ID.
    subscribeds: HashMap<u64, SubscribedRecv>,
    /// The subscriptions of the peer, by track.
    subscribed_names: SubscribedNames,
    /// The messages that wait to be sent.
    outgoing: Vec<message::Publisher>,
}

/// The model of a subscription's state: whether somebody serves it, and how far
/// that has come.
pub struct ServedView {
    pub live: bool,
    pub serving: ServingView,
}

/// The model of a [`Publisher`].
pub struct PublisherView {
    pub namespaces: Seq<NamespaceRow>,
    pub subscribeds: Map<u64, ServedView>,
    pub names: Seq<NameRow>,
}

/// The model of a [`SubscribedRecv`].
pub open spec fn served_view(recv: SubscribedRecv) -> ServedView {
    ServedView { live: recv.state.live, serving: recv.state.value@ }
}

impl View for Publisher {
    type V = PublisherView;

    closed spec fn view(&self) -> PublisherView {
        PublisherView {
            namespaces: self.publish_namespaces@,
            subscribeds: self.subscribeds@.map_values(|recv: SubscribedRecv| served_view(recv)),
            names: self.subscribed_names@,
        }
    }
}

/// What a message from the subscriber means to the application.
#[derive(Debug)]
pub enum PublisherEvent {
    Nothing,
    /// A track is asked for; `namespace_request` is the request that offered
    /// its namespace, or none if the namespace is not offered.
    Subscribed { subscribed: Subscribed, namespace_request: Option<u64> },
    /// The state of a track is asked for.
    TrackStatusRequested { request: message::TrackStatus, namespace_request: Option<u64> },
    /// A namespace that was offered is accepted.
    NamespaceAccepted { request_id: u64 },
    /// A namespace that was offered is refused, or given up again.
    NamespaceClosed { namespace: TrackNamespace, cause: ServeError },
    /// A subscription ended from the peer's side.
    Unsubscribed { id: u64, recv: SubscribedRecv },
}

/// The model of a [`PublisherEvent`].
pub enum PublisherEventView {
    Nothing,
    Subscribed { info: InfoView, namespace_request: Option<u64> },
    TrackStatusRequested { request: message::TrackStatus, namespace_request: Option<u64> },
    NamespaceAccepted { request_id: u64 },
    NamespaceClosed { namespace: Seq<Seq<u8>>, cause: ServeFault },
    Unsubscribed { id: u64, served: ServedView },
}

impl View for PublisherEvent {
    type V = PublisherEventView;

    open spec fn view(&self) -> PublisherEventView {
        match self {
            PublisherEvent::Nothing => PublisherEventView::Nothing,
            PublisherEvent::Subscribed { subscribed, namespace_request } => {
                PublisherEventView::Subscribed {
                    info: subscribed.info@,
                    namespace_request: *namespace_request,
                }
            },
            PublisherEvent::TrackStatusRequested { request, namespace_request } => {
                PublisherEventView::TrackStatusRequested {
                    request: *request,
                    namespace_request: *namespace_request,
                }
            },
            PublisherEvent::NamespaceAccepted { request_id } => {
                PublisherEventView::NamespaceAccepted { request_id: *request_id }
            },
            PublisherEvent::NamespaceClosed { namespace, cause } => {
                PublisherEventView::NamespaceClosed { namespace: namespace@, cause: cause@ }
            },
            PublisherEvent::Unsubscribed { id, recv } => PublisherEventView::Unsubscribed {
                id: *id,
                served: served_view(*recv),
            },
        }
    }
}

/// The model of what a message came to.
pub open spec fn publisher_outcome(result: Result<PublisherEvent, SessionError>) -> Result<
    PublisherEventView,
    SessionFault,
> {
    match result {
        Ok(event) => Ok(event@),
        Err(error) => Err(error@),
    }
}

impl PublisherView {
    /// The publisher without one subscription and its name.
    pub open spec fn without(self, id: u64) -> PublisherView {
        PublisherView {
            subscribeds: self.subscribeds.remove(id),
            names: without_subscription(self.names, id),
            ..self
        }
    }

    /// Whether a SUBSCRIBE repeats a subscription: its request or its track is
    /// in use.
    pub open spec fn repeats(self, id: u64, name: FullName) -> bool {
        self.subscribeds.contains_key(id) || has_name(self.names, name)
    }

    /// A track is asked for.
    pub open spec fn asked(self, msg: message::Subscribe) -> (
        PublisherView,
        Result<PublisherEventView, SessionFault>,
    ) {
        let name = FullName { namespace: msg.track_namespace@, name: msg.track_name@ };
        if self.repeats(msg.id, name) {
            (self, Ok(PublisherEventView::Nothing))
        } else {
            match info_of(msg.id, name, msg.params@) {
                Ok(info) => (
                    PublisherView {
                        subscribeds: self.subscribeds.insert(
                            msg.id,
                            ServedView { live: true, serving: ServingView::fresh(info.forward) },
                        ),
                        names: self.names.push(NameRow { name, request_id: msg.id }),
                        ..self
                    },
                    Ok(
                        PublisherEventView::Subscribed {
                            info,
                            namespace_request: namespace_request(
                                self.namespaces,
                                msg.track_namespace@,
                            ),
                        },
                    ),
                ),
                Err(fault) => (self, Err(fault)),
            }
        }
    }

    /// A subscription is ended by the peer. Ending one that is not known is a
    /// violation.
    pub open spec fn unsubscribed(self, id: u64) -> (
        PublisherView,
        Result<PublisherEventView, SessionFault>,
    ) {
        if self.subscribeds.contains_key(id) {
            let served = self.subscribeds[id];
            let serving = if served.live {
                ServingView {
                    peer_rejected: true,
                    closed: Some(ServeFault::Cancel),
                    ..served.serving
                }
            } else {
                served.serving
            };
            (
                self.without(id),
                Ok(
                    PublisherEventView::Unsubscribed {
                        id,
                        served: ServedView { serving, ..served },
                    },
                ),
            )
        } else {
            (
                self,
                Err(
                    SessionFault::ProtocolViolation(
                        "UNSUBSCRIBE for unknown subscribe ID "@ + digits(id as nat, 10),
                    ),
                ),
            )
        }
    }

    /// A namespace that was offered is closed for a cause.
    pub open spec fn namespace_closed(self, request_id: u64, cause: ServeFault) -> (
        PublisherView,
        Result<PublisherEventView, SessionFault>,
    ) {
        let at = request_row(self.namespaces, request_id);
        (
            PublisherView { namespaces: without_request(self.namespaces, request_id), ..self },
            if at < self.namespaces.len() {
                Ok(
                    PublisherEventView::NamespaceClosed {
                        namespace: self.namespaces[at].namespace,
                        cause,
                    },
                )
            } else {
                Ok(PublisherEventView::Nothing)
            },
        )
    }

    /// What a message from the subscriber does.
    pub open spec fn receives(self, msg: message::Subscriber) -> (
        PublisherView,
        Result<PublisherEventView, SessionFault>,
    ) {
        match msg {
            message::Subscriber::Subscribe(msg) => self.asked(msg),
            message::Subscriber::RequestOk(msg) => (
                self,
                if request_row(self.namespaces, msg.id) < self.namespaces.len() {
                    Ok(PublisherEventView::NamespaceAccepted { request_id: msg.id })
                } else {
                    Ok(PublisherEventView::Nothing)
                },
            ),
            message::Subscriber::RequestError(msg) => self.namespace_closed(
                msg.id,
                ServeFault::Closed(msg.error_code),
            ),
            message::Subscriber::PublishNamespaceCancel(msg) => self.namespace_closed(
                msg.id,
                ServeFault::Cancel,
            ),
            message::Subscriber::Unsubscribe(msg) => self.unsubscribed(msg.id),
            message::Subscriber::TrackStatus(msg) => (
                self,
                Ok(
                    PublisherEventView::TrackStatusRequested {
                        request: msg,
                        namespace_request: namespace_request(
                            self.namespaces,
                            msg.track_namespace@,
                        ),
                    },
                ),
            ),
            _ => (self, Ok(PublisherEventView::Nothing)),
        }
    }

    /// The request that a message is refused with, as not supported.
    pub open spec fn unsupported(msg: message::Subscriber) -> Option<u64> {
        match msg {
            message::Subscriber::RequestUpdate(msg) => Some(msg.id),
            message::Subscriber::Fetch(msg) => Some(msg.id),
            message::Subscriber::SubscribeNamespace(msg) => Some(msg.id),
            _ => None,
        }
    }
}

/// Whether a message refuses a subscription as a repetition.
pub open spec fn refuses_repetition(msg: message::RequestError, request_id: u64) -> bool {
    &&& msg.id == request_id
    &&& msg.error_code == RequestErrorCode::DuplicateSubscription.spec_code()
    &&& msg.retry_interval == 0
    &&& msg.reason.0@ == "duplicate subscription"@
    &&& msg.redirect is None
}

/// Once a subscription ended, its track can be asked for again.
pub proof fn ended_subscription_can_be_repeated(
    publisher: PublisherView,
    id: u64,
    name: FullName,
)
    requires
        forall|i: int|
            0 <= i < publisher.names.len() && (#[trigger] publisher.names[i]).name == name
                ==> publisher.names[i].request_id == id,
    ensures
        !publisher.without(id).repeats(id, name),
{
    let after = publisher.without(id);
    if has_name(after.names, name) {
        let i = choose|i: int| 0 <= i < after.names.len() && (#[trigger] after.names[i]).name
            == name;
        let row = after.names[i];
        assert(after.names.contains(row));
        only_matching_names_are_dropped(publisher.names, id, row);
        let j = choose|j: int| 0 <= j < publisher.names.len() && publisher.names[j] == row;
        assert(publisher.names[j].name == name);
    }
}

/// A subscription that is refused as a repetition leaves the one that it
/// repeats as it is.
pub proof fn repetition_changes_nothing(publisher: PublisherView, msg: message::Subscribe)
    requires
        publisher.repeats(
            msg.id,
            FullName { namespace: msg.track_namespace@, name: msg.track_name@ },
        ),
    ensures
        publisher.asked(msg).0 == publisher,
{
}

impl PublisherView {
    /// What holds of a publisher at all times: no namespace is offered twice,
    /// no track is subscribed to twice, and every track that is subscribed to
    /// belongs to a subscription.
    pub open spec fn consistent(self) -> bool {
        &&& distinct_namespaces(self.namespaces)
        &&& distinct_names(self.names)
        &&& forall|i: int|
            0 <= i < self.names.len() ==> self.subscribeds.contains_key(
                (#[trigger] self.names[i]).request_id,
            )
    }
}

/// Forgetting a subscription keeps the publisher consistent.
pub proof fn removal_keeps_consistency(publisher: PublisherView, id: u64)
    requires
        publisher.consistent(),
    ensures
        publisher.without(id).consistent(),
{
    let after = publisher.without(id);
    dropping_keeps_names_distinct(publisher.names, id);
    assert forall|i: int| 0 <= i < after.names.len() implies after.subscribeds.contains_key(
        (#[trigger] after.names[i]).request_id,
    ) by {
        let row = after.names[i];
        assert(after.names.contains(row));
        only_matching_names_are_dropped(publisher.names, id, row);
        let j = choose|j: int| 0 <= j < publisher.names.len() && publisher.names[j] == row;
        assert(publisher.subscribeds.contains_key(publisher.names[j].request_id));
    }
}

/// No message of the peer makes the publisher inconsistent.
pub proof fn receiving_keeps_consistency(publisher: PublisherView, msg: message::Subscriber)
    requires
        publisher.consistent(),
    ensures
        publisher.receives(msg).0.consistent(),
{
    let after = publisher.receives(msg).0;
    match msg {
        message::Subscriber::Subscribe(msg) => {
            assert(publisher.receives(message::Subscriber::Subscribe(msg)).0
                == publisher.asked(msg).0);
            if after != publisher {
                let rows = publisher.names;
                let row = after.names.last();
                assert(after.names == rows.push(row));
                assert(!has_name(rows, row.name));
                assert forall|i: int, j: int| 0 <= i < j < after.names.len() implies (
                #[trigger] after.names[i]).name != (#[trigger] after.names[j]).name by {
                    assert(after.names[i] == rows[i]);
                    if j < rows.len() {
                        assert(after.names[j] == rows[j]);
                    }
                }
                assert forall|i: int| 0 <= i < after.names.len() implies after.subscribeds.contains_key(
                    (#[trigger] after.names[i]).request_id,
                ) by {
                    if i < rows.len() {
                        assert(after.names[i] == rows[i]);
                    }
                }
            }
        },
        message::Subscriber::Unsubscribe(msg) => {
            removal_keeps_consistency(publisher, msg.id);
        },
        message::Subscriber::RequestError(msg) => {
            withdrawal_keeps_distinct(publisher.namespaces, msg.id);
        },
        message::Subscriber::PublishNamespaceCancel(msg) => {
            withdrawal_keeps_distinct(publisher.namespaces, msg.id);
        },
        _ => {},
    }
}

impl Publisher {
    /// The messages that wait to be sent, in order.
    pub closed spec fn sent(self) -> Seq<message::Publisher> {
        self.outgoing@
    }

    /// Whether a message was taken as it should be. A subscription that repeats
    /// one, and a request that is not implemented, are refused; nothing else
    /// is sent. A subscription that is handed on came from the peer and is not
    /// accepted yet.
    pub open spec fn received(
        before: Publisher,
        after: Publisher,
        msg: message::Subscriber,
        result: Result<PublisherEvent, SessionError>,
    ) -> bool {
        &&& (after@, publisher_outcome(result)) == before@.receives(msg)
        &&& result matches Ok(PublisherEvent::Subscribed { subscribed, .. }) ==> !subscribed.ok
            && subscribed.initiator == SubscriptionInitiator::Subscriber
        &&& match msg {
            message::Subscriber::Subscribe(msg) if before@.repeats(
                msg.id,
                FullName { namespace: msg.track_namespace@, name: msg.track_name@ },
            ) => {
                &&& after.sent().len() == before.sent().len() + 1
                &&& after.sent().drop_last() == before.sent()
                &&& after.sent().last() matches message::Publisher::RequestError(reply)
                &&& refuses_repetition(reply, msg.id)
            },
            _ => match PublisherView::unsupported(msg) {
                Some(request_id) => {
                    &&& after.sent().len() == before.sent().len() + 1
                    &&& after.sent().drop_last() == before.sent()
                    &&& after.sent().last() matches message::Publisher::RequestError(reply)
                    &&& refuses_unsupported(reply, request_id)
                },
                None => after.sent() == before.sent(),
            },
        }
    }

    pub fn new() -> (publisher: Self)
        ensures
            publisher@ == (PublisherView {
                namespaces: Seq::empty(),
                subscribeds: Map::empty(),
                names: Seq::empty(),
            }),
            publisher.sent().len() == 0,
    {
        broadcast use vstd::std_specs::hash::group_hash_axioms;

        let publisher = Publisher {
            publish_namespaces: NamespaceTable::new(),
            subscribeds: HashMap::new(),
            subscribed_names: SubscribedNames::new(),
            outgoing: Vec::new(),
        };
        assert(publisher@.subscribeds =~= Map::<u64, ServedView>::empty());
        publisher
    }

    /// Hands out the messages that wait to be sent.
    pub fn take_outgoing(&mut self) -> (messages: Vec<message::Publisher>)
        ensures
            messages@ == old(self).sent(),
            final(self).sent().len() == 0,
            final(self)@ == old(self)@,
    {
        let mut messages: Vec<message::Publisher> = Vec::new();
        std::mem::swap(&mut messages, &mut self.outgoing);
        messages
    }

    /// Takes the state of a subscription out, for a change.
    pub fn take_subscribed(&mut self, id: u64) -> (recv: Option<SubscribedRecv>)
        ensures
            final(self).sent() == old(self).sent(),
            final(self)@ == (PublisherView {
                subscribeds: old(self)@.subscribeds.remove(id),
                ..old(self)@
            }),
            match recv {
                Some(recv) => old(self)@.subscribeds.contains_key(id) && served_view(recv)
                    == old(self)@.subscribeds[id],
                None => !old(self)@.subscribeds.contains_key(id),
            },
    {
        broadcast use vstd::std_specs::hash::group_hash_axioms;

        let ghost before = self@;
        let recv = self.subscribeds.remove(&id);
        assert(self@.subscribeds =~= before.subscribeds.remove(id));
        recv
    }

    /// Puts the state of a subscription back.
    pub fn put_subscribed(&mut self, id: u64, recv: SubscribedRecv)
        ensures
            final(self).sent() == old(self).sent(),
            final(self)@ == (PublisherView {
                subscribeds: old(self)@.subscribeds.insert(id, served_view(recv)),
                ..old(self)@
            }),
    {
        broadcast use vstd::std_specs::hash::group_hash_axioms;

        let ghost before = self@;
        self.subscribeds.insert(id, recv);
        assert(self@.subscribeds =~= before.subscribeds.insert(id, served_view(recv)));
    }

    /// Offers a namespace: the request that is then sent on a stream of its
    /// own. A namespace is offered once at a time.
    pub fn begin_publish_namespace(&mut self, ids: &mut RequestId, namespace: &TrackNamespace) -> (result:
        Result<message::PublishNamespace, SessionError>)
        ensures
            final(self).sent() == old(self).sent(),
            if has_namespace(old(self)@.namespaces, namespace@) {
                &&& result matches Err(error) && error@ == SessionFault::Serve(
                    ServeFault::Duplicate,
                )
                &&& final(self)@ == old(self)@
                &&& *final(ids) == *old(ids)
            } else {
                &&& RequestId::gave_out(*old(ids), *final(ids))
                &&& match old(ids).upcoming() {
                    None => {
                        &&& result matches Err(error) && error@ == SessionFault::InvalidRequestId
                        &&& final(self)@ == old(self)@
                    },
                    Some(id) => {
                        &&& result matches Ok(msg)
                        &&& msg.id == id
                        &&& msg.track_namespace@ == namespace@
                        &&& msg.params@.len() == 0
                        &&& final(self)@ == (PublisherView {
                            namespaces: old(self)@.namespaces.push(
                                NamespaceRow { namespace: namespace@, request_id: id },
                            ),
                            ..old(self)@
                        })
                    },
                }
            },
    {
        if self.publish_namespaces.contains_key(namespace) {
            return Err(SessionError::Serve(ServeError::Duplicate));
        }
        let id: u64 = ids.allocate()?;
        self.publish_namespaces.insert(namespace.clone(), id);
        Ok(
            message::PublishNamespace {
                id,
                track_namespace: namespace.clone(),
                params: KeyValuePairs::default(),
            },
        )
    }

    /// Drops the namespace of a request: its stream could not be opened, or
    /// the namespace is done.
    pub fn drop_publish_namespace(&mut self, id: u64) -> (dropped: Option<TrackNamespace>)
        ensures
            final(self).sent() == old(self).sent(),
            final(self)@ == (PublisherView {
                namespaces: without_request(old(self)@.namespaces, id),
                ..old(self)@
            }),
            match dropped {
                Some(namespace) => {
                    &&& request_row(old(self)@.namespaces, id) < old(self)@.namespaces.len()
                    &&& namespace@ == old(self)@.namespaces[request_row(
                        old(self)@.namespaces,
                        id,
                    )].namespace
                },
                None => request_row(old(self)@.namespaces, id) == old(self)@.namespaces.len(),
            },
    {
        self.publish_namespaces.drop_request(id)
    }

    /// Forgets a subscription and its track.
    pub fn remove_subscribe(&mut self, id: u64)
        ensures
            final(self).sent() == old(self).sent(),
            final(self)@ == old(self)@.without(id),
    {
        let _removed = self.take_subscribed(id);
        self.subscribed_names.drop_subscribed_name(id);
    }

    /// Sends a message to the subscriber. One that ends a subscription or a
    /// namespace forgets it first.
    pub fn send_message(&mut self, msg: message::Publisher)
        ensures
            final(self).sent() == old(self).sent().push(msg),
            final(self)@ == (match msg {
                message::Publisher::PublishDone(msg) => old(self)@.without(msg.id),
                message::Publisher::PublishNamespaceDone(msg) => PublisherView {
                    namespaces: without_request(old(self)@.namespaces, msg.id),
                    ..old(self)@
                },
                _ => old(self)@,
            }),
    {
        match &msg {
            message::Publisher::PublishDone(done) => self.remove_subscribe(done.id),
            message::Publisher::PublishNamespaceDone(done) => {
                let _dropped = self.drop_publish_namespace(done.id);
            },
            _ => {},
        }
        self.outgoing.push(msg);
    }

    /// Ends a subscription that nobody serves any more, and forgets it.
    pub fn bid_farewell(&mut self, farewell: Farewell)
        ensures
            match farewell {
                Farewell::DropPublished(id) => {
                    &&& final(self)@ == old(self)@.without(id)
                    &&& final(self).sent() == old(self).sent()
                },
                Farewell::Done(msg) => {
                    &&& final(self)@ == old(self)@.without(msg.id)
                    &&& final(self).sent() == old(self).sent().push(
                        message::Publisher::PublishDone(msg),
                    )
                },
                Farewell::Refused(msg) => {
                    &&& final(self)@ == old(self)@.without(msg.id)
                    &&& final(self).sent() == old(self).sent().push(
                        message::Publisher::RequestError(msg),
                    )
                },
            },
    {
        match farewell {
            Farewell::DropPublished(id) => self.remove_subscribe(id),
            Farewell::Done(msg) => self.send_message(message::Publisher::PublishDone(msg)),
            Farewell::Refused(msg) => {
                let id: u64 = msg.id;
                self.send_message(message::Publisher::RequestError(msg));
                self.remove_subscribe(id);
            },
        }
    }

    /// Refuses a request that is not implemented.
    pub fn send_not_supported(&mut self, request_id: u64)
        ensures
            final(self)@ == old(self)@,
            final(self).sent().len() == old(self).sent().len() + 1,
            final(self).sent().drop_last() == old(self).sent(),
            final(self).sent().last() matches message::Publisher::RequestError(msg)
                && refuses_unsupported(msg, request_id),
    {
        let ghost before = self.outgoing@;
        self.outgoing.push(message::Publisher::RequestError(not_supported(request_id)));
        assert(self.outgoing@.drop_last() =~= before);
    }

    fn send_duplicate(&mut self, request_id: u64)
        ensures
            final(self)@ == old(self)@,
            final(self).sent().len() == old(self).sent().len() + 1,
            final(self).sent().drop_last() == old(self).sent(),
            final(self).sent().last() matches message::Publisher::RequestError(msg)
                && refuses_repetition(msg, request_id),
    {
        let ghost before = self.outgoing@;
        self.outgoing.push(
            message::Publisher::RequestError(
                message::RequestError {
                    id: request_id,
                    error_code: RequestErrorCode::DuplicateSubscription.code(),
                    retry_interval: 0,
                    reason: ReasonPhrase("duplicate subscription".to_string()),
                    redirect: None,
                },
            ),
        );
        assert(self.outgoing@.drop_last() =~= before);
    }

    /// A track is asked for. A repetition is refused; it does not end the
    /// session.
    fn recv_subscribe(&mut self, msg: message::Subscribe) -> (result: Result<
        PublisherEvent,
        SessionError,
    >)
        ensures
            (final(self)@, publisher_outcome(result)) == old(self)@.asked(msg),
            result matches Ok(PublisherEvent::Subscribed { subscribed, .. }) ==> !subscribed.ok
                && subscribed.initiator == SubscriptionInitiator::Subscriber,
            if old(self)@.repeats(
                msg.id,
                FullName { namespace: msg.track_namespace@, name: msg.track_name@ },
            ) {
                &&& final(self).sent().len() == old(self).sent().len() + 1
                &&& final(self).sent().drop_last() == old(self).sent()
                &&& final(self).sent().last() matches message::Publisher::RequestError(reply)
                &&& refuses_repetition(reply, msg.id)
            } else {
                final(self).sent() == old(self).sent()
            },
    {
        broadcast use vstd::std_specs::hash::group_hash_axioms;

        let full_name = FullTrackName {
            namespace: msg.track_namespace.clone(),
            name: msg.track_name.clone(),
        };
        let ghost before = self@;
        let known = self.subscribeds.contains_key(&msg.id);
        assert(known == before.subscribeds.contains_key(msg.id));
        if known || self.subscribed_names.contains_key(&full_name) {
            self.send_duplicate(msg.id);
            return Ok(PublisherEvent::Nothing);
        }
        let (subscribed, recv) = Subscribed::new(&msg)?;
        self.subscribed_names.insert(full_name, msg.id);
        self.put_subscribed(msg.id, recv);
        let namespace_request = self.publish_namespaces.get(&msg.track_namespace);
        Ok(PublisherEvent::Subscribed { subscribed, namespace_request })
    }

    fn recv_unsubscribe(&mut self, id: u64) -> (result: Result<PublisherEvent, SessionError>)
        ensures
            (final(self)@, publisher_outcome(result)) == old(self)@.unsubscribed(id),
            final(self).sent() == old(self).sent(),
    {
        let ghost before = self@;
        match self.take_subscribed(id) {
            Some(mut recv) => {
                match recv.recv_error(ServeError::Cancel) {
                    Ok(()) => {},
                    Err(error) => {
                        return Err(SessionError::Serve(error));
                    },
                }
                self.subscribed_names.drop_subscribed_name(id);
                Ok(PublisherEvent::Unsubscribed { id, recv })
            },
            None => {
                assert(self@.subscribeds =~= before.subscribeds);
                let text = concat2("UNSUBSCRIBE for unknown subscribe ID ", &decimal(id));
                Err(SessionError::ProtocolViolation(text))
            },
        }
    }

    fn close_namespace(&mut self, request_id: u64, cause: ServeError) -> (event: PublisherEvent)
        ensures
            (final(self)@, Ok::<PublisherEventView, SessionFault>(event@))
                == old(self)@.namespace_closed(request_id, cause@),
            final(self).sent() == old(self).sent(),
    {
        match self.drop_publish_namespace(request_id) {
            Some(namespace) => PublisherEvent::NamespaceClosed { namespace, cause },
            None => PublisherEvent::Nothing,
        }
    }

    /// Takes a message from the subscriber.
    pub fn recv_message(&mut self, msg: message::Subscriber) -> (result: Result<
        PublisherEvent,
        SessionError,
    >)
        ensures
            Publisher::received(*old(self), *final(self), msg, result),
    {
        match msg {
            message::Subscriber::Subscribe(msg) => self.recv_subscribe(msg),
            message::Subscriber::RequestUpdate(msg) => {
                self.send_not_supported(msg.id);
                Ok(PublisherEvent::Nothing)
            },
            // Accepts a namespace that was offered.
            message::Subscriber::RequestOk(msg) => if self.publish_namespaces.has_request(msg.id) {
                Ok(PublisherEvent::NamespaceAccepted { request_id: msg.id })
            } else {
                Ok(PublisherEvent::Nothing)
            },
            // Refuses a namespace that was offered.
            message::Subscriber::RequestError(msg) => Ok(
                self.close_namespace(msg.id, ServeError::Closed(msg.error_code)),
            ),
            message::Subscriber::Unsubscribe(msg) => self.recv_unsubscribe(msg.id),
            message::Subscriber::Fetch(msg) => {
                self.send_not_supported(msg.id);
                Ok(PublisherEvent::Nothing)
            },
            // Nothing is being fetched.
            message::Subscriber::FetchCancel(_) => Ok(PublisherEvent::Nothing),
            message::Subscriber::TrackStatus(msg) => {
                let namespace_request = self.publish_namespaces.get(&msg.track_namespace);
                Ok(PublisherEvent::TrackStatusRequested { request: msg, namespace_request })
            },
            message::Subscriber::SubscribeNamespace(msg) => {
                self.send_not_supported(msg.id);
                Ok(PublisherEvent::Nothing)
            },
            message::Subscriber::PublishNamespaceCancel(msg) => Ok(
                self.close_namespace(msg.id, ServeError::Cancel),
            ),
            // Nothing was offered that this accepts.
            message::Subscriber::PublishOk(_) => Ok(PublisherEvent::Nothing),
        }
    }

    /// The error for a subscription that the application does not take.
    pub fn not_taken(namespace: &str) -> (error: ServeError)
        ensures
            error@ == ServeFault::NotFoundWithId(
                0,
                "unknown_subscribed queue full for namespace "@ + namespace@,
            ),
    {
        let text = concat2("unknown_subscribed queue full for namespace ", namespace);
        ServeError::not_found_ctx(&text)
    }

    /// The error for a track that is not among those served.
    pub fn track_not_found(namespace: &str, name: &str, suffix: &str) -> (error: ServeError)
        ensures
            error@ == ServeFault::NotFoundWithId(
                0,
                "track '"@ + namespace@ + "/"@ + (name@ + "' not found "@ + suffix@),
            ),
    {
        let track = concat3("track '", namespace, "/");
        let rest = concat3(name, "' not found ", suffix);
        let text = concat2(&track, &rest);
        ServeError::not_found_ctx(&text)
    }
}

/// How far serving an offered namespace has come.
#[derive(Clone, Copy, Debug, PartialEq, Eq, Structural)]
pub struct NamespaceServing {
    /// No more subscriptions come.
    pub subscribe_done: bool,
    /// No more status requests come.
    pub status_done: bool,
    /// How many requests are being served.
    pub running: u64,
}

/// What happens while a namespace is served.
#[derive(Debug)]
pub enum NamespaceArrival {
    /// A subscription came, or none will come any more.
    Subscription(Result<bool, ServeError>),
    /// A status request came, or none will come any more.
    StatusRequest(Result<bool, ServeError>),
    /// A request was served to its end.
    Served,
}

/// What is done next while a namespace is served.
#[derive(Clone, Copy, Debug, PartialEq, Eq, Structural)]
pub enum NamespaceStep {
    /// The request that came is served beside the others.
    Serve,
    /// The next arrival is waited for.
    Wait,
    /// Everything was served.
    Finish,
}

impl NamespaceServing {
    pub fn new() -> (serving: Self)
        ensures
            serving == (NamespaceServing {
                subscribe_done: false,
                status_done: false,
                running: 0,
            }),
    {
        NamespaceServing { subscribe_done: false, status_done: false, running: 0 }
    }

    /// Whether nothing is served and nothing more comes.
    pub open spec fn idle(self) -> bool {
        self.subscribe_done && self.status_done && self.running == 0
    }

    /// The state after an arrival.
    pub open spec fn after(self, arrival: NamespaceArrival) -> NamespaceServing {
        match arrival {
            NamespaceArrival::Subscription(Ok(true)) | NamespaceArrival::StatusRequest(Ok(true)) => {
                NamespaceServing { running: (self.running + 1) as u64, ..self }
            },
            NamespaceArrival::Subscription(Ok(false)) => NamespaceServing {
                subscribe_done: true,
                ..self
            },
            NamespaceArrival::StatusRequest(Ok(false)) => NamespaceServing {
                status_done: true,
                ..self
            },
            NamespaceArrival::Served => NamespaceServing {
                running: (self.running - 1) as u64,
                ..self
            },
            _ => self,
        }
    }

    /// Takes what happened. A failure of the namespace ends it; its end is
    /// waited for until every request was served.
    pub fn next(&mut self, arrival: NamespaceArrival) -> (result: Result<
        NamespaceStep,
        SessionError,
    >)
        requires
            old(self).running < u64::MAX,
            arrival is Served ==> old(self).running > 0,
        ensures
            *final(self) == old(self).after(arrival),
            match arrival {
                NamespaceArrival::Subscription(Err(cause))
                | NamespaceArrival::StatusRequest(Err(cause)) => {
                    result matches Err(error) && error@ == SessionFault::Serve(cause@)
                },
                NamespaceArrival::Subscription(Ok(true))
                | NamespaceArrival::StatusRequest(Ok(true)) => {
                    result == Ok::<NamespaceStep, SessionError>(NamespaceStep::Serve)
                },
                _ => result == Ok::<NamespaceStep, SessionError>(if final(self).idle() {
                    NamespaceStep::Finish
                } else {
                    NamespaceStep::Wait
                }),
            },
    {
        match arrival {
            NamespaceArrival::Subscription(Ok(came)) => if came {
                self.running = self.running + 1;
                return Ok(NamespaceStep::Serve);
            } else {
                self.subscribe_done = true;
            },
            NamespaceArrival::StatusRequest(Ok(came)) => if came {
                self.running = self.running + 1;
                return Ok(NamespaceStep::Serve);
            } else {
                self.status_done = true;
            },
            NamespaceArrival::Subscription(Err(cause))
            | NamespaceArrival::StatusRequest(Err(cause)) => {
                return Err(SessionError::Serve(cause));
            },
            NamespaceArrival::Served => {
                self.running = self.running - 1;
            },
        }
        if self.subscribe_done && self.status_done && self.running == 0 {
            Ok(NamespaceStep::Finish)
        } else {
            Ok(NamespaceStep::Wait)
        }
    }
}

} // verus!
