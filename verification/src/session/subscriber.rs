//! The subscriber of a session: what it asked for, and what it receives.

use std::collections::HashMap;

use bytes::Bytes;
use vstd::prelude::*;

use super::error::{same_outcome, SessionError, SessionFault};
use super::registry::{
    has_namespace, request_row, without_request, NamespaceRow, NamespaceTable,
};
use super::request_id::RequestId;
use super::subscribe::{info_of, SubscribeOptions, SubscribeOptionsError};
use super::subscribe_recv::{
    closed_view, datagram_outcome, subgroup_outcome, track_datagram, RecvView, Subscribe,
    SubscribeRecv, SubscribeState,
};
use crate::coding::buffer::{bytes_as_slice, bytes_contents};
use crate::coding::kvp::Pair;
use crate::coding::{KeyValuePairs, ReasonPhrase, TrackName, TrackNamespace};
use crate::data::datagram::{Datagram, DatagramFields};
use crate::data::{StreamHeaderType, SubgroupHeader};
use crate::message;
use crate::message::parameters::largest_object_of;
use crate::message::RequestErrorCode;
use crate::serve;
use crate::serve::error::ServeFault;
use crate::serve::track::{FullName, WriterView};
use crate::serve::{ServeError, Subgroup, SubgroupWriter, TrackWriter};
use crate::text::{concat2, concat3, decimal, digits};
use crate::watch::{Progress, State};

verus! {

/// How long a stream or datagram waits for its track alias to become known.
pub const DEFAULT_ALIAS_WAIT_TIME_MS: u64 = 1000;

/// The subscriber of a session.
#[derive(Debug)]
pub struct Subscriber {
    /// The namespaces that the peer offers.
    published_namespaces: NamespaceTable,
    /// The active subscriptions, by request ID.
    subscribes: HashMap<u64, SubscribeRecv>,
    /// The subscriptions, by the track alias on streams and in datagrams.
    subscribe_alias_map: HashMap<u64, u64>,
    /// The tracks that ended, by the request of their subscription, and what
    /// their readers are to be told.
    endings: Vec<(u64, ServeError)>,
    /// The messages that wait to be sent.
    outgoing: Vec<message::Subscriber>,
}

/// The model of a [`Subscriber`].
pub struct SubscriberView {
    pub namespaces: Seq<NamespaceRow>,
    pub subscribes: Map<u64, RecvView>,
    pub aliases: Map<u64, u64>,
    pub endings: Seq<(u64, ServeFault)>,
}

impl View for Subscriber {
    type V = SubscriberView;

    closed spec fn view(&self) -> SubscriberView {
        SubscriberView {
            namespaces: self.published_namespaces@,
            subscribes: self.subscribes@.map_values(|recv: SubscribeRecv| recv@),
            aliases: self.subscribe_alias_map@,
            endings: self.endings@.map_values(|ending: (u64, ServeError)| (ending.0, ending.1@)),
        }
    }
}

impl SubscriberView {
    /// The subscriber with one subscription changed.
    pub open spec fn with_recv(self, id: u64, recv: RecvView) -> SubscriberView {
        SubscriberView { subscribes: self.subscribes.insert(id, recv), ..self }
    }

    /// The subscriber without one subscription and the alias it had.
    pub open spec fn without(self, id: u64) -> SubscriberView {
        if self.subscribes.contains_key(id) {
            SubscriberView {
                subscribes: self.subscribes.remove(id),
                aliases: match self.subscribes[id].track_alias {
                    Some(alias) => self.aliases.remove(alias),
                    None => self.aliases,
                },
                ..self
            }
        } else {
            self
        }
    }
}

/// A subscription that goes takes its alias with it, and leaves every other
/// subscription and alias alone.
pub proof fn removal_clears_the_alias(subscriber: SubscriberView, id: u64, other: u64, alias: u64)
    requires
        subscriber.subscribes.contains_key(id),
    ensures
        !subscriber.without(id).subscribes.contains_key(id),
        subscriber.subscribes[id].track_alias == Some(alias) ==> !subscriber.without(
            id,
        ).aliases.contains_key(alias),
        subscriber.subscribes[id].track_alias != Some(alias) && subscriber.aliases.contains_key(
            alias,
        ) ==> subscriber.without(id).aliases.contains_key(alias)
            && subscriber.without(id).aliases[alias] == subscriber.aliases[alias],
        other != id && subscriber.subscribes.contains_key(other) ==> subscriber.without(
            id,
        ).subscribes.contains_key(other) && subscriber.without(id).subscribes[other]
            == subscriber.subscribes[other],
{
}

/// What a message from the publisher means to the application.
#[derive(Debug)]
pub enum SubscriberEvent {
    Nothing,
    /// A namespace is offered; the application accepts or refuses it.
    NamespaceOffered { request_id: u64, namespace: TrackNamespace },
    /// An offer is withdrawn.
    NamespaceDone { namespace: TrackNamespace },
    /// Streams and datagrams may wait for this alias.
    AliasKnown { track_alias: u64 },
    /// A subscription ended; the application waits on its state.
    Ended { id: u64, state: State<SubscribeState> },
}

/// The model of a [`SubscriberEvent`].
pub enum EventView {
    Nothing,
    NamespaceOffered { request_id: u64, namespace: Seq<Seq<u8>> },
    NamespaceDone { namespace: Seq<Seq<u8>> },
    AliasKnown { track_alias: u64 },
    Ended {
        id: u64,
        ok: bool,
        alias: Option<u64>,
        closed: Option<ServeFault>,
        live: bool,
    },
}

impl View for SubscriberEvent {
    type V = EventView;

    open spec fn view(&self) -> EventView {
        match self {
            SubscriberEvent::Nothing => EventView::Nothing,
            SubscriberEvent::NamespaceOffered { request_id, namespace } => {
                EventView::NamespaceOffered { request_id: *request_id, namespace: namespace@ }
            },
            SubscriberEvent::NamespaceDone { namespace } => EventView::NamespaceDone {
                namespace: namespace@,
            },
            SubscriberEvent::AliasKnown { track_alias } => EventView::AliasKnown {
                track_alias: *track_alias,
            },
            SubscriberEvent::Ended { id, state } => EventView::Ended {
                id: *id,
                ok: state.value.ok,
                alias: state.value.track_alias,
                closed: closed_view(state.value.closed),
                live: state.live,
            },
        }
    }
}

/// The model of what a message came to.
pub open spec fn event_outcome(result: Result<SubscriberEvent, SessionError>) -> Result<
    EventView,
    SessionFault,
> {
    match result {
        Ok(event) => Ok(event@),
        Err(error) => Err(error@),
    }
}

/// The model of what opening a subgroup came to.
pub open spec fn opening_outcome(result: Result<SubgroupWriter, SessionError>) -> Result<
    Subgroup,
    SessionFault,
> {
    match result {
        Ok(writer) => Ok(writer.info),
        Err(error) => Err(error@),
    }
}

/// What a refusal is to a track.
pub open spec fn refusal(error_code: u64, reason: Seq<char>) -> ServeFault {
    if error_code == RequestErrorCode::DoesNotExist.spec_code() {
        ServeFault::NotFoundWithId(0, reason)
    } else if error_code == RequestErrorCode::InternalError.spec_code() {
        ServeFault::InternalWithId(0, reason)
    } else if error_code == RequestErrorCode::DuplicateSubscription.spec_code() {
        ServeFault::Duplicate
    } else if error_code == RequestErrorCode::NotSupported.spec_code() {
        ServeFault::NotImplemented(reason)
    } else {
        ServeFault::Closed(error_code)
    }
}

impl SubscriberView {
    /// Ends a subscription. The track's readers are told first: if they are
    /// gone, or the subscription ended before, that is the error.
    pub open spec fn ended(self, id: u64, cause: ServeFault) -> (
        SubscriberView,
        Result<EventView, SessionFault>,
    ) {
        if !self.subscribes.contains_key(id) {
            (self, Ok(EventView::Nothing))
        } else {
            let ending = self.subscribes[id].ending(cause);
            (
                SubscriberView {
                    endings: match ending.told {
                        Some(told) => self.endings.push((id, told)),
                        None => self.endings,
                    },
                    ..self.without(id)
                },
                match ending.refused {
                    Some(fault) => Err(SessionFault::Serve(fault)),
                    None => Ok(
                        EventView::Ended {
                            id,
                            ok: ending.ok,
                            alias: ending.track_alias,
                            closed: ending.closed,
                            live: ending.live,
                        },
                    ),
                },
            )
        }
    }

    /// A namespace is offered. Offering one twice in a session is an error.
    pub open spec fn offered(self, request_id: u64, namespace: Seq<Seq<u8>>) -> (
        SubscriberView,
        Result<EventView, SessionFault>,
    ) {
        if has_namespace(self.namespaces, namespace) {
            (self, Err(SessionFault::Duplicate))
        } else {
            (
                SubscriberView {
                    namespaces: self.namespaces.push(NamespaceRow { namespace, request_id }),
                    ..self
                },
                Ok(EventView::NamespaceOffered { request_id, namespace }),
            )
        }
    }

    /// An offer is withdrawn.
    pub open spec fn withdrawn(self, request_id: u64) -> (
        SubscriberView,
        Result<EventView, SessionFault>,
    ) {
        let at = request_row(self.namespaces, request_id);
        (
            SubscriberView { namespaces: without_request(self.namespaces, request_id), ..self },
            if at < self.namespaces.len() {
                Ok(EventView::NamespaceDone { namespace: self.namespaces[at].namespace })
            } else {
                Ok(EventView::Nothing)
            },
        )
    }

    /// A subscription is accepted: its alias is known from now on.
    pub open spec fn accepted(self, id: u64, track_alias: u64, params: Seq<Pair>) -> (
        SubscriberView,
        Result<EventView, SessionFault>,
    ) {
        if !self.subscribes.contains_key(id) {
            (self, Ok(EventView::Nothing))
        } else {
            let recv = self.subscribes[id];
            let known = if recv.live {
                RecvView { ok: true, track_alias: Some(track_alias), ..recv }
            } else {
                recv
            };
            let (after, outcome) = if recv.ok {
                (recv, Err(SessionFault::Serve(ServeFault::Duplicate)))
            } else {
                match largest_object_of(params) {
                    Ok(largest) => (
                        RecvView { delivery_filter: Some(recv.info.delivery(largest)), ..known },
                        Ok(EventView::AliasKnown { track_alias }),
                    ),
                    Err(fault) => (
                        known,
                        Err(
                            SessionFault::Serve(
                                ServeFault::InternalWithId(
                                    0,
                                    "invalid largest object: "@ + fault.spec_message(),
                                ),
                            ),
                        ),
                    ),
                }
            };
            (
                SubscriberView {
                    subscribes: self.subscribes.insert(id, after),
                    aliases: self.aliases.insert(track_alias, id),
                    ..self
                },
                outcome,
            )
        }
    }

    /// A stream opens a subgroup of a subscription's track.
    pub open spec fn opening(self, subscribe_id: u64, header: SubgroupHeader) -> (
        SubscriberView,
        Result<Subgroup, SessionFault>,
    ) {
        if !self.subscribes.contains_key(subscribe_id) {
            (
                self,
                Err(
                    SessionFault::Serve(
                        ServeFault::NotFoundWithId(
                            0,
                            "subscribe_id="@ + digits(subscribe_id as nat, 10)
                                + " not found for track_alias="@ + digits(
                                header.track_alias as nat,
                                10,
                            ),
                        ),
                    ),
                ),
            )
        } else {
            let recv = self.subscribes[subscribe_id];
            let (writer, outcome) = match subgroup_outcome(recv.writer, header) {
                Ok(subgroup) => (
                    Some(WriterView::Subgroups { live: true }),
                    Ok(subgroup),
                ),
                Err(fault) => (None, Err(SessionFault::Serve(fault))),
            };
            (
                SubscriberView {
                    subscribes: self.subscribes.insert(
                        subscribe_id,
                        RecvView { writer, ..recv },
                    ),
                    ..self
                },
                outcome,
            )
        }
    }

    /// A datagram arrives: whether it was delivered, or why it could not be.
    pub open spec fn delivered(self, datagram: DatagramFields) -> (
        SubscriberView,
        Result<bool, SessionFault>,
    ) {
        let id = self.aliases[datagram.track_alias];
        if !self.aliases.contains_key(datagram.track_alias) || !self.subscribes.contains_key(id) {
            (self, Ok(false))
        } else {
            let recv = self.subscribes[id];
            let (writer, outcome) = match datagram_outcome(recv.writer, datagram) {
                Ok(written) => (
                    Some(WriterView::Datagrams { live: true, written }),
                    Ok(true),
                ),
                Err((writer, fault)) => (writer, Err(SessionFault::Serve(fault))),
            };
            (
                SubscriberView {
                    subscribes: self.subscribes.insert(id, RecvView { writer, ..recv }),
                    ..self
                },
                outcome,
            )
        }
    }

    /// What a message from the publisher does.
    pub open spec fn receives(self, msg: message::Publisher) -> (
        SubscriberView,
        Result<EventView, SessionFault>,
    ) {
        match msg {
            message::Publisher::PublishNamespace(msg) => self.offered(
                msg.id,
                msg.track_namespace@,
            ),
            message::Publisher::PublishNamespaceDone(msg) => self.withdrawn(msg.id),
            message::Publisher::PublishDone(msg) => self.ended(
                msg.id,
                ServeFault::Closed(msg.status_code),
            ),
            message::Publisher::SubscribeOk(msg) => self.accepted(
                msg.id,
                msg.track_alias,
                msg.params@,
            ),
            message::Publisher::RequestError(msg) => self.ended(
                msg.id,
                refusal(msg.error_code, msg.reason.0@),
            ),
            _ => (self, Ok(EventView::Nothing)),
        }
    }
}

/// An alias that a subscription was accepted with leads to it.
pub proof fn accepted_alias_is_known(
    subscriber: SubscriberView,
    id: u64,
    track_alias: u64,
    params: Seq<Pair>,
)
    requires
        subscriber.subscribes.contains_key(id),
    ensures
        ({
            let after = subscriber.accepted(id, track_alias, params).0;
            after.aliases.contains_key(track_alias) && after.aliases[track_alias] == id
        }),
{
}

/// A datagram that was delivered is what the track's readers take last, behind
/// those that came before it; taking them leaves none behind.
pub proof fn delivered_datagram_is_taken(subscriber: SubscriberView, datagram: DatagramFields)
    requires
        subscriber.delivered(datagram).1 == Ok::<bool, SessionFault>(true),
    ensures
        ({
            let id = subscriber.aliases[datagram.track_alias];
            let earlier = subscriber.subscribes[id].untaken();
            let after = subscriber.delivered(datagram).0.subscribes[id];
            &&& after.untaken() == earlier.push(track_datagram(datagram))
            &&& after.taken().untaken().len() == 0
        }),
{
    let id = subscriber.aliases[datagram.track_alias];
    assert(Seq::empty().push(track_datagram(datagram)) =~= seq![track_datagram(datagram)]);
}

/// Once nobody reads its track, a subscription takes neither streams nor
/// datagrams, and cannot tell anyone how it ended.
pub proof fn unread_track_takes_nothing(
    recv: RecvView,
    header: SubgroupHeader,
    datagram: DatagramFields,
    cause: ServeFault,
)
    ensures
        subgroup_outcome(recv.unread().writer, header) is Err,
        datagram_outcome(recv.unread().writer, datagram) is Err,
        recv.unread().ending(cause).told is None,
        recv.writer is Some ==> recv.unread().ending(cause).refused == Some(ServeFault::Cancel),
{
}

/// A refused request is answered to the application and to the track's readers
/// with its meaning, and leaves neither a subscription nor an alias behind.
pub proof fn refused_subscription_is_gone(
    subscriber: SubscriberView,
    id: u64,
    error_code: u64,
    reason: Seq<char>,
)
    requires
        subscriber.subscribes.contains_key(id),
        subscriber.subscribes[id].live,
        subscriber.subscribes[id].closed is None,
        subscriber.subscribes[id].writer is Some,
        subscriber.subscribes[id].writer->0.live(),
    ensures
        ({
            let (after, outcome) = subscriber.ended(id, refusal(error_code, reason));
            &&& outcome matches Ok(EventView::Ended { id: ended, closed, .. })
            &&& ended == id
            &&& closed == Some(refusal(error_code, reason))
            &&& after.endings == subscriber.endings.push((id, refusal(error_code, reason)))
            &&& !after.subscribes.contains_key(id)
            &&& subscriber.subscribes[id].track_alias matches Some(alias)
                ==> !after.aliases.contains_key(alias)
        }),
{
}

/// Whether a message refuses a request as not supported.
pub open spec fn refuses_unsupported(msg: message::RequestError, request_id: u64) -> bool {
    &&& msg.id == request_id
    &&& msg.error_code == RequestErrorCode::NotSupported.spec_code()
    &&& msg.retry_interval == 0
    &&& msg.reason.0@ == "not supported"@
    &&& msg.redirect is None
}

/// A refusal of a request that is not implemented.
pub(super) fn not_supported(request_id: u64) -> (msg: message::RequestError)
    ensures
        refuses_unsupported(msg, request_id),
{
    message::RequestError {
        id: request_id,
        error_code: RequestErrorCode::NotSupported.code(),
        retry_interval: 0,
        reason: ReasonPhrase("not supported".to_string()),
        redirect: None,
    }
}

impl Subscriber {
    /// The messages that wait to be sent, in order.
    pub closed spec fn sent(self) -> Seq<message::Subscriber> {
        self.outgoing@
    }

    /// Whether a message was taken as it should be. A track that the publisher
    /// offers on its own is refused as not supported; nothing else is sent.
    pub open spec fn received(
        before: Subscriber,
        after: Subscriber,
        msg: message::Publisher,
        result: Result<SubscriberEvent, SessionError>,
    ) -> bool {
        &&& (after@, event_outcome(result)) == before@.receives(msg)
        &&& match msg {
            message::Publisher::Publish(msg) => {
                &&& after.sent().len() == before.sent().len() + 1
                &&& after.sent().drop_last() == before.sent()
                &&& after.sent().last() matches message::Subscriber::RequestError(reply)
                &&& refuses_unsupported(reply, msg.id)
            },
            _ => after.sent() == before.sent(),
        }
    }

    pub fn new() -> (subscriber: Self)
        ensures
            subscriber@ == (SubscriberView {
                namespaces: Seq::empty(),
                subscribes: Map::empty(),
                aliases: Map::empty(),
                endings: Seq::empty(),
            }),
            subscriber.sent().len() == 0,
    {
        broadcast use vstd::std_specs::hash::group_hash_axioms;

        let subscriber = Subscriber {
            published_namespaces: NamespaceTable::new(),
            subscribes: HashMap::new(),
            subscribe_alias_map: HashMap::new(),
            endings: Vec::new(),
            outgoing: Vec::new(),
        };
        assert(subscriber@.subscribes =~= Map::<u64, RecvView>::empty());
        assert(subscriber@.endings =~= Seq::<(u64, ServeFault)>::empty());
        subscriber
    }

    /// Hands out the messages that wait to be sent.
    pub fn take_outgoing(&mut self) -> (messages: Vec<message::Subscriber>)
        ensures
            messages@ == old(self).sent(),
            final(self).sent().len() == 0,
            final(self)@ == old(self)@,
    {
        let mut messages: Vec<message::Subscriber> = Vec::new();
        std::mem::swap(&mut messages, &mut self.outgoing);
        messages
    }

    /// Hands out the tracks that ended, by the request of their subscription,
    /// and what their readers are to be told.
    pub fn take_endings(&mut self) -> (endings: Vec<(u64, ServeError)>)
        ensures
            endings@.map_values(|ending: (u64, ServeError)| (ending.0, ending.1@))
                == old(self)@.endings,
            final(self)@ == (SubscriberView { endings: Seq::empty(), ..old(self)@ }),
            final(self).sent() == old(self).sent(),
    {
        let mut endings: Vec<(u64, ServeError)> = Vec::new();
        std::mem::swap(&mut endings, &mut self.endings);
        assert(self@.endings =~= Seq::<(u64, ServeFault)>::empty());
        endings
    }

    /// Sends a message to the publisher. A namespace that is refused after it
    /// was accepted is forgotten.
    pub fn send_message(&mut self, msg: message::Subscriber)
        ensures
            final(self).sent() == old(self).sent().push(msg),
            final(self)@ == (match msg {
                message::Subscriber::PublishNamespaceCancel(msg) => old(self)@.withdrawn(msg.id).0,
                _ => old(self)@,
            }),
    {
        if let message::Subscriber::PublishNamespaceCancel(cancel) = &msg {
            let _dropped = self.drop_publish_namespace(cancel.id);
        }
        self.outgoing.push(msg);
    }

    /// Sends a TRACK_STATUS request. Nothing is sent once the request IDs have
    /// run out.
    pub fn track_status(
        &mut self,
        ids: &mut RequestId,
        track_namespace: &TrackNamespace,
        track_name: TrackName,
    )
        ensures
            final(self)@ == old(self)@,
            RequestId::gave_out(*old(ids), *final(ids)),
            match old(ids).upcoming() {
                Some(id) => {
                    &&& final(self).sent().len() == old(self).sent().len() + 1
                    &&& final(self).sent().drop_last() == old(self).sent()
                    &&& final(self).sent().last() matches message::Subscriber::TrackStatus(msg)
                    &&& msg.id == id
                    &&& msg.track_namespace@ == track_namespace@
                    &&& msg.track_name@ == track_name@
                    &&& msg.params@.len() == 0
                },
                None => final(self).sent() == old(self).sent(),
            },
    {
        let id: u64 = match ids.allocate() {
            Ok(id) => id,
            Err(_) => {
                return;
            },
        };
        let ghost before = self.outgoing@;
        self.outgoing.push(
            message::Subscriber::TrackStatus(
                message::TrackStatus {
                    id,
                    track_namespace: track_namespace.clone(),
                    track_name,
                    params: KeyValuePairs::default(),
                },
            ),
        );
        assert(self.outgoing@.drop_last() =~= before);
    }

    /// Makes a subscription: the request that is then sent on a stream of its
    /// own, and the side that receives for it.
    pub fn begin_subscribe(ids: &mut RequestId, track: TrackWriter, options: SubscribeOptions) -> (result:
        Result<(Subscribe, SubscribeRecv), ServeError>)
        ensures
            RequestId::gave_out(*old(ids), *final(ids)),
            match old(ids).upcoming() {
                None => result matches Err(error) && error@ == ServeFault::InternalWithId(
                    0,
                    "request ID limit: "@ + SessionFault::InvalidRequestId.message(),
                ),
                Some(id) => {
                    let name = FullName { namespace: track.namespace@, name: track.name@ };
                    match options@.parameters() {
                        Ok(params) => match info_of(id, name, params) {
                            Ok(info) => {
                                &&& result is Ok
                                &&& result->Ok_0.0.info@ == info
                                &&& result->Ok_0.1@ == RecvView::fresh(info, track.live)
                            },
                            Err(_) => result matches Err(error) && error@ == ServeFault::Internal(
                                SubscribeOptionsError::InvalidRequestParameters.spec_message(),
                            ),
                        },
                        Err(fault) => result matches Err(error) && error@ == ServeFault::Internal(
                            fault.spec_message(),
                        ),
                    }
                },
            },
    {
        let id: u64 = match ids.allocate() {
            Ok(id) => id,
            Err(error) => {
                let text = concat2("request ID limit: ", &error.message());
                return Err(ServeError::internal_ctx(&text));
            },
        };
        match Subscribe::new_with_options(id, track, options) {
            Ok(made) => Ok(made),
            Err(error) => Err(ServeError::Internal(error.message())),
        }
    }

    /// The error of a subscription whose stream could not be opened.
    pub fn open_failed(error: &SessionError) -> (failure: ServeError)
        ensures
            failure@ == ServeFault::InternalWithId(
                0,
                "failed to open request stream: "@ + error@.message(),
            ),
    {
        let text = concat2("failed to open request stream: ", &error.message());
        ServeError::internal_ctx(&text)
    }

    /// Registers a subscription whose request was sent.
    pub fn register(&mut self, id: u64, recv: SubscribeRecv)
        ensures
            final(self)@ == (SubscriberView {
                subscribes: old(self)@.subscribes.insert(id, recv@),
                ..old(self)@
            }),
            final(self).sent() == old(self).sent(),
    {
        broadcast use vstd::std_specs::hash::group_hash_axioms;

        let ghost before = self@;
        self.subscribes.insert(id, recv);
        assert(self@.subscribes =~= before.subscribes.insert(id, recv@));
    }

    /// The state of a subscription, which the application waits on.
    pub fn subscription_state(&self, id: u64) -> (state: Option<&State<SubscribeState>>)
        ensures
            match state {
                Some(state) => {
                    &&& self@.subscribes.contains_key(id)
                    &&& state.value.ok == self@.subscribes[id].ok
                    &&& state.value.track_alias == self@.subscribes[id].track_alias
                    &&& closed_view(state.value.closed) == self@.subscribes[id].closed
                    &&& state.live == self@.subscribes[id].live
                },
                None => !self@.subscribes.contains_key(id),
            },
    {
        broadcast use vstd::std_specs::hash::group_hash_axioms;

        match self.subscribes.get(&id) {
            Some(recv) => Some(recv.state()),
            None => None,
        }
    }

    /// Hands the readers of a subscription's track the datagrams that came,
    /// oldest first.
    pub fn take_datagrams(&mut self, id: u64) -> (datagrams: Vec<serve::Datagram>)
        ensures
            final(self).sent() == old(self).sent(),
            if old(self)@.subscribes.contains_key(id) {
                let recv = old(self)@.subscribes[id];
                &&& datagrams@.map_values(|datagram: serve::Datagram| datagram@) == recv.untaken()
                &&& final(self)@ == old(self)@.with_recv(id, recv.taken())
            } else {
                &&& datagrams@.len() == 0
                &&& final(self)@ == old(self)@
            },
    {
        broadcast use vstd::std_specs::hash::group_hash_axioms;

        let ghost before = self@;
        let mut recv = match self.subscribes.remove(&id) {
            Some(recv) => recv,
            None => {
                assert(self@.subscribes =~= before.subscribes);
                return Vec::new();
            },
        };
        let datagrams = recv.take_datagrams();
        let ghost after = recv@;
        self.subscribes.insert(id, recv);
        assert(self@.subscribes =~= before.subscribes.insert(id, after));
        datagrams
    }

    /// Nobody reads the track of a subscription any more.
    pub fn readers_gone(&mut self, id: u64)
        ensures
            final(self).sent() == old(self).sent(),
            final(self)@ == (if old(self)@.subscribes.contains_key(id) {
                old(self)@.with_recv(id, old(self)@.subscribes[id].unread())
            } else {
                old(self)@
            }),
    {
        broadcast use vstd::std_specs::hash::group_hash_axioms;

        let ghost before = self@;
        match self.subscribes.remove(&id) {
            Some(recv) => {
                let mut recv = recv;
                recv.readers_gone();
                let ghost after = recv@;
                self.subscribes.insert(id, recv);
                assert(self@.subscribes =~= before.subscribes.insert(id, after));
            },
            None => {
                assert(self@.subscribes =~= before.subscribes);
            },
        }
    }

    /// The application does not wait on a subscription any more.
    pub fn hang_up(&mut self, id: u64)
        ensures
            final(self).sent() == old(self).sent(),
            final(self)@ == (if old(self)@.subscribes.contains_key(id) {
                old(self)@.with_recv(
                    id,
                    RecvView { live: false, ..old(self)@.subscribes[id] },
                )
            } else {
                old(self)@
            }),
    {
        broadcast use vstd::std_specs::hash::group_hash_axioms;

        let ghost before = self@;
        match self.subscribes.remove(&id) {
            Some(recv) => {
                let mut recv = recv;
                recv.hang_up();
                let ghost after = recv@;
                self.subscribes.insert(id, recv);
                assert(self@.subscribes =~= before.subscribes.insert(id, after));
            },
            None => {
                assert(self@.subscribes =~= before.subscribes);
            },
        }
    }

    /// Takes a subscription out, together with its alias.
    pub fn remove_subscribe(&mut self, id: u64) -> (removed: Option<SubscribeRecv>)
        ensures
            final(self)@ == old(self)@.without(id),
            final(self).sent() == old(self).sent(),
            match removed {
                Some(recv) => old(self)@.subscribes.contains_key(id) && recv@
                    == old(self)@.subscribes[id],
                None => !old(self)@.subscribes.contains_key(id),
            },
    {
        broadcast use vstd::std_specs::hash::group_hash_axioms;

        let ghost before = self@;
        match self.subscribes.remove(&id) {
            Some(recv) => {
                assert(self@.subscribes =~= before.subscribes.remove(id));
                if let Some(alias) = recv.track_alias() {
                    self.subscribe_alias_map.remove(&alias);
                }
                Some(recv)
            },
            None => {
                assert(self@.subscribes =~= before.subscribes);
                None
            },
        }
    }

    /// Refuses a request that is not implemented.
    pub fn send_not_supported(&mut self, request_id: u64)
        ensures
            final(self)@ == old(self)@,
            final(self).sent().len() == old(self).sent().len() + 1,
            final(self).sent().drop_last() == old(self).sent(),
            final(self).sent().last() matches message::Subscriber::RequestError(msg)
                && refuses_unsupported(msg, request_id),
    {
        let ghost before = self.outgoing@;
        self.outgoing.push(message::Subscriber::RequestError(not_supported(request_id)));
        assert(self.outgoing@.drop_last() =~= before);
    }

    /// What a refusal is to a track, so that callers see a meaning and not
    /// only a code.
    pub fn request_error_to_serve_error(msg: &message::RequestError) -> (error: ServeError)
        ensures
            error@ == refusal(msg.error_code, msg.reason.0@),
    {
        if msg.error_code == RequestErrorCode::DoesNotExist.code() {
            ServeError::not_found_ctx(&msg.reason.0)
        } else if msg.error_code == RequestErrorCode::InternalError.code() {
            ServeError::internal_ctx(&msg.reason.0)
        } else if msg.error_code == RequestErrorCode::DuplicateSubscription.code() {
            ServeError::Duplicate
        } else if msg.error_code == RequestErrorCode::NotSupported.code() {
            ServeError::NotImplemented(msg.reason.0.clone())
        } else {
            ServeError::Closed(msg.error_code)
        }
    }

    /// Drops the namespace of a request.
    pub fn drop_publish_namespace(&mut self, id: u64) -> (dropped: Option<TrackNamespace>)
        ensures
            final(self)@ == old(self)@.withdrawn(id).0,
            final(self).sent() == old(self).sent(),
            old(self)@.withdrawn(id).1 == (match dropped {
                Some(namespace) => Ok::<EventView, SessionFault>(
                    EventView::NamespaceDone { namespace: namespace@ },
                ),
                None => Ok(EventView::Nothing),
            }),
    {
        self.published_namespaces.drop_request(id)
    }

    fn recv_publish_namespace(&mut self, msg: message::PublishNamespace) -> (result: Result<
        SubscriberEvent,
        SessionError,
    >)
        ensures
            (final(self)@, event_outcome(result)) == old(self)@.offered(
                msg.id,
                msg.track_namespace@,
            ),
            final(self).sent() == old(self).sent(),
    {
        if self.published_namespaces.contains_key(&msg.track_namespace) {
            return Err(SessionError::Duplicate);
        }
        let namespace = msg.track_namespace.clone();
        self.published_namespaces.insert(msg.track_namespace, msg.id);
        Ok(SubscriberEvent::NamespaceOffered { request_id: msg.id, namespace })
    }

    fn recv_subscribe_ok(&mut self, msg: &message::SubscribeOk) -> (result: Result<
        SubscriberEvent,
        SessionError,
    >)
        ensures
            (final(self)@, event_outcome(result)) == old(self)@.accepted(
                msg.id,
                msg.track_alias,
                msg.params@,
            ),
            final(self).sent() == old(self).sent(),
    {
        broadcast use vstd::std_specs::hash::group_hash_axioms;

        let ghost before = self@;
        let mut recv = match self.subscribes.remove(&msg.id) {
            Some(recv) => recv,
            None => {
                assert(self@.subscribes =~= before.subscribes);
                return Ok(SubscriberEvent::Nothing);
            },
        };
        self.subscribe_alias_map.insert(msg.track_alias, msg.id);
        let result = recv.ok(msg);
        let ghost after = recv@;
        self.subscribes.insert(msg.id, recv);
        assert(self@.subscribes =~= before.subscribes.insert(msg.id, after));
        match result {
            Ok(()) => Ok(SubscriberEvent::AliasKnown { track_alias: msg.track_alias }),
            Err(error) => Err(SessionError::Serve(error)),
        }
    }

    /// Ends a subscription for a cause, of which the track's readers are told
    /// too; nothing happens if there is none.
    pub fn end_subscribe(&mut self, id: u64, cause: ServeError) -> (result: Result<
        SubscriberEvent,
        SessionError,
    >)
        ensures
            (final(self)@, event_outcome(result)) == old(self)@.ended(id, cause@),
            final(self).sent() == old(self).sent(),
    {
        match self.remove_subscribe(id) {
            Some(recv) => {
                let ending = recv.error(cause);
                if let Some(told) = ending.told {
                    let ghost earlier = self@.endings;
                    self.endings.push((id, told));
                    assert(self@.endings =~= earlier.push((id, told@)));
                }
                match ending.result {
                    Ok(()) => Ok(SubscriberEvent::Ended { id, state: ending.state }),
                    Err(error) => Err(SessionError::Serve(error)),
                }
            },
            None => Ok(SubscriberEvent::Nothing),
        }
    }

    /// Takes a message from the publisher.
    pub fn recv_message(&mut self, msg: message::Publisher) -> (result: Result<
        SubscriberEvent,
        SessionError,
    >)
        ensures
            Subscriber::received(*old(self), *final(self), msg, result),
    {
        match msg {
            message::Publisher::PublishNamespace(msg) => self.recv_publish_namespace(msg),
            message::Publisher::PublishNamespaceDone(msg) => match self.drop_publish_namespace(
                msg.id,
            ) {
                Some(namespace) => Ok(SubscriberEvent::NamespaceDone { namespace }),
                None => Ok(SubscriberEvent::Nothing),
            },
            message::Publisher::Publish(msg) => {
                self.send_not_supported(msg.id);
                Ok(SubscriberEvent::Nothing)
            },
            message::Publisher::PublishDone(msg) => self.end_subscribe(
                msg.id,
                ServeError::Closed(msg.status_code),
            ),
            message::Publisher::SubscribeOk(msg) => self.recv_subscribe_ok(&msg),
            // A subscription is accepted by a message of its own.
            message::Publisher::RequestOk(_) => Ok(SubscriberEvent::Nothing),
            message::Publisher::RequestError(msg) => {
                let cause = Subscriber::request_error_to_serve_error(&msg);
                self.end_subscribe(msg.id, cause)
            },
            // Nothing was fetched.
            message::Publisher::FetchOk(_) => Ok(SubscriberEvent::Nothing),
        }
    }

    /// The subscription of a track alias, if it is known yet.
    pub fn get_subscribe_id_by_alias(&self, track_alias: u64) -> (id: Option<u64>)
        ensures
            id == (if self@.aliases.contains_key(track_alias) {
                Some(self@.aliases[track_alias])
            } else {
                None
            }),
    {
        broadcast use vstd::std_specs::hash::group_hash_axioms;

        match self.subscribe_alias_map.get(&track_alias) {
            Some(id) => Some(*id),
            None => None,
        }
    }

    /// Where the wait of a stream or datagram for its track alias stands: once
    /// its time is up, an alias that is not known stays so.
    pub fn poll_alias(&self, track_alias: u64, time_is_up: bool) -> (progress: Progress<
        Option<u64>,
    >)
        ensures
            progress == (if self@.aliases.contains_key(track_alias) {
                Progress::Ready(Some(self@.aliases[track_alias]))
            } else if time_is_up {
                Progress::Ready(None)
            } else {
                Progress::Pending
            }),
    {
        match self.get_subscribe_id_by_alias(track_alias) {
            Some(id) => Progress::Ready(Some(id)),
            None => if time_is_up {
                Progress::Ready(None)
            } else {
                Progress::Pending
            },
        }
    }

    /// The error of a stream whose alias did not become known in time.
    pub fn unknown_alias(track_alias: u64) -> (error: SessionError)
        ensures
            error@ == SessionFault::Serve(
                ServeFault::NotFoundWithId(
                    0,
                    "subscription track_alias="@ + digits(track_alias as nat, 10) + " not found"@,
                ),
            ),
    {
        let text = concat3("subscription track_alias=", &decimal(track_alias), " not found");
        SessionError::Serve(ServeError::not_found_ctx(&text))
    }

    /// Whether a stream carries what a subscription can take: subgroups only.
    pub fn check_stream(header_type: StreamHeaderType) -> (result: Result<(), SessionError>)
        ensures
            match result {
                Ok(()) => header_type is Subgroup,
                Err(error) => !(header_type is Subgroup) && error@ == SessionFault::Unimplemented(
                    "non-SUBGROUP stream types"@,
                ),
            },
    {
        if header_type.is_subgroup() {
            Ok(())
        } else {
            Err(SessionError::unimplemented("non-SUBGROUP stream types"))
        }
    }

    /// Opens a subgroup of a subscription's track for a stream.
    pub fn open_subgroup(&mut self, subscribe_id: u64, header: SubgroupHeader) -> (result: Result<
        SubgroupWriter,
        SessionError,
    >)
        ensures
            final(self).sent() == old(self).sent(),
            (final(self)@, opening_outcome(result)) == old(self)@.opening(subscribe_id, header),
    {
        broadcast use vstd::std_specs::hash::group_hash_axioms;

        let ghost before = self@;
        let mut recv = match self.subscribes.remove(&subscribe_id) {
            Some(recv) => recv,
            None => {
                assert(self@.subscribes =~= before.subscribes);
                let text = concat3(
                    "subscribe_id=",
                    &decimal(subscribe_id),
                    " not found for track_alias=",
                );
                let text = concat2(&text, &decimal(header.track_alias));
                return Err(SessionError::Serve(ServeError::not_found_ctx(&text)));
            },
        };
        let opened = recv.subgroup(header);
        let ghost after = recv@;
        self.subscribes.insert(subscribe_id, recv);
        assert(self@.subscribes =~= before.subscribes.insert(subscribe_id, after));
        match opened {
            Ok(writer) => Ok(writer),
            Err(error) => Err(SessionError::Serve(error)),
        }
    }

    /// Ends the subscription of a stream that failed for the track's sake.
    pub fn abort_stream(&mut self, track_alias: u64, error: &SessionError) -> (result: Result<
        SubscriberEvent,
        SessionError,
    >)
        ensures
            final(self).sent() == old(self).sent(),
            (final(self)@, event_outcome(result)) == (match error@ {
                SessionFault::Serve(cause) if old(self)@.aliases.contains_key(track_alias) => {
                    old(self)@.ended(old(self)@.aliases[track_alias], cause)
                },
                _ => (old(self)@, Ok(EventView::Nothing)),
            }),
    {
        if let SessionError::Serve(cause) = error {
            if let Some(id) = self.get_subscribe_id_by_alias(track_alias) {
                return self.end_subscribe(id, cause.clone());
            }
        }
        Ok(SubscriberEvent::Nothing)
    }

    /// Reads a datagram from the peer.
    pub fn decode_datagram(bytes: &Bytes) -> (result: Result<Datagram, SessionError>)
        ensures
            match DatagramFields::read(bytes_contents(*bytes)) {
                Ok(fields) => result is Ok && result->Ok_0@ == fields,
                Err(fault) => result matches Err(error) && error@ == SessionFault::Decode(fault),
            },
    {
        match Datagram::decode(bytes_as_slice(bytes)) {
            Ok(datagram) => Ok(datagram),
            Err(error) => Err(SessionError::Decode(error)),
        }
    }

    /// Delivers a datagram, whose wait for its alias is over, to the
    /// subscription of the alias. One whose alias or subscription is not known
    /// is discarded.
    pub fn recv_datagram(&mut self, datagram: Datagram) -> (result: Result<bool, SessionError>)
        ensures
            final(self).sent() == old(self).sent(),
            ({
                let (after, outcome) = old(self)@.delivered(datagram@);
                final(self)@ == after && same_outcome(result, outcome)
            }),
    {
        broadcast use vstd::std_specs::hash::group_hash_axioms;

        let ghost before = self@;
        let id: u64 = match self.get_subscribe_id_by_alias(datagram.track_alias) {
            Some(id) => id,
            None => {
                return Ok(false);
            },
        };
        let mut recv = match self.subscribes.remove(&id) {
            Some(recv) => recv,
            None => {
                assert(self@.subscribes =~= before.subscribes);
                return Ok(false);
            },
        };
        let written = recv.datagram(datagram);
        let ghost after = recv@;
        self.subscribes.insert(id, recv);
        assert(self@.subscribes =~= before.subscribes.insert(id, after));
        match written {
            Ok(()) => Ok(true),
            Err(error) => Err(SessionError::Serve(error)),
        }
    }
}

} // verus!
