//! Subscriptions and namespaces, from the first message to the last.

use vstd::prelude::*;

use crate::coding::kvp::{set_then_get, ValueView};
use crate::coding::{Location, TrackNamespace};
use crate::data::SubgroupHeader;
use crate::message;
use crate::message::filter::location_round_trip;
use crate::message::parameter_type::LARGEST_OBJECT;
use crate::serve::error::ServeFault;
use crate::serve::track::FullName;
use crate::serve::{ServeError, Subgroup};
use crate::session::error::{SessionError, SessionFault};
use crate::session::publisher::{
    NamespaceArrival, NamespaceServing, NamespaceStep, Publisher, PublisherEvent,
};
use crate::session::registry::{
    has_namespace, namespace_request, request_row, NamespaceRow,
};
use crate::session::request_id::RequestId;
use crate::session::subscribe::{info_of, DeliveryFilter};
use crate::session::subscribe_recv::{SubscribeRecv, SubscribeState};
use crate::session::subscribed::{
    Farewell, Subscribed, SubscribedRecv, SubscribedState, SubscriptionInitiator,
};
use crate::session::subscriber::{Subscriber, SubscriberEvent};
use crate::watch::{Progress, State};

verus! {

/// A request is found in a table exactly if it has a row, and then at the
/// first one.
pub proof fn request_is_found_by_its_row(rows: Seq<NamespaceRow>, request_id: u64)
    ensures
        ({
            let at = request_row(rows, request_id);
            &&& 0 <= at <= rows.len()
            &&& at < rows.len() ==> rows[at].request_id == request_id
            &&& forall|i: int| 0 <= i < at ==> (#[trigger] rows[i]).request_id != request_id
        }),
    decreases rows.len(),
{
    if rows.len() > 0 && rows[0].request_id != request_id {
        let tail = rows.drop_first();
        request_is_found_by_its_row(tail, request_id);
        let at = request_row(tail, request_id);
        assert(at < tail.len() ==> tail[at] == rows[at + 1]);
        assert forall|i: int| 0 <= i < at + 1 implies (#[trigger] rows[i]).request_id
            != request_id by {
            if i > 0 {
                assert(tail[i - 1] == rows[i]);
            }
        }
    }
}

/// The request of a namespace is one that offered it, and there is one exactly
/// if the namespace is offered.
pub proof fn namespace_leads_to_its_request(rows: Seq<NamespaceRow>, namespace: Seq<Seq<u8>>)
    ensures
        namespace_request(rows, namespace) is Some <==> exists|i: int|
            0 <= i < rows.len() && (#[trigger] rows[i]).namespace == namespace,
        namespace_request(rows, namespace) matches Some(request_id) ==> exists|i: int|
            0 <= i < rows.len() && (#[trigger] rows[i]).namespace == namespace
                && rows[i].request_id == request_id,
    decreases rows.len(),
{
    if rows.len() > 0 {
        if rows[0].namespace == namespace {
        } else {
            let tail = rows.drop_first();
            namespace_leads_to_its_request(tail, namespace);
            assert forall|i: int| 0 <= i < tail.len() implies #[trigger] tail[i] == rows[i + 1] by {}
            if namespace_request(tail, namespace) is Some {
                let i = choose|i: int|
                    0 <= i < tail.len() && (#[trigger] tail[i]).namespace == namespace
                        && tail[i].request_id == namespace_request(tail, namespace)->0;
                assert(rows[i + 1].namespace == namespace);
            }
            if exists|i: int| 0 <= i < rows.len() && (#[trigger] rows[i]).namespace == namespace {
                let i = choose|i: int|
                    0 <= i < rows.len() && (#[trigger] rows[i]).namespace == namespace;
                assert(tail[i - 1].namespace == namespace);
            }
        }
    }
}

/// A SUBSCRIBE that is in order, for a request and a track that are not in use,
/// is handed on as it was asked, with the request that offered its namespace;
/// nothing is answered yet, and every other subscription stays as it is.
pub proof fn new_subscription_is_handed_on(
    publisher: &mut Publisher,
    msg: message::Subscribe,
    result: Result<PublisherEvent, SessionError>,
)
    requires
        call_ensures(
            Publisher::recv_message,
            (publisher, message::Subscriber::Subscribe(msg)),
            result,
        ),
        !old(publisher)@.subscribeds.contains_key(msg.id),
        forall|i: int|
            0 <= i < old(publisher)@.names.len() ==> (#[trigger] old(publisher)@.names[i]).name != (
            FullName { namespace: msg.track_namespace@, name: msg.track_name@ }),
        info_of(
            msg.id,
            FullName { namespace: msg.track_namespace@, name: msg.track_name@ },
            msg.params@,
        ) is Ok,
    ensures
        final(publisher).sent() == old(publisher).sent(),
        result is Ok,
        result->Ok_0 is Subscribed,
        ({
            let subscribed = result->Ok_0->subscribed;
            let request = result->Ok_0->Subscribed_namespace_request;
            let before = old(publisher)@;
            let after = final(publisher)@;
            let offered = exists|i: int|
                0 <= i < before.namespaces.len() && (#[trigger] before.namespaces[i]).namespace
                    == msg.track_namespace@;
            &&& subscribed.info@.id == msg.id
            &&& subscribed.info@.name.namespace == msg.track_namespace@
            &&& subscribed.info@.name.name == msg.track_name@
            &&& subscribed.info@.params == msg.params@
            &&& !subscribed.ok
            &&& subscribed.initiator == SubscriptionInitiator::Subscriber
            &&& request is Some <==> offered
            &&& request matches Some(id) ==> exists|i: int|
                0 <= i < before.namespaces.len() && (#[trigger] before.namespaces[i]).namespace
                    == msg.track_namespace@ && before.namespaces[i].request_id == id
            &&& after.namespaces == before.namespaces
            &&& after.subscribeds.dom() == before.subscribeds.dom().insert(msg.id)
            &&& after.subscribeds[msg.id].live
            &&& after.subscribeds[msg.id].serving.closed is None
            &&& after.subscribeds[msg.id].serving.forward == subscribed.info@.forward
            &&& after.subscribeds[msg.id].serving.stream_count == 0
            &&& after.subscribeds[msg.id].serving.largest_location is None
            &&& !after.subscribeds[msg.id].serving.accepted
            &&& !after.subscribeds[msg.id].serving.peer_rejected
            &&& forall|other: u64|
                other != msg.id && before.subscribeds.contains_key(other)
                    ==> #[trigger] after.subscribeds[other] == before.subscribeds[other]
            &&& after.names.len() == before.names.len() + 1
            &&& after.names.drop_last() == before.names
            &&& after.names.last().request_id == msg.id
            &&& after.names.last().name.namespace == msg.track_namespace@
            &&& after.names.last().name.name == msg.track_name@
        }),
{
    let name = FullName { namespace: msg.track_namespace@, name: msg.track_name@ };
    assert(!old(publisher)@.repeats(msg.id, name));
    namespace_leads_to_its_request(old(publisher)@.namespaces, msg.track_namespace@);
    assert(final(publisher)@.names.drop_last() =~= old(publisher)@.names);
    assert(final(publisher)@.subscribeds.dom() =~= old(publisher)@.subscribeds.dom().insert(
        msg.id,
    ));
}

/// A SUBSCRIBE for a request or a track that is in use is refused as a
/// duplicate, and changes nothing.
pub proof fn repeated_subscription_is_refused(
    publisher: &mut Publisher,
    msg: message::Subscribe,
    result: Result<PublisherEvent, SessionError>,
)
    requires
        call_ensures(
            Publisher::recv_message,
            (publisher, message::Subscriber::Subscribe(msg)),
            result,
        ),
        old(publisher)@.subscribeds.contains_key(msg.id) || exists|i: int|
            0 <= i < old(publisher)@.names.len() && (#[trigger] old(publisher)@.names[i]).name == (
            FullName { namespace: msg.track_namespace@, name: msg.track_name@ }),
    ensures
        result is Ok,
        result->Ok_0 is Nothing,
        final(publisher)@ == old(publisher)@,
        final(publisher).sent().len() == old(publisher).sent().len() + 1,
        final(publisher).sent().drop_last() == old(publisher).sent(),
        final(publisher).sent().last() matches message::Publisher::RequestError(reply) && reply.id
            == msg.id && reply.error_code == 0x19,
{
}

/// An UNSUBSCRIBE ends the subscription that it names, as cancelled, and no
/// other; one that names none breaks the protocol.
pub proof fn unsubscribe_ends_its_subscription(
    publisher: &mut Publisher,
    msg: message::Unsubscribe,
    result: Result<PublisherEvent, SessionError>,
)
    requires
        call_ensures(
            Publisher::recv_message,
            (publisher, message::Subscriber::Unsubscribe(msg)),
            result,
        ),
    ensures
        final(publisher).sent() == old(publisher).sent(),
        old(publisher)@.subscribeds.contains_key(msg.id) ==> {
            let before = old(publisher)@.subscribeds[msg.id];
            &&& result is Ok
            &&& result->Ok_0 is Unsubscribed
            &&& result->Ok_0->Unsubscribed_id == msg.id
            &&& before.live ==> {
                &&& result->Ok_0->recv.state.value@.closed == Some(ServeFault::Cancel)
                &&& result->Ok_0->recv.state.value@.peer_rejected
            }
            &&& result->Ok_0->recv.state.live == before.live
            &&& result->Ok_0->recv.state.value@.stream_count == before.serving.stream_count
            &&& final(publisher)@.subscribeds == old(publisher)@.subscribeds.remove(msg.id)
        },
        !old(publisher)@.subscribeds.contains_key(msg.id) ==> {
            &&& result is Err
            &&& result->Err_0@ is ProtocolViolation
            &&& final(publisher)@ == old(publisher)@
        },
{
}

/// What the peer answers to an offered namespace reaches the one that it was
/// offered under: an acceptance as such, a refusal with its code, and the
/// giving up as cancelled. The last two free the namespace. An answer to
/// nothing is nothing.
pub proof fn answers_reach_the_offer(
    publisher: &mut Publisher,
    msg: message::Subscriber,
    request_id: u64,
    result: Result<PublisherEvent, SessionError>,
)
    requires
        call_ensures(Publisher::recv_message, (publisher, msg), result),
        match msg {
            message::Subscriber::RequestOk(ok) => ok.id == request_id,
            message::Subscriber::RequestError(error) => error.id == request_id,
            message::Subscriber::PublishNamespaceCancel(cancel) => cancel.id == request_id,
            _ => false,
        },
        forall|i: int, j: int|
            0 <= i < j < old(publisher)@.namespaces.len() ==> (
            #[trigger] old(publisher)@.namespaces[i]).namespace != (
            #[trigger] old(publisher)@.namespaces[j]).namespace,
    ensures
        ({
            let before = old(publisher)@.namespaces;
            let known = exists|i: int|
                0 <= i < before.len() && (#[trigger] before[i]).request_id == request_id;
            &&& final(publisher).sent() == old(publisher).sent()
            &&& final(publisher)@.subscribeds == old(publisher)@.subscribeds
            &&& final(publisher)@.names == old(publisher)@.names
            &&& result is Ok
            &&& !known ==> result->Ok_0 is Nothing && final(publisher)@ == old(publisher)@
            &&& known && msg is RequestOk ==> {
                &&& result->Ok_0 is NamespaceAccepted
                &&& result->Ok_0->request_id == request_id
                &&& final(publisher)@ == old(publisher)@
            }
            &&& known && !(msg is RequestOk) ==> {
                let namespace = result->Ok_0->namespace@;
                &&& result->Ok_0 is NamespaceClosed
                &&& msg matches message::Subscriber::RequestError(error) ==> result->Ok_0->cause@
                    == ServeFault::Closed(error.error_code)
                &&& msg is PublishNamespaceCancel ==> result->Ok_0->cause@ == ServeFault::Cancel
                &&& exists|i: int|
                    0 <= i < before.len() && (#[trigger] before[i]).request_id == request_id
                        && before[i].namespace == namespace
                &&& final(publisher)@.namespaces.len() == before.len() - 1
                &&& !has_namespace(final(publisher)@.namespaces, namespace)
            }
        }),
{
    let before = old(publisher)@.namespaces;
    request_is_found_by_its_row(before, request_id);
    let at = request_row(before, request_id);
    if at < before.len() {
        assert(before[at].request_id == request_id);
        crate::session::registry::dropping_frees_the_namespace(before, request_id, Seq::empty());
    }
}

/// What is not supported is refused as such, under its own request, and does
/// nothing else.
pub proof fn unsupported_requests_are_refused(
    publisher: &mut Publisher,
    msg: message::Subscriber,
    result: Result<PublisherEvent, SessionError>,
)
    requires
        call_ensures(Publisher::recv_message, (publisher, msg), result),
        msg is Fetch || msg is SubscribeNamespace || msg is RequestUpdate,
    ensures
        result is Ok,
        result->Ok_0 is Nothing,
        final(publisher)@ == old(publisher)@,
        final(publisher).sent().len() == old(publisher).sent().len() + 1,
        final(publisher).sent().drop_last() == old(publisher).sent(),
        final(publisher).sent().last() matches message::Publisher::RequestError(reply)
            && reply.error_code == 0x3 && reply.id == (match msg {
            message::Subscriber::Fetch(msg) => msg.id,
            message::Subscriber::SubscribeNamespace(msg) => msg.id,
            message::Subscriber::RequestUpdate(msg) => msg.id,
            _ => 0,
        }),
{
}

/// A question for the state of a track is handed on as it came.
pub proof fn status_requests_are_handed_on(
    publisher: &mut Publisher,
    msg: message::TrackStatus,
    result: Result<PublisherEvent, SessionError>,
)
    requires
        call_ensures(
            Publisher::recv_message,
            (publisher, message::Subscriber::TrackStatus(msg)),
            result,
        ),
    ensures
        result is Ok,
        result->Ok_0 is TrackStatusRequested,
        result->Ok_0->request == msg,
        result->Ok_0->TrackStatusRequested_namespace_request is Some <==> exists|i: int|
            0 <= i < old(publisher)@.namespaces.len() && (
            #[trigger] old(publisher)@.namespaces[i]).namespace == msg.track_namespace@,
        final(publisher)@ == old(publisher)@,
        final(publisher).sent() == old(publisher).sent(),
{
    namespace_leads_to_its_request(old(publisher)@.namespaces, msg.track_namespace@);
}

/// A namespace is offered unless it is offered already or the request IDs have
/// run out: under the next ID, as it was asked for.
pub proof fn free_namespace_is_offered(
    publisher: &mut Publisher,
    ids: &mut RequestId,
    namespace: &TrackNamespace,
    result: Result<message::PublishNamespace, SessionError>,
)
    requires
        call_ensures(Publisher::begin_publish_namespace, (publisher, ids, namespace), result),
    ensures
        ({
            let offered = exists|i: int|
                0 <= i < old(publisher)@.namespaces.len() && (
                #[trigger] old(publisher)@.namespaces[i]).namespace == namespace@;
            &&& result is Ok <==> !offered && old(ids).upcoming() is Some
            &&& result is Ok ==> {
                &&& Some(result->Ok_0.id) == old(ids).upcoming()
                &&& result->Ok_0.track_namespace@ == namespace@
                &&& final(publisher)@.namespaces.drop_last() == old(publisher)@.namespaces
                &&& final(publisher)@.namespaces.last().namespace == namespace@
                &&& final(publisher)@.namespaces.last().request_id == result->Ok_0.id
            }
            &&& result is Err ==> final(publisher)@ == old(publisher)@
            &&& offered ==> result is Err && result->Err_0@ == SessionFault::Serve(
                ServeFault::Duplicate,
            )
        }),
{
    if result is Ok {
        assert(final(publisher)@.namespaces.drop_last() =~= old(publisher)@.namespaces);
    }
}

/// The publisher's acceptance is understood: the subscriber takes it, and from
/// then on both ends agree, for every object, on whether it is delivered.
pub proof fn both_ends_filter_alike(
    subscribed: &mut Subscribed,
    state: &mut State<SubscribedState>,
    largest: Option<Location>,
    msg: message::SubscribeOk,
    filter: DeliveryFilter,
    recv: &mut SubscribeRecv,
    taken: Result<(), ServeError>,
    location: Location,
)
    requires
        call_ensures(Subscribed::accept, (subscribed, state, largest), Ok((msg, filter))),
        call_ensures(SubscribeRecv::ok, (recv, &msg), taken),
        old(recv)@.info.filter == old(subscribed).info@.filter,
        old(recv)@.info.forward,
        old(subscribed).info@.forward,
        !old(recv)@.ok,
    ensures
        taken is Ok,
        final(recv)@.delivery_filter is Some,
        final(recv)@.delivery_filter->0.delivers(location) == filter.delivers(location),
        old(recv)@.live ==> final(recv)@.ok && final(recv)@.track_alias == Some(msg.track_alias),
        msg.id == old(subscribed).info@.id,
        final(subscribed).ok,
        final(state).value@.largest_location == largest,
{
    if let Some(place) = largest {
        let bytes = place.encoding()->Ok_0;
        set_then_get(Seq::empty(), LARGEST_OBJECT, ValueView::Bytes(bytes), LARGEST_OBJECT);
        location_round_trip(place, Seq::empty());
        assert(bytes + Seq::<u8>::empty() =~= bytes);
    }
}

/// A subscription that is served is accepted, whatever is known of its track,
/// as far as that can be put in bytes.
pub proof fn served_subscription_is_accepted(
    subscribed: &mut Subscribed,
    state: &mut State<SubscribedState>,
    largest: Option<Location>,
    result: Result<(message::SubscribeOk, DeliveryFilter), SessionError>,
)
    requires
        call_ensures(Subscribed::accept, (subscribed, state, largest), result),
    ensures
        old(state).live && (largest matches Some(place) ==> place.group_id
            < 0x4000_0000_0000_0000 && place.object_id < 0x4000_0000_0000_0000) ==> result is Ok,
        !old(state).live ==> result is Err && result->Err_0@ == SessionFault::Serve(
            ServeFault::Cancel,
        ),
        result is Ok ==> result->Ok_0.1.forward && result->Ok_0.0.track_alias
            == old(subscribed).info@.id,
{
}

/// A track that was offered and accepted is delivered whole.
pub proof fn published_track_is_delivered_whole(
    subscribed: &mut Subscribed,
    state: &mut State<SubscribedState>,
    largest: Option<Location>,
    result: Result<DeliveryFilter, SessionError>,
    location: Location,
)
    requires
        call_ensures(Subscribed::accept_published, (subscribed, state, largest), result),
    ensures
        result is Ok <==> old(state).live,
        result is Ok ==> result->Ok_0.delivers(location) && final(state).value@.largest_location
            == largest,
{
}

/// The streams on which a subscription is served lead to it at the other end,
/// once its acceptance has come.
pub proof fn served_streams_find_their_subscription(
    subscribed: &mut Subscribed,
    state: &mut State<SubscribedState>,
    largest: Option<Location>,
    msg: message::SubscribeOk,
    filter: DeliveryFilter,
    subgroup: &Subgroup,
    served: &Subscribed,
    header: SubgroupHeader,
    subscriber: &mut Subscriber,
    result: Result<SubscriberEvent, SessionError>,
    at_stream: &Subscriber,
    found: Option<u64>,
)
    requires
        call_ensures(Subscribed::accept, (subscribed, state, largest), Ok((msg, filter))),
        *served == *final(subscribed),
        call_ensures(Subscribed::subgroup_header, (served, subgroup), header),
        call_ensures(
            Subscriber::recv_message,
            (subscriber, message::Publisher::SubscribeOk(msg)),
            result,
        ),
        old(subscriber)@.subscribes.contains_key(msg.id),
        *at_stream == *final(subscriber),
        call_ensures(Subscriber::get_subscribe_id_by_alias, (at_stream, header.track_alias), found),
    ensures
        found == Some(old(subscribed).info@.id),
        !old(subscriber)@.subscribes[msg.id].ok ==> {
            &&& result is Ok
            &&& result->Ok_0 is AliasKnown
            &&& result->Ok_0->track_alias == header.track_alias
        },
        old(subscriber)@.subscribes[msg.id].ok ==> result is Err && result->Err_0@
            == SessionFault::Serve(ServeFault::Duplicate),
{
    if let Some(place) = largest {
        let bytes = place.encoding()->Ok_0;
        set_then_get(Seq::empty(), LARGEST_OBJECT, ValueView::Bytes(bytes), LARGEST_OBJECT);
        location_round_trip(place, Seq::empty());
        assert(bytes + Seq::<u8>::empty() =~= bytes);
    }
}

/// A stream or datagram finds the subscription of its alias at once; one whose
/// alias is not known waits until its time is up.
pub proof fn alias_is_waited_for(
    subscriber: &Subscriber,
    alias: u64,
    time_is_up: bool,
    progress: Progress<Option<u64>>,
)
    requires
        call_ensures(Subscriber::poll_alias, (subscriber, alias, time_is_up), progress),
    ensures
        subscriber@.aliases.contains_key(alias) ==> progress == Progress::Ready(
            Some(subscriber@.aliases[alias]),
        ),
        !subscriber@.aliases.contains_key(alias) ==> progress == (if time_is_up {
            Progress::Ready(None::<u64>)
        } else {
            Progress::Pending
        }),
{
}

/// How a subscription ends is told by who started it and how far it came: an
/// offer that the peer refused in silence, what was accepted or offered as
/// done, with its streams counted, and the rest as refused. What went well is
/// told as the end of the track, what was closed with a code with that code,
/// and all else as an internal error.
pub proof fn farewell_tells_how_it_ended(
    subscribed: &Subscribed,
    state: &State<SubscribedState>,
    farewell: Farewell,
)
    requires
        call_ensures(Subscribed::farewell, (subscribed, state), farewell),
    ensures
        farewell is DropPublished <==> subscribed.initiator == SubscriptionInitiator::Publisher
            && state.value.peer_rejected,
        farewell is Refused <==> subscribed.initiator == SubscriptionInitiator::Subscriber
            && !subscribed.ok,
        farewell matches Farewell::DropPublished(id) ==> id == subscribed.info.id,
        farewell matches Farewell::Done(msg) ==> {
            &&& msg.id == subscribed.info.id
            &&& msg.stream_count == state.value.stream_count
            &&& state.value.closed is Ok ==> msg.status_code == 0x2
            &&& state.value.closed matches Err(error) ==> match error@ {
                ServeFault::Done => msg.status_code == 0x2,
                ServeFault::Closed(code) => msg.status_code == code,
                _ => msg.status_code == 0x0,
            }
            &&& state.value.closed matches Err(error) ==> msg.reason.0@ == error@.message()
        },
        farewell matches Farewell::Refused(msg) ==> {
            &&& msg.id == subscribed.info.id
            &&& msg.redirect is None
            &&& state.value.closed is Ok ==> msg.error_code == 0x20
            &&& state.value.closed matches Err(error) ==> msg.reason.0@ == error@.message()
        },
{
}

/// A refusal keeps its meaning on its way to the subscriber's track: what was
/// not found, not supported or failed is so there too, with the reason that
/// was given.
pub proof fn refusal_keeps_its_meaning(
    subscribed: &Subscribed,
    state: &State<SubscribedState>,
    msg: message::RequestError,
    error: ServeError,
)
    requires
        call_ensures(Subscribed::farewell, (subscribed, state), Farewell::Refused(msg)),
        call_ensures(Subscriber::request_error_to_serve_error, (&msg,), error),
    ensures
        state.value.closed matches Err(cause) ==> match cause@ {
            ServeFault::NotFound | ServeFault::NotFoundWithId(_, _) => error@
                == ServeFault::NotFoundWithId(0, cause@.message()),
            ServeFault::Internal(_) | ServeFault::InternalWithId(_, _) => error@
                == ServeFault::InternalWithId(0, cause@.message()),
            ServeFault::Mode
            | ServeFault::Size
            | ServeFault::NotImplemented(_)
            | ServeFault::NotImplementedWithId(_, _) => error@ == ServeFault::NotImplemented(
                cause@.message(),
            ),
            ServeFault::Duplicate | ServeFault::Cancel | ServeFault::Done => error@
                == ServeFault::Closed(0x20),
            ServeFault::Closed(code) => code != 0x0 && code != 0x3 && code != 0x10 && code != 0x19
                ==> error@ == ServeFault::Closed(code),
        },
{
}

/// What a refusal means to a track, by its code.
pub proof fn refusal_codes_have_their_meanings(msg: &message::RequestError, error: ServeError)
    requires
        call_ensures(Subscriber::request_error_to_serve_error, (msg,), error),
    ensures
        error@ is NotFoundWithId <==> msg.error_code == 0x10,
        error@ is InternalWithId <==> msg.error_code == 0x0,
        error@ is Duplicate <==> msg.error_code == 0x19,
        error@ is NotImplemented <==> msg.error_code == 0x3,
        error@ matches ServeFault::Closed(code) ==> code == msg.error_code,
        error@ is NotFoundWithId || error@ is InternalWithId || error@ is Duplicate || error@
            is NotImplemented || error@ is Closed,
{
}

/// A subscription that its publisher ends is gone, with its alias; whoever
/// waits for it, and the readers of its track, are told the code that it ended
/// with. Ending one that is not there does nothing.
pub proof fn ended_subscription_is_told(
    subscriber: &mut Subscriber,
    msg: message::PublishDone,
    result: Result<SubscriberEvent, SessionError>,
)
    requires
        call_ensures(
            Subscriber::recv_message,
            (subscriber, message::Publisher::PublishDone(msg)),
            result,
        ),
    ensures
        ({
            let before = old(subscriber)@;
            let after = final(subscriber)@;
            let known = before.subscribes.contains_key(msg.id);
            let recv = before.subscribes[msg.id];
            let read = recv.writer is Some && recv.writer->0.live();
            &&& final(subscriber).sent() == old(subscriber).sent()
            &&& after.namespaces == before.namespaces
            &&& !known ==> result is Ok && result->Ok_0 is Nothing && after == before
            &&& known ==> after.subscribes == before.subscribes.remove(msg.id)
            &&& known ==> (recv.track_alias matches Some(alias) ==> !after.aliases.contains_key(
                alias,
            ))
            &&& known && read ==> after.endings == before.endings.push(
                (msg.id, ServeFault::Closed(msg.status_code)),
            )
            &&& known && !read ==> after.endings == before.endings
            &&& known && read && recv.live && recv.closed is None ==> {
                &&& result is Ok
                &&& result->Ok_0 is Ended
                &&& result->Ok_0->id == msg.id
                &&& result->Ok_0->state.value.closed is Err
                &&& result->Ok_0->state.value.closed->Err_0@ == ServeFault::Closed(
                    msg.status_code,
                )
            }
        }),
{
}

/// A namespace that is not offered yet is taken as an offer, and one that is
/// offered already breaks the session.
pub proof fn new_offer_is_taken(
    subscriber: &mut Subscriber,
    msg: message::PublishNamespace,
    result: Result<SubscriberEvent, SessionError>,
)
    requires
        call_ensures(
            Subscriber::recv_message,
            (subscriber, message::Publisher::PublishNamespace(msg)),
            result,
        ),
    ensures
        ({
            let before = old(subscriber)@;
            let after = final(subscriber)@;
            let offered = exists|i: int|
                0 <= i < before.namespaces.len() && (#[trigger] before.namespaces[i]).namespace
                    == msg.track_namespace@;
            &&& offered ==> result is Err && result->Err_0@ == SessionFault::Duplicate && after
                == before
            &&& !offered ==> {
                &&& result is Ok
                &&& result->Ok_0 is NamespaceOffered
                &&& result->Ok_0->request_id == msg.id
                &&& result->Ok_0->NamespaceOffered_namespace@ == msg.track_namespace@
                &&& after.namespaces.drop_last() == before.namespaces
                &&& after.namespaces.last().namespace == msg.track_namespace@
                &&& after.namespaces.last().request_id == msg.id
                &&& after.subscribes == before.subscribes
                &&& after.aliases == before.aliases
            }
            &&& final(subscriber).sent() == old(subscriber).sent()
        }),
{
    if result is Ok {
        assert(final(subscriber)@.namespaces.drop_last() =~= old(subscriber)@.namespaces);
    }
}

/// An offer that is withdrawn is forgotten, and the application is told which;
/// the withdrawal of none is nothing.
pub proof fn withdrawn_offer_is_forgotten(
    subscriber: &mut Subscriber,
    msg: message::PublishNamespaceDone,
    result: Result<SubscriberEvent, SessionError>,
)
    requires
        call_ensures(
            Subscriber::recv_message,
            (subscriber, message::Publisher::PublishNamespaceDone(msg)),
            result,
        ),
    ensures
        ({
            let before = old(subscriber)@.namespaces;
            let known = exists|i: int|
                0 <= i < before.len() && (#[trigger] before[i]).request_id == msg.id;
            &&& result is Ok
            &&& !known ==> result->Ok_0 is Nothing && final(subscriber)@ == old(subscriber)@
            &&& known ==> {
                &&& result->Ok_0 is NamespaceDone
                &&& exists|i: int|
                    0 <= i < before.len() && (#[trigger] before[i]).request_id == msg.id
                        && before[i].namespace == result->Ok_0->NamespaceDone_namespace@
                &&& final(subscriber)@.namespaces.len() == before.len() - 1
                &&& final(subscriber)@.subscribes == old(subscriber)@.subscribes
            }
        }),
{
    let before = old(subscriber)@.namespaces;
    request_is_found_by_its_row(before, msg.id);
    let at = request_row(before, msg.id);
    if at < before.len() {
        assert(before[at].request_id == msg.id);
    }
}

/// A track that is offered to a subscriber on its own is refused as not
/// supported, under its request.
pub proof fn offered_track_is_refused(
    subscriber: &mut Subscriber,
    msg: message::Publish,
    result: Result<SubscriberEvent, SessionError>,
)
    requires
        call_ensures(
            Subscriber::recv_message,
            (subscriber, message::Publisher::Publish(msg)),
            result,
        ),
    ensures
        result is Ok,
        result->Ok_0 is Nothing,
        final(subscriber)@ == old(subscriber)@,
        final(subscriber).sent().len() == old(subscriber).sent().len() + 1,
        final(subscriber).sent().last() matches message::Subscriber::RequestError(reply) && reply.id
            == msg.id && reply.error_code == 0x3,
{
}

/// A copy of an object is taken once: the first that its filter delivers, and
/// none after it.
pub proof fn object_is_claimed_once(
    recv: &mut SubscribeRecv,
    group_id: u64,
    object_id: u64,
    claimed: bool,
    again: &mut SubscribeRecv,
    repeated: bool,
)
    requires
        call_ensures(SubscribeRecv::claim_object, (recv, group_id, object_id), claimed),
        *old(again) == *final(recv),
        call_ensures(SubscribeRecv::claim_object, (again, group_id, object_id), repeated),
    ensures
        !repeated,
        !old(recv)@.seen.contains(Location { group_id, object_id }) ==> claimed
            == old(recv)@.filter().delivers(Location { group_id, object_id }),
        old(recv)@.seen.contains(Location { group_id, object_id }) ==> !claimed,
        final(recv)@.filter() == old(recv)@.filter(),
        forall|other: Location|
            other != (Location { group_id, object_id }) ==> #[trigger] final(recv)@.seen.contains(other) == old(recv)@.seen.contains(other),
{
}

/// Whoever waits for a subscription to be accepted, to forward or to end goes
/// on waiting while it is live and open and it has not happened, and is told
/// the cause once it is closed.
pub proof fn waits_for_a_subscription_end(
    state: &State<SubscribedState>,
    forwards: Progress<Result<(), ServeError>>,
    accepted: Progress<Result<(), ServeError>>,
    ended: Progress<Result<(), ServeError>>,
)
    requires
        call_ensures(State::<SubscribedState>::poll_forward, (state,), forwards),
        call_ensures(State::<SubscribedState>::poll_publish_ok, (state,), accepted),
        call_ensures(State::<SubscribedState>::poll_serving_closed, (state,), ended),
    ensures
        forwards is Pending <==> state.live && state.value.closed is Ok && !state.value.forward,
        accepted is Pending <==> state.live && state.value.closed is Ok && !state.value.accepted,
        ended is Pending <==> state.live && state.value.closed is Ok,
        state.value.closed matches Err(cause) ==> {
            &&& forwards->Ready_0 is Err && forwards->Ready_0->Err_0@ == cause@
            &&& accepted->Ready_0 is Err && accepted->Ready_0->Err_0@ == cause@
            &&& ended->Ready_0 is Err && ended->Ready_0->Err_0@ == cause@
        },
        state.value.closed is Ok ==> {
            &&& state.value.forward ==> forwards->Ready_0 is Ok
            &&& state.value.accepted ==> accepted->Ready_0 is Ok
            &&& !state.live ==> ended->Ready_0 is Ok
            &&& !state.live && !state.value.forward ==> forwards->Ready_0 is Err
                && forwards->Ready_0->Err_0@ == ServeFault::Done
            &&& !state.live && !state.value.accepted ==> accepted->Ready_0 is Err
                && accepted->Ready_0->Err_0@ == ServeFault::Done
        },
{
}

/// The same for a subscription of this endpoint's own.
pub proof fn waits_for_an_own_subscription_end(
    state: &State<SubscribeState>,
    accepted: Progress<Result<(), ServeError>>,
    ended: Progress<Result<(), ServeError>>,
)
    requires
        call_ensures(State::<SubscribeState>::poll_ok, (state,), accepted),
        call_ensures(State::<SubscribeState>::poll_closed, (state,), ended),
    ensures
        accepted is Pending <==> state.live && state.value.closed is Ok && !state.value.ok,
        ended is Pending <==> state.live && state.value.closed is Ok,
        state.value.closed matches Err(cause) ==> {
            &&& accepted->Ready_0 is Err && accepted->Ready_0->Err_0@ == cause@
            &&& ended->Ready_0 is Err && ended->Ready_0->Err_0@ == cause@
        },
        state.value.closed is Ok && state.value.ok ==> accepted->Ready_0 is Ok,
        state.value.closed is Ok && !state.live ==> ended->Ready_0 is Ok,
        state.value.closed is Ok && !state.live && !state.value.ok ==> accepted->Ready_0 is Err
            && accepted->Ready_0->Err_0@ == ServeFault::Done,
{
}

/// A change of FORWARD by the peer takes hold: whoever waits for objects to be
/// forwarded goes on, or waits, by what the peer asked for last.
pub proof fn forward_update_takes_hold(
    recv: &mut SubscribedRecv,
    forward: bool,
    result: Result<(), ServeError>,
    state: &State<SubscribedState>,
    waits: Progress<Result<(), ServeError>>,
)
    requires
        call_ensures(SubscribedRecv::recv_forward_update, (recv, forward), result),
        *state == final(recv).state,
        call_ensures(State::<SubscribedState>::poll_forward, (state,), waits),
    ensures
        result is Ok <==> old(recv).state.live && old(recv).state.value.closed is Ok,
        result is Ok ==> {
            &&& forward ==> waits is Ready && waits->Ready_0 is Ok
            &&& !forward ==> waits is Pending
            &&& final(recv).state.value@.stream_count == old(recv).state.value@.stream_count
            &&& final(recv).state.value@.largest_location == old(recv).state.value@.largest_location
            &&& final(recv).state.value@.accepted == old(recv).state.value@.accepted
        },
        result is Err ==> final(recv).state.value@ == old(recv).state.value@,
        !old(recv).state.live ==> result->Err_0@ == ServeFault::Done,
        old(recv).state.live ==> (old(recv).state.value.closed matches Err(cause)
            ==> result->Err_0@ == cause@),
{
}

/// A track that is offered goes on once the peer accepts it, with the FORWARD
/// that it asked for, if it did.
pub proof fn accepted_offer_goes_on(
    recv: &mut SubscribedRecv,
    msg: &message::RequestOk,
    result: Result<(), ServeError>,
    state: &State<SubscribedState>,
    waits: Progress<Result<(), ServeError>>,
)
    requires
        call_ensures(SubscribedRecv::recv_publish_ok, (recv, msg), result),
        *state == final(recv).state,
        call_ensures(State::<SubscribedState>::poll_publish_ok, (state,), waits),
    ensures
        ({
            let told = crate::coding::kvp::value_of(
                msg.params@,
                crate::message::parameter_type::FORWARD,
            );
            let before = old(recv).state.value@;
            let after = final(recv).state.value@;
            &&& result is Ok <==> told is None || told == Some(ValueView::Int(0)) || told == Some(
                ValueView::Int(1),
            )
            &&& result is Err ==> after == before
            &&& result is Ok && old(recv).state.live ==> {
                &&& before.closed is None ==> waits is Ready && waits->Ready_0 is Ok
                &&& told is None ==> after.forward == before.forward
                &&& told == Some(ValueView::Int(0)) ==> !after.forward
                &&& told == Some(ValueView::Int(1)) ==> after.forward
                &&& after.closed == before.closed
                &&& after.stream_count == before.stream_count
            }
        }),
{
}

/// Whatever ends a subscription first is what it ended with: a later cause does
/// not take its place, but the peer's own refusal does.
pub proof fn first_cause_stays(
    state: &mut State<SubscribedState>,
    error: ServeError,
    result: Result<(), ServeError>,
    recv: &mut SubscribedRecv,
    failed: Result<(), ServeError>,
)
    requires
        call_ensures(Subscribed::close_state, (state, error), result),
        call_ensures(SubscribedRecv::recv_update_failed, (recv,), failed),
    ensures
        old(state).value.closed matches Err(earlier) ==> {
            &&& result is Err
            &&& result->Err_0@ == earlier@
            &&& final(state).value@ == old(state).value@
        },
        old(state).value.closed is Ok && old(state).live ==> {
            &&& result is Ok
            &&& final(state).value@.closed == Some(error@)
            &&& final(state).value@.stream_count == old(state).value@.stream_count
            &&& final(state).value@.peer_rejected == old(state).value@.peer_rejected
        },
        old(recv).state.value.closed matches Err(earlier) ==> {
            &&& failed is Err
            &&& failed->Err_0@ == earlier@
            &&& final(recv).state.value@ == old(recv).state.value@
        },
        old(recv).state.value.closed is Ok && old(recv).state.live ==> {
            &&& failed is Ok
            &&& final(recv).state.value@.closed == Some(ServeFault::Closed(0x8))
        },
{
}

/// A refusal by the peer ends the subscription with its cause, and one that
/// this endpoint started is then forgotten in silence.
pub proof fn refusal_by_the_peer_ends_it(
    recv: &mut SubscribedRecv,
    error: ServeError,
    result: Result<(), ServeError>,
    subscribed: &Subscribed,
    state: &State<SubscribedState>,
    farewell: Farewell,
)
    requires
        call_ensures(SubscribedRecv::recv_error, (recv, error), result),
        old(recv).state.live,
        *state == final(recv).state,
        call_ensures(Subscribed::farewell, (subscribed, state), farewell),
    ensures
        result is Ok,
        final(recv).state.value@.closed == Some(error@),
        subscribed.initiator == SubscriptionInitiator::Publisher ==> farewell
            == Farewell::DropPublished(subscribed.info.id),
{
}

/// The requests of an endpoint are numbered by every second number, as long as
/// there are any; its peer takes every number of its own kind once.
pub proof fn requests_are_numbered_in_turn(
    ids: &mut RequestId,
    first: Result<u64, SessionError>,
    later: &mut RequestId,
    second: Result<u64, SessionError>,
)
    requires
        call_ensures(RequestId::allocate, (ids,), first),
        *old(later) == *final(ids),
        call_ensures(RequestId::allocate, (later,), second),
    ensures
        first is Ok <==> old(ids).upcoming() is Some,
        first is Err ==> first->Err_0@ == SessionFault::InvalidRequestId && second is Err,
        first is Ok ==> Some(first->Ok_0) == old(ids).upcoming(),
        first is Ok && first->Ok_0 <= u64::MAX - 2 ==> second is Ok && second->Ok_0 == first->Ok_0
            + 2,
        first is Ok && first->Ok_0 > u64::MAX - 2 ==> second is Err,
        final(later).peer_used() == old(ids).peer_used(),
        final(later).peer_first() == old(ids).peer_first(),
{
}

/// A number of the peer's own kind is taken once and then not again, and no
/// other number is.
pub proof fn peer_numbers_are_taken_once(
    ids: &mut RequestId,
    id: u64,
    first: Result<(), SessionError>,
    later: &mut RequestId,
    again: Result<(), SessionError>,
)
    requires
        call_ensures(RequestId::validate_incoming, (ids, id), first),
        *old(later) == *final(ids),
        call_ensures(RequestId::validate_incoming, (later, id), again),
    ensures
        first is Ok <==> id >= old(ids).peer_first() && (id - old(ids).peer_first()) % 2 == 0
            && !old(ids).peer_used().contains(id),
        again is Err,
        first is Err ==> first->Err_0@ == SessionFault::InvalidRequestId,
        forall|other: u64|
            other != id ==> #[trigger] final(ids).peer_used().contains(other)
                == old(ids).peer_used().contains(other),
        final(ids).upcoming() == old(ids).upcoming(),
{
}

/// A client starts with the even numbers and takes the odd ones, a server the
/// other way round.
pub proof fn ends_start_with_their_numbers(client: RequestId, server: RequestId)
    requires
        call_ensures(RequestId::client, (), client),
        call_ensures(RequestId::server, (), server),
    ensures
        client.upcoming() == Some(0u64),
        client.peer_first() == 1,
        server.upcoming() == Some(1u64),
        server.peer_first() == 0,
        forall|id: u64| !client.peer_used().contains(id) && !server.peer_used().contains(id),
{
}

/// An offered namespace is served until no more requests come and all that came
/// are served; every one that comes is served.
pub proof fn namespace_is_served_to_its_end(
    serving: &mut NamespaceServing,
    arrival: NamespaceArrival,
    result: Result<NamespaceStep, SessionError>,
)
    requires
        call_ensures(NamespaceServing::next, (serving, arrival), result),
        old(serving).running < u64::MAX,
        arrival is Served ==> old(serving).running > 0,
    ensures
        ({
            let came = arrival == NamespaceArrival::Subscription(Ok(true)) || arrival
                == NamespaceArrival::StatusRequest(Ok(true));
            &&& came ==> result == Ok::<NamespaceStep, SessionError>(NamespaceStep::Serve)
            &&& result == Ok::<NamespaceStep, SessionError>(NamespaceStep::Serve) ==> came
            &&& final(serving).running - old(serving).running == (if came {
                1int
            } else if arrival is Served {
                -1int
            } else {
                0int
            })
            &&& final(serving).subscribe_done == (old(serving).subscribe_done || arrival
                == NamespaceArrival::Subscription(Ok(false)))
            &&& final(serving).status_done == (old(serving).status_done || arrival
                == NamespaceArrival::StatusRequest(Ok(false)))
            &&& result == Ok::<NamespaceStep, SessionError>(NamespaceStep::Finish) <==> !came
                && result is Ok && final(serving).subscribe_done && final(serving).status_done
                && final(serving).running == 0
            &&& result is Err <==> (arrival matches NamespaceArrival::Subscription(Err(_))) || (
            arrival matches NamespaceArrival::StatusRequest(Err(_)))
            &&& arrival matches NamespaceArrival::Subscription(Err(cause)) ==> result->Err_0@
                == SessionFault::Serve(cause@)
            &&& arrival matches NamespaceArrival::StatusRequest(Err(cause)) ==> result->Err_0@
                == SessionFault::Serve(cause@)
        }),
{
}

} // verus!
