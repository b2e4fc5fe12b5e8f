//! How subscriptions and streams end, and what is left of them.

use bytes::BytesMut;
use std::sync::Arc;
use tokio::sync::Semaphore;
use vstd::prelude::*;

use crate::coding::buffer::buffer_contents;
use crate::coding::{TrackName, TrackNamespace};
use crate::message::{self, Message};
use crate::serve::error::ServeFault;
use crate::serve::{ServeError, TrackWriter};
use crate::session::bidi::{BidiFrame, BidiRequest};
use crate::session::control::{ControlRecord, LogValueView};
use crate::session::error::{SessionError, SessionFault};
use crate::session::laws::receiving::{takes_datagrams, takes_subgroups};
use crate::session::laws::subscriptions::request_is_found_by_its_row;
use crate::session::limits::DataStreamTaskLimits;
use crate::session::publisher::{Publisher, PublisherEvent};
use crate::session::registry::{
    only_matching_names_are_dropped, request_row, without_request, NameRow, NamespaceRow,
};
use crate::session::request_id::RequestId;
use crate::session::subscribe_recv::{SubscribeRecv, SubscribeState};
use crate::session::subscribed::{Farewell, Subscribed, SubscribedRecv, SubscribedState};
use crate::session::subscriber::{Subscriber, SubscriberEvent};
use crate::session::Session;
use crate::watch::State;

verus! {

/// A subscription that is bid farewell is forgotten, with its track's name, and
/// its last message, if it has one, is sent; no other subscription or name is
/// touched.
pub proof fn farewell_is_sent_and_forgets(
    publisher: &mut Publisher,
    farewell: Farewell,
    row: NameRow,
)
    requires
        call_ensures(Publisher::bid_farewell, (publisher, farewell), ()),
    ensures
        ({
            let id = match farewell {
                Farewell::DropPublished(id) => id,
                Farewell::Done(msg) => msg.id,
                Farewell::Refused(msg) => msg.id,
            };
            let before = old(publisher)@;
            let after = final(publisher)@;
            &&& after.subscribeds == before.subscribeds.remove(id)
            &&& after.namespaces == before.namespaces
            &&& after.names.contains(row) <==> before.names.contains(row) && row.request_id != id
            &&& farewell is DropPublished ==> final(publisher).sent() == old(publisher).sent()
            &&& farewell matches Farewell::Done(msg) ==> final(publisher).sent() == old(publisher).sent().push(message::Publisher::PublishDone(msg))
            &&& farewell matches Farewell::Refused(msg) ==> final(publisher).sent() == old(publisher).sent().push(message::Publisher::RequestError(msg))
        }),
{
    let id = match farewell {
        Farewell::DropPublished(id) => id,
        Farewell::Done(msg) => msg.id,
        Farewell::Refused(msg) => msg.id,
    };
    only_matching_names_are_dropped(old(publisher)@.names, id, row);
}

/// Messages are handed out once, in the order in which they were to be sent.
pub proof fn messages_are_handed_out_once(
    publisher: &mut Publisher,
    msg: message::Publisher,
    later: &mut Publisher,
    messages: Vec<message::Publisher>,
)
    requires
        call_ensures(Publisher::send_message, (publisher, msg), ()),
        *old(later) == *final(publisher),
        call_ensures(Publisher::take_outgoing, (later,), messages),
    ensures
        messages@.len() == old(publisher).sent().len() + 1,
        messages@.last() == msg,
        messages@.drop_last() == old(publisher).sent(),
        final(later).sent().len() == 0,
        final(later)@ == final(publisher)@,
        msg matches message::Publisher::PublishDone(done) ==> !final(publisher)@.subscribeds.contains_key(done.id),
        !(msg is PublishDone) ==> final(publisher)@.subscribeds == old(publisher)@.subscribeds,
{
    assert(messages@.drop_last() =~= old(publisher).sent());
}

/// The same for a subscriber.
pub proof fn requests_are_handed_out_once(
    subscriber: &mut Subscriber,
    msg: message::Subscriber,
    later: &mut Subscriber,
    messages: Vec<message::Subscriber>,
)
    requires
        call_ensures(Subscriber::send_message, (subscriber, msg), ()),
        *old(later) == *final(subscriber),
        call_ensures(Subscriber::take_outgoing, (later,), messages),
    ensures
        messages@.len() == old(subscriber).sent().len() + 1,
        messages@.last() == msg,
        messages@.drop_last() == old(subscriber).sent(),
        final(later).sent().len() == 0,
        final(subscriber)@.subscribes == old(subscriber)@.subscribes,
        final(subscriber)@.aliases == old(subscriber)@.aliases,
        !(msg is PublishNamespaceCancel) ==> final(subscriber)@ == old(subscriber)@,
{
    assert(messages@.drop_last() =~= old(subscriber).sent());
}

/// The state of a track is asked for under the next request ID, as long as
/// there is one, and for the track that is named.
pub proof fn track_status_is_asked_for(
    subscriber: &mut Subscriber,
    ids: &mut RequestId,
    namespace: &TrackNamespace,
    name: TrackName,
)
    requires
        call_ensures(Subscriber::track_status, (subscriber, ids, namespace, name), ()),
    ensures
        old(ids).upcoming() is None ==> final(subscriber).sent() == old(subscriber).sent(),
        old(ids).upcoming() matches Some(id) ==> {
            &&& final(subscriber).sent().len() == old(subscriber).sent().len() + 1
            &&& final(subscriber).sent().last() matches message::Subscriber::TrackStatus(msg)
            &&& msg.id == id
            &&& msg.track_namespace@ == namespace@
            &&& msg.track_name@ == name@
        },
        final(subscriber)@ == old(subscriber)@,
{
}

/// A subscription whose request is refused is gone, and its track's readers and
/// whoever waits for it are told what the refusal means.
pub proof fn refused_request_is_told(
    subscriber: &mut Subscriber,
    msg: message::RequestError,
    meaning: ServeError,
    result: Result<SubscriberEvent, SessionError>,
)
    requires
        call_ensures(
            Subscriber::recv_message,
            (subscriber, message::Publisher::RequestError(msg)),
            result,
        ),
        call_ensures(Subscriber::request_error_to_serve_error, (&msg,), meaning),
    ensures
        ({
            let before = old(subscriber)@;
            let after = final(subscriber)@;
            let known = before.subscribes.contains_key(msg.id);
            let recv = before.subscribes[msg.id];
            let read = recv.writer is Some && recv.writer->0.live();
            &&& !known ==> result is Ok && result->Ok_0 is Nothing && after == before
            &&& known ==> after.subscribes == before.subscribes.remove(msg.id)
            &&& known && read ==> after.endings == before.endings.push((msg.id, meaning@))
            &&& known && read && recv.live && recv.closed is None ==> {
                &&& result is Ok
                &&& result->Ok_0 is Ended
                &&& result->Ok_0->id == msg.id
                &&& result->Ok_0->state.value.closed is Err
                &&& result->Ok_0->state.value.closed->Err_0@ == meaning@
            }
        }),
{
}

/// A stream that failed for its track's sake ends the subscription of its
/// alias, with the cause; one that failed otherwise ends none.
pub proof fn failed_stream_ends_its_subscription(
    subscriber: &mut Subscriber,
    alias: u64,
    error: &SessionError,
    result: Result<SubscriberEvent, SessionError>,
)
    requires
        call_ensures(Subscriber::abort_stream, (subscriber, alias, error), result),
    ensures
        ({
            let before = old(subscriber)@;
            let after = final(subscriber)@;
            let id = before.aliases[alias];
            let known = before.aliases.contains_key(alias) && before.subscribes.contains_key(id);
            let recv = before.subscribes[id];
            let read = recv.writer is Some && recv.writer->0.live();
            &&& !(error@ is Serve) || !known ==> result is Ok && result->Ok_0 is Nothing && after
                == before
            &&& error@ is Serve && known ==> after.subscribes == before.subscribes.remove(id)
            &&& error@ is Serve && known && read ==> after.endings == before.endings.push(
                (id, error@->Serve_0),
            )
            &&& error@ is Serve && known && read && recv.live && recv.closed is None
                ==> result is Ok && result->Ok_0 is Ended && result->Ok_0->id == id
        }),
{
}

/// A subscription that is taken out is the one that was there; its alias leads
/// nowhere any more, and every other subscription stays.
pub proof fn removed_subscription_is_handed_out(
    subscriber: &mut Subscriber,
    id: u64,
    removed: Option<SubscribeRecv>,
    other: u64,
)
    requires
        call_ensures(Subscriber::remove_subscribe, (subscriber, id), removed),
    ensures
        removed is Some <==> old(subscriber)@.subscribes.contains_key(id),
        removed matches Some(recv) ==> recv@ == old(subscriber)@.subscribes[id],
        !final(subscriber)@.subscribes.contains_key(id),
        other != id ==> {
            &&& final(subscriber)@.subscribes.contains_key(other) == old(subscriber)@.subscribes.contains_key(other)
            &&& old(subscriber)@.subscribes.contains_key(other) ==> final(subscriber)@.subscribes[other] == old(subscriber)@.subscribes[other]
        },
        removed matches Some(recv) ==> (recv@.track_alias matches Some(alias) ==> !final(subscriber)@.aliases.contains_key(alias)),
        removed is None ==> final(subscriber)@ == old(subscriber)@,
{
}

/// A subscription that is registered is there, as it was made, and every other
/// stays.
pub proof fn registered_subscription_is_there(
    subscriber: &mut Subscriber,
    id: u64,
    recv: SubscribeRecv,
    other: u64,
)
    requires
        call_ensures(Subscriber::register, (subscriber, id, recv), ()),
    ensures
        final(subscriber)@.subscribes.contains_key(id),
        final(subscriber)@.subscribes[id] == recv@,
        other != id && old(subscriber)@.subscribes.contains_key(other) ==> final(subscriber)@.subscribes.contains_key(other) && final(subscriber)@.subscribes[other] == old(subscriber)@.subscribes[other],
        final(subscriber)@.aliases == old(subscriber)@.aliases,
        final(subscriber)@.namespaces == old(subscriber)@.namespaces,
{
}

/// What needs no answer gets none and changes nothing.
pub proof fn idle_messages_change_nothing(
    publisher: &mut Publisher,
    asked: message::Subscriber,
    event: Result<PublisherEvent, SessionError>,
    subscriber: &mut Subscriber,
    told: message::Publisher,
    result: Result<SubscriberEvent, SessionError>,
)
    requires
        call_ensures(Publisher::recv_message, (publisher, asked), event),
        asked is FetchCancel || asked is PublishOk,
        call_ensures(Subscriber::recv_message, (subscriber, told), result),
        told is RequestOk || told is FetchOk,
    ensures
        event is Ok && event->Ok_0 is Nothing,
        final(publisher)@ == old(publisher)@,
        final(publisher).sent() == old(publisher).sent(),
        result is Ok && result->Ok_0 is Nothing,
        final(subscriber)@ == old(subscriber)@,
        final(subscriber).sent() == old(subscriber).sent(),
{
}

/// A track that was served without a failure stays open; a failure closes it
/// with its cause, and is the outcome, unless another came first.
pub proof fn serving_ends_with_its_failure(
    state: &mut State<SubscribedState>,
    served: Result<(), SessionError>,
    outcome: Result<(), SessionError>,
)
    requires
        call_ensures(Subscribed::finish_serving, (state, served), outcome),
    ensures
        served is Ok ==> outcome is Ok && final(state).value@ == old(state).value@,
        served matches Err(cause) ==> {
            &&& outcome is Err
            &&& old(state).value.closed is Ok && old(state).live ==> {
                &&& outcome->Err_0@ == cause@
                &&& final(state).value@.closed is Some
                &&& cause@ matches SessionFault::Serve(fault) ==> final(state).value@.closed == Some(
                    fault,
                )
                &&& !(cause@ is Serve) ==> final(state).value@.closed == Some(
                    ServeFault::InternalWithId(0, cause@.message()),
                )
            }
            &&& old(state).value.closed matches Err(earlier) ==> outcome->Err_0@
                == SessionFault::Serve(earlier@) && final(state).value@ == old(state).value@
        },
        final(state).value@.stream_count == old(state).value@.stream_count,
        final(state).value@.largest_location == old(state).value@.largest_location,
{
}

/// A request that is cancelled is closed as cancelled and counts as refused by
/// the peer, while somebody holds it.
pub proof fn cancelled_subscription_is_closed(state: &mut State<SubscribedState>)
    requires
        call_ensures(Subscribed::cancel_request_stream, (state,), ()),
    ensures
        old(state).live ==> final(state).value@.closed == Some(ServeFault::Cancel) && final(state).value@.peer_rejected,
        !old(state).live ==> final(state).value@ == old(state).value@,
        final(state).live == old(state).live,
{
}

/// That a subscription was cancelled or is done is no fault of a subgroup;
/// everything else is.
pub proof fn only_the_end_is_expected(error: &SessionError, expected: bool)
    requires
        call_ensures(Subscribed::is_expected_serve_shutdown, (error,), expected),
    ensures
        expected <==> error@ is Serve && (error@->Serve_0 is Cancel || error@->Serve_0 is Done),
{
}

/// A track takes what is written while someone reads it, in the way that its
/// first write decided.
pub proof fn read_track_is_written(
    subgroups_of: TrackWriter,
    datagrams_of: TrackWriter,
    subgroups: Result<crate::serve::track::SubgroupsWriter, ServeError>,
    datagrams: Result<crate::serve::track::DatagramsWriter, ServeError>,
)
    requires
        call_ensures(TrackWriter::subgroups, (subgroups_of,), subgroups),
        call_ensures(TrackWriter::datagrams, (datagrams_of,), datagrams),
    ensures
        subgroups is Ok <==> subgroups_of.live,
        datagrams is Ok <==> datagrams_of.live,
        subgroups is Ok ==> subgroups->Ok_0.live,
        datagrams is Ok ==> datagrams->Ok_0.live && datagrams->Ok_0.written@.len() == 0,
        subgroups is Err ==> subgroups->Err_0@ == ServeFault::Cancel,
        datagrams is Err ==> datagrams->Err_0@ == ServeFault::Cancel,
{
}

/// A frame takes its body piece by piece, wants what is still to come, and
/// gives back its type and its whole body.
pub proof fn frame_collects_its_body(
    msg_type: u64,
    length: u16,
    made: BidiFrame,
    frame: &mut BidiFrame,
    chunk: &[u8],
    after: &BidiFrame,
    wanted: usize,
    done: BidiFrame,
    parts: (u64, BytesMut),
)
    requires
        call_ensures(BidiFrame::new, (msg_type, length), made),
        *old(frame) == made,
        chunk@.len() <= length,
        call_ensures(BidiFrame::extend, (frame, chunk), ()),
        *after == *final(frame),
        call_ensures(BidiFrame::wanted, (after,), wanted),
        done == *final(frame),
        call_ensures(BidiFrame::into_parts, (done,), parts),
    ensures
        wanted == length - chunk@.len(),
        parts.0 == msg_type,
        buffer_contents(parts.1) == chunk@,
{
    assert(Seq::<u8>::empty() + chunk@ =~= chunk@);
}

/// An answer on the stream of a publication belongs to the change that waits
/// longest, anything else to the publication; an answer to nothing breaks the
/// protocol.
pub proof fn followups_find_their_request(
    msg_type: u64,
    initial_id: u64,
    pending: Option<u64>,
    result: Result<u64, SessionError>,
)
    requires
        call_ensures(
            Session::publish_followup_request_id,
            (msg_type, initial_id, pending),
            result,
        ),
    ensures
        msg_type != 0x05 && msg_type != 0x07 ==> result == Ok::<u64, SessionError>(initial_id),
        msg_type == 0x05 || msg_type == 0x07 ==> {
            &&& pending matches Some(id) ==> result == Ok::<u64, SessionError>(id)
            &&& pending is None ==> result is Err && result->Err_0@ is ProtocolViolation
        },
{
}

/// A follow-up that is read belongs to the change that waits longest where it
/// is an answer, and to the publication where it is not.
pub proof fn read_followup_has_its_request(
    request: &BidiRequest,
    msg_type: u64,
    payload: BytesMut,
    result: Result<Message, SessionError>,
)
    requires
        call_ensures(BidiRequest::decode_followup, (request, msg_type, payload), result),
    ensures
        (msg_type == 0x05 || msg_type == 0x07) && request@.reverse.len() == 0 ==> result is Err
            && result->Err_0@ is ProtocolViolation,
        (msg_type == 0x05 || msg_type == 0x07) && request@.reverse.len() > 0 && result is Ok
            ==> result->Ok_0.answers() == Some(request@.reverse[0].id),
        msg_type != 0x05 && msg_type != 0x07 && result is Ok ==> result->Ok_0.answers() == Some(
            request@.initial_id,
        ),
{
}

/// What is logged of a message finds it again: the request that it uses or
/// answers comes first, then the track or the outcome that it is about.
pub proof fn record_finds_the_message(
    msg: &Message,
    record: ControlRecord,
    used: Option<u64>,
    answered: Option<u64>,
)
    requires
        call_ensures(Session::log_control_message, (msg,), record),
        call_ensures(Message::sequenced_request_id, (msg,), used),
        call_ensures(Message::response_target_id, (msg,), answered),
    ensures
        used matches Some(id) ==> record@.fields.len() > 0 && record@.fields[0].1
            == LogValueView::Number(id),
        answered matches Some(id) ==> record@.fields.len() > 0 && record@.fields[0].1
            == LogValueView::Number(id),
        msg matches Message::Subscribe(m) ==> record@.fields[1].1 == LogValueView::Namespace(
            m.track_namespace@,
        ) && record@.fields[2].1 == LogValueView::Name(m.track_name@),
        msg matches Message::TrackStatus(m) ==> record@.fields[1].1 == LogValueView::Namespace(
            m.track_namespace@,
        ) && record@.fields[2].1 == LogValueView::Name(m.track_name@),
        msg matches Message::Publish(m) ==> record@.fields[1].1 == LogValueView::Namespace(
            m.track_namespace@,
        ) && record@.fields[2].1 == LogValueView::Name(m.track_name@) && record@.fields[3].1
            == LogValueView::Number(m.track_alias),
        msg matches Message::PublishNamespace(m) ==> record@.fields[1].1
            == LogValueView::Namespace(m.track_namespace@),
        msg matches Message::SubscribeOk(m) ==> record@.fields[1].1 == LogValueView::Number(
            m.track_alias,
        ),
        msg matches Message::RequestError(m) ==> record@.fields[1].1 == LogValueView::Number(
            m.error_code,
        ) && record@.fields[2].1 == LogValueView::Number(m.retry_interval),
        msg matches Message::PublishDone(m) ==> record@.fields[1].1 == LogValueView::Number(
            m.status_code,
        ) && record@.fields[2].1 == LogValueView::Number(m.stream_count),
        msg matches Message::FetchOk(m) ==> record@.fields[1].1 == LogValueView::Flag(
            m.end_of_track,
        ),
        msg matches Message::GoAway(m) ==> record@.fields[0].1 == LogValueView::Text(m.uri.0@)
            && record@.fields[1].1 == LogValueView::Number(m.timeout),
{
}

/// A session may have one more stream exactly while it is below its limit, and
/// one more request stream while it has fewer than are handled at a time.
pub proof fn streams_are_admitted_below_the_limit(
    limits: &DataStreamTaskLimits,
    active: usize,
    admits: bool,
    requests: usize,
    accepts: bool,
    global: Arc<Semaphore>,
    made: DataStreamTaskLimits,
)
    requires
        call_ensures(DataStreamTaskLimits::session_admits, (limits, active), admits),
        call_ensures(Session::accepts_request_stream, (requests,), accepts),
        call_ensures(DataStreamTaskLimits::production, (global,), made),
    ensures
        admits <==> active < limits.per_session,
        accepts <==> requests < 128,
        made.global == global,
        made.per_session > 0,
{
}

/// A namespace that is withdrawn, or whose offer is given up, is forgotten: its
/// row goes, and no other does.
pub proof fn withdrawn_namespace_is_forgotten(
    publisher: &mut Publisher,
    msg: message::PublishNamespaceDone,
    subscriber: &mut Subscriber,
    cancel: message::PublishNamespaceCancel,
    dropping: &mut Publisher,
    id: u64,
    dropped: Option<TrackNamespace>,
)
    requires
        call_ensures(
            Publisher::send_message,
            (publisher, message::Publisher::PublishNamespaceDone(msg)),
            (),
        ),
        call_ensures(
            Subscriber::send_message,
            (subscriber, message::Subscriber::PublishNamespaceCancel(cancel)),
            (),
        ),
        call_ensures(Publisher::drop_publish_namespace, (dropping, id), dropped),
    ensures
        is_row_removed(old(publisher)@.namespaces, final(publisher)@.namespaces, msg.id),
        is_row_removed(old(subscriber)@.namespaces, final(subscriber)@.namespaces, cancel.id),
        is_row_removed(old(dropping)@.namespaces, final(dropping)@.namespaces, id),
        dropped is Some <==> exists|i: int|
            0 <= i < old(dropping)@.namespaces.len() && (
            #[trigger] old(dropping)@.namespaces[i]).request_id == id,
        dropped matches Some(namespace) ==> exists|i: int|
            0 <= i < old(dropping)@.namespaces.len() && (
            #[trigger] old(dropping)@.namespaces[i]).request_id == id
                && old(dropping)@.namespaces[i].namespace == namespace@,
        final(dropping)@.subscribeds == old(dropping)@.subscribeds,
        final(publisher)@.subscribeds == old(publisher)@.subscribeds,
{
    row_is_removed(old(publisher)@.namespaces, msg.id);
    row_is_removed(old(subscriber)@.namespaces, cancel.id);
    row_is_removed(old(dropping)@.namespaces, id);
    request_is_found_by_its_row(old(dropping)@.namespaces, id);
    let at = request_row(old(dropping)@.namespaces, id);
    if at < old(dropping)@.namespaces.len() {
        assert(old(dropping)@.namespaces[at].request_id == id);
    }
}

/// Whether a table is another one without the first row of a request, where it
/// has one.
pub open spec fn is_row_removed(
    before: Seq<NamespaceRow>,
    after: Seq<NamespaceRow>,
    request_id: u64,
) -> bool {
    ||| after == before && forall|i: int|
        0 <= i < before.len() ==> (#[trigger] before[i]).request_id != request_id
    ||| exists|at: int|
        {
            &&& 0 <= at < before.len()
            &&& (#[trigger] before[at]).request_id == request_id
            &&& after == before.remove(at)
        }
}

proof fn row_is_removed(before: Seq<NamespaceRow>, request_id: u64)
    ensures
        is_row_removed(before, without_request(before, request_id), request_id),
{
    request_is_found_by_its_row(before, request_id);
    let at = request_row(before, request_id);
    if at < before.len() {
        assert(before[at].request_id == request_id);
    }
}

/// The state of a subscription that is taken out and put back is as it was.
pub proof fn state_is_put_back(
    publisher: &mut Publisher,
    id: u64,
    recv: SubscribedRecv,
    later: &mut Publisher,
)
    requires
        call_ensures(Publisher::take_subscribed, (publisher, id), Some(recv)),
        *old(later) == *final(publisher),
        call_ensures(Publisher::put_subscribed, (later, id, recv), ()),
    ensures
        recv.state.live == old(publisher)@.subscribeds[id].live,
        recv.state.value@ == old(publisher)@.subscribeds[id].serving,
        !final(publisher)@.subscribeds.contains_key(id),
        final(later)@.subscribeds == old(publisher)@.subscribeds,
        final(later)@.names == old(publisher)@.names,
        final(later)@.namespaces == old(publisher)@.namespaces,
        final(later).sent() == old(publisher).sent(),
{
    assert(final(later)@.subscribeds =~= old(publisher)@.subscribeds);
}

/// Once nobody reads its track, a subscription takes neither streams nor
/// datagrams; every other goes on as before.
pub proof fn unread_subscription_takes_nothing(
    subscriber: &mut Subscriber,
    id: u64,
    other: u64,
)
    requires
        call_ensures(Subscriber::readers_gone, (subscriber, id), ()),
    ensures
        !takes_subgroups(final(subscriber)@, id),
        !takes_datagrams(final(subscriber)@, id),
        final(subscriber)@.subscribes.dom() == old(subscriber)@.subscribes.dom(),
        other != id && old(subscriber)@.subscribes.contains_key(other) ==> final(subscriber)@.subscribes[other] == old(subscriber)@.subscribes[other],
        final(subscriber)@.aliases == old(subscriber)@.aliases,
{
    assert(final(subscriber)@.subscribes.dom() =~= old(subscriber)@.subscribes.dom());
}

/// Once nobody waits on it, a subscription is not live; nothing else of it
/// changes, and every other goes on as before.
pub proof fn abandoned_subscription_is_not_live(
    subscriber: &mut Subscriber,
    id: u64,
    other: u64,
    after: &Subscriber,
    state: Option<&State<SubscribeState>>,
)
    requires
        call_ensures(Subscriber::hang_up, (subscriber, id), ()),
        *after == *final(subscriber),
        call_ensures(Subscriber::subscription_state, (after, id), state),
    ensures
        state is Some <==> old(subscriber)@.subscribes.contains_key(id),
        state matches Some(state) ==> {
            &&& !state.live
            &&& state.value.ok == old(subscriber)@.subscribes[id].ok
            &&& state.value.track_alias == old(subscriber)@.subscribes[id].track_alias
            &&& state.value.closed is Ok <==> old(subscriber)@.subscribes[id].closed is None
            &&& after@.subscribes[id].writer == old(subscriber)@.subscribes[id].writer
        },
        other != id && old(subscriber)@.subscribes.contains_key(other) ==> after@.subscribes[other]
            == old(subscriber)@.subscribes[other],
{
}

/// What the readers of tracks are to be told is handed out once, in the order
/// in which the tracks ended.
pub proof fn endings_are_handed_out_once(
    subscriber: &mut Subscriber,
    endings: Vec<(u64, ServeError)>,
    later: &mut Subscriber,
    rest: Vec<(u64, ServeError)>,
)
    requires
        call_ensures(Subscriber::take_endings, (subscriber,), endings),
        *old(later) == *final(subscriber),
        call_ensures(Subscriber::take_endings, (later,), rest),
    ensures
        endings@.len() == old(subscriber)@.endings.len(),
        forall|i: int|
            0 <= i < endings@.len() ==> (#[trigger] endings@[i]).0 == old(subscriber)@.endings[i].0 && endings@[i].1@ == old(subscriber)@.endings[i].1,
        rest@.len() == 0,
        final(subscriber)@.subscribes == old(subscriber)@.subscribes,
{
    let told = endings@.map_values(|ending: (u64, ServeError)| (ending.0, ending.1@));
    assert(told.len() == endings@.len());
    assert forall|i: int| 0 <= i < endings@.len() implies (#[trigger] endings@[i]).0 == old(subscriber)@.endings[i].0 && endings@[i].1@ == old(subscriber)@.endings[i].1 by {
        assert(told[i] == (endings@[i].0, endings@[i].1@));
    }
    let left = rest@.map_values(|ending: (u64, ServeError)| (ending.0, ending.1@));
    assert(left.len() == rest@.len());
}

} // verus!
