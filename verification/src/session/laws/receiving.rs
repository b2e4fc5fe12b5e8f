//! Receiving the objects of a subscription: what came is what its readers get.

use bytes::Bytes;
use vstd::prelude::*;

use crate::coding::buffer::bytes_contents;
use crate::coding::Location;
use crate::data::datagram::Datagram;
use crate::data::{ObjectStatus, StreamHeaderType, SubgroupHeader, SubgroupIdMode, SubgroupObject};
use crate::serve::error::ServeFault;
use crate::serve::track::WriterView;
use crate::serve::{self, Subgroup};
use crate::session::error::{SessionError, SessionFault};
use crate::session::receiving::{IncomingObject, SubgroupReceiver};
use crate::session::laws::serving::{
    each_object_is_sent_as_it_was_read, served, what_is_sent_is_what_was_read,
};
use crate::session::serving::{
    EventView, PhaseView, SubgroupAction, SubgroupEvent, SubgroupServer,
};
use crate::session::subscribe::DeliveryFilter;
use crate::session::subscribe_recv::opened_subgroup;
use crate::session::subscribed::{Subscribed, SubscribedState};
use crate::session::subscriber::{Subscriber, SubscriberView};
use crate::watch::State;

verus! {

/// Whether the number of the next object would be past the largest one.
pub open spec fn overflows(previous_object_id: Option<u64>, delta: u64) -> bool {
    previous_object_id matches Some(previous) && previous + delta + 1 > u64::MAX
}

/// Whether an object is a mark, such as the end of a group, and yet has
/// extension headers.
pub open spec fn is_marked_and_extended(object: SubgroupObject) -> bool {
    &&& object.status is Some
    &&& object.status->0 != ObjectStatus::NormalObject
    &&& object.extension_headers is Some
    &&& object.extension_headers->0@.len() > 0
}

/// Whether a subscription takes subgroups: its track is read, and is not
/// written by datagrams.
pub open spec fn takes_subgroups(subscriber: SubscriberView, id: u64) -> bool {
    &&& subscriber.subscribes.contains_key(id)
    &&& subscriber.subscribes[id].writer is Some
    &&& match subscriber.subscribes[id].writer->0 {
        WriterView::Track { live } => live,
        WriterView::Subgroups { live } => live,
        WriterView::Datagrams { .. } => false,
    }
}

/// Whether a stream header tells a subgroup, or leaves it to the first object.
pub open spec fn tells_subgroup(header: SubgroupHeader) -> bool {
    &&& header.header_type is Subgroup
    &&& header.header_type->subgroup_id == SubgroupIdMode::Explicit ==> header.subgroup_id is Some
}

/// Every object is received whose number does not overflow and that is not
/// both a mark and extended, on a stream whose subgroup is open or can be
/// opened. What comes out has the number that the stream told, the size and
/// the extension headers of what came in, and none of its payload yet.
pub proof fn every_proper_object_is_received(
    receiver: &mut SubgroupReceiver,
    object: SubgroupObject,
    subscriber: &mut Subscriber,
    result: Result<IncomingObject, SessionError>,
)
    requires
        call_ensures(SubgroupReceiver::begin_object, (receiver, object, subscriber), result),
        !overflows(old(receiver).previous_object_id, object.object_id_delta),
        !is_marked_and_extended(object),
        old(receiver).writer is Some || (takes_subgroups(
            old(subscriber)@,
            old(receiver).subscribe_id,
        ) && tells_subgroup(old(receiver).header)),
    ensures
        result is Ok,
        ({
            let came = result->Ok_0;
            &&& came.object_id == (match old(receiver).previous_object_id {
                None => object.object_id_delta as int,
                Some(previous) => previous + object.object_id_delta + 1,
            })
            &&& came.size == object.payload_length
            &&& came.extension_headers is Some <==> object.extension_headers is Some
            &&& object.extension_headers matches Some(headers) ==> came.extension_headers->0@
                == headers@
            &&& came@.payload.len() == 0
            &&& final(receiver).previous_object_id == Some(came.object_id)
            &&& final(receiver).remaining == object.payload_length
            &&& final(receiver).writer is Some
            &&& final(receiver).writer->0.info == came.subgroup
            &&& final(receiver).subscribe_id == old(receiver).subscribe_id
        }),
{
}

/// The subgroup that a stream opens is the one that its header tells: its
/// group, its priority, whether it starts the group, and its ID, which may be
/// that of the first object. Once it is open it stays.
pub proof fn stream_opens_the_subgroup_of_its_header(
    receiver: &mut SubgroupReceiver,
    object: SubgroupObject,
    subscriber: &mut Subscriber,
    result: Result<IncomingObject, SessionError>,
)
    requires
        call_ensures(SubgroupReceiver::begin_object, (receiver, object, subscriber), result),
        result is Ok,
    ensures
        old(receiver).writer matches Some(writer) ==> result->Ok_0.subgroup == writer.info
            && final(subscriber)@ == old(subscriber)@,
        old(receiver).writer is None ==> {
            let header = old(receiver).header;
            let subgroup = result->Ok_0.subgroup;
            &&& header.header_type is Subgroup
            &&& subgroup.group_id == header.group_id
            &&& subgroup.priority == header.publisher_priority
            &&& subgroup.first_object == header.header_type->first_object
            &&& header.header_type->subgroup_id == SubgroupIdMode::Zero ==> subgroup.subgroup_id
                == 0
            &&& header.header_type->subgroup_id == SubgroupIdMode::FirstObject
                ==> subgroup.subgroup_id == result->Ok_0.object_id
            &&& header.header_type->subgroup_id == SubgroupIdMode::Explicit ==> Some(
                subgroup.subgroup_id,
            ) == header.subgroup_id
            &&& takes_subgroups(final(subscriber)@, old(receiver).subscribe_id)
        },
{
}

/// An object is refused only where its number overflows, where it is both a
/// mark and extended, or where its subgroup cannot be opened; the first two
/// break the protocol.
pub proof fn refused_object_is_improper(
    receiver: &mut SubgroupReceiver,
    object: SubgroupObject,
    subscriber: &mut Subscriber,
    result: Result<IncomingObject, SessionError>,
)
    requires
        call_ensures(SubgroupReceiver::begin_object, (receiver, object, subscriber), result),
    ensures
        overflows(old(receiver).previous_object_id, object.object_id_delta)
            || is_marked_and_extended(object) ==> result is Err
            && result->Err_0@ is ProtocolViolation && final(subscriber)@ == old(subscriber)@,
        result is Err && !overflows(old(receiver).previous_object_id, object.object_id_delta)
            && !is_marked_and_extended(object) ==> {
            let id = old(receiver).subscribe_id;
            let before = old(subscriber)@;
            &&& old(receiver).writer is None
            &&& !takes_subgroups(before, id) || !tells_subgroup(old(receiver).header)
            &&& result->Err_0@ is Serve
            &&& !before.subscribes.contains_key(id) ==> result->Err_0@->Serve_0 is NotFoundWithId
            &&& before.subscribes.contains_key(id) ==> (match before.subscribes[id].writer {
                None => result->Err_0@->Serve_0 == ServeFault::Done,
                Some(WriterView::Datagrams { .. }) => result->Err_0@->Serve_0 == ServeFault::Mode,
                Some(writer) => tells_subgroup(old(receiver).header) ==> result->Err_0@->Serve_0
                    == ServeFault::Cancel,
            })
        },
{
}

/// The object that a publisher read is the one that the subscriber receives:
/// with its size and its extension headers, and with its number, where the
/// publisher numbers its objects one after the other.
pub proof fn sent_object_is_received(
    server: &mut SubgroupServer,
    event: SubgroupEvent,
    state: &mut State<SubscribedState>,
    action: SubgroupAction,
    receiver: &mut SubgroupReceiver,
    subscriber: &mut Subscriber,
    result: Result<IncomingObject, SessionError>,
)
    requires
        call_ensures(SubgroupServer::step, (server, event, state), Ok(action)),
        action is Send,
        call_ensures(
            SubgroupReceiver::begin_object,
            (receiver, action->object, subscriber),
            result,
        ),
        !overflows(old(receiver).previous_object_id, action->object.object_id_delta),
        old(receiver).writer is Some || (takes_subgroups(
            old(subscriber)@,
            old(receiver).subscribe_id,
        ) && tells_subgroup(old(receiver).header)),
    ensures
        ({
            let read = match event {
                SubgroupEvent::Object(Some(object)) => object@,
                _ => match old(server)@.phase {
                    PhaseView::Checking(object) => object,
                    PhaseView::Opening(object) => object,
                    _ => arbitrary(),
                },
            };
            let proper = read.size > 0 || read.status == ObjectStatus::NormalObject
                || read.extension_headers.len() == 0;
            &&& proper <==> result is Ok
            &&& proper ==> {
                &&& result->Ok_0.size == read.size
                &&& result->Ok_0.extension_headers is Some
                &&& result->Ok_0.extension_headers->0@ == read.extension_headers
                &&& old(receiver).previous_object_id is None && read.object_id == 0
                    ==> result->Ok_0.object_id == read.object_id
                &&& old(receiver).previous_object_id matches Some(previous) ==> read.object_id
                    == previous + 1 ==> result->Ok_0.object_id == read.object_id
            }
        }),
{
}

/// Whatever happened while a subgroup was served, the object that is sent is,
/// at the other end, the one that was read last: with its size and its
/// extension headers.
pub proof fn last_object_read_is_received(
    header: SubgroupHeader,
    filter: DeliveryFilter,
    events: Seq<(EventView, State<SubscribedState>)>,
    server: &mut SubgroupServer,
    event: SubgroupEvent,
    state: &mut State<SubscribedState>,
    action: SubgroupAction,
    receiver: &mut SubgroupReceiver,
    subscriber: &mut Subscriber,
    result: Result<IncomingObject, SessionError>,
)
    requires
        old(server)@ == served(header, filter, events).server,
        call_ensures(SubgroupServer::step, (server, event, state), Ok(action)),
        action is Send,
        call_ensures(
            SubgroupReceiver::begin_object,
            (receiver, action->object, subscriber),
            result,
        ),
        !overflows(old(receiver).previous_object_id, action->object.object_id_delta),
        old(receiver).writer is Some || (takes_subgroups(
            old(subscriber)@,
            old(receiver).subscribe_id,
        ) && tells_subgroup(old(receiver).header)),
    ensures
        ({
            let all = served(header, filter, events.push((event@, *old(state)))).read;
            let read = all.last();
            &&& all.len() > 0
            &&& filter.delivers(
                Location { group_id: header.group_id, object_id: read.object_id },
            )
            &&& read.size > 0 || read.status == ObjectStatus::NormalObject
                || read.extension_headers.len() == 0 ==> {
                &&& result is Ok
                &&& result->Ok_0.size == read.size
                &&& result->Ok_0.extension_headers is Some
                &&& result->Ok_0.extension_headers->0@ == read.extension_headers
            }
        }),
{
    what_is_sent_is_what_was_read(header, filter, events);
    each_object_is_sent_as_it_was_read(header, filter, events, event@, *old(state));
    assert(events.push((event@, *old(state))).drop_last() =~= events);
    sent_object_is_received(
        server,
        event,
        state,
        action,
        receiver,
        subscriber,
        result,
    );
}

/// The subgroup that a publisher serves is the one that the subscriber opens.
pub proof fn served_subgroup_is_opened(
    subscribed: &Subscribed,
    subgroup: &Subgroup,
    header: SubgroupHeader,
)
    requires
        call_ensures(Subscribed::subgroup_header, (subscribed, subgroup), header),
    ensures
        opened_subgroup(header) == Ok::<Subgroup, ServeFault>(*subgroup),
        tells_subgroup(header),
        header.track_alias == subscribed.info.id,
        header.header_type->extension_headers,
{
}

/// Payload is put together as it comes. An object is complete exactly when it
/// has as many bytes as its header told, and a stream may end then and not
/// before.
pub proof fn payload_is_received_whole(
    receiver: &mut SubgroupReceiver,
    object: &mut IncomingObject,
    chunk: Bytes,
    complete: bool,
    ended: Result<(), SessionError>,
    at_end: &SubgroupReceiver,
)
    requires
        call_ensures(SubgroupReceiver::take_chunk, (receiver, object, chunk), complete),
        old(object)@.payload.len() + old(receiver).remaining == old(object).size,
        bytes_contents(chunk).len() <= old(receiver).remaining,
        *at_end == *final(receiver),
        call_ensures(SubgroupReceiver::stream_ended, (at_end,), ended),
    ensures
        final(object)@.payload == old(object)@.payload + bytes_contents(chunk),
        final(object).object_id == old(object).object_id,
        final(object).subgroup == old(object).subgroup,
        final(object).size == old(object).size,
        final(object)@.extension_headers == old(object)@.extension_headers,
        final(object)@.payload.len() + final(receiver).remaining == final(object).size,
        complete == (final(object)@.payload.len() == final(object).size),
        ended is Ok <==> complete,
        ended is Err ==> ended->Err_0@ == SessionFault::WrongSize,
{
}

/// A stream that carries a subgroup is taken, and no other.
pub proof fn subgroup_streams_are_taken(
    header_type: StreamHeaderType,
    result: Result<(), SessionError>,
)
    requires
        call_ensures(Subscriber::check_stream, (header_type,), result),
    ensures
        result is Ok <==> header_type is Subgroup,
        result is Err ==> result->Err_0@ is Unimplemented,
{
}

/// Whether a subscription takes datagrams: its track is read, and is not
/// written by subgroups.
pub open spec fn takes_datagrams(subscriber: SubscriberView, id: u64) -> bool {
    &&& subscriber.subscribes.contains_key(id)
    &&& subscriber.subscribes[id].writer is Some
    &&& match subscriber.subscribes[id].writer->0 {
        WriterView::Track { live } => live,
        WriterView::Subgroups { .. } => false,
        WriterView::Datagrams { live, .. } => live,
    }
}

/// Every datagram is delivered whose alias leads to a subscription that takes
/// datagrams; its readers take it behind those that came before, as it came.
/// One whose alias leads nowhere is discarded and changes nothing.
pub proof fn every_known_datagram_is_delivered(
    subscriber: &mut Subscriber,
    datagram: Datagram,
    result: Result<bool, SessionError>,
)
    requires
        call_ensures(Subscriber::recv_datagram, (subscriber, datagram), result),
    ensures
        ({
            let before = old(subscriber)@;
            let after = final(subscriber)@;
            let id = before.aliases[datagram.track_alias];
            let known = before.aliases.contains_key(datagram.track_alias)
                && before.subscribes.contains_key(id);
            &&& after.aliases == before.aliases
            &&& after.namespaces == before.namespaces
            &&& after.endings == before.endings
            &&& !known ==> result == Ok::<bool, SessionError>(false) && after == before
            &&& known && takes_datagrams(before, id) ==> {
                let untaken = after.subscribes[id].untaken();
                let taken = untaken.last();
                &&& result == Ok::<bool, SessionError>(true)
                &&& untaken.len() > 0
                &&& untaken.drop_last() == before.subscribes[id].untaken()
                &&& taken.group_id == datagram.group_id
                &&& taken.object_id == (match datagram.object_id {
                    Some(object_id) => object_id,
                    None => 0,
                })
                &&& taken.priority == datagram.publisher_priority
                &&& datagram.payload matches Some(payload) ==> taken.payload == bytes_contents(
                    payload,
                )
                &&& datagram.payload is None ==> taken.payload.len() == 0
                &&& datagram.extension_headers matches Some(headers) ==> taken.extension_headers
                    == headers@
                &&& datagram.extension_headers is None ==> taken.extension_headers.len() == 0
                &&& takes_datagrams(after, id)
            }
            &&& known && !takes_datagrams(before, id) ==> result is Err && result->Err_0@ is Serve
            &&& known && before.subscribes[id].writer is Some
                && before.subscribes[id].writer->0 is Subgroups ==> {
                &&& result->Err_0@ == SessionFault::Serve(ServeFault::Mode)
                &&& after.subscribes[id] == before.subscribes[id]
            }
            &&& forall|other: u64|
                other != id && before.subscribes.contains_key(other)
                    ==> #[trigger] after.subscribes[other] == before.subscribes[other]
        }),
{
    let before = old(subscriber)@;
    let id = before.aliases[datagram.track_alias];
    let untaken = final(subscriber)@.subscribes[id].untaken();
    if before.aliases.contains_key(datagram.track_alias) && takes_datagrams(before, id) {
        assert(untaken.drop_last() =~= before.subscribes[id].untaken());
    }
}

/// What was delivered is taken once, oldest first, by its own subscription.
pub proof fn datagrams_are_taken_once(
    subscriber: &mut Subscriber,
    id: u64,
    datagrams: Vec<serve::Datagram>,
    again: &mut Subscriber,
    rest: Vec<serve::Datagram>,
)
    requires
        call_ensures(Subscriber::take_datagrams, (subscriber, id), datagrams),
        *old(again) == *final(subscriber),
        call_ensures(Subscriber::take_datagrams, (again, id), rest),
    ensures
        rest@.len() == 0,
        !old(subscriber)@.subscribes.contains_key(id) ==> datagrams@.len() == 0,
        old(subscriber)@.subscribes.contains_key(id) ==> datagrams@.len() == old(subscriber)@.subscribes[id].untaken().len() && forall|i: int|
            0 <= i < datagrams@.len() ==> (#[trigger] datagrams@[i])@ == old(subscriber)@.subscribes[id].untaken()[i],
        forall|other: u64|
            other != id && old(subscriber)@.subscribes.contains_key(other) ==> #[trigger] final(subscriber)@.subscribes[other] == old(subscriber)@.subscribes[other],
{
    if old(subscriber)@.subscribes.contains_key(id) {
        let views = datagrams@.map_values(|datagram: serve::Datagram| datagram@);
        assert forall|i: int| 0 <= i < datagrams@.len() implies (#[trigger] datagrams@[i])@
            == old(subscriber)@.subscribes[id].untaken()[i] by {
            assert(views[i] == datagrams@[i]@);
        }
        let left = rest@.map_values(|datagram: serve::Datagram| datagram@);
        assert(left.len() == rest@.len());
    } else {
        let left = rest@.map_values(|datagram: serve::Datagram| datagram@);
        assert(left.len() == rest@.len());
        let views = datagrams@.map_values(|datagram: serve::Datagram| datagram@);
        assert(views.len() == datagrams@.len());
    }
}

} // verus!
