//! Serving a subscription, over all that may happen meanwhile: what is sent is
//! what was read, nothing that is delivered is left out, and the serving ends
//! when the track does.

use vstd::prelude::*;

use crate::coding::buffer::Stop;
use crate::coding::Location;
use crate::data::datagram::DatagramFields;
use crate::data::{ObjectStatus, SubgroupHeader};
use crate::serve::error::ServeFault;
use crate::serve::track::DatagramView;
use crate::serve::{ServeError, Subgroup};
use crate::session::error::{SessionError, SessionFault};
use crate::session::serving::{
    served_datagram_is_received, wire_datagram, ActionView, DatagramAction, DatagramActionView,
    DatagramEvent, DatagramEventView, DatagramPhaseView, DatagramServer, DatagramServerView,
    EventView, ModeAction, ModeEvent, ObjectFields, PhaseView, ServerView, SubgroupAction,
    SubgroupEvent, SubgroupServer, TrackAction, TrackEvent, TrackMode, TrackServer,
};
use crate::session::subscribe::DeliveryFilter;
use crate::session::subscribe_recv::{opened_subgroup, track_datagram};
use crate::session::subscribed::{ServingView, Subscribed, SubscribedState};
use crate::watch::State;

verus! {

/// What has come of serving a subgroup.
pub struct Served {
    pub server: ServerView,
    /// The objects that were read.
    pub read: Seq<ObjectFields>,
    /// The objects that were sent.
    pub sent: Seq<ObjectFields>,
}

/// What comes of serving a subgroup while things happen to it, each at a state
/// of the subscription.
pub open spec fn served(
    header: SubgroupHeader,
    filter: DeliveryFilter,
    events: Seq<(EventView, State<SubscribedState>)>,
) -> Served
    decreases events.len(),
{
    if events.len() == 0 {
        Served {
            server: ServerView { header, filter, stream_open: false, phase: PhaseView::Forwarding },
            read: Seq::empty(),
            sent: Seq::empty(),
        }
    } else {
        let before = served(header, filter, events.drop_last());
        let (event, state) = events.last();
        let step = before.server.step(event, state);
        Served {
            server: step.server,
            read: match event {
                EventView::Object(Some(object)) => before.read.push(object),
                _ => before.read,
            },
            sent: match step.outcome {
                Ok(ActionView::Send { object, .. }) => before.sent.push(object),
                _ => before.sent,
            },
        }
    }
}

/// Those of the objects of a group that a filter delivers.
pub open spec fn delivered(
    filter: DeliveryFilter,
    group_id: u64,
    objects: Seq<ObjectFields>,
) -> Seq<ObjectFields>
    decreases objects.len(),
{
    if objects.len() == 0 {
        Seq::empty()
    } else if filter.delivers(Location { group_id, object_id: objects.last().object_id }) {
        delivered(filter, group_id, objects.drop_last()).push(objects.last())
    } else {
        delivered(filter, group_id, objects.drop_last())
    }
}

/// Whatever happens, and at whatever state of the subscription, the objects
/// that are sent are those that were read and that the filter delivers, each
/// as it was read, in the order in which they were read, with none in between
/// left out. The one that is in hand is still to be sent.
pub proof fn what_is_sent_is_what_was_read(
    header: SubgroupHeader,
    filter: DeliveryFilter,
    events: Seq<(EventView, State<SubscribedState>)>,
)
    ensures
        ({
            let now = served(header, filter, events);
            let due = delivered(filter, header.group_id, now.read);
            &&& now.server.header == header
            &&& now.server.filter == filter
            &&& now.server.stream_open == (now.sent.len() > 0)
            &&& now.sent.len() <= due.len()
            &&& now.sent == due.take(now.sent.len() as int)
            &&& match now.server.phase {
                PhaseView::Checking(object) => {
                    &&& now.read.len() > 0
                    &&& now.read.last() == object
                    &&& now.sent == delivered(filter, header.group_id, now.read.drop_last())
                },
                PhaseView::Opening(object) => {
                    &&& now.read.len() > 0
                    &&& now.read.last() == object
                    &&& now.sent.len() == 0
                    &&& due == seq![object]
                },
                PhaseView::Sending(object_id) => {
                    &&& now.sent == due
                    &&& now.read.len() > 0
                    &&& now.read.last().object_id == object_id
                    &&& now.sent.last() == now.read.last()
                },
                PhaseView::Done => true,
                _ => now.sent == due,
            }
        }),
    decreases events.len(),
{
    let now = served(header, filter, events);
    let due = delivered(filter, header.group_id, now.read);
    if events.len() == 0 {
        assert(now.sent =~= due.take(0));
    } else {
        what_is_sent_is_what_was_read(header, filter, events.drop_last());
        let before = served(header, filter, events.drop_last());
        let due_before = delivered(filter, header.group_id, before.read);
        if let EventView::Object(Some(object)) = events.last().0 {
            assert(now.read.drop_last() =~= before.read);
        }
        assert(due_before.take(due_before.len() as int) =~= due_before);
        assert(due.take(due.len() as int) =~= due);
        assert(now.sent =~= due.take(now.sent.len() as int));
        if now.server.phase is Opening {
            assert(before.sent.len() == 0);
            assert(due =~= seq![now.read.last()]);
        }
    }
}

/// An object is sent as the one that was read last: with its ID, its size, its
/// status and its extension headers. The header of the stream goes before the
/// first object and before no other.
pub proof fn each_object_is_sent_as_it_was_read(
    header: SubgroupHeader,
    filter: DeliveryFilter,
    events: Seq<(EventView, State<SubscribedState>)>,
    event: EventView,
    state: State<SubscribedState>,
)
    ensures
        ({
            let before = served(header, filter, events);
            let now = served(header, filter, events.push((event, state)));
            before.server.step(event, state).outcome matches Ok(
                ActionView::Send { header: told, object },
            ) ==> {
                &&& now.read.len() > 0
                &&& object == now.read.last()
                &&& filter.delivers(
                    Location { group_id: header.group_id, object_id: object.object_id },
                )
                &&& told == (if before.sent.len() == 0 {
                    Some(header)
                } else {
                    None
                })
            }
        }),
{
    what_is_sent_is_what_was_read(header, filter, events);
    what_is_sent_is_what_was_read(header, filter, events.push((event, state)));
    assert(events.push((event, state)).drop_last() =~= events);
    let before = served(header, filter, events);
    let now = served(header, filter, events.push((event, state)));
    if let EventView::Object(Some(object)) = event {
        assert(now.read.drop_last() =~= before.read);
    }
    let due = delivered(filter, header.group_id, now.read);
    if let Ok(ActionView::Send { header: told, object }) = before.server.step(
        event,
        state,
    ).outcome {
        assert(now.sent.last() == object);
    }
}

/// Serving a subgroup comes to its end only at the end of the subgroup, and
/// then every object that the filter delivers was sent.
pub proof fn finished_subgroup_was_served_whole(
    header: SubgroupHeader,
    filter: DeliveryFilter,
    events: Seq<(EventView, State<SubscribedState>)>,
    event: EventView,
    state: State<SubscribedState>,
)
    ensures
        ({
            let before = served(header, filter, events);
            before.server.step(event, state).outcome matches Ok(ActionView::Finish { stream_open })
                ==> {
                &&& event == EventView::Object(None)
                &&& before.sent == delivered(filter, header.group_id, before.read)
                &&& stream_open == (before.sent.len() > 0)
            }
        }),
{
    what_is_sent_is_what_was_read(header, filter, events);
}

/// Whether an event is what was waited for after an action.
pub open spec fn is_awaited(action: SubgroupAction, event: SubgroupEvent) -> bool {
    match action {
        SubgroupAction::AwaitChange => event is Changed,
        SubgroupAction::ReadObject => event is Object,
        SubgroupAction::OpenStream => event is StreamOpened,
        SubgroupAction::Send { .. } => event is Sent,
        SubgroupAction::SendPayload => event is PayloadSent,
        SubgroupAction::Finish { .. } => false,
    }
}

/// While the subscription is live and open, serving a subgroup goes on: what
/// was waited for leads to the next thing to do, and only the end of the
/// subgroup ends it. Where objects are forwarded, nothing is put off.
pub proof fn serving_a_subgroup_goes_on(
    server: &mut SubgroupServer,
    event: SubgroupEvent,
    state: &mut State<SubscribedState>,
    action: SubgroupAction,
    later_server: &mut SubgroupServer,
    later: SubgroupEvent,
    later_state: &mut State<SubscribedState>,
    result: Result<SubgroupAction, SessionError>,
)
    requires
        call_ensures(SubgroupServer::step, (server, event, state), Ok(action)),
        *old(later_server) == *final(server),
        call_ensures(SubgroupServer::step, (later_server, later, later_state), result),
        is_awaited(action, later),
        old(later_state).live,
        old(later_state).value.closed is Ok,
    ensures
        result is Ok,
        result->Ok_0 is Finish <==> later == SubgroupEvent::Object(None),
        old(later_state).value.forward ==> !(result->Ok_0 is AwaitChange),
        old(later_state).value.forward && later is PayloadSent ==> result->Ok_0 is ReadObject,
        !old(later_state).value.forward && (later is PayloadSent || later is Changed || (later
            matches SubgroupEvent::Object(Some(_)))) ==> result->Ok_0 is AwaitChange,
        later is StreamOpened ==> result->Ok_0 is Send,
        later is Sent ==> result->Ok_0 is SendPayload,
        old(later_state).value.forward ==> (later matches SubgroupEvent::Object(Some(object)) ==> {
            let wanted = old(later_server)@.filter.delivers(
                Location {
                    group_id: old(later_server)@.header.group_id,
                    object_id: object.object_id,
                },
            );
            &&& !wanted ==> result->Ok_0 is ReadObject
            &&& wanted ==> result->Ok_0 is Send || result->Ok_0 is OpenStream
        }),
{
}

/// Serving a subgroup starts with the wait for objects to be forwarded: where
/// they are, the first is read at once.
pub proof fn serving_a_subgroup_starts(
    header: SubgroupHeader,
    filter: DeliveryFilter,
    made: SubgroupServer,
    server: &mut SubgroupServer,
    state: &mut State<SubscribedState>,
    result: Result<SubgroupAction, SessionError>,
)
    requires
        call_ensures(SubgroupServer::new, (header, filter), made),
        *old(server) == made,
        call_ensures(SubgroupServer::step, (server, SubgroupEvent::Changed, state), result),
        old(state).live,
        old(state).value.closed is Ok,
    ensures
        made@ == served(header, filter, Seq::empty()).server,
        result is Ok,
        old(state).value.forward ==> result->Ok_0 is ReadObject,
        !old(state).value.forward ==> result->Ok_0 is AwaitChange,
{
}

/// A subscription that was closed ends the serving with the cause, and one
/// that nobody holds any more ends it as done.
pub proof fn closed_subscription_ends_the_serving(
    server: &mut SubgroupServer,
    event: SubgroupEvent,
    state: &mut State<SubscribedState>,
    action: SubgroupAction,
    later_server: &mut SubgroupServer,
    later: SubgroupEvent,
    later_state: &mut State<SubscribedState>,
    result: Result<SubgroupAction, SessionError>,
)
    requires
        call_ensures(SubgroupServer::step, (server, event, state), Ok(action)),
        *old(later_server) == *final(server),
        call_ensures(SubgroupServer::step, (later_server, later, later_state), result),
        is_awaited(action, later),
        later != SubgroupEvent::Object(None),
    ensures
        later is Changed || later is Object || later is PayloadSent ==> {
            &&& old(later_state).value.closed matches Err(cause) ==> result is Err
                && result->Err_0@ == SessionFault::Serve(cause@)
            &&& old(later_state).value.closed is Ok && !old(later_state).live && !old(later_state).value.forward ==> result is Err && result->Err_0@ == SessionFault::Serve(
                ServeFault::Done,
            )
        },
        (later is StreamOpened || later is Sent) && !old(later_state).live ==> result is Err
            && result->Err_0@ == SessionFault::Serve(ServeFault::Done),
{
}

/// An object's header, as it is written, tells what the object in hand is: its
/// size, its extension headers and, where it has no payload, its status.
pub proof fn written_header_describes_the_object(
    server: &mut SubgroupServer,
    event: SubgroupEvent,
    state: &mut State<SubscribedState>,
    result: Result<SubgroupAction, SessionError>,
)
    requires
        call_ensures(SubgroupServer::step, (server, event, state), result),
        result is Ok,
        result->Ok_0 is Send,
    ensures
        ({
            let in_hand = match event {
                SubgroupEvent::Object(Some(object)) => object@,
                _ => match old(server)@.phase {
                    PhaseView::Checking(object) => object,
                    PhaseView::Opening(object) => object,
                    _ => arbitrary(),
                },
            };
            let written = result->Ok_0->object;
            &&& result->Ok_0->object_id == in_hand.object_id
            &&& written.payload_length == in_hand.size
            &&& written.extension_headers is Some
            &&& written.extension_headers->0@ == in_hand.extension_headers
            &&& in_hand.size == 0 ==> written.status == Some(in_hand.status)
            &&& in_hand.size > 0 ==> written.status == None::<ObjectStatus>
            &&& written.object_id_delta == 0
        }),
{
}

/// Serving changes nothing of the subscription but the count of its streams,
/// by one for a stream that was opened, and its largest object, which an
/// object that was sent behind it takes the place of.
pub proof fn serving_records_what_was_sent(
    server: &mut SubgroupServer,
    event: SubgroupEvent,
    state: &mut State<SubscribedState>,
    result: Result<SubgroupAction, SessionError>,
)
    requires
        call_ensures(SubgroupServer::step, (server, event, state), result),
    ensures
        final(state).live == old(state).live,
        final(state).value@ == (ServingView {
            stream_count: final(state).value@.stream_count,
            largest_location: final(state).value@.largest_location,
            ..old(state).value@
        }),
        result is Ok && result->Ok_0 is Send && event is StreamOpened ==> final(state).value@.stream_count == (if old(state).value@.stream_count < u64::MAX {
            old(state).value@.stream_count + 1
        } else {
            u64::MAX as int
        }),
        !(event is StreamOpened && result is Ok) ==> final(state).value@.stream_count == old(state).value@.stream_count,
        old(server)@.phase matches PhaseView::Sending(object_id) ==> result is Ok ==> {
            let group_id = old(server)@.header.group_id;
            let largest = old(state).value@.largest_location;
            let after = final(state).value@.largest_location;
            &&& largest is None ==> after is None
            &&& largest matches Some(earlier) ==> {
                let passed = group_id > earlier.group_id || (group_id == earlier.group_id
                    && object_id > earlier.object_id);
                after == (if passed {
                    Some(Location { group_id, object_id })
                } else {
                    largest
                })
            }
        },
        !(event is Sent && result is Ok) ==> final(state).value@.largest_location == old(state).value@.largest_location,
{
}

/// What has come of serving a track by datagrams.
pub struct DatagramsServed {
    pub server: DatagramServerView,
    /// The datagrams that were read.
    pub read: Seq<DatagramView>,
    /// The bytes that were sent.
    pub sent: Seq<Seq<u8>>,
}

/// What comes of serving a track by datagrams while things happen to it, each
/// at a state of the subscription.
pub open spec fn datagrams_served(
    track_alias: u64,
    filter: DeliveryFilter,
    events: Seq<(DatagramEventView, State<SubscribedState>)>,
) -> DatagramsServed
    decreases events.len(),
{
    if events.len() == 0 {
        DatagramsServed {
            server: DatagramServerView {
                track_alias,
                filter,
                phase: DatagramPhaseView::Forwarding,
            },
            read: Seq::empty(),
            sent: Seq::empty(),
        }
    } else {
        let before = datagrams_served(track_alias, filter, events.drop_last());
        let (event, state) = events.last();
        let step = before.server.step(event, state);
        DatagramsServed {
            server: step.server,
            read: match event {
                DatagramEventView::Datagram(Some(datagram)) => before.read.push(datagram),
                _ => before.read,
            },
            sent: match step.outcome {
                Ok(DatagramActionView::Send(bytes)) => before.sent.push(bytes),
                _ => before.sent,
            },
        }
    }
}

/// Those of the datagrams that a filter delivers.
pub open spec fn delivered_datagrams(
    filter: DeliveryFilter,
    datagrams: Seq<DatagramView>,
) -> Seq<DatagramView>
    decreases datagrams.len(),
{
    if datagrams.len() == 0 {
        Seq::empty()
    } else if filter.delivers(
        Location {
            group_id: datagrams.last().group_id,
            object_id: datagrams.last().object_id,
        },
    ) {
        delivered_datagrams(filter, datagrams.drop_last()).push(datagrams.last())
    } else {
        delivered_datagrams(filter, datagrams.drop_last())
    }
}

/// The bytes that a datagram of a track is sent as.
#[verifier::opaque]
pub open spec fn wire_bytes(track_alias: u64, datagram: DatagramView) -> Result<Seq<u8>, Stop> {
    wire_datagram(track_alias, datagram).encoding()
}

/// Whether bytes are what datagrams of a track are sent as, one for one.
pub open spec fn sent_as(
    track_alias: u64,
    datagrams: Seq<DatagramView>,
    sent: Seq<Seq<u8>>,
) -> bool {
    &&& sent.len() <= datagrams.len()
    &&& forall|i: int|
        0 <= i < sent.len() ==> #[trigger] wire_bytes(track_alias, datagrams[i]) == Ok::<
            Seq<u8>,
            Stop,
        >(sent[i])
}

/// Whatever happens, the datagrams that are sent are those that were read and
/// that the filter delivers, in the order in which they were read, with none
/// in between left out. The one that is in hand is still to be sent.
#[verifier::rlimit(60)]
pub proof fn sent_datagrams_are_those_read(
    track_alias: u64,
    filter: DeliveryFilter,
    events: Seq<(DatagramEventView, State<SubscribedState>)>,
)
    ensures
        ({
            let now = datagrams_served(track_alias, filter, events);
            let due = delivered_datagrams(filter, now.read);
            &&& now.server.track_alias == track_alias
            &&& now.server.filter == filter
            &&& sent_as(track_alias, due, now.sent)
            &&& match now.server.phase {
                DatagramPhaseView::Checking(datagram) => {
                    &&& now.read.len() > 0
                    &&& now.read.last() == datagram
                    &&& now.sent.len() == delivered_datagrams(filter, now.read.drop_last()).len()
                },
                DatagramPhaseView::Sending(location) => {
                    &&& now.sent.len() == due.len()
                    &&& now.read.len() > 0
                    &&& location.group_id == now.read.last().group_id
                    &&& location.object_id == now.read.last().object_id
                },
                DatagramPhaseView::Done => true,
                _ => now.sent.len() == due.len(),
            }
        }),
    decreases events.len(),
{
    let now = datagrams_served(track_alias, filter, events);
    if events.len() > 0 {
        sent_datagrams_are_those_read(track_alias, filter, events.drop_last());
        let before = datagrams_served(track_alias, filter, events.drop_last());
        let due_before = delivered_datagrams(filter, before.read);
        let due = delivered_datagrams(filter, now.read);
        if let DatagramEventView::Datagram(Some(datagram)) = events.last().0 {
            assert(now.read.drop_last() =~= before.read);
        }
        assert(due == due_before || due == due_before.push(now.read.last()));
        datagram_step_sends_what_is_in_hand(before.server, events.last().0, events.last().1);
        assert forall|i: int| 0 <= i < now.sent.len() implies #[trigger] wire_bytes(
            track_alias,
            due[i],
        ) == Ok::<Seq<u8>, Stop>(now.sent[i]) by {
            if i < before.sent.len() {
                assert(now.sent[i] == before.sent[i]);
                assert(due[i] == due_before[i]);
                assert(wire_bytes(track_alias, due_before[i]) == Ok::<Seq<u8>, Stop>(
                    before.sent[i],
                ));
            }
        }
    }
}

/// The bytes that a step sends are those of the datagram in hand, which the
/// filter delivers.
proof fn datagram_step_sends_what_is_in_hand(
    server: DatagramServerView,
    event: DatagramEventView,
    state: State<SubscribedState>,
)
    ensures
        ({
            let step = server.step(event, state);
            let in_hand = match event {
                DatagramEventView::Datagram(Some(datagram)) => Some(datagram),
                _ => match server.phase {
                    DatagramPhaseView::Checking(datagram) => Some(datagram),
                    _ => None,
                },
            };
            &&& step.server.track_alias == server.track_alias
            &&& step.server.filter == server.filter
            &&& step.outcome matches Ok(DatagramActionView::Send(bytes)) ==> {
                &&& in_hand matches Some(datagram)
                &&& wire_bytes(server.track_alias, datagram) == Ok::<Seq<u8>, Stop>(bytes)
                &&& server.phase is Reading || server.phase is Checking
                &&& event is Changed <==> server.phase is Checking
                &&& server.filter.delivers(
                    Location { group_id: datagram.group_id, object_id: datagram.object_id },
                )
                &&& step.server.phase == DatagramPhaseView::Sending(
                    Location { group_id: datagram.group_id, object_id: datagram.object_id },
                )
            }
        }),
{
    reveal(wire_bytes);
}

/// A datagram that is sent is, once it is received, the one that was read
/// last; its extension headers come by ascending key.
pub proof fn sent_datagram_reads_back(
    track_alias: u64,
    filter: DeliveryFilter,
    events: Seq<(DatagramEventView, State<SubscribedState>)>,
    event: DatagramEventView,
    state: State<SubscribedState>,
)
    requires
        ({
            let now = datagrams_served(track_alias, filter, events.push((event, state)));
            now.read.len() > 0 ==> wire_datagram(track_alias, now.read.last()).headers_fit()
        }),
    ensures
        ({
            let before = datagrams_served(track_alias, filter, events);
            let now = datagrams_served(track_alias, filter, events.push((event, state)));
            before.server.step(event, state).outcome matches Ok(DatagramActionView::Send(bytes))
                ==> {
                &&& now.read.len() > 0
                &&& DatagramFields::read(bytes) matches Ok(received)
                &&& received.track_alias == track_alias
                &&& track_datagram(received).group_id == now.read.last().group_id
                &&& track_datagram(received).object_id == now.read.last().object_id
                &&& track_datagram(received).priority == now.read.last().priority
                &&& track_datagram(received).payload == now.read.last().payload
                &&& track_datagram(received).extension_headers == crate::coding::kvp::sorted_pairs(
                    now.read.last().extension_headers,
                )
                &&& filter.delivers(
                    Location {
                        group_id: now.read.last().group_id,
                        object_id: now.read.last().object_id,
                    },
                )
            }
        }),
{
    let all = events.push((event, state));
    sent_datagrams_are_those_read(track_alias, filter, events);
    sent_datagrams_are_those_read(track_alias, filter, all);
    assert(all.drop_last() =~= events);
    let before = datagrams_served(track_alias, filter, events);
    let now = datagrams_served(track_alias, filter, all);
    if let DatagramEventView::Datagram(Some(datagram)) = event {
        assert(now.read.drop_last() =~= before.read);
    }
    if let Ok(DatagramActionView::Send(bytes)) = before.server.step(event, state).outcome {
        reveal(wire_bytes);
        served_datagram_is_received(track_alias, now.read.last());
    }
}

/// Whether an event is what was waited for after an action.
pub open spec fn is_datagram_awaited(action: DatagramAction, event: DatagramEvent) -> bool {
    match action {
        DatagramAction::AwaitChange => event is Changed,
        DatagramAction::ReadDatagram => event is Datagram || event is Closed,
        DatagramAction::Send(_) => event is Sent,
        DatagramAction::Finish => false,
    }
}

/// While the subscription is live and open, serving datagrams goes on: only
/// the end of the track ends it. A datagram that the filter leaves out leads
/// to the next one, and one that it delivers is sent, if it can be put in
/// bytes at all.
pub proof fn serving_datagrams_goes_on(
    server: &mut DatagramServer,
    event: DatagramEvent,
    state: &mut State<SubscribedState>,
    action: DatagramAction,
    later_server: &mut DatagramServer,
    later: DatagramEvent,
    later_state: &mut State<SubscribedState>,
    result: Result<DatagramAction, SessionError>,
)
    requires
        call_ensures(DatagramServer::step, (server, event, state), Ok(action)),
        *old(later_server) == *final(server),
        call_ensures(DatagramServer::step, (later_server, later, later_state), result),
        is_datagram_awaited(action, later),
        old(later_state).live,
        old(later_state).value.closed is Ok,
    ensures
        result is Ok && result->Ok_0 is Finish <==> later == DatagramEvent::Datagram(None),
        later is Closed ==> result is Ok && result->Ok_0 is ReadDatagram,
        later is Sent ==> result is Ok && (if old(later_state).value.forward {
            result->Ok_0 is ReadDatagram
        } else {
            result->Ok_0 is AwaitChange
        }),
        !old(later_state).value.forward && (later is Changed || (later matches DatagramEvent::Datagram(
            Some(_),
        ))) ==> result is Ok && result->Ok_0 is AwaitChange,
        old(later_state).value.forward && later is Changed && old(later_server)@.phase is Forwarding
            ==> result is Ok && result->Ok_0 is ReadDatagram,
        old(later_state).value.forward ==> (later matches DatagramEvent::Datagram(
            Some(datagram),
        ) ==> {
            let wanted = old(later_server)@.filter.delivers(
                Location { group_id: datagram.group_id, object_id: datagram.object_id },
            );
            let bytes = wire_datagram(old(later_server)@.track_alias, datagram@).encoding();
            &&& !wanted ==> result is Ok && result->Ok_0 is ReadDatagram
            &&& wanted && bytes is Ok && bytes->Ok_0.len() <= isize::MAX ==> result is Ok
                && result->Ok_0@ == DatagramActionView::Send(bytes->Ok_0)
        }),
{
}

/// A datagram that waited for objects to be forwarded is sent once they are,
/// unless the filter leaves it out.
pub proof fn waiting_datagram_is_sent(
    server: &mut DatagramServer,
    datagram: DatagramView,
    state: &mut State<SubscribedState>,
    result: Result<DatagramAction, SessionError>,
)
    requires
        call_ensures(DatagramServer::step, (server, DatagramEvent::Changed, state), result),
        old(server)@.phase == DatagramPhaseView::Checking(datagram),
        old(state).value.closed is Ok,
        old(state).value.forward,
    ensures
        ({
            let wanted = old(server)@.filter.delivers(
                Location { group_id: datagram.group_id, object_id: datagram.object_id },
            );
            let bytes = wire_datagram(old(server)@.track_alias, datagram).encoding();
            &&& !wanted ==> result is Ok && result->Ok_0 is ReadDatagram
            &&& wanted && bytes is Ok && bytes->Ok_0.len() <= isize::MAX ==> result is Ok
                && result->Ok_0@ == DatagramActionView::Send(bytes->Ok_0)
        }),
{
}

/// An object that waited for objects to be forwarded is sent once they are, on
/// the stream that is open or on one that is opened for it, unless the filter
/// leaves it out.
pub proof fn waiting_object_is_sent(
    server: &mut SubgroupServer,
    object: ObjectFields,
    state: &mut State<SubscribedState>,
    result: Result<SubgroupAction, SessionError>,
)
    requires
        call_ensures(SubgroupServer::step, (server, SubgroupEvent::Changed, state), result),
        old(server)@.phase == PhaseView::Checking(object),
        old(state).value.closed is Ok,
        old(state).value.forward,
    ensures
        ({
            let wanted = old(server)@.filter.delivers(
                Location {
                    group_id: old(server)@.header.group_id,
                    object_id: object.object_id,
                },
            );
            &&& result is Ok
            &&& !wanted ==> result->Ok_0 is ReadObject
            &&& wanted && old(server)@.stream_open ==> result->Ok_0 is Send
            &&& wanted && !old(server)@.stream_open ==> result->Ok_0 is OpenStream
        }),
{
}

/// A subscription that was closed ends the serving of datagrams with the
/// cause; one that nobody holds any more ends it while a datagram is awaited.
pub proof fn closed_subscription_ends_the_datagrams(
    server: &mut DatagramServer,
    event: DatagramEvent,
    state: &mut State<SubscribedState>,
    action: DatagramAction,
    later_server: &mut DatagramServer,
    later: DatagramEvent,
    later_state: &mut State<SubscribedState>,
    result: Result<DatagramAction, SessionError>,
)
    requires
        call_ensures(DatagramServer::step, (server, event, state), Ok(action)),
        *old(later_server) == *final(server),
        call_ensures(DatagramServer::step, (later_server, later, later_state), result),
        is_datagram_awaited(action, later),
    ensures
        later is Changed || later is Closed || (later matches DatagramEvent::Datagram(Some(_)))
            ==> (old(later_state).value.closed matches Err(cause) ==> result is Err
            && result->Err_0@ == SessionFault::Serve(cause@)),
        later is Closed && old(later_state).value.closed is Ok && !old(later_state).live
            ==> result is Ok && result->Ok_0 is Finish,
        later is Sent && !old(later_state).live ==> result is Err && result->Err_0@
            == SessionFault::Serve(ServeFault::Done),
        result is Ok && result->Ok_0 is Finish ==> later == DatagramEvent::Datagram(None) || (
        later is Closed && !old(later_state).live),
{
}

/// Serving datagrams changes nothing of the subscription but its largest
/// object, which a datagram that was sent behind it takes the place of.
pub proof fn serving_datagrams_records_the_largest(
    server: &mut DatagramServer,
    event: DatagramEvent,
    state: &mut State<SubscribedState>,
    result: Result<DatagramAction, SessionError>,
)
    requires
        call_ensures(DatagramServer::step, (server, event, state), result),
    ensures
        final(state).live == old(state).live,
        final(state).value@ == (ServingView {
            largest_location: final(state).value@.largest_location,
            ..old(state).value@
        }),
        !(event is Sent && old(state).live) ==> final(state).value@ == old(state).value@,
        event is Sent && old(state).live ==> (old(server)@.phase matches DatagramPhaseView::Sending(
            location,
        ) ==> {
            let largest = old(state).value@.largest_location;
            let after = final(state).value@.largest_location;
            &&& largest is None ==> after is None
            &&& largest matches Some(earlier) ==> {
                let passed = location.group_id > earlier.group_id || (location.group_id
                    == earlier.group_id && location.object_id > earlier.object_id);
                after == (if passed {
                    Some(location)
                } else {
                    largest
                })
            }
        }),
{
}

/// A track is served as it is written, with the filter that it was accepted
/// with, under the alias that it was accepted with; a track that cannot be
/// written is not served, for its cause.
pub proof fn track_is_served_as_it_is_written(
    subscribed: &Subscribed,
    filter: DeliveryFilter,
    known: Result<TrackMode, ServeError>,
    state: &State<SubscribedState>,
    result: Result<ModeAction, SessionError>,
)
    requires
        call_ensures(
            Subscribed::choose_server,
            (subscribed, filter, ModeEvent::Known(known), state),
            result,
        ),
    ensures
        known == Ok::<TrackMode, ServeError>(TrackMode::Subgroups) ==> {
            &&& result is Ok
            &&& result->Ok_0 is ServeSubgroups
            &&& result->Ok_0->ServeSubgroups_0.filter == filter
            &&& !result->Ok_0->ServeSubgroups_0.ended
            &&& result->Ok_0->ServeSubgroups_0.running == 0
        },
        known == Ok::<TrackMode, ServeError>(TrackMode::Datagrams) ==> {
            &&& result is Ok
            &&& result->Ok_0 is ServeDatagrams
            &&& result->Ok_0->ServeDatagrams_0@ == datagrams_served(
                subscribed.info.id,
                filter,
                Seq::empty(),
            ).server
        },
        known == Ok::<TrackMode, ServeError>(TrackMode::Stream) ==> result is Err
            && result->Err_0@ is Serve && result->Err_0@->Serve_0 is NotImplementedWithId,
        known matches Err(cause) ==> result is Err && result->Err_0@ == SessionFault::Serve(
            cause@,
        ),
{
}

/// How a track is written is waited for while the subscription is live and
/// open: its end ends the wait.
pub proof fn mode_is_waited_for(
    subscribed: &Subscribed,
    filter: DeliveryFilter,
    state: &State<SubscribedState>,
    result: Result<ModeAction, SessionError>,
)
    requires
        call_ensures(
            Subscribed::choose_server,
            (subscribed, filter, ModeEvent::Changed, state),
            result,
        ),
    ensures
        state.value.closed is Ok && state.live ==> result is Ok && result->Ok_0 is Wait,
        state.value.closed is Ok && !state.live ==> result is Ok && result->Ok_0 is Finish,
        state.value.closed matches Err(cause) ==> result is Err && result->Err_0@
            == SessionFault::Serve(cause@),
{
}

/// Every subgroup of a track is served, each by a server of its own that has
/// just been made, under a header from which the other end opens the same
/// subgroup.
pub proof fn every_subgroup_is_served(
    track: &mut TrackServer,
    subgroup: Subgroup,
    subscribed: &Subscribed,
    state: &State<SubscribedState>,
    result: Result<TrackAction, SessionError>,
)
    requires
        call_ensures(
            TrackServer::step,
            (track, TrackEvent::Subgroup(Ok(Some(subgroup))), subscribed, state),
            result,
        ),
    ensures
        result is Ok,
        result->Ok_0 is Serve,
        ({
            let server = result->Ok_0->Serve_0@;
            &&& server == served(server.header, old(track).filter, Seq::empty()).server
            &&& opened_subgroup(server.header) == Ok::<Subgroup, ServeFault>(subgroup)
            &&& server.header.track_alias == subscribed.info.id
            &&& server.header.group_id == subgroup.group_id
        }),
        final(track).running == old(track).running + 1,
        final(track).ended == old(track).ended,
        final(track).filter == old(track).filter,
{
}

/// A track is served until it has ended and every subgroup of it is served to
/// its end. While it goes on, the end of the subscription ends the serving;
/// once it has ended, what is being served is served to its end all the same.
pub proof fn track_is_served_to_its_end(
    track: &mut TrackServer,
    event: TrackEvent,
    subscribed: &Subscribed,
    state: &State<SubscribedState>,
    result: Result<TrackAction, SessionError>,
)
    requires
        call_ensures(TrackServer::step, (track, event, subscribed, state), result),
        old(track).running < u64::MAX,
        event is Served ==> old(track).running > 0,
    ensures
        event is Served || event == TrackEvent::Subgroup(Ok(None)) ==> {
            let left = old(track).running - (if event is Served {
                1int
            } else {
                0int
            });
            let ended = old(track).ended || event == TrackEvent::Subgroup(Ok(None));
            &&& final(track).running == left
            &&& final(track).ended == ended
            &&& result is Ok
            &&& ended && left == 0 ==> result->Ok_0 is Finish
            &&& !(ended && left == 0) ==> result->Ok_0 is Wait
        },
        event is Changed ==> {
            &&& *final(track) == *old(track)
            &&& old(track).ended && old(track).running > 0 ==> result is Ok && result->Ok_0 is Wait
            &&& !old(track).ended && state.value.closed is Ok && state.live ==> result is Ok
                && result->Ok_0 is Wait
            &&& !old(track).ended && state.value.closed is Ok && !state.live ==> result is Ok
                && result->Ok_0 is Finish
            &&& !old(track).ended ==> (state.value.closed matches Err(cause) ==> result is Err
                && result->Err_0@ == SessionFault::Serve(cause@))
        },
        event matches TrackEvent::Subgroup(Err(cause)) ==> result is Err && result->Err_0@
            == SessionFault::Serve(cause@),
{
}

} // verus!
