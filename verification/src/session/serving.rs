//! Serving a subscription, object by object. The caller reads objects, opens
//! streams and writes to them; what comes next is decided here.

use bytes::BytesMut;
use vstd::prelude::*;

use super::error::{SessionError, SessionFault};
use super::response::{coded, coded_from_empty, Halt};
use super::subscribe::DeliveryFilter;
use super::subscribe_recv::track_datagram;
use super::subscribed::{ServingView, Subscribed, SubscribedState, SubscriptionInitiator};
use crate::coding::buffer::buffer_contents;
use crate::coding::kvp::{sorted_pairs, Pair};
use crate::coding::{EncodeError, Location};
use crate::data::datagram::{Datagram, DatagramFields, DatagramType};
use crate::data::{
    ExtensionHeaders, ObjectStatus, StreamHeaderType, SubgroupHeader, SubgroupIdMode,
    SubgroupObject,
};
use crate::serve;
use crate::serve::error::ServeFault;
use crate::serve::track::DatagramView;
use crate::serve::{ServeError, Subgroup};
use crate::watch::{Progress, State};

verus! {

/// An object of a subgroup that is to be sent.
#[derive(Debug)]
pub struct OutgoingObject {
    pub object_id: u64,
    pub size: usize,
    pub status: ObjectStatus,
    pub extension_headers: ExtensionHeaders,
}

/// The model of an [`OutgoingObject`].
pub struct ObjectFields {
    pub object_id: u64,
    pub size: usize,
    pub status: ObjectStatus,
    pub extension_headers: Seq<Pair>,
}

impl View for OutgoingObject {
    type V = ObjectFields;

    open spec fn view(&self) -> ObjectFields {
        ObjectFields {
            object_id: self.object_id,
            size: self.size,
            status: self.status,
            extension_headers: self.extension_headers@,
        }
    }
}

/// Where serving a subgroup stands.
#[derive(Debug)]
enum SubgroupPhase {
    /// Nothing is read while FORWARD is off.
    Forwarding,
    Reading,
    /// An object was read; FORWARD may have changed meanwhile.
    Checking(OutgoingObject),
    /// The first object that is sent needs a stream.
    Opening(OutgoingObject),
    Sending(u64),
    Paying,
    Done,
}

/// The model of a phase.
pub enum PhaseView {
    Forwarding,
    Reading,
    Checking(ObjectFields),
    Opening(ObjectFields),
    Sending(u64),
    Paying,
    Done,
}

/// What happened to a subgroup that is being served.
#[derive(Debug)]
pub enum SubgroupEvent {
    /// Serving starts, or the state of the subscription changed.
    Changed,
    /// The next object was read; `None` is the end of the subgroup.
    Object(Option<OutgoingObject>),
    StreamOpened,
    /// The object's header was written.
    Sent,
    /// The object's payload was written.
    PayloadSent,
}

/// The model of an event.
pub enum EventView {
    Changed,
    Object(Option<ObjectFields>),
    StreamOpened,
    Sent,
    PayloadSent,
}

impl View for SubgroupEvent {
    type V = EventView;

    open spec fn view(&self) -> EventView {
        match self {
            SubgroupEvent::Changed => EventView::Changed,
            SubgroupEvent::Object(Some(object)) => EventView::Object(Some(object@)),
            SubgroupEvent::Object(None) => EventView::Object(None),
            SubgroupEvent::StreamOpened => EventView::StreamOpened,
            SubgroupEvent::Sent => EventView::Sent,
            SubgroupEvent::PayloadSent => EventView::PayloadSent,
        }
    }
}

/// What to do next for a subgroup.
#[derive(Debug)]
pub enum SubgroupAction {
    /// Wait until the state of the subscription changes.
    AwaitChange,
    ReadObject,
    OpenStream,
    /// Write the header of the stream, where it is new, and of the object.
    Send { header: Option<SubgroupHeader>, object_id: u64, object: SubgroupObject },
    SendPayload,
    /// The subgroup is served: finish its stream, if it has one.
    Finish { stream_open: bool },
}

/// The model of an action.
pub enum ActionView {
    AwaitChange,
    ReadObject,
    OpenStream,
    Send { header: Option<SubgroupHeader>, object: ObjectFields },
    SendPayload,
    Finish { stream_open: bool },
}

/// Whether an action is the one that was called for. The header of an object
/// says its status only where there is no payload.
pub open spec fn is_action(action: SubgroupAction, expected: ActionView) -> bool {
    match expected {
        ActionView::AwaitChange => action is AwaitChange,
        ActionView::ReadObject => action is ReadObject,
        ActionView::OpenStream => action is OpenStream,
        ActionView::Send { header, object } => {
            &&& action matches SubgroupAction::Send { header: sent, object_id, object: written }
            &&& sent == header
            &&& object_id == object.object_id
            &&& written.object_id_delta == 0
            &&& written.payload_length == object.size
            &&& written.status == (if object.size == 0 {
                Some(object.status)
            } else {
                None
            })
            &&& written.extension_headers is Some
            &&& written.extension_headers->0@ == object.extension_headers
        },
        ActionView::SendPayload => action is SendPayload,
        ActionView::Finish { stream_open } => action == (SubgroupAction::Finish { stream_open }),
    }
}

/// A subgroup that is being served.
#[derive(Debug)]
pub struct SubgroupServer {
    header: SubgroupHeader,
    filter: DeliveryFilter,
    stream_open: bool,
    phase: SubgroupPhase,
}

/// The model of a [`SubgroupServer`].
pub struct ServerView {
    pub header: SubgroupHeader,
    pub filter: DeliveryFilter,
    pub stream_open: bool,
    pub phase: PhaseView,
}

impl View for SubgroupServer {
    type V = ServerView;

    closed spec fn view(&self) -> ServerView {
        ServerView {
            header: self.header,
            filter: self.filter,
            stream_open: self.stream_open,
            phase: match self.phase {
                SubgroupPhase::Forwarding => PhaseView::Forwarding,
                SubgroupPhase::Reading => PhaseView::Reading,
                SubgroupPhase::Checking(object) => PhaseView::Checking(object@),
                SubgroupPhase::Opening(object) => PhaseView::Opening(object@),
                SubgroupPhase::Sending(id) => PhaseView::Sending(id),
                SubgroupPhase::Paying => PhaseView::Paying,
                SubgroupPhase::Done => PhaseView::Done,
            },
        }
    }
}

/// What a step leads to: an action or a fault, the server and the state of
/// the subscription after it.
pub struct ServeStep {
    pub outcome: Result<ActionView, SessionFault>,
    pub server: ServerView,
    pub serving: ServingView,
}

impl ServerView {
    pub open spec fn in_phase(self, phase: PhaseView) -> ServerView {
        ServerView { phase, ..self }
    }

    /// The place of an object of the subgroup.
    pub open spec fn location(self, object_id: u64) -> Location {
        Location { group_id: self.header.group_id, object_id }
    }

    /// The next object is read once objects are forwarded.
    pub open spec fn resume(self, state: State<SubscribedState>) -> ServeStep {
        match state.forwarding() {
            Progress::Pending => ServeStep {
                outcome: Ok(ActionView::AwaitChange),
                server: self.in_phase(PhaseView::Forwarding),
                serving: state.value@,
            },
            Progress::Ready(Some(error)) => ServeStep {
                outcome: Err(SessionFault::Serve(error)),
                server: self.in_phase(PhaseView::Done),
                serving: state.value@,
            },
            Progress::Ready(None) => ServeStep {
                outcome: Ok(ActionView::ReadObject),
                server: self.in_phase(PhaseView::Reading),
                serving: state.value@,
            },
        }
    }

    /// An object that was read is sent once objects are forwarded, unless the
    /// subscription's filter leaves it out.
    pub open spec fn check(self, object: ObjectFields, state: State<SubscribedState>) -> ServeStep {
        match state.forwarding() {
            Progress::Pending => ServeStep {
                outcome: Ok(ActionView::AwaitChange),
                server: self.in_phase(PhaseView::Checking(object)),
                serving: state.value@,
            },
            Progress::Ready(Some(error)) => ServeStep {
                outcome: Err(SessionFault::Serve(error)),
                server: self.in_phase(PhaseView::Done),
                serving: state.value@,
            },
            Progress::Ready(None) => if !self.filter.delivers(self.location(object.object_id)) {
                self.resume(state)
            } else if self.stream_open {
                ServeStep {
                    outcome: Ok(ActionView::Send { header: None, object }),
                    server: self.in_phase(PhaseView::Sending(object.object_id)),
                    serving: state.value@,
                }
            } else {
                ServeStep {
                    outcome: Ok(ActionView::OpenStream),
                    server: self.in_phase(PhaseView::Opening(object)),
                    serving: state.value@,
                }
            },
        }
    }

    /// A fault ends the serving.
    pub open spec fn fail(self, fault: SessionFault, state: State<SubscribedState>) -> ServeStep {
        ServeStep {
            outcome: Err(fault),
            server: self.in_phase(PhaseView::Done),
            serving: state.value@,
        }
    }

    /// What an event leads to.
    pub open spec fn step(self, event: EventView, state: State<SubscribedState>) -> ServeStep {
        match (self.phase, event) {
            (PhaseView::Forwarding, EventView::Changed) => self.resume(state),
            (PhaseView::Reading, EventView::Object(None)) => ServeStep {
                outcome: Ok(ActionView::Finish { stream_open: self.stream_open }),
                server: self.in_phase(PhaseView::Done),
                serving: state.value@,
            },
            (PhaseView::Reading, EventView::Object(Some(object))) => self.check(object, state),
            (PhaseView::Checking(object), EventView::Changed) => self.check(object, state),
            (PhaseView::Opening(object), EventView::StreamOpened) => if state.live {
                ServeStep {
                    outcome: Ok(ActionView::Send { header: Some(self.header), object }),
                    server: ServerView {
                        stream_open: true,
                        phase: PhaseView::Sending(object.object_id),
                        ..self
                    },
                    serving: state.value@.with_stream(),
                }
            } else {
                self.fail(SessionFault::Serve(ServeFault::Done), state)
            },
            (PhaseView::Sending(object_id), EventView::Sent) => if state.live {
                ServeStep {
                    outcome: Ok(ActionView::SendPayload),
                    server: self.in_phase(PhaseView::Paying),
                    serving: state.value@.with_object(self.location(object_id)),
                }
            } else {
                self.fail(SessionFault::Serve(ServeFault::Done), state)
            },
            (PhaseView::Paying, EventView::PayloadSent) => self.resume(state),
            _ => self.fail(SessionFault::Internal, state),
        }
    }

    /// A server asks for a stream only for an object that is delivered, and
    /// only while it has none.
    pub open spec fn sound(self) -> bool {
        self.phase matches PhaseView::Opening(object) ==> !self.stream_open && self.filter.delivers(
            self.location(object.object_id),
        )
    }
}

/// Whatever happens, only objects that the subscription's filter delivers are
/// sent, while they are forwarded; the stream's header comes before the first
/// of them and never again.
pub proof fn only_delivered_objects_are_sent(
    server: ServerView,
    event: EventView,
    state: State<SubscribedState>,
)
    requires
        server.sound(),
    ensures
        server.step(event, state).server.sound(),
        server.step(event, state).outcome matches Ok(
            ActionView::Send { header, object },
        ) ==> {
            &&& server.filter.delivers(server.location(object.object_id))
            &&& header == (if server.stream_open {
                None
            } else {
                Some(server.header)
            })
            &&& server.step(event, state).server.stream_open
        },
        server.stream_open ==> server.step(event, state).server.stream_open,
{
}

/// A stream is counted exactly when it was opened, and a subgroup takes at
/// most one.
pub proof fn streams_are_counted_once(
    server: ServerView,
    event: EventView,
    state: State<SubscribedState>,
)
    requires
        server.sound(),
        state.value@.stream_count < u64::MAX,
    ensures
        server.step(event, state).serving.stream_count == state.value@.stream_count + (if server.step(
            event,
            state,
        ).server.stream_open && !server.stream_open {
            1int
        } else {
            0int
        }),
{
}

impl SubgroupServer {
    pub fn new(header: SubgroupHeader, filter: DeliveryFilter) -> (server: Self)
        ensures
            server@ == (ServerView {
                header,
                filter,
                stream_open: false,
                phase: PhaseView::Forwarding,
            }),
            server@.sound(),
    {
        SubgroupServer { header, filter, stream_open: false, phase: SubgroupPhase::Forwarding }
    }

    fn resume(&mut self, state: &State<SubscribedState>) -> (result: Result<
        SubgroupAction,
        SessionError,
    >)
        ensures
            ({
                let step = old(self)@.resume(*state);
                &&& final(self)@ == step.server
                &&& step.serving == state.value@
                &&& match result {
                    Ok(action) => step.outcome is Ok && is_action(action, step.outcome->Ok_0),
                    Err(error) => step.outcome == Err::<ActionView, SessionFault>(error@),
                }
            }),
    {
        match state.poll_forward() {
            Progress::Pending => {
                self.phase = SubgroupPhase::Forwarding;
                Ok(SubgroupAction::AwaitChange)
            },
            Progress::Ready(Err(error)) => {
                self.phase = SubgroupPhase::Done;
                Err(SessionError::Serve(error))
            },
            Progress::Ready(Ok(())) => {
                self.phase = SubgroupPhase::Reading;
                Ok(SubgroupAction::ReadObject)
            },
        }
    }

    fn send(&mut self, header: Option<SubgroupHeader>, object: OutgoingObject) -> (action:
        SubgroupAction)
        ensures
            is_action(action, ActionView::Send { header, object: object@ }),
            final(self)@ == old(self)@.in_phase(PhaseView::Sending(object.object_id)),
    {
        self.phase = SubgroupPhase::Sending(object.object_id);
        let status = if object.size == 0 {
            Some(object.status)
        } else {
            None
        };
        SubgroupAction::Send {
            header,
            object_id: object.object_id,
            object: SubgroupObject {
                object_id_delta: 0,
                extension_headers: Some(object.extension_headers),
                payload_length: object.size,
                status,
            },
        }
    }

    fn check(&mut self, object: OutgoingObject, state: &State<SubscribedState>) -> (result: Result<
        SubgroupAction,
        SessionError,
    >)
        ensures
            ({
                let step = old(self)@.check(object@, *state);
                &&& final(self)@ == step.server
                &&& step.serving == state.value@
                &&& match result {
                    Ok(action) => step.outcome is Ok && is_action(action, step.outcome->Ok_0),
                    Err(error) => step.outcome == Err::<ActionView, SessionFault>(error@),
                }
            }),
    {
        match state.poll_forward() {
            Progress::Pending => {
                self.phase = SubgroupPhase::Checking(object);
                Ok(SubgroupAction::AwaitChange)
            },
            Progress::Ready(Err(error)) => {
                self.phase = SubgroupPhase::Done;
                Err(SessionError::Serve(error))
            },
            Progress::Ready(Ok(())) => {
                if !self.filter.allows(self.header.group_id, object.object_id) {
                    self.resume(state)
                } else if self.stream_open {
                    Ok(self.send(None, object))
                } else {
                    self.phase = SubgroupPhase::Opening(object);
                    Ok(SubgroupAction::OpenStream)
                }
            },
        }
    }

    /// Takes what happened and says what to do next.
    pub fn step(&mut self, event: SubgroupEvent, state: &mut State<SubscribedState>) -> (result:
        Result<SubgroupAction, SessionError>)
        ensures
            ({
                let step = old(self)@.step(event@, *old(state));
                &&& final(self)@ == step.server
                &&& final(state).value@ == step.serving
                &&& final(state).live == old(state).live
                &&& match result {
                    Ok(action) => step.outcome is Ok && is_action(action, step.outcome->Ok_0),
                    Err(error) => step.outcome == Err::<ActionView, SessionFault>(error@),
                }
            }),
    {
        let mut phase = SubgroupPhase::Done;
        std::mem::swap(&mut phase, &mut self.phase);
        match (phase, event) {
            (SubgroupPhase::Forwarding, SubgroupEvent::Changed) => self.resume(state),
            (SubgroupPhase::Reading, SubgroupEvent::Object(None)) => Ok(
                SubgroupAction::Finish { stream_open: self.stream_open },
            ),
            (SubgroupPhase::Reading, SubgroupEvent::Object(Some(object))) => self.check(
                object,
                state,
            ),
            (SubgroupPhase::Checking(object), SubgroupEvent::Changed) => self.check(object, state),
            (SubgroupPhase::Opening(object), SubgroupEvent::StreamOpened) => {
                if !state.live {
                    return Err(SessionError::Serve(ServeError::Done));
                }
                state.value.record_stream_opened();
                self.stream_open = true;
                let header = self.header;
                Ok(self.send(Some(header), object))
            },
            (SubgroupPhase::Sending(object_id), SubgroupEvent::Sent) => {
                if !state.live {
                    return Err(SessionError::Serve(ServeError::Done));
                }
                let _ = state.value.update_largest_location(self.header.group_id, object_id);
                self.phase = SubgroupPhase::Paying;
                Ok(SubgroupAction::SendPayload)
            },
            (SubgroupPhase::Paying, SubgroupEvent::PayloadSent) => self.resume(state),
            _ => Err(SessionError::Internal),
        }
    }
}

/// Where serving datagrams stands.
#[derive(Debug)]
enum DatagramPhase {
    Forwarding,
    Reading,
    Checking(serve::Datagram),
    Sending(Location),
    Done,
}

/// The model of a phase.
pub enum DatagramPhaseView {
    Forwarding,
    Reading,
    Checking(DatagramView),
    Sending(Location),
    Done,
}

/// What happened to a track that is being served by datagrams.
#[derive(Debug)]
pub enum DatagramEvent {
    /// Serving starts, or the state of the subscription changed.
    Changed,
    /// The next datagram was read; `None` is the end of the track.
    Datagram(Option<serve::Datagram>),
    /// The subscription ended while a datagram was awaited.
    Closed,
    Sent,
}

/// The model of an event.
pub enum DatagramEventView {
    Changed,
    Datagram(Option<DatagramView>),
    Closed,
    Sent,
}

impl View for DatagramEvent {
    type V = DatagramEventView;

    open spec fn view(&self) -> DatagramEventView {
        match self {
            DatagramEvent::Changed => DatagramEventView::Changed,
            DatagramEvent::Datagram(Some(datagram)) => DatagramEventView::Datagram(Some(datagram@)),
            DatagramEvent::Datagram(None) => DatagramEventView::Datagram(None),
            DatagramEvent::Closed => DatagramEventView::Closed,
            DatagramEvent::Sent => DatagramEventView::Sent,
        }
    }
}

/// What to do next for a track that is served by datagrams.
#[derive(Debug)]
pub enum DatagramAction {
    AwaitChange,
    ReadDatagram,
    Send(BytesMut),
    Finish,
}

/// The model of an action.
pub enum DatagramActionView {
    AwaitChange,
    ReadDatagram,
    Send(Seq<u8>),
    Finish,
}

impl View for DatagramAction {
    type V = DatagramActionView;

    open spec fn view(&self) -> DatagramActionView {
        match self {
            DatagramAction::AwaitChange => DatagramActionView::AwaitChange,
            DatagramAction::ReadDatagram => DatagramActionView::ReadDatagram,
            DatagramAction::Send(buffer) => DatagramActionView::Send(buffer_contents(*buffer)),
            DatagramAction::Finish => DatagramActionView::Finish,
        }
    }
}

/// A track that is being served by datagrams.
#[derive(Debug)]
pub struct DatagramServer {
    track_alias: u64,
    filter: DeliveryFilter,
    phase: DatagramPhase,
}

/// The model of a [`DatagramServer`].
pub struct DatagramServerView {
    pub track_alias: u64,
    pub filter: DeliveryFilter,
    pub phase: DatagramPhaseView,
}

impl View for DatagramServer {
    type V = DatagramServerView;

    closed spec fn view(&self) -> DatagramServerView {
        DatagramServerView {
            track_alias: self.track_alias,
            filter: self.filter,
            phase: match self.phase {
                DatagramPhase::Forwarding => DatagramPhaseView::Forwarding,
                DatagramPhase::Reading => DatagramPhaseView::Reading,
                DatagramPhase::Checking(datagram) => DatagramPhaseView::Checking(datagram@),
                DatagramPhase::Sending(location) => DatagramPhaseView::Sending(location),
                DatagramPhase::Done => DatagramPhaseView::Done,
            },
        }
    }
}

/// The datagram on the wire for one of a track. Its type tells whether it has
/// extension headers.
pub open spec fn wire_datagram(track_alias: u64, datagram: DatagramView) -> DatagramFields {
    DatagramFields {
        datagram_type: if datagram.extension_headers.len() > 0 {
            DatagramType::ObjectIdPayloadExt
        } else {
            DatagramType::ObjectIdPayload
        },
        track_alias,
        group_id: datagram.group_id,
        object_id: Some(datagram.object_id),
        publisher_priority: datagram.priority,
        extension_headers: if datagram.extension_headers.len() > 0 {
            Some(datagram.extension_headers)
        } else {
            None
        },
        status: None,
        payload: Some(datagram.payload),
    }
}

/// What a track is sent as fits its type.
pub proof fn wire_datagram_is_consistent(track_alias: u64, datagram: DatagramView)
    ensures
        wire_datagram(track_alias, datagram).consistent(),
{
}

/// A datagram that a publisher sends is the one that the subscriber's track is
/// given; its extension headers come by ascending key.
pub proof fn served_datagram_is_received(track_alias: u64, datagram: DatagramView)
    requires
        wire_datagram(track_alias, datagram).encoding() is Ok,
        wire_datagram(track_alias, datagram).headers_fit(),
    ensures
        ({
            let bytes = wire_datagram(track_alias, datagram).encoding()->Ok_0;
            &&& DatagramFields::read(bytes) matches Ok(received)
            &&& received.track_alias == track_alias
            &&& track_datagram(received) == (DatagramView {
                extension_headers: sorted_pairs(datagram.extension_headers),
                ..datagram
            })
        }),
{
    let sent = wire_datagram(track_alias, datagram);
    wire_datagram_is_consistent(track_alias, datagram);
    sent.round_trip();
    if datagram.extension_headers.len() == 0 {
        assert(datagram.extension_headers =~= Seq::<Pair>::empty());
        assert(sorted_pairs(datagram.extension_headers) =~= Seq::<Pair>::empty());
    }
}

/// What a step leads to.
pub struct DatagramStep {
    pub outcome: Result<DatagramActionView, Halt>,
    pub server: DatagramServerView,
    pub serving: ServingView,
}

impl DatagramServerView {
    pub open spec fn in_phase(self, phase: DatagramPhaseView) -> DatagramServerView {
        DatagramServerView { phase, ..self }
    }

    pub open spec fn halt(self, halt: Halt, state: State<SubscribedState>) -> DatagramStep {
        DatagramStep {
            outcome: Err(halt),
            server: self.in_phase(DatagramPhaseView::Done),
            serving: state.value@,
        }
    }

    pub open spec fn fail(self, fault: SessionFault, state: State<SubscribedState>) -> DatagramStep {
        self.halt(Halt { fault, overrun: false }, state)
    }

    /// The next datagram is read once objects are forwarded.
    pub open spec fn resume(self, state: State<SubscribedState>) -> DatagramStep {
        match state.forwarding() {
            Progress::Pending => DatagramStep {
                outcome: Ok(DatagramActionView::AwaitChange),
                server: self.in_phase(DatagramPhaseView::Forwarding),
                serving: state.value@,
            },
            Progress::Ready(Some(error)) => self.fail(SessionFault::Serve(error), state),
            Progress::Ready(None) => DatagramStep {
                outcome: Ok(DatagramActionView::ReadDatagram),
                server: self.in_phase(DatagramPhaseView::Reading),
                serving: state.value@,
            },
        }
    }

    /// A datagram that was read is sent once objects are forwarded, unless the
    /// subscription's filter leaves it out.
    pub open spec fn check(self, datagram: DatagramView, state: State<SubscribedState>) -> DatagramStep {
        let location = Location { group_id: datagram.group_id, object_id: datagram.object_id };
        match state.forwarding() {
            Progress::Pending => DatagramStep {
                outcome: Ok(DatagramActionView::AwaitChange),
                server: self.in_phase(DatagramPhaseView::Checking(datagram)),
                serving: state.value@,
            },
            Progress::Ready(Some(error)) => self.fail(SessionFault::Serve(error), state),
            Progress::Ready(None) => if !self.filter.delivers(location) {
                self.resume(state)
            } else {
                match wire_datagram(self.track_alias, datagram).encoding() {
                    Ok(bytes) => DatagramStep {
                        outcome: Ok(DatagramActionView::Send(bytes)),
                        server: self.in_phase(DatagramPhaseView::Sending(location)),
                        serving: state.value@,
                    },
                    Err(stop) => self.halt(coded(Err(stop))->Err_0, state),
                }
            },
        }
    }

    /// What an event leads to.
    pub open spec fn step(self, event: DatagramEventView, state: State<SubscribedState>) -> DatagramStep {
        match (self.phase, event) {
            (DatagramPhaseView::Forwarding, DatagramEventView::Changed) => self.resume(state),
            (DatagramPhaseView::Reading, DatagramEventView::Datagram(None)) => DatagramStep {
                outcome: Ok(DatagramActionView::Finish),
                server: self.in_phase(DatagramPhaseView::Done),
                serving: state.value@,
            },
            (DatagramPhaseView::Reading, DatagramEventView::Datagram(Some(datagram))) => self.check(
                datagram,
                state,
            ),
            (DatagramPhaseView::Reading, DatagramEventView::Closed) => match state.value@.closed {
                Some(error) => self.fail(SessionFault::Serve(error), state),
                None => DatagramStep {
                    outcome: Ok(
                        if state.live {
                            DatagramActionView::ReadDatagram
                        } else {
                            DatagramActionView::Finish
                        },
                    ),
                    server: if state.live {
                        self
                    } else {
                        self.in_phase(DatagramPhaseView::Done)
                    },
                    serving: state.value@,
                },
            },
            (DatagramPhaseView::Checking(datagram), DatagramEventView::Changed) => self.check(
                datagram,
                state,
            ),
            (DatagramPhaseView::Sending(location), DatagramEventView::Sent) => if state.live {
                DatagramStep {
                    serving: state.value@.with_object(location),
                    ..self.resume(state)
                }
            } else {
                self.fail(SessionFault::Serve(ServeFault::Done), state)
            },
            _ => self.fail(SessionFault::Internal, state),
        }
    }
}

/// Whether a result is what a step calls for. A buffer that is full is the one
/// fault that the step itself does not tell.
pub open spec fn is_datagram_outcome(
    result: Result<DatagramAction, SessionError>,
    server: DatagramServerView,
    step: DatagramStep,
) -> bool {
    match step.outcome {
        Ok(DatagramActionView::Send(bytes)) => if bytes.len() <= isize::MAX {
            &&& result is Ok
            &&& result->Ok_0@ == DatagramActionView::Send(bytes)
            &&& server == step.server
        } else {
            &&& result matches Err(error)
            &&& error@ matches SessionFault::Encode(EncodeError::More(_))
            &&& server == step.server.in_phase(DatagramPhaseView::Done)
        },
        Ok(action) => result is Ok && result->Ok_0@ == action && server == step.server,
        Err(halt) => {
            &&& result matches Err(error)
            &&& halt.comes_out_as(error@)
            &&& server == step.server
        },
    }
}

impl DatagramServer {
    pub fn new(track_alias: u64, filter: DeliveryFilter) -> (server: Self)
        ensures
            server@ == (DatagramServerView {
                track_alias,
                filter,
                phase: DatagramPhaseView::Forwarding,
            }),
    {
        DatagramServer { track_alias, filter, phase: DatagramPhase::Forwarding }
    }

    fn resume(&mut self, state: &State<SubscribedState>) -> (result: Result<
        DatagramAction,
        SessionError,
    >)
        ensures
            is_datagram_outcome(result, final(self)@, old(self)@.resume(*state)),
            old(self)@.resume(*state).serving == state.value@,
    {
        match state.poll_forward() {
            Progress::Pending => {
                self.phase = DatagramPhase::Forwarding;
                Ok(DatagramAction::AwaitChange)
            },
            Progress::Ready(Err(error)) => {
                self.phase = DatagramPhase::Done;
                Err(SessionError::Serve(error))
            },
            Progress::Ready(Ok(())) => {
                self.phase = DatagramPhase::Reading;
                Ok(DatagramAction::ReadDatagram)
            },
        }
    }

    fn send(&mut self, datagram: serve::Datagram) -> (result: Result<DatagramAction, SessionError>)
        ensures
            ({
                let location = Location {
                    group_id: datagram.group_id,
                    object_id: datagram.object_id,
                };
                match wire_datagram(old(self)@.track_alias, datagram@).encoding() {
                    Ok(bytes) => if bytes.len() <= isize::MAX {
                        &&& result is Ok
                        &&& result->Ok_0@ == DatagramActionView::Send(bytes)
                        &&& final(self)@ == old(self)@.in_phase(DatagramPhaseView::Sending(location))
                    } else {
                        &&& result matches Err(error)
                        &&& error@ matches SessionFault::Encode(EncodeError::More(_))
                        &&& final(self)@ == old(self)@.in_phase(DatagramPhaseView::Done)
                    },
                    Err(stop) => {
                        &&& result matches Err(error)
                        &&& coded(Err(stop))->Err_0.comes_out_as(error@)
                        &&& final(self)@ == old(self)@.in_phase(DatagramPhaseView::Done)
                    },
                }
            }),
    {
        let location = Location::new(datagram.group_id, datagram.object_id);
        let extended = !datagram.extension_headers.is_empty();
        let datagram_type = if extended {
            DatagramType::ObjectIdPayloadExt
        } else {
            DatagramType::ObjectIdPayload
        };
        let extension_headers = if extended {
            Some(datagram.extension_headers)
        } else {
            None
        };
        let encoded = Datagram {
            datagram_type,
            track_alias: self.track_alias,
            group_id: datagram.group_id,
            object_id: Some(datagram.object_id),
            publisher_priority: datagram.priority,
            extension_headers,
            status: None,
            payload: Some(datagram.payload),
        };
        let ghost fields = wire_datagram(self.track_alias, datagram@);
        assert(encoded@ == fields);
        let mut buffer = BytesMut::new();
        let ghost empty = buffer_contents(buffer);
        let written = encoded.encode(&mut buffer);
        proof {
            coded_from_empty(empty, buffer_contents(buffer), fields.encoding(), written);
        }
        match written {
            Ok(()) => {
                self.phase = DatagramPhase::Sending(location);
                Ok(DatagramAction::Send(buffer))
            },
            Err(error) => {
                self.phase = DatagramPhase::Done;
                Err(SessionError::Encode(error))
            },
        }
    }

    fn check(&mut self, datagram: serve::Datagram, state: &State<SubscribedState>) -> (result: Result<
        DatagramAction,
        SessionError,
    >)
        ensures
            is_datagram_outcome(result, final(self)@, old(self)@.check(datagram@, *state)),
            old(self)@.check(datagram@, *state).serving == state.value@,
    {
        match state.poll_forward() {
            Progress::Pending => {
                self.phase = DatagramPhase::Checking(datagram);
                Ok(DatagramAction::AwaitChange)
            },
            Progress::Ready(Err(error)) => {
                self.phase = DatagramPhase::Done;
                Err(SessionError::Serve(error))
            },
            Progress::Ready(Ok(())) => {
                if !self.filter.allows(datagram.group_id, datagram.object_id) {
                    self.resume(state)
                } else {
                    self.send(datagram)
                }
            },
        }
    }

    /// Takes what happened and says what to do next.
    pub fn step(&mut self, event: DatagramEvent, state: &mut State<SubscribedState>) -> (result:
        Result<DatagramAction, SessionError>)
        ensures
            is_datagram_outcome(result, final(self)@, old(self)@.step(event@, *old(state))),
            final(state).value@ == old(self)@.step(event@, *old(state)).serving,
            final(state).live == old(state).live,
    {
        let mut phase = DatagramPhase::Done;
        std::mem::swap(&mut phase, &mut self.phase);
        match (phase, event) {
            (DatagramPhase::Forwarding, DatagramEvent::Changed) => self.resume(state),
            (DatagramPhase::Reading, DatagramEvent::Datagram(None)) => Ok(DatagramAction::Finish),
            (DatagramPhase::Reading, DatagramEvent::Datagram(Some(datagram))) => self.check(
                datagram,
                state,
            ),
            (DatagramPhase::Reading, DatagramEvent::Closed) => match &state.value.closed {
                Err(error) => Err(SessionError::Serve(error.clone())),
                Ok(()) => if state.live {
                    self.phase = DatagramPhase::Reading;
                    Ok(DatagramAction::ReadDatagram)
                } else {
                    Ok(DatagramAction::Finish)
                },
            },
            (DatagramPhase::Checking(datagram), DatagramEvent::Changed) => self.check(
                datagram,
                state,
            ),
            (DatagramPhase::Sending(location), DatagramEvent::Sent) => {
                if !state.live {
                    return Err(SessionError::Serve(ServeError::Done));
                }
                let _ = state.value.update_largest_location(location.group_id, location.object_id);
                self.resume(state)
            },
            _ => Err(SessionError::Internal),
        }
    }
}

/// Only datagrams that the subscription's filter delivers are sent.
pub proof fn only_delivered_datagrams_are_sent(
    server: DatagramServerView,
    datagram: DatagramView,
    state: State<SubscribedState>,
)
    ensures
        server.check(datagram, state).outcome matches Ok(
            DatagramActionView::Send(_),
        ) ==> server.filter.delivers(
            Location { group_id: datagram.group_id, object_id: datagram.object_id },
        ) && state.value@.forward,
{
}

/// How a track turns out to be written.
#[derive(Clone, Copy, Debug, PartialEq, Eq, Structural)]
pub enum TrackMode {
    /// On one stream. Tracks are no longer written so.
    Stream,
    Subgroups,
    Datagrams,
}

/// What happened to a track that is to be served.
#[derive(Debug)]
pub enum ModeEvent {
    /// It is known how the track is written.
    Known(Result<TrackMode, ServeError>),
    /// The state of the subscription changed.
    Changed,
}

/// What to do next for a track that is to be served.
#[derive(Debug)]
pub enum ModeAction {
    /// Wait until it is known how the track is written, or the subscription
    /// changes.
    Wait,
    ServeSubgroups(TrackServer),
    ServeDatagrams(DatagramServer),
    /// Nobody is left to serve the track to.
    Finish,
}

impl Subscribed {
    /// Chooses how a track that was accepted with a filter is served: as it is
    /// written. The end of the subscription ends the wait for that. A track on
    /// one stream is refused to a subscriber that was asked to take it.
    pub fn choose_server(
        &self,
        filter: DeliveryFilter,
        event: ModeEvent,
        state: &State<SubscribedState>,
    ) -> (result: Result<ModeAction, SessionError>)
        requires
            self.initiator == SubscriptionInitiator::Subscriber ==> event != ModeEvent::Known(
                Ok(TrackMode::Stream),
            ),
        ensures
            match event {
                ModeEvent::Known(Ok(TrackMode::Stream)) => result matches Err(error) && error@
                    == SessionFault::Serve(
                    ServeFault::NotImplementedWithId(0, "stream track reader mode"@),
                ),
                ModeEvent::Known(Ok(TrackMode::Subgroups)) => result
                    == Ok::<ModeAction, SessionError>(
                    ModeAction::ServeSubgroups(TrackServer { filter, ended: false, running: 0 }),
                ),
                ModeEvent::Known(Ok(TrackMode::Datagrams)) => {
                    &&& result matches Ok(ModeAction::ServeDatagrams(server))
                    &&& server@ == (DatagramServerView {
                        track_alias: self.info@.id,
                        filter,
                        phase: DatagramPhaseView::Forwarding,
                    })
                },
                ModeEvent::Known(Err(cause)) => result matches Err(error) && error@
                    == SessionFault::Serve(cause@),
                ModeEvent::Changed => match state.value@.closed {
                    Some(cause) => result matches Err(error) && error@ == SessionFault::Serve(
                        cause,
                    ),
                    None => result == Ok::<ModeAction, SessionError>(if state.live {
                        ModeAction::Wait
                    } else {
                        ModeAction::Finish
                    }),
                },
            },
    {
        match event {
            ModeEvent::Known(Ok(TrackMode::Stream)) => Err(
                SessionError::Serve(ServeError::not_implemented_ctx("stream track reader mode")),
            ),
            ModeEvent::Known(Ok(TrackMode::Subgroups)) => Ok(
                ModeAction::ServeSubgroups(TrackServer::new(filter)),
            ),
            ModeEvent::Known(Ok(TrackMode::Datagrams)) => Ok(
                ModeAction::ServeDatagrams(DatagramServer::new(self.info.id, filter)),
            ),
            ModeEvent::Known(Err(cause)) => Err(SessionError::Serve(cause)),
            ModeEvent::Changed => match state.poll_serving_closed() {
                Progress::Pending => Ok(ModeAction::Wait),
                Progress::Ready(Ok(())) => Ok(ModeAction::Finish),
                Progress::Ready(Err(cause)) => Err(SessionError::Serve(cause)),
            },
        }
    }
}

/// What happened to a track that is being served by subgroups.
#[derive(Debug)]
pub enum TrackEvent {
    /// The next subgroup came; `None` is the end of the track.
    Subgroup(Result<Option<Subgroup>, ServeError>),
    /// The state of the subscription changed.
    Changed,
    /// A subgroup was served to its end.
    Served,
}

/// What to do next for a track that is served by subgroups.
#[derive(Debug)]
pub enum TrackAction {
    /// Serve a subgroup beside the others.
    Serve(SubgroupServer),
    Wait,
    /// The track is served, or nobody is left to serve it to.
    Finish,
}

/// A track that is being served by subgroups, each on its own.
#[derive(Clone, Copy, Debug, PartialEq, Eq, Structural)]
pub struct TrackServer {
    pub filter: DeliveryFilter,
    /// The track has ended.
    pub ended: bool,
    /// How many subgroups are being served.
    pub running: u64,
}

impl TrackServer {
    pub open spec fn waits(self) -> bool {
        !(self.ended && self.running == 0)
    }

    pub fn new(filter: DeliveryFilter) -> (server: Self)
        ensures
            server == (TrackServer { filter, ended: false, running: 0 }),
    {
        TrackServer { filter, ended: false, running: 0 }
    }

    fn rest(&self) -> (action: TrackAction)
        ensures
            action == (if self.waits() {
                TrackAction::Wait
            } else {
                TrackAction::Finish
            }),
    {
        if self.ended && self.running == 0 {
            TrackAction::Finish
        } else {
            TrackAction::Wait
        }
    }

    /// Takes what happened and says what to do next. While the track goes on,
    /// the end of the subscription ends the serving; once the track has ended,
    /// the subgroups that are being served are served to their end.
    pub fn step(
        &mut self,
        event: TrackEvent,
        subscribed: &Subscribed,
        state: &State<SubscribedState>,
    ) -> (result: Result<TrackAction, SessionError>)
        requires
            old(self).running < u64::MAX,
            event is Served ==> old(self).running > 0,
        ensures
            final(self).filter == old(self).filter,
            match event {
                TrackEvent::Subgroup(Ok(Some(subgroup))) => {
                    &&& final(self).ended == old(self).ended
                    &&& final(self).running == old(self).running + 1
                    &&& result matches Ok(TrackAction::Serve(server))
                    &&& server@ == (ServerView {
                        header: SubgroupHeader {
                            header_type: StreamHeaderType::Subgroup {
                                extension_headers: true,
                                subgroup_id: SubgroupIdMode::Explicit,
                                end_of_group: false,
                                default_priority: false,
                                first_object: subgroup.first_object,
                            },
                            track_alias: subscribed.info@.id,
                            group_id: subgroup.group_id,
                            subgroup_id: Some(subgroup.subgroup_id),
                            publisher_priority: subgroup.priority,
                        },
                        filter: old(self).filter,
                        stream_open: false,
                        phase: PhaseView::Forwarding,
                    })
                },
                TrackEvent::Subgroup(Ok(None)) => {
                    &&& final(self).ended
                    &&& final(self).running == old(self).running
                    &&& result == Ok::<TrackAction, SessionError>(if final(self).waits() {
                        TrackAction::Wait
                    } else {
                        TrackAction::Finish
                    })
                },
                TrackEvent::Subgroup(Err(cause)) => {
                    &&& *final(self) == *old(self)
                    &&& result matches Err(error) && error@ == SessionFault::Serve(cause@)
                },
                TrackEvent::Changed => {
                    &&& *final(self) == *old(self)
                    &&& if old(self).ended {
                        result == Ok::<TrackAction, SessionError>(if old(self).waits() {
                            TrackAction::Wait
                        } else {
                            TrackAction::Finish
                        })
                    } else {
                        match state.value@.closed {
                            Some(cause) => result matches Err(error) && error@
                                == SessionFault::Serve(cause),
                            None => result == Ok::<TrackAction, SessionError>(if state.live {
                                TrackAction::Wait
                            } else {
                                TrackAction::Finish
                            }),
                        }
                    }
                },
                TrackEvent::Served => {
                    &&& final(self).ended == old(self).ended
                    &&& final(self).running == old(self).running - 1
                    &&& result == Ok::<TrackAction, SessionError>(if final(self).waits() {
                        TrackAction::Wait
                    } else {
                        TrackAction::Finish
                    })
                },
            },
    {
        match event {
            TrackEvent::Subgroup(Ok(Some(subgroup))) => {
                self.running = self.running + 1;
                let header = subscribed.subgroup_header(&subgroup);
                Ok(TrackAction::Serve(SubgroupServer::new(header, self.filter)))
            },
            TrackEvent::Subgroup(Ok(None)) => {
                self.ended = true;
                Ok(self.rest())
            },
            TrackEvent::Subgroup(Err(cause)) => Err(SessionError::Serve(cause)),
            TrackEvent::Changed => {
                if self.ended {
                    return Ok(self.rest());
                }
                match state.poll_serving_closed() {
                    Progress::Pending => Ok(TrackAction::Wait),
                    Progress::Ready(Ok(())) => Ok(TrackAction::Finish),
                    Progress::Ready(Err(cause)) => Err(SessionError::Serve(cause)),
                }
            },
            TrackEvent::Served => {
                self.running = self.running - 1;
                Ok(self.rest())
            },
        }
    }
}

} // verus!
