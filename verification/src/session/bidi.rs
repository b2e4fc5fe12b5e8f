//! A request stream of the peer: one request, its answers and what follows it.
//! The caller reads and writes the stream and delivers messages; what comes
//! next is decided here.

use std::collections::{HashMap, HashSet, VecDeque};

use bytes::BytesMut;
use vstd::prelude::*;

use super::control::Dispatched;
use super::error::{SessionError, SessionFault};
use super::kind::{RequestKind, RequestUpdateCredits};
use super::publisher::Publisher;
use super::request_id::RequestId;
use super::response::{decoded_response, is_response, response_of};
use super::subscriber::Subscriber;
use super::Session;
use crate::coding::buffer::{buffer_contents, extend_from_slice};
use crate::coding::DecodeError;
use crate::message::wire_id;
use crate::message::{Message, PublishDone, RequestUpdate};
use crate::serve::error::ServeFault;
use crate::serve::ServeError;
use crate::text::{concat2, concat3};

verus! {

/// Which request stream answers go to, by the request that they answer. A
/// stream is named by the request that opened it.
#[derive(Debug)]
pub struct ResponseRoutes {
    streams: HashMap<u64, u64>,
}

impl View for ResponseRoutes {
    type V = Map<u64, u64>;

    closed spec fn view(&self) -> Map<u64, u64> {
        self.streams@
    }
}

/// Where a message goes.
#[derive(Debug)]
pub enum Outbound {
    /// On the control stream.
    Control(Message),
    /// On the request stream that a request opened.
    Stream { stream: u64, msg: Message },
    /// The request that it answers is over.
    Dropped,
}

impl ResponseRoutes {
    pub fn new() -> (routes: Self)
        ensures
            routes@ == Map::<u64, u64>::empty(),
    {
        broadcast use vstd::std_specs::hash::group_hash_axioms;

        ResponseRoutes { streams: HashMap::new() }
    }

    /// The stream that answers of a request go to.
    pub fn get(&self, id: u64) -> (stream: Option<u64>)
        ensures
            stream == (if self@.contains_key(id) {
                Some(self@[id])
            } else {
                None
            }),
    {
        broadcast use vstd::std_specs::hash::group_hash_axioms;

        match self.streams.get(&id) {
            Some(stream) => Some(*stream),
            None => None,
        }
    }

    /// Leads the answers of a request to a stream, and tells whether they went
    /// to one before.
    pub fn insert(&mut self, id: u64, stream: u64) -> (known: bool)
        ensures
            final(self)@ == old(self)@.insert(id, stream),
            known == old(self)@.contains_key(id),
    {
        broadcast use vstd::std_specs::hash::group_hash_axioms;

        self.streams.insert(id, stream).is_some()
    }

    pub fn remove(&mut self, id: u64)
        ensures
            final(self)@ == old(self)@.remove(id),
    {
        broadcast use vstd::std_specs::hash::group_hash_axioms;

        self.streams.remove(&id);
    }

    /// Leads the answers of requests nowhere any more.
    pub fn forget(&mut self, ids: &HashSet<u64>)
        ensures
            final(self)@ == old(self)@.remove_keys(ids@),
    {
        broadcast use vstd::std_specs::hash::group_hash_axioms;

        let ghost led = self@;
        let ghost mut gone: Set<u64> = Set::empty();
        assert(led.remove_keys(gone) =~= led);
        for id in walk: ids.iter()
            invariant
                self@ == led.remove_keys(gone),
                gone == walk.seq().take(walk.index()).unref().to_set(),
                walk.seq().unref().to_set() == ids@,
                walk.index() == walk.seq().len() ==> gone == ids@,
        {
            self.remove(*id);
            proof {
                let earlier = walk.seq().take(walk.index()).unref();
                let later = walk.seq().take(walk.index() + 1).unref();
                assert(later =~= earlier.push(*id));
                assert forall|other: u64| #[trigger] later.to_set().contains(other) == gone.insert(
                    *id,
                ).contains(other) by {
                    if earlier.contains(other) {
                        let k = choose|k: int| 0 <= k < earlier.len() && earlier[k] == other;
                        assert(later[k] == other);
                    }
                    if other == *id {
                        assert(later[earlier.len() as int] == other);
                    }
                }
                assert(later.to_set() =~= gone.insert(*id));
                gone = gone.insert(*id);
                assert(self@ =~= led.remove_keys(gone));
                assert(walk.index() + 1 == walk.seq().len() ==> later =~= walk.seq().unref());
            }
        }
    }

    /// Where a message goes: an answer to the stream of its request, anything
    /// else to the control stream.
    pub open spec fn destination(self, msg: Message) -> Outbound {
        match msg.answers() {
            None => Outbound::Control(msg),
            Some(id) => if self@.contains_key(id) {
                Outbound::Stream { stream: self@[id], msg }
            } else {
                Outbound::Dropped
            },
        }
    }

    pub fn route(&self, msg: Message) -> (outbound: Outbound)
        ensures
            outbound == self.destination(msg),
    {
        match msg.response_target_id() {
            None => Outbound::Control(msg),
            Some(id) => match self.get(id) {
                Some(stream) => Outbound::Stream { stream, msg },
                None => Outbound::Dropped,
            },
        }
    }
}

/// An answer never goes to the control stream, however late it comes.
pub proof fn answers_stay_off_the_control_stream(routes: ResponseRoutes, msg: Message)
    ensures
        msg.answers() is Some ==> !(routes.destination(msg) is Control),
        msg.answers() is None ==> routes.destination(msg) == Outbound::Control(msg),
{
}

/// A change of FORWARD that this endpoint asked the publisher for.
#[derive(Clone, Copy, Debug, PartialEq, Eq, Structural)]
pub struct PendingReverseUpdate {
    pub id: u64,
    pub forward: bool,
}

/// What this endpoint wants of a request stream.
#[derive(Debug)]
pub enum BidiCommand {
    /// An answer is to be sent.
    Send(Message),
    /// The request is to be cancelled with a code.
    Cancel(u32),
    /// The publisher is to be asked for a change.
    RequestUpdate { update: RequestUpdate, forward: bool },
}

/// What happened on a request stream.
#[derive(Debug)]
pub enum BidiEvent {
    /// A follow-up was read; `None` is the end of the requester's side.
    Requester(Option<Message>),
    /// A request ID was checked.
    IdChecked(Result<(), SessionError>),
    /// A message was delivered, or a change applied.
    Delivered(Result<(), SessionError>),
    /// A command came; `None` means that no more can come.
    Command(Option<BidiCommand>),
    /// What was to be written is written.
    Written,
    /// Reading or writing failed.
    Failed(SessionError),
}

/// What to do next for a request stream.
#[derive(Debug)]
pub enum BidiAction {
    /// Wait for a command and, where its side is open, for the requester.
    Wait { read_requester: bool },
    /// Check a request ID of the peer.
    CheckId(u64),
    /// Deliver an update to the role that serves the request.
    DeliverUpdate { update: RequestUpdate, to_subscriber: bool },
    /// Deliver the end of a publication, and wait until it is cleaned up.
    DeliverPublishDone(PublishDone),
    /// Apply FORWARD to the publication.
    ApplyForward { forward: bool },
    WriteUpdate(RequestUpdate),
    WriteResponse(Message),
    Finish(BidiEnd),
}

/// How a request stream ends.
#[derive(Debug)]
pub struct BidiEnd {
    pub result: Result<(), SessionError>,
    /// The code with which both directions are reset.
    pub reset: Option<u32>,
    /// The updates that will not be answered any more, and what each of them
    /// is told.
    pub abandoned: Vec<(u64, SessionError)>,
    /// An update that was in hand: nothing is told of it.
    pub dropped: Option<u64>,
    /// What the publication is failed with.
    pub failure: Option<ServeError>,
}

/// What follows an event.
#[derive(Debug)]
pub struct BidiStep {
    /// An update that is settled, and how.
    pub settled: Option<(u64, Result<(), SessionError>)>,
    pub action: BidiAction,
}

/// Where a request stream stands.
#[derive(Debug)]
pub enum BidiPhase {
    Waiting,
    CheckingId(RequestUpdate),
    DeliveringUpdate,
    DeliveringDone,
    ApplyingForward(PendingReverseUpdate),
    WritingUpdate(PendingReverseUpdate),
    WritingResponse { id: u64, is_update: bool, terminal: bool },
    Finished,
}

impl BidiPhase {
    /// The change that is in hand: it is being asked for, or being applied.
    pub open spec fn in_hand(self) -> Option<u64> {
        match self {
            BidiPhase::ApplyingForward(update) => Some(update.id),
            BidiPhase::WritingUpdate(update) => Some(update.id),
            _ => None,
        }
    }

    fn update_in_hand(&self) -> (id: Option<u64>)
        ensures
            id == self.in_hand(),
    {
        match self {
            BidiPhase::ApplyingForward(update) => Some(update.id),
            BidiPhase::WritingUpdate(update) => Some(update.id),
            _ => None,
        }
    }
}

/// The model of a [`BidiAction`].
pub enum BidiActionView {
    Wait { read_requester: bool },
    CheckId(u64),
    DeliverUpdate { update: RequestUpdate, to_subscriber: bool },
    DeliverPublishDone(PublishDone),
    ApplyForward { forward: bool },
    WriteUpdate(RequestUpdate),
    WriteResponse(Message),
    Finish {
        result: Result<(), SessionFault>,
        reset: Option<u32>,
        abandoned: Seq<(u64, SessionFault)>,
        dropped: Option<u64>,
        failure: Option<ServeFault>,
    },
}

/// The model of a result.
pub open spec fn outcome_view(result: Result<(), SessionError>) -> Result<(), SessionFault> {
    match result {
        Ok(()) => Ok(()),
        Err(error) => Err(error@),
    }
}

impl View for BidiAction {
    type V = BidiActionView;

    open spec fn view(&self) -> BidiActionView {
        match self {
            BidiAction::Wait { read_requester } => BidiActionView::Wait {
                read_requester: *read_requester,
            },
            BidiAction::CheckId(id) => BidiActionView::CheckId(*id),
            BidiAction::DeliverUpdate { update, to_subscriber } => BidiActionView::DeliverUpdate {
                update: *update,
                to_subscriber: *to_subscriber,
            },
            BidiAction::DeliverPublishDone(done) => BidiActionView::DeliverPublishDone(*done),
            BidiAction::ApplyForward { forward } => BidiActionView::ApplyForward {
                forward: *forward,
            },
            BidiAction::WriteUpdate(update) => BidiActionView::WriteUpdate(*update),
            BidiAction::WriteResponse(msg) => BidiActionView::WriteResponse(*msg),
            BidiAction::Finish(end) => BidiActionView::Finish {
                result: outcome_view(end.result),
                reset: end.reset,
                abandoned: end.abandoned@.map_values(
                    |update: (u64, SessionError)| (update.0, update.1@),
                ),
                dropped: end.dropped,
                failure: match end.failure {
                    Some(error) => Some(error@),
                    None => None,
                },
            },
        }
    }
}

/// The model of a [`BidiEvent`].
pub enum BidiEventView {
    Requester(Option<Message>),
    IdChecked(Result<(), SessionFault>),
    Delivered(Result<(), SessionFault>),
    Command(Option<BidiCommand>),
    Written,
    Failed(SessionFault),
}

impl View for BidiEvent {
    type V = BidiEventView;

    open spec fn view(&self) -> BidiEventView {
        match self {
            BidiEvent::Requester(msg) => BidiEventView::Requester(*msg),
            BidiEvent::IdChecked(result) => BidiEventView::IdChecked(outcome_view(*result)),
            BidiEvent::Delivered(result) => BidiEventView::Delivered(outcome_view(*result)),
            BidiEvent::Command(command) => BidiEventView::Command(*command),
            BidiEvent::Written => BidiEventView::Written,
            BidiEvent::Failed(error) => BidiEventView::Failed(error@),
        }
    }
}

/// A request stream of the peer.
#[derive(Debug)]
pub struct BidiRequest {
    kind: RequestKind,
    initial_id: u64,
    requester_open: bool,
    /// The updates that wait for their answer.
    update_ids: HashSet<u64>,
    update_credits: RequestUpdateCredits,
    /// The changes that the publisher was asked for, oldest first.
    reverse_updates: VecDeque<PendingReverseUpdate>,
    /// How many of them may wait at a time; zero is no limit.
    outgoing_limit: u64,
    phase: BidiPhase,
}

/// The model of a [`BidiRequest`].
pub struct BidiView {
    pub kind: RequestKind,
    pub initial_id: u64,
    pub requester_open: bool,
    pub updates: Set<u64>,
    pub credits: RequestUpdateCredits,
    pub reverse: Seq<PendingReverseUpdate>,
    pub outgoing_limit: u64,
    pub phase: BidiPhase,
}

impl BidiView {
    /// A request stream that was just opened.
    pub open spec fn opened(
        kind: RequestKind,
        initial_id: u64,
        incoming_limit: u64,
        outgoing_limit: u64,
    ) -> BidiView {
        BidiView {
            kind,
            initial_id,
            requester_open: true,
            updates: Set::empty(),
            credits: RequestUpdateCredits { limit: incoming_limit, outstanding: 0 },
            reverse: Seq::empty(),
            outgoing_limit,
            phase: BidiPhase::Waiting,
        }
    }
}

impl View for BidiRequest {
    type V = BidiView;

    closed spec fn view(&self) -> BidiView {
        BidiView {
            kind: self.kind,
            initial_id: self.initial_id,
            requester_open: self.requester_open,
            updates: self.update_ids@,
            credits: self.update_credits,
            reverse: self.reverse_updates@,
            outgoing_limit: self.outgoing_limit,
            phase: self.phase,
        }
    }
}

/// What an event leads to.
pub struct BidiStepView {
    pub request: BidiView,
    pub routes: Map<u64, u64>,
    pub settled: Option<(u64, Result<(), SessionFault>)>,
    pub action: BidiActionView,
}

/// Whether an answer ends its request. A subscription and a publication
/// outlive the refusal of an update.
pub open spec fn ends_request(kind: RequestKind, is_update: bool, response: Message) -> bool {
    ||| response is RequestError && !(is_update && (kind == RequestKind::Subscribe || kind
        == RequestKind::Publish))
    ||| response is PublishDone
    ||| kind == RequestKind::TrackStatus && response is RequestOk
}

/// Whether a response is one that a request allows.
pub open spec fn response_allowed(kind: RequestKind, is_update: bool, response: Message) -> Result<
    (),
    SessionFault,
> {
    match response_of(&response) {
        Some(view) => view.allowed(kind, is_update),
        None => Ok(()),
    }
}

impl BidiView {
    pub open spec fn in_phase(self, phase: BidiPhase) -> BidiView {
        BidiView { phase, ..self }
    }

    pub open spec fn wait(
        self,
        routes: Map<u64, u64>,
        settled: Option<(u64, Result<(), SessionFault>)>,
    ) -> BidiStepView {
        BidiStepView {
            request: self.in_phase(BidiPhase::Waiting),
            routes,
            settled,
            action: BidiActionView::Wait { read_requester: self.requester_open },
        }
    }

    /// The stream ends: answers no longer lead to it, and what was asked of
    /// the publisher and not answered is cancelled.
    pub open spec fn finish(
        self,
        routes: Map<u64, u64>,
        settled: Option<(u64, Result<(), SessionFault>)>,
        result: Result<(), SessionFault>,
        reset: Option<u32>,
    ) -> BidiStepView {
        self.finish_dropping(routes, settled, result, reset, None)
    }

    /// The stream ends while a change is in hand.
    pub open spec fn finish_dropping(
        self,
        routes: Map<u64, u64>,
        settled: Option<(u64, Result<(), SessionFault>)>,
        result: Result<(), SessionFault>,
        reset: Option<u32>,
        dropped: Option<u64>,
    ) -> BidiStepView {
        BidiStepView {
            request: BidiView {
                updates: Set::empty(),
                reverse: Seq::empty(),
                phase: BidiPhase::Finished,
                ..self
            },
            routes: routes.remove(self.initial_id).remove_keys(self.updates),
            settled,
            action: BidiActionView::Finish {
                result,
                reset,
                abandoned: self.reverse.map_values(
                    |update: PendingReverseUpdate|
                        (update.id, SessionFault::Serve(ServeFault::Cancel)),
                ),
                dropped,
                failure: match result {
                    Err(fault) if self.kind == RequestKind::Publish => Some(
                        if fault.cancels_request() {
                            ServeFault::Cancel
                        } else {
                            ServeFault::InternalWithId(0, fault.message())
                        },
                    ),
                    _ => None,
                },
            },
        }
    }

    pub open spec fn violation(self, routes: Map<u64, u64>, text: Seq<char>) -> BidiStepView {
        self.finish(routes, None, Err(SessionFault::ProtocolViolation(text)), None)
    }

    /// The change that is in hand: it is being asked for, or being applied.
    pub open spec fn in_hand(self) -> Option<u64> {
        self.phase.in_hand()
    }

    /// Whether the outcome of a change that the publisher was asked for is
    /// still to be told.
    pub open spec fn owes(self, id: u64) -> bool {
        ||| self.in_hand() == Some(id)
        ||| exists|i: int| 0 <= i < self.reverse.len() && (#[trigger] self.reverse[i]).id == id
    }

    /// The stream without the oldest change that the publisher was asked for.
    pub open spec fn popped(self) -> BidiView {
        BidiView { reverse: self.reverse.drop_first(), ..self }
    }

    /// A follow-up of the requester.
    pub open spec fn followed(self, msg: Option<Message>, routes: Map<u64, u64>) -> BidiStepView {
        let publishes = self.kind == RequestKind::Publish;
        match msg {
            None => if publishes {
                self.violation(
                    routes,
                    "PUBLISH requester sent FIN while its request remained established"@,
                )
            } else {
                BidiView { requester_open: false, ..self }.wait(routes, None)
            },
            Some(Message::RequestUpdate(update)) => if !self.kind.updatable() {
                self.violation(
                    routes,
                    "unexpected REQUEST_UPDATE on "@ + self.kind.spec_name() + " request stream"@,
                )
            } else {
                BidiStepView {
                    request: self.in_phase(BidiPhase::CheckingId(update)),
                    routes,
                    settled: None,
                    action: BidiActionView::CheckId(update.id),
                }
            },
            Some(Message::PublishDone(done)) if publishes => BidiStepView {
                request: self.in_phase(BidiPhase::DeliveringDone),
                routes,
                settled: None,
                action: BidiActionView::DeliverPublishDone(done),
            },
            Some(Message::RequestOk(ok)) if publishes => if self.reverse.len() == 0 {
                self.violation(
                    routes,
                    "PUBLISH requester sent REQUEST_OK without a pending reverse update"@,
                )
            } else {
                match response_allowed(self.kind, true, Message::RequestOk(ok)) {
                    Err(fault) => self.popped().finish_dropping(
                        routes,
                        None,
                        Err(fault),
                        None,
                        Some(self.reverse[0].id),
                    ),
                    Ok(()) => BidiStepView {
                        request: self.popped().in_phase(
                            BidiPhase::ApplyingForward(self.reverse[0]),
                        ),
                        routes,
                        settled: None,
                        action: BidiActionView::ApplyForward { forward: self.reverse[0].forward },
                    },
                }
            },
            Some(Message::RequestError(error)) if publishes => if self.reverse.len() == 0 {
                self.violation(
                    routes,
                    "PUBLISH requester sent REQUEST_ERROR without a pending reverse update"@,
                )
            } else {
                self.popped().wait(
                    routes,
                    Some(
                        (
                            self.reverse[0].id,
                            Err(SessionFault::Serve(ServeFault::Closed(error.error_code))),
                        ),
                    ),
                )
            },
            Some(other) => self.violation(
                routes,
                "unexpected "@ + other.spec_name() + " after first request-stream message"@,
            ),
        }
    }

    /// The request ID of an update was checked.
    pub open spec fn checked(
        self,
        update: RequestUpdate,
        result: Result<(), SessionFault>,
        routes: Map<u64, u64>,
    ) -> BidiStepView {
        match result {
            Err(fault) => self.finish(routes, None, Err(fault), None),
            Ok(()) => if !self.credits.available() {
                self.finish(routes, None, Err(SessionFault::TooManyRequestUpdates), None)
            } else {
                let counted = BidiView {
                    credits: RequestUpdateCredits {
                        outstanding: (self.credits.outstanding + 1) as u64,
                        ..self.credits
                    },
                    ..self
                };
                let led = routes.insert(update.id, self.initial_id);
                if routes.contains_key(update.id) || self.updates.contains(update.id) {
                    counted.finish(led, None, Err(SessionFault::InvalidRequestId), None)
                } else {
                    BidiStepView {
                        request: BidiView {
                            updates: self.updates.insert(update.id),
                            phase: BidiPhase::DeliveringUpdate,
                            ..counted
                        },
                        routes: led,
                        settled: None,
                        action: BidiActionView::DeliverUpdate {
                            update,
                            to_subscriber: self.kind.from_publisher(),
                        },
                    }
                }
            },
        }
    }

    /// A command of this endpoint.
    pub open spec fn commanded(
        self,
        command: Option<BidiCommand>,
        routes: Map<u64, u64>,
    ) -> BidiStepView {
        match command {
            None => self.finish(routes, None, Err(SessionFault::Internal), None),
            Some(BidiCommand::Cancel(code)) => self.finish(routes, None, Ok(()), Some(code)),
            Some(BidiCommand::RequestUpdate { update, forward }) => {
                if self.kind != RequestKind::Publish {
                    self.wait(
                        routes,
                        Some(
                            (
                                update.id,
                                Err(
                                    SessionFault::ProtocolViolation(
                                        "reverse REQUEST_UPDATE is only valid for PUBLISH"@,
                                    ),
                                ),
                            ),
                        ),
                    )
                } else if self.outgoing_limit != 0 && self.reverse.len() >= self.outgoing_limit {
                    self.wait(
                        routes,
                        Some((update.id, Err(SessionFault::TooManyRequestUpdates))),
                    )
                } else {
                    BidiStepView {
                        request: self.in_phase(
                            BidiPhase::WritingUpdate(
                                PendingReverseUpdate { id: update.id, forward },
                            ),
                        ),
                        routes,
                        settled: None,
                        action: BidiActionView::WriteUpdate(update),
                    }
                }
            },
            Some(BidiCommand::Send(response)) => match response.answers() {
                None => self.violation(
                    routes,
                    response.spec_name() + " is not valid on a request response stream"@,
                ),
                Some(id) => {
                    let is_update = self.updates.contains(id);
                    let answered = BidiView { updates: self.updates.remove(id), ..self };
                    match response_allowed(self.kind, is_update, response) {
                        Err(fault) => answered.finish(routes, None, Err(fault), None),
                        Ok(()) => BidiStepView {
                            request: answered.in_phase(
                                BidiPhase::WritingResponse {
                                    id,
                                    is_update,
                                    terminal: ends_request(self.kind, is_update, response),
                                },
                            ),
                            routes,
                            settled: None,
                            action: BidiActionView::WriteResponse(response),
                        },
                    }
                },
            },
        }
    }

    /// An answer was written.
    pub open spec fn answered(
        self,
        id: u64,
        is_update: bool,
        terminal: bool,
        routes: Map<u64, u64>,
    ) -> BidiStepView {
        let (after, left) = if is_update {
            (
                BidiView {
                    credits: RequestUpdateCredits {
                        outstanding: if self.credits.outstanding == 0 {
                            0
                        } else {
                            (self.credits.outstanding - 1) as u64
                        },
                        ..self.credits
                    },
                    ..self
                },
                routes.remove(id),
            )
        } else {
            (self, routes)
        };
        if terminal {
            after.finish(left, None, Ok(()), None)
        } else {
            after.wait(left, None)
        }
    }

    /// What an event leads to. One that cannot come in the phase is an
    /// internal error.
    pub open spec fn step(self, event: BidiEventView, routes: Map<u64, u64>) -> BidiStepView {
        match (self.phase, event) {
            (BidiPhase::Waiting, BidiEventView::Requester(msg)) => self.followed(msg, routes),
            (BidiPhase::Waiting, BidiEventView::Command(command)) => self.commanded(
                command,
                routes,
            ),
            (BidiPhase::CheckingId(update), BidiEventView::IdChecked(result)) => self.checked(
                update,
                result,
                routes,
            ),
            (BidiPhase::DeliveringUpdate, BidiEventView::Delivered(result)) => match result {
                Ok(()) => self.wait(routes, None),
                Err(fault) => self.finish(routes, None, Err(fault), None),
            },
            (BidiPhase::DeliveringDone, BidiEventView::Delivered(result)) => self.finish(
                routes,
                None,
                result,
                None,
            ),
            (BidiPhase::ApplyingForward(update), BidiEventView::Delivered(result)) => match result {
                Ok(()) => self.wait(routes, Some((update.id, result))),
                Err(_) => self.finish(routes, Some((update.id, result)), result, None),
            },
            (BidiPhase::WritingUpdate(update), BidiEventView::Written) => BidiView {
                reverse: self.reverse.push(update),
                ..self
            }.wait(routes, None),
            (
                BidiPhase::WritingResponse { id, is_update, terminal },
                BidiEventView::Written,
            ) => self.answered(id, is_update, terminal, routes),
            (_, BidiEventView::Failed(fault)) => self.finish_dropping(
                routes,
                None,
                Err(fault),
                None,
                self.in_hand(),
            ),
            _ => self.finish_dropping(
                routes,
                None,
                Err(SessionFault::Internal),
                None,
                self.in_hand(),
            ),
        }
    }
}

impl BidiView {
    /// What holds of a stream until it ends: every update that waits is
    /// counted, and neither side has more of them waiting than the other
    /// allows.
    pub open spec fn within_limits(self) -> bool {
        let answering: nat = match self.phase {
            BidiPhase::WritingResponse { is_update: true, .. } => 1,
            _ => 0,
        };
        let asking: nat = match self.phase {
            BidiPhase::WritingUpdate(_) => 1,
            _ => 0,
        };
        &&& self.updates.finite()
        &&& self.credits.outstanding == self.updates.len() + answering
        &&& self.credits.limit != 0 ==> self.credits.outstanding <= self.credits.limit
        &&& self.outgoing_limit != 0 ==> self.reverse.len() + asking <= self.outgoing_limit
    }
}

/// Whatever happens on a stream, it keeps its limits until it ends.
pub proof fn stream_keeps_its_limits(
    request: BidiView,
    event: BidiEventView,
    routes: Map<u64, u64>,
)
    requires
        request.within_limits(),
    ensures
        ({
            let after = request.step(event, routes).request;
            after.phase is Finished || after.within_limits()
        }),
{
}

/// A stream that ended is not led to any more, and nothing waits on it.
pub proof fn ended_stream_is_forgotten(
    request: BidiView,
    event: BidiEventView,
    routes: Map<u64, u64>,
)
    ensures
        ({
            let step = request.step(event, routes);
            step.action is Finish ==> {
                &&& !step.routes.contains_key(request.initial_id)
                &&& step.request.phase is Finished
                &&& step.request.updates.is_empty()
                &&& step.request.reverse.len() == 0
            }
        }),
{
}

/// Whether an event is the wish to ask the publisher for a change.
pub open spec fn asks_for_change(event: BidiEventView, id: u64) -> bool {
    event matches BidiEventView::Command(Some(BidiCommand::RequestUpdate { update, .. }))
        && update.id == id
}

/// No change that the publisher was asked for is forgotten: until its outcome
/// is told, it waits; a stream that ends cancels all that wait, and lets go of
/// the one in hand.
pub proof fn every_change_is_settled(
    request: BidiView,
    event: BidiEventView,
    routes: Map<u64, u64>,
    id: u64,
)
    requires
        request.owes(id) || (request.phase is Waiting && asks_for_change(event, id)),
    ensures
        ({
            let step = request.step(event, routes);
            ||| step.request.owes(id)
            ||| step.settled matches Some((settled, _)) && settled == id
            ||| step.action matches BidiActionView::Finish { abandoned, .. } && abandoned.contains(
                (id, SessionFault::Serve(ServeFault::Cancel)),
            )
            ||| step.action matches BidiActionView::Finish { dropped, .. } && dropped == Some(id)
        }),
{
    let step = request.step(event, routes);
    let before = request.reverse;
    let after = step.request.reverse;
    if request.owes(id) && request.in_hand() != Some(id) {
        let i = choose|i: int| 0 <= i < before.len() && (#[trigger] before[i]).id == id;
        if let BidiActionView::Finish { abandoned, .. } = step.action {
            let cancelled = (id, SessionFault::Serve(ServeFault::Cancel));
            if i < abandoned.len() && abandoned[i] == cancelled {
            } else if i > 0 {
                assert(abandoned[i - 1] == cancelled);
            }
        } else if i < after.len() && after[i].id == id {
        } else if i > 0 {
            assert(after[i - 1].id == id);
        }
    } else if request.in_hand() == Some(id) {
        if request.phase is WritingUpdate && event is Written {
            assert(after.last().id == id);
        }
    }
}

/// Whether an event answers the oldest change that the publisher was asked for.
pub open spec fn answers_change(request: BidiView, event: BidiEventView) -> bool {
    &&& request.phase is Waiting
    &&& event matches BidiEventView::Requester(Some(Message::RequestOk(_)))
}

/// However a stream ends, its request is led to no more, and every change that
/// the publisher was asked for and did not answer is cancelled.
pub proof fn unanswered_changes_are_cancelled(
    request: BidiView,
    event: BidiEventView,
    routes: Map<u64, u64>,
    i: int,
)
    requires
        0 <= i < request.reverse.len(),
        answers_change(request, event) ==> i > 0,
        request.step(event, routes).action is Finish,
    ensures
        !request.step(event, routes).routes.contains_key(request.initial_id),
        request.step(event, routes).action matches BidiActionView::Finish { abandoned, .. }
            && abandoned.contains(
            (request.reverse[i].id, SessionFault::Serve(ServeFault::Cancel)),
        ),
{
    let cancelled = (request.reverse[i].id, SessionFault::Serve(ServeFault::Cancel));
    if let BidiActionView::Finish { abandoned, .. } = request.step(event, routes).action {
        if i < abandoned.len() && abandoned[i] == cancelled {
        } else {
            assert(abandoned[i - 1] == cancelled);
        }
    }
}

/// An update is delivered only once its answers lead back to the stream.
pub proof fn delivered_update_is_routed(
    request: BidiView,
    event: BidiEventView,
    routes: Map<u64, u64>,
)
    ensures
        ({
            let step = request.step(event, routes);
            step.action matches BidiActionView::DeliverUpdate { update, .. } ==> {
                &&& !routes.contains_key(update.id)
                &&& step.routes.contains_key(update.id)
                &&& step.routes[update.id] == request.initial_id
                &&& step.request.updates.contains(update.id)
            }
        }),
{
}

/// What happens on one stream leaves the answers of other streams alone.
pub proof fn other_streams_are_untouched(
    request: BidiView,
    event: BidiEventView,
    routes: Map<u64, u64>,
    id: u64,
)
    requires
        id != request.initial_id,
        !request.updates.contains(id),
        request.phase matches BidiPhase::CheckingId(update) ==> update.id != id,
        request.phase matches BidiPhase::WritingResponse { id: answered, .. } ==> answered != id,
    ensures
        ({
            let after = request.step(event, routes).routes;
            &&& after.contains_key(id) == routes.contains_key(id)
            &&& routes.contains_key(id) ==> after[id] == routes[id]
        }),
{
}

/// Refusing an update of a subscription or a publication does not end it.
pub proof fn refused_update_keeps_the_request(kind: RequestKind, response: Message)
    requires
        kind == RequestKind::Subscribe || kind == RequestKind::Publish,
        response is RequestError,
    ensures
        !ends_request(kind, true, response),
        ends_request(kind, false, response),
{
}

/// The model of what a step came to.
pub open spec fn step_view(step: BidiStep, request: BidiView, routes: Map<u64, u64>) -> BidiStepView {
    BidiStepView {
        request,
        routes,
        settled: match step.settled {
            Some((id, result)) => Some((id, outcome_view(result))),
            None => None,
        },
        action: step.action@,
    }
}

impl BidiRequest {
    /// What a request stream is opened for, and the request ID that its first
    /// message consumes.
    pub fn identify(msg: &Message) -> (result: Result<(RequestKind, u64), SessionError>)
        ensures
            match result {
                Ok((kind, id)) => RequestKind::opened_by(msg) == Some(kind) && msg.consumes()
                    == Some(id),
                Err(error) => {
                    &&& RequestKind::opened_by(msg) is None
                    &&& error@ == SessionFault::ProtocolViolation(
                        msg.spec_name() + " cannot open a request stream"@,
                    )
                },
            },
    {
        let kind = RequestKind::from_first_message(msg)?;
        match msg.sequenced_request_id() {
            Some(id) => Ok((kind, id)),
            None => Err(
                SessionError::violation("first request-stream message did not consume a Request ID"),
            ),
        }
    }

    /// Starts a request stream whose request ID was found in order: its
    /// answers lead to it.
    pub fn open(
        kind: RequestKind,
        initial_id: u64,
        incoming_limit: u64,
        outgoing_limit: u64,
        routes: &mut ResponseRoutes,
    ) -> (request: Self)
        ensures
            final(routes)@ == old(routes)@.insert(initial_id, initial_id),
            request@ == BidiView::opened(kind, initial_id, incoming_limit, outgoing_limit),
    {
        routes.insert(initial_id, initial_id);
        BidiRequest {
            kind,
            initial_id,
            requester_open: true,
            update_ids: HashSet::new(),
            update_credits: RequestUpdateCredits::new(incoming_limit),
            reverse_updates: VecDeque::new(),
            outgoing_limit,
            phase: BidiPhase::Waiting,
        }
    }

    /// Starts the request stream that a message opens: its request ID is
    /// checked, its answers lead to the stream, and it is handed to the role
    /// that it is for. Where that fails, no answers lead to the stream.
    pub fn begin(
        msg: Message,
        ids: &mut RequestId,
        publisher: &mut Option<Publisher>,
        subscriber: &mut Option<Subscriber>,
        limits: (u64, u64),
        routes: &mut ResponseRoutes,
    ) -> (result: Result<(Self, Dispatched), SessionError>)
        ensures
            match RequestKind::opened_by(&msg) {
                None => {
                    &&& result matches Err(error) && error@ == SessionFault::ProtocolViolation(
                        msg.spec_name() + " cannot open a request stream"@,
                    )
                    &&& *final(ids) == *old(ids)
                    &&& *final(publisher) == *old(publisher)
                    &&& *final(subscriber) == *old(subscriber)
                    &&& final(routes)@ == old(routes)@
                },
                Some(kind) => {
                    let id = msg.consumes()->0;
                    &&& RequestId::consumed(*old(ids), *final(ids), Some(id))
                    &&& if !old(ids).admits(id) {
                        &&& result matches Err(error) && error@ == SessionFault::InvalidRequestId
                        &&& *final(publisher) == *old(publisher)
                        &&& *final(subscriber) == *old(subscriber)
                        &&& final(routes)@ == old(routes)@
                    } else {
                        &&& Session::dispatched(
                            msg,
                            (*old(publisher), *final(publisher)),
                            (*old(subscriber), *final(subscriber)),
                            match result {
                                Ok((_, dispatched)) => Ok(dispatched),
                                Err(error) => Err(error),
                            },
                        )
                        &&& match result {
                            Ok((request, _)) => {
                                &&& request@ == BidiView::opened(kind, id, limits.0, limits.1)
                                &&& final(routes)@ == old(routes)@.insert(id, id)
                            },
                            Err(_) => final(routes)@ == old(routes)@.remove(id),
                        }
                    }
                },
            },
    {
        let (kind, id) = BidiRequest::identify(&msg)?;
        ids.validate_incoming(id)?;
        let request = BidiRequest::open(kind, id, limits.0, limits.1, routes);
        match Session::dispatch(msg, publisher, subscriber) {
            Ok(dispatched) => Ok((request, dispatched)),
            Err(error) => {
                routes.remove(id);
                assert(routes@ =~= old(routes)@.remove(id));
                Err(error)
            },
        }
    }

    /// Reads a follow-up on the stream of a publication, where answers carry
    /// no request ID.
    pub fn decode_followup(&self, msg_type: u64, payload: BytesMut) -> (result: Result<
        Message,
        SessionError,
    >)
        ensures
            if (msg_type == wire_id::RequestOk || msg_type == wire_id::RequestError)
                && self@.reverse.len() == 0 {
                result matches Err(error) && error@ == SessionFault::ProtocolViolation(
                    "PUBLISH response arrived without a pending reverse update"@,
                )
            } else {
                let id = if msg_type == wire_id::RequestOk || msg_type == wire_id::RequestError {
                    self@.reverse[0].id
                } else {
                    self@.initial_id
                };
                match decoded_response(msg_type, buffer_contents(payload), self@.kind) {
                    Ok(response) => result is Ok && is_response(result->Ok_0, response, id),
                    Err(fault) => result matches Err(error) && error@ == fault,
                }
            },
    {
        let pending = if self.reverse_updates.len() > 0 {
            Some(self.reverse_updates[0].id)
        } else {
            None
        };
        let id: u64 = Session::publish_followup_request_id(msg_type, self.initial_id, pending)?;
        Session::decode_bidi_response_payload(msg_type, payload, id, self.kind)
    }

    fn wait(&mut self, settled: Option<(u64, Result<(), SessionError>)>) -> (step: BidiStep)
        ensures
            final(self)@ == old(self)@.in_phase(BidiPhase::Waiting),
            step.settled == settled,
            step.action == (BidiAction::Wait { read_requester: old(self)@.requester_open }),
    {
        self.phase = BidiPhase::Waiting;
        BidiStep { settled, action: BidiAction::Wait { read_requester: self.requester_open } }
    }

    fn finish(
        &mut self,
        routes: &mut ResponseRoutes,
        settled: Option<(u64, Result<(), SessionError>)>,
        result: Result<(), SessionError>,
        reset: Option<u32>,
    ) -> (step: BidiStep)
        ensures
            step_view(step, final(self)@, final(routes)@) == old(self)@.finish(
                old(routes)@,
                match settled {
                    Some((id, outcome)) => Some((id, outcome_view(outcome))),
                    None => None,
                },
                outcome_view(result),
                reset,
            ),
    {
        self.finish_dropping(routes, settled, result, reset, None)
    }

    fn finish_dropping(
        &mut self,
        routes: &mut ResponseRoutes,
        settled: Option<(u64, Result<(), SessionError>)>,
        result: Result<(), SessionError>,
        reset: Option<u32>,
        dropped: Option<u64>,
    ) -> (step: BidiStep)
        ensures
            step_view(step, final(self)@, final(routes)@) == old(self)@.finish_dropping(
                old(routes)@,
                match settled {
                    Some((id, outcome)) => Some((id, outcome_view(outcome))),
                    None => None,
                },
                outcome_view(result),
                reset,
                dropped,
            ),
    {
        let ghost before = self@;
        routes.remove(self.initial_id);
        routes.forget(&self.update_ids);

        let mut abandoned: Vec<(u64, SessionError)> = Vec::new();
        let ghost cancelled = |update: PendingReverseUpdate|
            (update.id, SessionFault::Serve(ServeFault::Cancel));
        let ghost told = |update: (u64, SessionError)| (update.0, update.1@);
        let mut j: usize = 0;
        while j < self.reverse_updates.len()
            invariant
                j <= self.reverse_updates@.len(),
                self.reverse_updates@ == before.reverse,
                told == (|update: (u64, SessionError)| (update.0, update.1@)),
                cancelled == (|update: PendingReverseUpdate|
                    (update.id, SessionFault::Serve(ServeFault::Cancel))),
                abandoned@.map_values(told) == before.reverse.take(j as int).map_values(cancelled),
            decreases self.reverse_updates@.len() - j,
        {
            let ghost earlier = abandoned@;
            abandoned.push((self.reverse_updates[j].id, SessionError::Serve(ServeError::Cancel)));
            proof {
                assert(abandoned@.map_values(told) =~= earlier.map_values(told).push(
                    told(abandoned@.last()),
                ));
                assert(before.reverse.take(j + 1).map_values(cancelled) =~= before.reverse.take(
                    j as int,
                ).map_values(cancelled).push(cancelled(before.reverse[j as int])));
            }
            j = j + 1;
        }
        assert(before.reverse.take(j as int) =~= before.reverse);

        let failure = match &result {
            Err(error) => if self.kind == RequestKind::Publish {
                if error.is_request_stream_cancelled() {
                    Some(ServeError::Cancel)
                } else {
                    let text = error.message();
                    Some(ServeError::internal_ctx(&text))
                }
            } else {
                None
            },
            Ok(()) => None,
        };
        self.update_ids.clear();
        self.reverse_updates.clear();
        self.phase = BidiPhase::Finished;
        BidiStep {
            settled,
            action: BidiAction::Finish(BidiEnd { result, reset, abandoned, dropped, failure }),
        }
    }

    fn follow(&mut self, msg: Option<Message>, routes: &mut ResponseRoutes) -> (step: BidiStep)
        ensures
            step_view(step, final(self)@, final(routes)@) == old(self)@.followed(
                msg,
                old(routes)@,
            ),
    {
        let publishes = self.kind == RequestKind::Publish;
        match msg {
            None => {
                if publishes {
                    let error = SessionError::violation(
                        "PUBLISH requester sent FIN while its request remained established",
                    );
                    return self.finish(routes, None, Err(error), None);
                }
                self.requester_open = false;
                self.wait(None)
            },
            Some(Message::RequestUpdate(update)) => {
                if !self.kind.accepts_request_updates() {
                    let text = concat3(
                        "unexpected REQUEST_UPDATE on ",
                        self.kind.name(),
                        " request stream",
                    );
                    return self.finish(
                        routes,
                        None,
                        Err(SessionError::ProtocolViolation(text)),
                        None,
                    );
                }
                let id: u64 = update.id;
                self.phase = BidiPhase::CheckingId(update);
                BidiStep { settled: None, action: BidiAction::CheckId(id) }
            },
            Some(Message::PublishDone(done)) if publishes => {
                self.phase = BidiPhase::DeliveringDone;
                BidiStep { settled: None, action: BidiAction::DeliverPublishDone(done) }
            },
            Some(Message::RequestOk(ok)) if publishes => {
                let ghost before = self.reverse_updates@;
                let update = match self.reverse_updates.pop_front() {
                    Some(update) => update,
                    None => {
                        let error = SessionError::violation(
                            "PUBLISH requester sent REQUEST_OK without a pending reverse update",
                        );
                        return self.finish(routes, None, Err(error), None);
                    },
                };
                assert(self.reverse_updates@ =~= before.drop_first());
                match Session::validate_response_for_request(
                    self.kind,
                    true,
                    &Message::RequestOk(ok),
                ) {
                    Ok(()) => {
                        self.phase = BidiPhase::ApplyingForward(update);
                        BidiStep {
                            settled: None,
                            action: BidiAction::ApplyForward { forward: update.forward },
                        }
                    },
                    Err(error) => self.finish_dropping(
                        routes,
                        None,
                        Err(error),
                        None,
                        Some(update.id),
                    ),
                }
            },
            Some(Message::RequestError(error)) if publishes => {
                let ghost before = self.reverse_updates@;
                let update = match self.reverse_updates.pop_front() {
                    Some(update) => update,
                    None => {
                        let error = SessionError::violation(
                            "PUBLISH requester sent REQUEST_ERROR without a pending reverse update",
                        );
                        return self.finish(routes, None, Err(error), None);
                    },
                };
                assert(self.reverse_updates@ =~= before.drop_first());
                let refused = SessionError::Serve(ServeError::Closed(error.error_code));
                self.wait(Some((update.id, Err(refused))))
            },
            Some(other) => {
                let text = concat3(
                    "unexpected ",
                    other.name(),
                    " after first request-stream message",
                );
                self.finish(routes, None, Err(SessionError::ProtocolViolation(text)), None)
            },
        }
    }

    fn check(
        &mut self,
        update: RequestUpdate,
        result: Result<(), SessionError>,
        routes: &mut ResponseRoutes,
    ) -> (step: BidiStep)
        ensures
            step_view(step, final(self)@, final(routes)@) == old(self)@.checked(
                update,
                outcome_view(result),
                old(routes)@,
            ),
    {
        match result {
            Ok(()) => {},
            Err(error) => {
                return self.finish(routes, None, Err(error), None);
            },
        }
        match self.update_credits.receive() {
            Ok(()) => {},
            Err(error) => {
                return self.finish(routes, None, Err(error), None);
            },
        }
        let known = routes.insert(update.id, self.initial_id);
        if known || !self.update_ids.insert(update.id) {
            assert(self@.updates =~= old(self)@.updates);
            return self.finish(routes, None, Err(SessionError::InvalidRequestId), None);
        }
        self.phase = BidiPhase::DeliveringUpdate;
        let to_subscriber = self.kind.is_publisher_message();
        BidiStep { settled: None, action: BidiAction::DeliverUpdate { update, to_subscriber } }
    }

    fn obey(&mut self, command: Option<BidiCommand>, routes: &mut ResponseRoutes) -> (step:
        BidiStep)
        ensures
            step_view(step, final(self)@, final(routes)@) == old(self)@.commanded(
                command,
                old(routes)@,
            ),
    {
        match command {
            None => self.finish(routes, None, Err(SessionError::Internal), None),
            Some(BidiCommand::Cancel(code)) => self.finish(routes, None, Ok(()), Some(code)),
            Some(BidiCommand::RequestUpdate { update, forward }) => {
                if self.kind != RequestKind::Publish {
                    let error = SessionError::violation(
                        "reverse REQUEST_UPDATE is only valid for PUBLISH",
                    );
                    return self.wait(Some((update.id, Err(error))));
                }
                if self.outgoing_limit != 0 && self.reverse_updates.len() as u64
                    >= self.outgoing_limit {
                    return self.wait(
                        Some((update.id, Err(SessionError::TooManyRequestUpdates))),
                    );
                }
                self.phase = BidiPhase::WritingUpdate(
                    PendingReverseUpdate { id: update.id, forward },
                );
                BidiStep { settled: None, action: BidiAction::WriteUpdate(update) }
            },
            Some(BidiCommand::Send(response)) => {
                let id: u64 = match response.response_target_id() {
                    Some(id) => id,
                    None => {
                        let text = concat2(
                            response.name(),
                            " is not valid on a request response stream",
                        );
                        return self.finish(
                            routes,
                            None,
                            Err(SessionError::ProtocolViolation(text)),
                            None,
                        );
                    },
                };
                let is_update = self.update_ids.remove(&id);
                match Session::validate_response_for_request(self.kind, is_update, &response) {
                    Ok(()) => {},
                    Err(error) => {
                        return self.finish(routes, None, Err(error), None);
                    },
                }
                let terminal = match &response {
                    Message::RequestError(_) => !(is_update && (self.kind == RequestKind::Subscribe
                        || self.kind == RequestKind::Publish)),
                    Message::PublishDone(_) => true,
                    Message::RequestOk(_) => self.kind == RequestKind::TrackStatus,
                    _ => false,
                };
                self.phase = BidiPhase::WritingResponse { id, is_update, terminal };
                BidiStep { settled: None, action: BidiAction::WriteResponse(response) }
            },
        }
    }

    /// Takes what happened, and says what to do next.
    pub fn step(&mut self, event: BidiEvent, routes: &mut ResponseRoutes) -> (step: BidiStep)
        ensures
            step_view(step, final(self)@, final(routes)@) == old(self)@.step(
                event@,
                old(routes)@,
            ),
    {
        let mut phase = BidiPhase::Finished;
        std::mem::swap(&mut phase, &mut self.phase);
        match (phase, event) {
            (BidiPhase::Waiting, BidiEvent::Requester(msg)) => self.follow(msg, routes),
            (BidiPhase::Waiting, BidiEvent::Command(command)) => self.obey(command, routes),
            (BidiPhase::CheckingId(update), BidiEvent::IdChecked(result)) => self.check(
                update,
                result,
                routes,
            ),
            (BidiPhase::DeliveringUpdate, BidiEvent::Delivered(result)) => match result {
                Ok(()) => self.wait(None),
                Err(error) => self.finish(routes, None, Err(error), None),
            },
            (BidiPhase::DeliveringDone, BidiEvent::Delivered(result)) => self.finish(
                routes,
                None,
                result,
                None,
            ),
            (BidiPhase::ApplyingForward(update), BidiEvent::Delivered(result)) => match result {
                Ok(()) => self.wait(Some((update.id, Ok(())))),
                Err(error) => {
                    let told = error.clone();
                    self.finish(routes, Some((update.id, Err(told))), Err(error), None)
                },
            },
            (BidiPhase::WritingUpdate(update), BidiEvent::Written) => {
                self.reverse_updates.push_back(update);
                self.wait(None)
            },
            (BidiPhase::WritingResponse { id, is_update, terminal }, BidiEvent::Written) => {
                if is_update {
                    routes.remove(id);
                    self.update_credits.respond();
                }
                if terminal {
                    self.finish(routes, None, Ok(()), None)
                } else {
                    self.wait(None)
                }
            },
            (phase, BidiEvent::Failed(error)) => self.finish_dropping(
                routes,
                None,
                Err(error),
                None,
                phase.update_in_hand(),
            ),
            (phase, _) => self.finish_dropping(
                routes,
                None,
                Err(SessionError::Internal),
                None,
                phase.update_in_hand(),
            ),
        }
    }
}

/// A frame of a request stream that is being read: its type and length came,
/// its body comes in pieces.
#[derive(Debug)]
pub struct BidiFrame {
    msg_type: u64,
    length: usize,
    payload: BytesMut,
}

impl BidiFrame {
    pub closed spec fn spec_type(self) -> u64 {
        self.msg_type
    }

    /// How long the body is.
    pub closed spec fn total(self) -> nat {
        self.length as nat
    }

    /// What of the body has come.
    pub closed spec fn body(self) -> Seq<u8> {
        buffer_contents(self.payload)
    }

    /// No more of the body came than there is.
    #[verifier::type_invariant]
    closed spec fn measured(self) -> bool {
        buffer_contents(self.payload).len() <= self.length <= u16::MAX
    }

    pub fn new(msg_type: u64, length: u16) -> (frame: Self)
        ensures
            frame.spec_type() == msg_type,
            frame.total() == length,
            frame.body() == Seq::<u8>::empty(),
    {
        let payload = BytesMut::new();
        assert(buffer_contents(payload) =~= Seq::<u8>::empty());
        BidiFrame { msg_type, length: length as usize, payload }
    }

    /// How much of the body is still to come.
    pub fn wanted(&self) -> (length: usize)
        ensures
            length == self.total() - self.body().len(),
    {
        proof {
            use_type_invariant(&*self);
        }
        self.length - self.payload.len()
    }

    /// Takes a piece of the body.
    pub fn extend(&mut self, chunk: &[u8])
        requires
            old(self).body().len() + chunk@.len() <= old(self).total(),
        ensures
            final(self).spec_type() == old(self).spec_type(),
            final(self).total() == old(self).total(),
            final(self).body() == old(self).body() + chunk@,
    {
        proof {
            use_type_invariant(&*self);
        }
        let mut payload = BytesMut::new();
        std::mem::swap(&mut payload, &mut self.payload);
        extend_from_slice(&mut payload, chunk);
        self.payload = payload;
    }

    /// The stream ended in the middle of the body.
    pub fn cut_short(&self) -> (error: SessionError)
        ensures
            error@ == SessionFault::Decode(
                DecodeError::More((self.total() - self.body().len()) as usize),
            ),
    {
        SessionError::Decode(DecodeError::More(self.wanted()))
    }

    /// The frame, once its body came.
    pub fn into_parts(self) -> (parts: (u64, BytesMut))
        ensures
            parts.0 == self.spec_type(),
            buffer_contents(parts.1) == self.body(),
    {
        (self.msg_type, self.payload)
    }
}

} // verus!
