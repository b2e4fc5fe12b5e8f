//! Request streams: what comes on them reaches whom it is for, and every
//! request gets its own answers.

use bytes::BytesMut;
use vstd::prelude::*;

use crate::coding::buffer::buffer_contents;
use crate::message::{self, Message};
use crate::message::{PublishDone, RequestUpdate};
use crate::message::messages::Routed;
use crate::serve::error::ServeFault;
use crate::session::bidi::{
    BidiAction, BidiCommand, BidiEvent, BidiPhase, BidiRequest, BidiStep, Outbound,
    ResponseRoutes,
};
use crate::session::control::{ControlEvent, ControlReceiver, Dispatched};
use crate::session::error::{SessionError, SessionFault};
use crate::session::kind::{RequestKind, RequestUpdateCredits};
use crate::session::publisher::Publisher;
use crate::session::request_id::RequestId;
use crate::session::response::{response_of, response_round_trip};
use crate::session::subscriber::Subscriber;
use crate::session::Session;

verus! {

/// An update of a request goes to the one that serves the request, as it came:
/// its ID is checked first. Only the state of a track cannot be updated.
pub proof fn updates_are_taken(
    request: &mut BidiRequest,
    update: RequestUpdate,
    routes: &mut ResponseRoutes,
    step: BidiStep,
)
    requires
        call_ensures(
            BidiRequest::step,
            (request, BidiEvent::Requester(Some(Message::RequestUpdate(update))), routes),
            step,
        ),
        old(request)@.phase is Waiting,
    ensures
        step.settled is None,
        old(request)@.kind != RequestKind::TrackStatus ==> {
            &&& step.action == BidiAction::CheckId(update.id)
            &&& final(request)@.phase == BidiPhase::CheckingId(update)
            &&& final(routes)@ == old(routes)@
        },
        old(request)@.kind == RequestKind::TrackStatus ==> {
            &&& step.action is Finish
            &&& step.action->Finish_0.result is Err
            &&& step.action->Finish_0.result->Err_0@ is ProtocolViolation
        },
{
}

/// An update whose ID is in order and not in use, while no more wait than are
/// allowed, is delivered, to the subscriber where a publisher sent the request;
/// its answers lead to the stream from then on. One update too many, and an ID
/// that is not in order or in use, end the stream.
pub proof fn proper_updates_are_delivered(
    request: &mut BidiRequest,
    update: RequestUpdate,
    checked: Result<(), SessionError>,
    routes: &mut ResponseRoutes,
    step: BidiStep,
)
    requires
        call_ensures(BidiRequest::step, (request, BidiEvent::IdChecked(checked), routes), step),
        old(request)@.phase == BidiPhase::CheckingId(update),
    ensures
        ({
            let before = old(request)@;
            let room = before.credits.limit == 0 || before.credits.outstanding
                < before.credits.limit;
            let used = old(routes)@.contains_key(update.id) || before.updates.contains(update.id);
            &&& checked is Ok && room && before.credits.outstanding < u64::MAX && !used ==> {
                &&& step.action == (BidiAction::DeliverUpdate {
                    update,
                    to_subscriber: before.kind == RequestKind::Publish || before.kind
                        == RequestKind::PublishNamespace,
                })
                &&& final(routes)@.contains_key(update.id)
                &&& final(routes)@[update.id] == before.initial_id
                &&& final(request)@.credits.outstanding == before.credits.outstanding + 1
                &&& final(request)@.updates.contains(update.id)
            }
            &&& checked is Err ==> {
                &&& step.action is Finish
                &&& step.action->Finish_0.result is Err
                &&& step.action->Finish_0.result->Err_0@ == checked->Err_0@
            }
            &&& checked is Ok && !room ==> {
                &&& step.action is Finish
                &&& step.action->Finish_0.result is Err
                &&& step.action->Finish_0.result->Err_0@ == SessionFault::TooManyRequestUpdates
            }
            &&& checked is Ok && room && before.credits.outstanding < u64::MAX && used ==> {
                &&& step.action is Finish
                &&& step.action->Finish_0.result is Err
                &&& step.action->Finish_0.result->Err_0@ == SessionFault::InvalidRequestId
            }
        }),
{
}

/// What was delivered or applied is waited on no longer: the stream goes on
/// where that went well, and ends with its fault where it did not. The end of
/// a publication ends the stream either way.
pub proof fn stream_goes_on_after_a_delivery(
    request: &mut BidiRequest,
    delivered: Result<(), SessionError>,
    routes: &mut ResponseRoutes,
    step: BidiStep,
)
    requires
        call_ensures(BidiRequest::step, (request, BidiEvent::Delivered(delivered), routes), step),
        old(request)@.phase is DeliveringUpdate || old(request)@.phase is DeliveringDone || old(request)@.phase is ApplyingForward,
    ensures
        delivered is Ok && !(old(request)@.phase is DeliveringDone) ==> step.action == (
        BidiAction::Wait { read_requester: old(request)@.requester_open }),
        delivered is Ok && old(request)@.phase is DeliveringDone ==> step.action is Finish
            && step.action->Finish_0.result is Ok,
        delivered is Err ==> step.action is Finish && step.action->Finish_0.result is Err
            && step.action->Finish_0.result->Err_0@ == delivered->Err_0@,
        old(request)@.phase matches BidiPhase::ApplyingForward(update) ==> {
            &&& step.settled is Some
            &&& (step.settled->0).0 == update.id
            &&& (step.settled->0).1 is Ok <==> delivered is Ok
        },
        !(old(request)@.phase is ApplyingForward) ==> step.settled is None,
{
}

/// The end of the requester's side is taken, and the stream goes on without
/// it; a publication may not end so.
pub proof fn requester_may_be_done(
    request: &mut BidiRequest,
    routes: &mut ResponseRoutes,
    step: BidiStep,
)
    requires
        call_ensures(BidiRequest::step, (request, BidiEvent::Requester(None), routes), step),
        old(request)@.phase is Waiting,
    ensures
        old(request)@.kind != RequestKind::Publish ==> {
            &&& step.action == (BidiAction::Wait { read_requester: false })
            &&& final(routes)@ == old(routes)@
        },
        old(request)@.kind == RequestKind::Publish ==> {
            &&& step.action is Finish
            &&& step.action->Finish_0.result is Err
            &&& step.action->Finish_0.result->Err_0@ is ProtocolViolation
        },
{
}

/// The end of a publication is delivered as it came.
pub proof fn end_of_a_publication_is_delivered(
    request: &mut BidiRequest,
    done: PublishDone,
    routes: &mut ResponseRoutes,
    step: BidiStep,
)
    requires
        call_ensures(
            BidiRequest::step,
            (request, BidiEvent::Requester(Some(Message::PublishDone(done))), routes),
            step,
        ),
        old(request)@.phase is Waiting,
    ensures
        old(request)@.kind == RequestKind::Publish ==> step.action
            == BidiAction::DeliverPublishDone(done),
        old(request)@.kind != RequestKind::Publish ==> step.action is Finish
            && step.action->Finish_0.result is Err
            && step.action->Finish_0.result->Err_0@ is ProtocolViolation,
{
}

/// What the publisher answers to changes belongs to them in the order in which
/// they were asked for: an acceptance applies the change that waits longest, a
/// refusal settles it with its code. An answer to nothing breaks the protocol.
pub proof fn changes_are_answered_in_order(
    request: &mut BidiRequest,
    answer: Message,
    routes: &mut ResponseRoutes,
    step: BidiStep,
)
    requires
        call_ensures(
            BidiRequest::step,
            (request, BidiEvent::Requester(Some(answer)), routes),
            step,
        ),
        old(request)@.phase is Waiting,
        old(request)@.kind == RequestKind::Publish,
        answer is RequestOk || answer is RequestError,
    ensures
        ({
            let waiting = old(request)@.reverse;
            &&& waiting.len() == 0 ==> {
                &&& step.action is Finish
                &&& step.action->Finish_0.result is Err
                &&& step.action->Finish_0.result->Err_0@ is ProtocolViolation
            }
            &&& waiting.len() > 0 && answer is RequestError ==> {
                &&& step.settled is Some
                &&& (step.settled->0).0 == waiting[0].id
                &&& (step.settled->0).1 is Err
                &&& (step.settled->0).1->Err_0@ == SessionFault::Serve(
                    ServeFault::Closed(answer->RequestError_0.error_code),
                )
                &&& step.action is Wait
                &&& final(request)@.reverse == waiting.subrange(1, waiting.len() as int)
            }
            &&& waiting.len() > 0 && answer is RequestOk
                && answer->RequestOk_0.track_properties@.len() == 0 ==> {
                &&& step.action == (BidiAction::ApplyForward { forward: waiting[0].forward })
                &&& final(request)@.phase == BidiPhase::ApplyingForward(waiting[0])
                &&& final(request)@.reverse == waiting.subrange(1, waiting.len() as int)
                &&& step.settled is None
            }
        }),
{
    let waiting = old(request)@.reverse;
    if waiting.len() > 0 {
        assert(waiting.drop_first() =~= waiting.subrange(1, waiting.len() as int));
    }
}

/// A change is asked of the publisher as it is wanted, while no more wait than
/// it allows; it then waits behind those that were asked for before. Otherwise
/// it is refused at once, and the stream goes on.
pub proof fn changes_are_asked_for(
    request: &mut BidiRequest,
    update: RequestUpdate,
    forward: bool,
    routes: &mut ResponseRoutes,
    step: BidiStep,
    later_request: &mut BidiRequest,
    later_routes: &mut ResponseRoutes,
    later: BidiStep,
)
    requires
        call_ensures(
            BidiRequest::step,
            (
                request,
                BidiEvent::Command(Some(BidiCommand::RequestUpdate { update, forward })),
                routes,
            ),
            step,
        ),
        old(request)@.phase is Waiting,
        *old(later_request) == *final(request),
        call_ensures(BidiRequest::step, (later_request, BidiEvent::Written, later_routes), later),
    ensures
        ({
            let before = old(request)@;
            let room = before.outgoing_limit == 0 || before.reverse.len() < before.outgoing_limit;
            &&& before.kind == RequestKind::Publish && room ==> {
                &&& step.action == BidiAction::WriteUpdate(update)
                &&& step.settled is None
                &&& later.action is Wait
                &&& later.settled is None
                &&& final(later_request)@.reverse.len() == before.reverse.len() + 1
                &&& final(later_request)@.reverse.last().id == update.id
                &&& final(later_request)@.reverse.last().forward == forward
                &&& final(later_request)@.reverse.drop_last() == before.reverse
            }
            &&& before.kind != RequestKind::Publish || !room ==> {
                &&& step.action is Wait
                &&& step.settled is Some
                &&& (step.settled->0).0 == update.id
                &&& (step.settled->0).1 is Err
                &&& final(request)@.reverse == before.reverse
            }
            &&& before.kind == RequestKind::Publish && !room ==> (step.settled->0).1->Err_0@
                == SessionFault::TooManyRequestUpdates
        }),
{
    let before = old(request)@;
    if step.action is WriteUpdate {
        assert(final(later_request)@.reverse.drop_last() =~= before.reverse);
    }
}

/// Whether an answer is the last on its stream: a refusal of the request
/// itself, the end of a publication, or the state of a track. A refused update
/// leaves a subscription and a publication as they are.
pub open spec fn is_last(kind: RequestKind, is_update: bool, response: Message) -> bool {
    match response {
        Message::RequestError(_) => !is_update || (kind != RequestKind::Subscribe && kind
            != RequestKind::Publish),
        Message::PublishDone(_) => true,
        Message::RequestOk(_) => kind == RequestKind::TrackStatus,
        _ => false,
    }
}

/// An answer that the request allows is written as it is; the stream then ends
/// in good order where it is the last one, and goes on where it is not. An
/// update that was answered waits no longer.
pub proof fn answers_are_written(
    request: &mut BidiRequest,
    response: Message,
    routes: &mut ResponseRoutes,
    step: BidiStep,
    allowed: Result<(), SessionError>,
    later_request: &mut BidiRequest,
    later_routes: &mut ResponseRoutes,
    later: BidiStep,
    id: u64,
)
    requires
        call_ensures(
            BidiRequest::step,
            (request, BidiEvent::Command(Some(BidiCommand::Send(response))), routes),
            step,
        ),
        old(request)@.phase is Waiting,
        response.answers() == Some(id),
        call_ensures(
            Session::validate_response_for_request,
            (old(request)@.kind, old(request)@.updates.contains(id), &response),
            allowed,
        ),
        *old(later_request) == *final(request),
        *old(later_routes) == *final(routes),
        call_ensures(BidiRequest::step, (later_request, BidiEvent::Written, later_routes), later),
    ensures
        ({
            let before = old(request)@;
            let is_update = before.updates.contains(id);
            &&& allowed is Ok ==> {
                &&& step.action == BidiAction::WriteResponse(response)
                &&& is_last(before.kind, is_update, response) <==> later.action is Finish
                &&& later.action is Finish ==> later.action->Finish_0.result is Ok
                    && later.action->Finish_0.reset is None
                &&& !(later.action is Finish) ==> later.action == (BidiAction::Wait {
                    read_requester: before.requester_open,
                })
                &&& is_update ==> !final(later_routes)@.contains_key(id)
                &&& is_update && before.credits.outstanding > 0 ==> final(later_request)@.credits.outstanding == before.credits.outstanding - 1
                &&& !is_update ==> final(later_request)@.credits == before.credits
            }
            &&& allowed is Err ==> {
                &&& step.action is Finish
                &&& step.action->Finish_0.result is Err
                &&& step.action->Finish_0.result->Err_0@ == allowed->Err_0@
            }
        }),
{
}

/// A cancelled request ends without a fault, with both directions reset by the
/// code that was given.
pub proof fn cancelled_request_is_reset(
    request: &mut BidiRequest,
    code: u32,
    routes: &mut ResponseRoutes,
    step: BidiStep,
)
    requires
        call_ensures(
            BidiRequest::step,
            (request, BidiEvent::Command(Some(BidiCommand::Cancel(code))), routes),
            step,
        ),
        old(request)@.phase is Waiting,
    ensures
        step.action is Finish,
        step.action->Finish_0.result is Ok,
        step.action->Finish_0.reset == Some(code),
        step.action->Finish_0.failure is None,
        !final(routes)@.contains_key(old(request)@.initial_id),
{
}

/// A stream that fails ends with its fault. A publication fails with it: as
/// cancelled, where the peer reset the stream to that end, and otherwise with
/// the fault's words. Other requests have nothing to fail.
pub proof fn failed_stream_tells_its_fault(
    request: &mut BidiRequest,
    error: SessionError,
    routes: &mut ResponseRoutes,
    step: BidiStep,
)
    requires
        call_ensures(BidiRequest::step, (request, BidiEvent::Failed(error), routes), step),
    ensures
        step.action is Finish,
        step.action->Finish_0.result is Err,
        step.action->Finish_0.result->Err_0@ == error@,
        step.action->Finish_0.reset is None,
        step.action->Finish_0.failure is Some <==> old(request)@.kind == RequestKind::Publish,
        old(request)@.kind == RequestKind::Publish ==> step.action->Finish_0.failure->0@ == (
        if error@ == SessionFault::StreamReset(crate::session::error::REQUEST_STREAM_CANCELLED) {
            ServeFault::Cancel
        } else {
            ServeFault::InternalWithId(0, error@.message())
        }),
        !final(routes)@.contains_key(old(request)@.initial_id),
        forall|id: u64|
            old(request)@.updates.contains(id) ==> !#[trigger] final(routes)@.contains_key(id),
{
}

/// A request stream that a proper request opens begins: the request is handed
/// on, and its answers lead to the stream. A request whose ID is not in order,
/// or that nobody plays the role for, begins none.
pub proof fn proper_request_begins(
    msg: Message,
    ids: &mut RequestId,
    publisher: &mut Option<Publisher>,
    subscriber: &mut Option<Subscriber>,
    limits: (u64, u64),
    routes: &mut ResponseRoutes,
    result: Result<(BidiRequest, Dispatched), SessionError>,
)
    requires
        call_ensures(
            BidiRequest::begin,
            (msg, ids, publisher, subscriber, limits, routes),
            result,
        ),
    ensures
        ({
            let opens = msg is Subscribe || msg is Publish || msg is Fetch || msg is TrackStatus
                || msg is PublishNamespace || msg is SubscribeNamespace || msg is SubscribeTracks;
            &&& !opens ==> result is Err && result->Err_0@ is ProtocolViolation && final(routes)@ == old(routes)@
            &&& result is Ok ==> {
                let request = (result->Ok_0).0@;
                &&& opens
                &&& request.phase is Waiting
                &&& request.requester_open
                &&& request.reverse.len() == 0
                &&& request.credits.limit == limits.0
                &&& request.credits.outstanding == 0
                &&& request.outgoing_limit == limits.1
                &&& final(routes)@.contains_key(request.initial_id)
                &&& final(routes)@[request.initial_id] == request.initial_id
                &&& old(ids).admits(request.initial_id)
                &&& !final(ids).admits(request.initial_id)
                &&& msg is Subscribe ==> request.kind == RequestKind::Subscribe
                    && request.initial_id == msg->Subscribe_0.id && (result->Ok_0).1 is Publisher
                &&& msg is TrackStatus ==> request.kind == RequestKind::TrackStatus
                    && request.initial_id == msg->TrackStatus_0.id && (result->Ok_0).1 is Publisher
                &&& msg is Fetch ==> request.kind == RequestKind::Fetch && request.initial_id
                    == msg->Fetch_0.id && (result->Ok_0).1 is Publisher
                &&& msg is Publish ==> request.kind == RequestKind::Publish && request.initial_id
                    == msg->Publish_0.id && (result->Ok_0).1 is Subscriber
                &&& msg is PublishNamespace ==> request.kind == RequestKind::PublishNamespace
                    && request.initial_id == msg->PublishNamespace_0.id
                    && (result->Ok_0).1 is Subscriber
                &&& msg is SubscribeNamespace ==> request.kind == RequestKind::SubscribeNamespace
                    && request.initial_id == msg->SubscribeNamespace_0.id
                    && (result->Ok_0).1 is Publisher
                &&& msg is SubscribeTracks ==> request.kind == RequestKind::SubscribeTracks
                    && request.initial_id == msg->SubscribeTracks_0.id
            }
            &&& msg matches Message::TrackStatus(status) ==> old(ids).admits(status.id) && *old(publisher) is Some ==> result is Ok
            &&& msg matches Message::TrackStatus(status) ==> !old(ids).admits(status.id)
                ==> result is Err && result->Err_0@ == SessionFault::InvalidRequestId
            &&& msg matches Message::Subscribe(subscribe) ==> old(ids).admits(subscribe.id) && *old(publisher) is None ==> result is Err && result->Err_0@ == SessionFault::RoleViolation
            &&& msg matches Message::Publish(publish) ==> old(ids).admits(publish.id) && *old(subscriber) is Some ==> result is Ok
            &&& msg matches Message::Publish(publish) ==> old(ids).admits(publish.id) && *old(subscriber) is None ==> result is Err && result->Err_0@ == SessionFault::RoleViolation
        }),
{
}

/// An answer goes to the stream of its request, as it is, and to no other; one
/// whose request is over is dropped. What is no answer goes to the control
/// stream.
pub proof fn answers_go_to_their_stream(
    routes: &ResponseRoutes,
    msg: Message,
    outbound: Outbound,
)
    requires
        call_ensures(ResponseRoutes::route, (routes, msg), outbound),
    ensures
        ({
            let id = match msg {
                Message::SubscribeOk(m) => Some(m.id),
                Message::FetchOk(m) => Some(m.id),
                Message::PublishDone(m) => Some(m.id),
                Message::RequestOk(m) => Some(m.id),
                Message::RequestError(m) => Some(m.id),
                _ => None,
            };
            &&& id is None ==> outbound == Outbound::Control(msg)
            &&& id is Some && routes@.contains_key(id->0) ==> outbound == (Outbound::Stream {
                stream: routes@[id->0],
                msg,
            })
            &&& id is Some && !routes@.contains_key(id->0) ==> outbound is Dropped
        }),
{
}

/// A response is allowed unless it brings track properties where none belong,
/// or redirects a request about a namespace to a track.
pub proof fn responses_are_allowed(
    kind: RequestKind,
    is_update: bool,
    response: &Message,
    result: Result<(), SessionError>,
)
    requires
        call_ensures(
            Session::validate_response_for_request,
            (kind, is_update, response),
            result,
        ),
    ensures
        ({
            let stray_properties = response is RequestOk
                && response->RequestOk_0.track_properties@.len() > 0 && (is_update || kind
                != RequestKind::TrackStatus);
            let stray_redirect = response is RequestError
                && response->RequestError_0.redirect is Some
                && response->RequestError_0.redirect->0.track_name@.len() > 0 && (kind
                == RequestKind::PublishNamespace || kind == RequestKind::SubscribeNamespace || kind
                == RequestKind::SubscribeTracks);
            &&& result is Ok <==> !stray_properties && !stray_redirect
            &&& result is Err ==> result->Err_0@ is ProtocolViolation
        }),
{
}

/// A response that is framed is read back at the other end as the same
/// response, under the request that its stream belongs to, if the request
/// allows it.
pub proof fn framed_response_is_read_back(
    msg: &Message,
    frame: BytesMut,
    payload: BytesMut,
    msg_type: u64,
    request_id: u64,
    kind: RequestKind,
    result: Result<Message, SessionError>,
)
    requires
        call_ensures(Session::encode_bidi_response_frame, (msg,), Ok(frame)),
        response_of(msg) is Some,
        msg_type == response_of(msg)->0.wire_type(),
        response_of(msg)->0.payload() is Ok,
        response_of(msg)->0.payload()->Ok_0 == buffer_contents(payload),
        response_of(msg)->0.redirect_fits(),
        msg matches Message::RequestOk(m) ==> m.params@.len() <= u64::MAX,
        msg matches Message::SubscribeOk(m) ==> m.params@.len() <= u64::MAX,
        msg matches Message::FetchOk(m) ==> m.params@.len() <= u64::MAX,
        call_ensures(
            Session::decode_bidi_response_payload,
            (msg_type, payload, request_id, kind),
            result,
        ),
        response_of(msg)->0.sorted().allowed(kind, false) is Ok,
    ensures
        result is Ok,
        result->Ok_0.answers() == Some(request_id),
        response_of(&result->Ok_0) == Some(response_of(msg)->0.sorted()),
        msg is RequestOk <==> result->Ok_0 is RequestOk,
        msg is SubscribeOk <==> result->Ok_0 is SubscribeOk,
        msg is FetchOk <==> result->Ok_0 is FetchOk,
        msg matches Message::RequestError(sent) ==> {
            &&& result->Ok_0 is RequestError
            &&& result->Ok_0->RequestError_0.error_code == sent.error_code
            &&& result->Ok_0->RequestError_0.retry_interval == sent.retry_interval
            &&& result->Ok_0->RequestError_0.reason.0@ == sent.reason.0@
        },
        msg matches Message::PublishDone(sent) ==> {
            &&& result->Ok_0 is PublishDone
            &&& result->Ok_0->PublishDone_0.status_code == sent.status_code
            &&& result->Ok_0->PublishDone_0.stream_count == sent.stream_count
            &&& result->Ok_0->PublishDone_0.reason.0@ == sent.reason.0@
        },
        msg matches Message::SubscribeOk(sent) ==> result->Ok_0->SubscribeOk_0.track_alias
            == sent.track_alias,
        msg matches Message::FetchOk(sent) ==> result->Ok_0->FetchOk_0.end_of_track
            == sent.end_of_track && result->Ok_0->FetchOk_0.end_location == sent.end_location,
{
    response_round_trip(response_of(msg)->0);
}

/// The control stream takes a message for a role that is played and whose ID is
/// in order, and the wish to move once.
pub proof fn control_messages_are_taken(
    receiver: &mut ControlReceiver,
    msg: Message,
    ids: &mut RequestId,
    publisher: &mut Option<Publisher>,
    subscriber: &mut Option<Subscriber>,
    result: Result<ControlEvent, SessionError>,
)
    requires
        call_ensures(
            ControlReceiver::receive,
            (receiver, msg, ids, publisher, subscriber),
            result,
        ),
    ensures
        msg matches Message::GoAway(goaway) ==> {
            &&& final(receiver).goaway_received
            &&& !old(receiver).goaway_received ==> result == Ok::<ControlEvent, SessionError>(
                ControlEvent::GoAway(goaway),
            )
            &&& old(receiver).goaway_received ==> result is Err
                && result->Err_0@ is ProtocolViolation
        },
        !(msg is GoAway) ==> final(receiver).goaway_received == old(receiver).goaway_received,
        msg matches Message::TrackStatus(status) ==> {
            &&& old(ids).admits(status.id) && *old(publisher) is Some ==> result is Ok
                && result->Ok_0 is Publisher
            &&& old(ids).admits(status.id) && *old(publisher) is None ==> result is Err
                && result->Err_0@ == SessionFault::RoleViolation
            &&& !old(ids).admits(status.id) ==> result is Err && result->Err_0@
                == SessionFault::InvalidRequestId && *final(publisher) == *old(publisher)
        },
        msg is RequestOk ==> {
            &&& *old(subscriber) is Some ==> result is Ok && result->Ok_0 is Subscriber
            &&& *old(subscriber) is None ==> result is Err && result->Err_0@
                == SessionFault::RoleViolation
        },
        msg is Namespace || msg is NamespaceDone || msg is PublishSkipped ==> result is Err
            && result->Err_0@ is Unimplemented,
{
}

/// What a publisher sends comes to a subscriber as the same message, and the
/// other way round; the answers that both send come to the subscriber.
pub proof fn messages_come_as_they_were_sent(
    from_publisher: message::Publisher,
    from_subscriber: message::Subscriber,
)
    ensures
        from_publisher.message() matches Some(msg) ==> msg.routed() == Routed::ToSubscriber(
            from_publisher,
        ),
        from_subscriber.message() matches Some(msg) ==> {
            &&& !(from_subscriber is RequestOk || from_subscriber is RequestError) ==> msg.routed()
                == Routed::ToPublisher(from_subscriber)
            &&& msg.from_subscriber() == Some(from_subscriber)
        },
        from_publisher.message() is None <==> from_publisher is PublishNamespaceDone,
        from_subscriber.message() is None <==> from_subscriber is Unsubscribe || from_subscriber
            is FetchCancel || from_subscriber is PublishNamespaceCancel || from_subscriber
            is PublishOk,
{
}

/// A message uses a new request ID or answers a request, and never both. Those
/// that use one open a request stream, but for updates, and no others do.
pub proof fn requests_and_answers_are_apart(
    msg: &Message,
    used: Option<u64>,
    answered: Option<u64>,
    opened: Result<RequestKind, SessionError>,
)
    requires
        call_ensures(Message::sequenced_request_id, (msg,), used),
        call_ensures(Message::response_target_id, (msg,), answered),
        call_ensures(RequestKind::from_first_message, (msg,), opened),
    ensures
        !(used is Some && answered is Some),
        opened is Ok <==> used is Some && !(msg is RequestUpdate),
        answered is Some <==> msg is RequestOk || msg is RequestError || msg is SubscribeOk || msg
            is FetchOk || msg is PublishDone,
        opened is Err ==> opened->Err_0@ is ProtocolViolation,
{
}

/// As many updates wait as were taken and not answered, and never more than
/// the limit, where there is one.
pub proof fn credits_count_what_waits(
    credits: &mut RequestUpdateCredits,
    taken: Result<(), SessionError>,
    later: &mut RequestUpdateCredits,
)
    requires
        call_ensures(RequestUpdateCredits::receive, (credits,), taken),
        *old(later) == *final(credits),
        call_ensures(RequestUpdateCredits::respond, (later,), ()),
    ensures
        old(credits).outstanding < u64::MAX && (old(credits).limit == 0 || old(credits).outstanding < old(credits).limit) <==> taken is Ok,
        taken is Ok ==> *final(later) == *old(credits),
        taken is Err ==> *final(credits) == *old(credits) && taken->Err_0@
            == SessionFault::TooManyRequestUpdates,
{
}

} // verus!
