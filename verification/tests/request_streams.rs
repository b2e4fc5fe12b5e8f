//! Request streams of the peer, and the control stream.

use bytes::BytesMut;
use moq::coding::{
    DecodeError, KeyValuePairs, ReasonPhrase, SessionUri, TrackName, TrackNamespace,
};
use moq::message;
use moq::message::{wire_id, FetchType, Message, RequestErrorCode};
use moq::serve::ServeError;
use moq::session::bidi::{
    BidiAction, BidiCommand, BidiEvent, BidiFrame, BidiRequest, BidiStep, Outbound, ResponseRoutes,
};
use moq::session::control::{ControlEvent, ControlReceiver, Dispatched, LogValue};
use moq::session::error::REQUEST_STREAM_CANCELLED;
use moq::session::publisher::Publisher;
use moq::session::request_id::RequestId;
use moq::session::subscriber::Subscriber;
use moq::session::{RequestKind, Session, SessionError};

fn request_ok(id: u64) -> Message {
    Message::RequestOk(message::RequestOk {
        id,
        params: KeyValuePairs::default(),
        track_properties: Default::default(),
    })
}

fn request_error(id: u64) -> Message {
    Message::RequestError(message::RequestError {
        id,
        error_code: RequestErrorCode::NotSupported.code(),
        retry_interval: 0,
        reason: ReasonPhrase("no".to_string()),
        redirect: None,
    })
}

fn update(id: u64) -> message::RequestUpdate {
    message::RequestUpdate { id, params: KeyValuePairs::default() }
}

fn subscribe(id: u64) -> Message {
    Message::Subscribe(message::Subscribe {
        id,
        track_namespace: TrackNamespace::from_utf8_path("tenant"),
        track_name: TrackName::of("video"),
        params: KeyValuePairs::default(),
    })
}

fn goaway() -> Message {
    Message::GoAway(message::GoAway { uri: SessionUri("moqt://other".to_string()), timeout: 5 })
}

fn violation(text: &str) -> SessionError {
    SessionError::ProtocolViolation(text.to_string())
}

fn open(kind: RequestKind) -> (BidiRequest, ResponseRoutes) {
    let mut routes = ResponseRoutes::new();
    let request = BidiRequest::open(kind, 10, 2, 1, &mut routes);
    (request, routes)
}

fn result_of(step: BidiStep) -> Result<(), SessionError> {
    match step.action {
        BidiAction::Finish(end) => end.result,
        other => panic!("unexpected action {:?}", other),
    }
}

/// Takes an update of the requester up to its delivery.
fn deliver(request: &mut BidiRequest, routes: &mut ResponseRoutes, id: u64) {
    let step =
        request.step(BidiEvent::Requester(Some(Message::RequestUpdate(update(id)))), routes);
    assert!(matches!(step.action, BidiAction::CheckId(checked) if checked == id));
    let step = request.step(BidiEvent::IdChecked(Ok(())), routes);
    assert!(matches!(step.action, BidiAction::DeliverUpdate { .. }));
    let step = request.step(BidiEvent::Delivered(Ok(())), routes);
    assert!(matches!(step.action, BidiAction::Wait { read_requester: true }));
}

#[test]
fn first_message_opens_the_stream() {
    assert_eq!(
        BidiRequest::identify(&subscribe(10)).unwrap(),
        (RequestKind::Subscribe, 10)
    );
    assert_eq!(
        BidiRequest::identify(&goaway()).err(),
        Some(violation("GoAway cannot open a request stream"))
    );
}

#[test]
fn request_stream_begins_with_a_new_request() {
    let mut ids = RequestId::new(1, 0);
    let mut routes = ResponseRoutes::new();
    let mut publisher = Some(Publisher::new());
    let mut nobody = None;
    let (_, dispatched) = BidiRequest::begin(
        subscribe(10),
        &mut ids,
        &mut publisher,
        &mut nobody,
        (2, 1),
        &mut routes,
    )
    .unwrap();
    assert!(matches!(dispatched, Dispatched::Publisher(_)));
    assert_eq!(routes.get(10), Some(10));
    let mut begin = |msg| {
        BidiRequest::begin(msg, &mut ids, &mut publisher, &mut nobody, (2, 1), &mut routes).err()
    };
    assert_eq!(begin(subscribe(10)), Some(SessionError::InvalidRequestId));
    assert_eq!(
        begin(goaway()),
        Some(violation("GoAway cannot open a request stream"))
    );
    let offer = Message::PublishNamespace(message::PublishNamespace {
        id: 12,
        track_namespace: TrackNamespace::from_utf8_path("tenant"),
        params: KeyValuePairs::default(),
    });
    assert_eq!(begin(offer), Some(SessionError::RoleViolation));
    assert_eq!(routes.get(12), None);
    assert_eq!(routes.get(10), Some(10));
}

#[test]
fn update_is_answered_on_the_stream_and_forgotten() {
    let (mut request, mut routes) = open(RequestKind::Subscribe);
    assert_eq!(routes.get(10), Some(10));
    deliver(&mut request, &mut routes, 12);
    assert_eq!(routes.get(12), Some(10));

    let step = request.step(BidiEvent::Command(Some(BidiCommand::Send(request_error(12)))), &mut routes);
    assert!(matches!(step.action, BidiAction::WriteResponse(_)));
    let step = request.step(BidiEvent::Written, &mut routes);
    assert!(matches!(step.action, BidiAction::Wait { .. }));
    assert_eq!(routes.get(12), None);
    assert_eq!(routes.get(10), Some(10));

    let step = request.step(BidiEvent::Command(Some(BidiCommand::Send(request_error(10)))), &mut routes);
    assert!(matches!(step.action, BidiAction::WriteResponse(_)));
    assert_eq!(result_of(request.step(BidiEvent::Written, &mut routes)), Ok(()));
    assert_eq!(routes.get(10), None);
}

#[test]
fn updates_beyond_the_limit_end_the_stream() {
    let (mut request, mut routes) = open(RequestKind::Subscribe);
    deliver(&mut request, &mut routes, 12);
    deliver(&mut request, &mut routes, 14);
    request.step(BidiEvent::Requester(Some(Message::RequestUpdate(update(16)))), &mut routes);
    let step = request.step(BidiEvent::IdChecked(Ok(())), &mut routes);
    assert_eq!(result_of(step), Err(SessionError::TooManyRequestUpdates));
    assert_eq!(routes.get(10), None);
    assert_eq!(routes.get(12), None);
    assert_eq!(routes.get(14), None);
}

#[test]
fn repeated_update_id_ends_the_stream() {
    let (mut request, mut routes) = open(RequestKind::Subscribe);
    deliver(&mut request, &mut routes, 12);
    request.step(BidiEvent::Requester(Some(Message::RequestUpdate(update(12)))), &mut routes);
    let step = request.step(BidiEvent::IdChecked(Ok(())), &mut routes);
    assert_eq!(result_of(step), Err(SessionError::InvalidRequestId));
}

#[test]
fn track_status_takes_no_update_and_ends_with_its_answer() {
    let (mut request, mut routes) = open(RequestKind::TrackStatus);
    let step =
        request.step(BidiEvent::Requester(Some(Message::RequestUpdate(update(12)))), &mut routes);
    assert_eq!(
        result_of(step),
        Err(violation("unexpected REQUEST_UPDATE on TrackStatus request stream"))
    );

    let (mut request, mut routes) = open(RequestKind::TrackStatus);
    request.step(BidiEvent::Command(Some(BidiCommand::Send(request_ok(10)))), &mut routes);
    assert_eq!(result_of(request.step(BidiEvent::Written, &mut routes)), Ok(()));
}

#[test]
fn requester_may_finish_any_request_but_a_publication() {
    let (mut request, mut routes) = open(RequestKind::Subscribe);
    let step = request.step(BidiEvent::Requester(None), &mut routes);
    assert!(matches!(step.action, BidiAction::Wait { read_requester: false }));

    let (mut request, mut routes) = open(RequestKind::Publish);
    match request.step(BidiEvent::Requester(None), &mut routes).action {
        BidiAction::Finish(end) => {
            let error =
                violation("PUBLISH requester sent FIN while its request remained established");
            assert_eq!(
                end.failure,
                Some(ServeError::InternalWithId(0, error.message()))
            );
            assert_eq!(end.result, Err(error));
        }
        other => panic!("unexpected action {:?}", other),
    }
}

#[test]
fn reverse_updates_are_answered_in_order() {
    let mut routes = ResponseRoutes::new();
    let mut request = BidiRequest::open(RequestKind::Publish, 10, 2, 2, &mut routes);
    for (id, forward) in [(1, false), (3, true)] {
        let command = BidiCommand::RequestUpdate { update: update(id), forward };
        let step = request.step(BidiEvent::Command(Some(command)), &mut routes);
        assert!(matches!(step.action, BidiAction::WriteUpdate(_)));
        let step = request.step(BidiEvent::Written, &mut routes);
        assert!(matches!(step.action, BidiAction::Wait { .. }));
    }
    let command = BidiCommand::RequestUpdate { update: update(5), forward: true };
    let step = request.step(BidiEvent::Command(Some(command)), &mut routes);
    assert_eq!(step.settled, Some((5, Err(SessionError::TooManyRequestUpdates))));

    let step = request.step(BidiEvent::Requester(Some(request_ok(1))), &mut routes);
    assert!(matches!(step.action, BidiAction::ApplyForward { forward: false }));
    let step = request.step(BidiEvent::Delivered(Ok(())), &mut routes);
    assert_eq!(step.settled, Some((1, Ok(()))));

    let step = request.step(BidiEvent::Requester(Some(request_error(3))), &mut routes);
    assert_eq!(
        step.settled,
        Some((
            3,
            Err(SessionError::Serve(ServeError::Closed(
                RequestErrorCode::NotSupported.code()
            )))
        ))
    );
    let step = request.step(BidiEvent::Requester(Some(request_ok(3))), &mut routes);
    assert_eq!(
        result_of(step),
        Err(violation("PUBLISH requester sent REQUEST_OK without a pending reverse update"))
    );
}

#[test]
fn reverse_updates_are_for_publications() {
    let (mut request, mut routes) = open(RequestKind::Subscribe);
    let command = BidiCommand::RequestUpdate { update: update(1), forward: true };
    let step = request.step(BidiEvent::Command(Some(command)), &mut routes);
    assert_eq!(
        step.settled,
        Some((1, Err(violation("reverse REQUEST_UPDATE is only valid for PUBLISH"))))
    );
}

#[test]
fn cancellation_resets_and_abandons() {
    let (mut request, mut routes) = open(RequestKind::Publish);
    let command = BidiCommand::RequestUpdate { update: update(1), forward: false };
    request.step(BidiEvent::Command(Some(command)), &mut routes);
    request.step(BidiEvent::Written, &mut routes);
    match request.step(BidiEvent::Command(Some(BidiCommand::Cancel(4))), &mut routes).action {
        BidiAction::Finish(end) => {
            assert_eq!(end.result, Ok(()));
            assert_eq!(end.reset, Some(4));
            assert_eq!(end.abandoned, vec![(1, SessionError::Serve(ServeError::Cancel))]);
            assert_eq!(end.dropped, None);
            assert_eq!(end.failure, None);
        }
        other => panic!("unexpected action {:?}", other),
    }

    let (mut request, mut routes) = open(RequestKind::Publish);
    let failed = BidiEvent::Failed(SessionError::StreamReset(REQUEST_STREAM_CANCELLED));
    match request.step(failed, &mut routes).action {
        BidiAction::Finish(end) => assert_eq!(end.failure, Some(ServeError::Cancel)),
        other => panic!("unexpected action {:?}", other),
    }
}

#[test]
fn no_update_is_forgotten() {
    let end_of = |step: BidiStep| match step.action {
        BidiAction::Finish(end) => (end.abandoned, end.dropped),
        other => panic!("unexpected action {:?}", other),
    };
    let cancelled = |id| (id, SessionError::Serve(ServeError::Cancel));
    let open_unlimited = || {
        let mut routes = ResponseRoutes::new();
        let request = BidiRequest::open(RequestKind::Publish, 10, 2, 0, &mut routes);
        (request, routes)
    };
    let ask = |id| {
        let command = BidiCommand::RequestUpdate { update: update(id), forward: false };
        BidiEvent::Command(Some(command))
    };
    let failed = || BidiEvent::Failed(SessionError::Internal);

    // One that waits is cancelled, one that is being written is let go.
    let (mut request, mut routes) = open_unlimited();
    request.step(ask(1), &mut routes);
    request.step(BidiEvent::Written, &mut routes);
    request.step(ask(3), &mut routes);
    assert_eq!(end_of(request.step(failed(), &mut routes)), (vec![cancelled(1)], Some(3)));
    assert_eq!(routes.get(10), None);

    // One whose answer is not allowed is let go, the next one is cancelled.
    let (mut request, mut routes) = open_unlimited();
    for id in [1, 3] {
        request.step(ask(id), &mut routes);
        request.step(BidiEvent::Written, &mut routes);
    }
    let mut properties = message::TrackProperties::default();
    properties.set_int_extension(0x78, 1);
    let answer = Message::RequestOk(message::RequestOk {
        id: 1,
        params: KeyValuePairs::default(),
        track_properties: properties,
    });
    let step = request.step(BidiEvent::Requester(Some(answer)), &mut routes);
    assert_eq!(step.settled, None);
    assert_eq!(end_of(step), (vec![cancelled(3)], Some(1)));

    // One that is being applied is let go.
    let (mut request, mut routes) = open_unlimited();
    request.step(ask(1), &mut routes);
    request.step(BidiEvent::Written, &mut routes);
    let step = request.step(BidiEvent::Requester(Some(request_ok(1))), &mut routes);
    assert!(matches!(step.action, BidiAction::ApplyForward { forward: false }));
    assert_eq!(end_of(request.step(failed(), &mut routes)), (Vec::new(), Some(1)));
}

#[test]
fn answers_of_updates_lead_nowhere_once_the_stream_ended() {
    let (mut request, mut routes) = open(RequestKind::Subscribe);
    routes.insert(77, 76);
    deliver(&mut request, &mut routes, 2);
    deliver(&mut request, &mut routes, 4);
    assert_eq!(routes.get(4), Some(10));
    request.step(BidiEvent::Command(Some(BidiCommand::Cancel(1))), &mut routes);
    for id in [10, 2, 4] {
        assert_eq!(routes.get(id), None);
    }
    assert_eq!(routes.get(77), Some(76));
}

#[test]
fn unexpected_messages_end_the_stream() {
    let (mut request, mut routes) = open(RequestKind::Subscribe);
    let step = request.step(BidiEvent::Requester(Some(request_ok(1))), &mut routes);
    assert_eq!(
        result_of(step),
        Err(violation("unexpected RequestOk after first request-stream message"))
    );
    let (mut request, mut routes) = open(RequestKind::Subscribe);
    let step =
        request.step(BidiEvent::Command(Some(BidiCommand::Send(goaway()))), &mut routes);
    assert_eq!(
        result_of(step),
        Err(violation("GoAway is not valid on a request response stream"))
    );
    let (mut request, mut routes) = open(RequestKind::Subscribe);
    let step = request.step(BidiEvent::Command(None), &mut routes);
    assert_eq!(result_of(step), Err(SessionError::Internal));
}

#[test]
fn publication_ends_once_its_end_is_delivered() {
    let (mut request, mut routes) = open(RequestKind::Publish);
    let done = Message::PublishDone(message::PublishDone {
        id: 10,
        status_code: 2,
        stream_count: 0,
        reason: ReasonPhrase("done".to_string()),
    });
    let frame = Session::encode_bidi_response_frame(&done).unwrap();
    // One byte of type and two of length stand before the body.
    let body = BytesMut::from(&frame[3..]);
    let read = request.decode_followup(wire_id::PublishDone, body).unwrap();
    assert_eq!(read, done);
    let step = request.step(BidiEvent::Requester(Some(read)), &mut routes);
    assert!(matches!(step.action, BidiAction::DeliverPublishDone(_)));
    assert_eq!(
        result_of(request.step(BidiEvent::Delivered(Ok(())), &mut routes)),
        Ok(())
    );
}

#[test]
fn answers_go_to_streams_and_never_to_the_control_stream() {
    let mut routes = ResponseRoutes::new();
    routes.insert(12, 10);
    assert!(matches!(
        routes.route(request_ok(12)),
        Outbound::Stream { stream: 10, .. }
    ));
    assert!(matches!(routes.route(request_ok(14)), Outbound::Dropped));
    assert!(matches!(routes.route(goaway()), Outbound::Control(_)));
}

#[test]
fn frame_is_read_in_pieces() {
    let mut frame = BidiFrame::new(7, 3);
    assert_eq!(frame.wanted(), 3);
    frame.extend(&[1, 2]);
    assert_eq!(
        frame.cut_short(),
        SessionError::Decode(DecodeError::More(1))
    );
    frame.extend(&[3]);
    assert_eq!(frame.wanted(), 0);
    let (msg_type, payload) = frame.into_parts();
    assert_eq!(msg_type, 7);
    assert_eq!(&payload[..], &[1, 2, 3]);
}

#[test]
fn peer_uses_its_own_ids_once() {
    let mut ids = RequestId::new(0, 1);
    assert_eq!(ids.allocate(), Ok(0));
    assert_eq!(ids.allocate(), Ok(2));
    assert_eq!(ids.validate_incoming(3), Ok(()));
    assert_eq!(ids.validate_incoming(1), Ok(()));
    assert_eq!(ids.validate_incoming(3), Err(SessionError::InvalidRequestId));
    assert_eq!(ids.validate_incoming(2), Err(SessionError::InvalidRequestId));
}

#[test]
fn each_end_admits_what_the_other_gives_out() {
    let mut client = RequestId::client();
    let mut server = RequestId::server();
    for i in 0..10 {
        let from_client = client.allocate().unwrap();
        assert_eq!(from_client, 2 * i);
        assert_eq!(server.validate_incoming(from_client), Ok(()));
        let from_server = server.allocate().unwrap();
        assert_eq!(from_server, 2 * i + 1);
        assert_eq!(client.validate_incoming(from_server), Ok(()));
    }
}

#[test]
fn second_goaway_is_a_violation() {
    let mut control = ControlReceiver::new();
    let mut ids = RequestId::new(0, 1);
    let mut publisher = Some(Publisher::new());
    let mut subscriber = Some(Subscriber::new());
    assert!(matches!(
        control.receive(goaway(), &mut ids, &mut publisher, &mut subscriber),
        Ok(ControlEvent::GoAway(_))
    ));
    assert_eq!(
        control.receive(goaway(), &mut ids, &mut publisher, &mut subscriber).err(),
        Some(violation("received multiple GOAWAY messages"))
    );
    let tracks = Message::SubscribeTracks(message::SubscribeTracks {
        id: 1,
        track_namespace_prefix: TrackNamespace::from_utf8_path("tenant"),
    });
    assert_eq!(
        control.receive(tracks, &mut ids, &mut publisher, &mut subscriber).err(),
        Some(SessionError::Unimplemented("message type SubscribeTracks".to_string()))
    );
    assert_eq!(
        control.receive(subscribe(1), &mut ids, &mut publisher, &mut subscriber).err(),
        Some(SessionError::InvalidRequestId)
    );
    assert!(matches!(
        control.receive(subscribe(3), &mut ids, &mut publisher, &mut subscriber),
        Ok(ControlEvent::Publisher(_))
    ));
    assert!(matches!(
        control.receive(request_ok(1), &mut ids, &mut publisher, &mut subscriber),
        Ok(ControlEvent::Subscriber(_))
    ));
}

#[test]
fn role_that_is_not_played_is_a_violation() {
    let mut none = None;
    let mut subscriber = Some(Subscriber::new());
    assert_eq!(
        Session::dispatch(subscribe(1), &mut none, &mut subscriber).err(),
        Some(SessionError::RoleViolation)
    );
    assert!(matches!(
        Session::dispatch(goaway(), &mut none, &mut subscriber),
        Ok(Dispatched::Unrouted(_))
    ));
    let mut publisher = Some(Publisher::new());
    let mut nobody = None;
    assert_eq!(
        Session::dispatch(request_ok(1), &mut publisher, &mut nobody).err(),
        Some(SessionError::RoleViolation)
    );
}

#[test]
fn control_messages_are_logged_by_type_and_fields() {
    let record = Session::log_control_message(&subscribe(3));
    assert_eq!(record.msg_type, "SUBSCRIBE");
    assert_eq!(record.fields.len(), 3);
    assert_eq!(record.fields[0].0, "subscribe_id");
    assert!(matches!(record.fields[0].1, LogValue::Number(3)));
    assert_eq!(record.fields[1].0, "namespace");
    assert_eq!(record.fields[2].0, "track_name");

    let record = Session::log_control_message(&goaway());
    assert_eq!(record.msg_type, "GOAWAY");
    assert!(matches!(&record.fields[0].1, LogValue::Text(uri) if uri == "moqt://other"));
    assert_eq!(record.fields[1].0, "timeout_ms");

    let fetch = Message::Fetch(message::Fetch { id: 4, fetch_type: FetchType::Standalone });
    let record = Session::log_control_message(&fetch);
    assert_eq!(record.msg_type, "FETCH");
    assert!(matches!(record.fields[1].1, LogValue::Fetch(FetchType::Standalone)));
}
