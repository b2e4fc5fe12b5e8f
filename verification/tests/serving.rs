//! Serving subscriptions, and receiving objects once.

use bytes::Bytes;
use moq::coding::{KeyValuePairs, Location, TrackName, TrackNamespace};
use moq::data::{Datagram, ExtensionHeaders, ObjectStatus, SubgroupHeader};
use moq::message;
use moq::serve;
use moq::serve::{ServeError, Subgroup, TrackWriter};
use moq::session::kind::RequestUpdateCredits;
use moq::session::serving::{
    DatagramAction, DatagramEvent, DatagramServer, ModeAction, ModeEvent, OutgoingObject,
    SubgroupAction, SubgroupEvent, SubgroupServer, TrackAction, TrackEvent, TrackMode,
    TrackServer,
};
use moq::session::subscribe::{DeliveryFilter, SubscribeOptions};
use moq::session::subscribe_recv::{Subscribe, SubscribeState};
use moq::session::subscribed::{
    Farewell, Subscribed, SubscribedRecv, SubscribedState, SubscriptionInitiator,
};
use moq::session::{Session, SessionError};
use moq::watch::{Progress, State};

fn subscribed(id: u64) -> (Subscribed, SubscribedRecv) {
    Subscribed::new(&message::Subscribe {
        id,
        track_namespace: TrackNamespace::from_utf8_path("tenant"),
        track_name: TrackName::of("video"),
        params: KeyValuePairs::default(),
    })
    .unwrap()
}

fn everything() -> DeliveryFilter {
    DeliveryFilter { forward: true, start_location: None, end_group_id: None }
}

fn from_object_two() -> DeliveryFilter {
    DeliveryFilter { start_location: Some(Location::new(4, 2)), ..everything() }
}

fn subgroup() -> Subgroup {
    Subgroup { group_id: 4, subgroup_id: 1, priority: 9, first_object: true }
}

fn header() -> SubgroupHeader {
    subscribed(7).0.subgroup_header(&subgroup())
}

fn outgoing(object_id: u64) -> SubgroupEvent {
    SubgroupEvent::Object(Some(OutgoingObject {
        object_id,
        size: 3,
        status: ObjectStatus::NormalObject,
        extension_headers: ExtensionHeaders::new(),
    }))
}

#[test]
fn subgroup_is_sent_on_one_stream() {
    let mut state = State::<SubscribedState>::default();
    let mut server = SubgroupServer::new(header(), from_object_two());
    assert!(matches!(
        server.step(SubgroupEvent::Changed, &mut state),
        Ok(SubgroupAction::ReadObject)
    ));
    // The filter keeps the first object back, and no stream is opened for it.
    assert!(matches!(
        server.step(outgoing(1), &mut state),
        Ok(SubgroupAction::ReadObject)
    ));
    assert_eq!(state.lock().stream_count, 0);
    for (object_id, first) in [(2, true), (3, false)] {
        let mut action = server.step(outgoing(object_id), &mut state).unwrap();
        if first {
            assert!(matches!(action, SubgroupAction::OpenStream));
            action = server.step(SubgroupEvent::StreamOpened, &mut state).unwrap();
        }
        match action {
            SubgroupAction::Send { header: sent, object_id: id, object } => {
                assert_eq!(sent, if first { Some(header()) } else { None });
                assert_eq!(id, object_id);
                assert_eq!(object.payload_length, 3);
            }
            other => panic!("unexpected action {:?}", other),
        }
        assert!(matches!(
            server.step(SubgroupEvent::Sent, &mut state),
            Ok(SubgroupAction::SendPayload)
        ));
        assert!(matches!(
            server.step(SubgroupEvent::PayloadSent, &mut state),
            Ok(SubgroupAction::ReadObject)
        ));
    }
    assert_eq!(state.lock().stream_count, 1);
    assert!(matches!(
        server.step(SubgroupEvent::Object(None), &mut state),
        Ok(SubgroupAction::Finish { stream_open: true })
    ));
}

#[test]
fn nothing_is_read_while_forward_is_off() {
    let mut state = State::<SubscribedState>::default();
    state.lock_mut().unwrap().forward = false;
    let mut server = SubgroupServer::new(header(), everything());
    assert!(matches!(
        server.step(SubgroupEvent::Changed, &mut state),
        Ok(SubgroupAction::AwaitChange)
    ));
    state.lock_mut().unwrap().forward = true;
    assert!(matches!(
        server.step(SubgroupEvent::Changed, &mut state),
        Ok(SubgroupAction::ReadObject)
    ));
    state.lock_mut().unwrap().closed = Err(ServeError::Cancel);
    let mut late = SubgroupServer::new(header(), everything());
    assert_eq!(
        late.step(SubgroupEvent::Changed, &mut state).err(),
        Some(SessionError::Serve(ServeError::Cancel))
    );
}

#[test]
fn sent_datagram_is_received() {
    let mut state = State::<SubscribedState>::default();
    let mut server = DatagramServer::new(7, everything());
    assert!(matches!(
        server.step(DatagramEvent::Changed, &mut state),
        Ok(DatagramAction::ReadDatagram)
    ));
    let datagram = serve::Datagram {
        group_id: 4,
        object_id: 5,
        priority: 6,
        payload: Bytes::from_static(b"pay"),
        extension_headers: ExtensionHeaders::new(),
    };
    let sent = match server.step(DatagramEvent::Datagram(Some(datagram)), &mut state) {
        Ok(DatagramAction::Send(bytes)) => bytes,
        other => panic!("unexpected action {:?}", other),
    };
    let read = Datagram::decode(&sent).unwrap();
    assert_eq!((read.track_alias, read.group_id, read.object_id), (7, 4, Some(5)));
    assert_eq!(read.publisher_priority, 6);
    assert_eq!(read.payload, Some(Bytes::from_static(b"pay")));
    assert!(matches!(
        server.step(DatagramEvent::Sent, &mut state),
        Ok(DatagramAction::ReadDatagram)
    ));
    assert!(matches!(
        server.step(DatagramEvent::Datagram(None), &mut state),
        Ok(DatagramAction::Finish)
    ));
}

#[test]
fn track_is_served_until_its_subgroups_are() {
    let (subscribed, recv) = subscribed(7);
    let mut server = TrackServer::new(everything());
    let mut step = |event| server.step(event, &subscribed, &recv.state);
    assert!(matches!(
        step(TrackEvent::Subgroup(Ok(Some(subgroup())))),
        Ok(TrackAction::Serve(_))
    ));
    assert!(matches!(step(TrackEvent::Changed), Ok(TrackAction::Wait)));
    assert!(matches!(step(TrackEvent::Subgroup(Ok(None))), Ok(TrackAction::Wait)));
    assert!(matches!(step(TrackEvent::Served), Ok(TrackAction::Finish)));
    assert_eq!(
        step(TrackEvent::Subgroup(Err(ServeError::Size))).err(),
        Some(SessionError::Serve(ServeError::Size))
    );
}

#[test]
fn largest_location_only_grows() {
    let (mut subscribed, mut recv) = subscribed(7);
    let (ok, filter) =
        subscribed.accept(&mut recv.state, Some(Location::new(3, 4))).unwrap();
    assert_eq!(ok.id, 7);
    assert_eq!(ok.track_alias, 7);
    assert!(filter.allows(0, 0));
    for (group, object, expected) in
        [(2, 9, Location::new(3, 4)), (3, 5, Location::new(3, 5)), (9, 0, Location::new(9, 0))]
    {
        recv.state.lock_mut().unwrap().update_largest_location(group, object).unwrap();
        assert_eq!(recv.state.lock().largest_location, Some(expected));
    }
}

#[test]
fn nobody_is_left_to_accept_for() {
    let (mut subscribed, mut recv) = subscribed(7);
    recv.state.hang_up();
    assert_eq!(
        subscribed.accept(&mut recv.state, None).err(),
        Some(SessionError::Serve(ServeError::Cancel))
    );
}

#[test]
fn farewell_says_how_a_subscription_ended() {
    let (mut subscribed, mut recv) = subscribed(7);
    Subscribed::close_state(&mut recv.state, ServeError::Duplicate).unwrap();
    assert!(matches!(
        subscribed.farewell(&recv.state),
        Farewell::Refused(error) if error.id == 7
            && error.reason.0 == ServeError::Duplicate.message()
    ));
    subscribed.ok = true;
    assert!(matches!(
        subscribed.farewell(&recv.state),
        Farewell::Done(done) if done.id == 7 && done.stream_count == 0
    ));
}

#[test]
fn object_is_claimed_once() {
    let track =
        TrackWriter::new(TrackNamespace::from_utf8_path("tenant"), TrackName::of("video"));
    let (_, mut recv) = Subscribe::new_with_options(0, track, SubscribeOptions::default()).unwrap();
    assert!(recv.claim_object(1, 2));
    assert!(!recv.claim_object(1, 2));
    assert!(recv.claim_object(1, 3));
    assert!(recv.claim_object(2, 2));
}

#[test]
fn credits_bound_the_updates_that_wait() {
    let mut credits = RequestUpdateCredits::new(1);
    assert!(credits.receive().is_ok());
    assert_eq!(credits.receive(), Err(SessionError::TooManyRequestUpdates));
    credits.respond();
    credits.respond();
    assert!(credits.receive().is_ok());
    let mut unlimited = RequestUpdateCredits::new(0);
    for _ in 0..100 {
        assert!(unlimited.receive().is_ok());
    }
}

#[test]
fn cancelled_request_does_not_end_the_session() {
    use_outcome(Ok(()), Ok(()));
    use_outcome(
        Err(SessionError::StreamReset(moq::session::error::REQUEST_STREAM_CANCELLED)),
        Ok(()),
    );
    use_outcome(Err(SessionError::WrongSize), Err(SessionError::WrongSize));
    assert!(Session::accepts_request_stream(127));
    assert!(!Session::accepts_request_stream(128));
}

fn use_outcome(result: Result<(), SessionError>, expected: Result<(), SessionError>) {
    assert_eq!(Session::request_stream_ended(result), expected);
}

#[test]
fn published_track_is_served_whole_once_accepted() {
    let (mut published, mut recv) = Subscribed::new_published(&message::Publish {
        id: 3,
        track_namespace: TrackNamespace::from_utf8_path("tenant"),
        track_name: TrackName::of("video"),
        track_alias: 1,
        params: KeyValuePairs::default(),
    })
    .unwrap();
    assert_eq!(published.initiator, SubscriptionInitiator::Publisher);
    assert_eq!(recv.state.poll_publish_ok(), Progress::Pending);
    recv.state.lock_mut().unwrap().accepted = true;
    assert_eq!(recv.state.poll_publish_ok(), Progress::Ready(Ok(())));
    let filter = published.accept_published(&mut recv.state, Some(Location::new(1, 2))).unwrap();
    assert_eq!(filter, everything());
    assert!(published.ok);

    Subscribed::cancel_request_stream(&mut recv.state);
    assert_eq!(
        recv.state.poll_publish_ok(),
        Progress::Ready(Err(ServeError::Cancel))
    );
    assert!(matches!(published.farewell(&recv.state), Farewell::DropPublished(3)));
}

#[test]
fn waits_end_when_nobody_is_left() {
    let mut serving = State::<SubscribedState>::default();
    assert_eq!(serving.poll_serving_closed(), Progress::Pending);
    assert_eq!(serving.poll_forward(), Progress::Ready(Ok(())));
    serving.lock_mut().unwrap().forward = false;
    assert_eq!(serving.poll_forward(), Progress::Pending);
    serving.hang_up();
    assert!(serving.lock_mut().is_none());
    assert_eq!(serving.poll_serving_closed(), Progress::Ready(Ok(())));
    assert_eq!(serving.poll_forward(), Progress::Ready(Err(ServeError::Done)));
    assert_eq!(serving.poll_publish_ok(), Progress::Ready(Err(ServeError::Done)));

    let mut asking = State::new(SubscribeState::default());
    assert_eq!(asking.poll_ok(), Progress::Pending);
    assert_eq!(asking.poll_closed(), Progress::Pending);
    asking.lock_mut().unwrap().ok = true;
    assert_eq!(asking.poll_ok(), Progress::Ready(Ok(())));
    asking.lock_mut().unwrap().closed = Err(ServeError::Duplicate);
    assert_eq!(asking.poll_ok(), Progress::Ready(Err(ServeError::Duplicate)));
    assert_eq!(asking.poll_closed(), Progress::Ready(Err(ServeError::Duplicate)));
}

#[test]
fn failed_serving_ends_the_subscription_with_its_cause() {
    let mut state = State::<SubscribedState>::default();
    assert!(Subscribed::finish_serving(&mut state, Ok(())).is_ok());
    assert_eq!(state.lock().closed, Ok(()));
    assert_eq!(
        Subscribed::finish_serving(&mut state, Err(SessionError::Serve(ServeError::Size))),
        Err(SessionError::Serve(ServeError::Size))
    );
    assert_eq!(state.lock().closed, Err(ServeError::Size));
    assert_eq!(
        Subscribed::finish_serving(&mut state, Err(SessionError::WrongSize)),
        Err(SessionError::Serve(ServeError::Size))
    );
}

#[test]
fn track_is_served_as_it_is_written() {
    let (subscribed, mut recv) = subscribed(7);
    let known = |mode| ModeEvent::Known(Ok(mode));
    let chosen = subscribed.choose_server(everything(), known(TrackMode::Subgroups), &recv.state);
    match chosen.unwrap() {
        ModeAction::ServeSubgroups(server) => assert_eq!(server, TrackServer::new(everything())),
        other => panic!("unexpected action {:?}", other),
    }
    assert!(matches!(
        subscribed.choose_server(everything(), known(TrackMode::Datagrams), &recv.state),
        Ok(ModeAction::ServeDatagrams(_))
    ));
    assert!(matches!(
        subscribed.choose_server(everything(), ModeEvent::Changed, &recv.state),
        Ok(ModeAction::Wait)
    ));
    assert_eq!(
        subscribed
            .choose_server(everything(), ModeEvent::Known(Err(ServeError::NotFound)), &recv.state)
            .err(),
        Some(SessionError::Serve(ServeError::NotFound))
    );
    recv.recv_error(ServeError::Cancel).unwrap();
    assert_eq!(
        subscribed.choose_server(everything(), ModeEvent::Changed, &recv.state).err(),
        Some(SessionError::Serve(ServeError::Cancel))
    );

    let (published, recv) = Subscribed::new_published(&message::Publish {
        id: 7,
        track_namespace: TrackNamespace::from_utf8_path("tenant"),
        track_name: TrackName::of("video"),
        track_alias: 7,
        params: KeyValuePairs::default(),
    })
    .unwrap();
    assert_eq!(
        published.choose_server(everything(), known(TrackMode::Stream), &recv.state).err(),
        Some(SessionError::Serve(ServeError::NotImplementedWithId(
            0,
            "stream track reader mode".to_string()
        )))
    );
}
