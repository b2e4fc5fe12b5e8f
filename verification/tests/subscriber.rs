//! The subscriber of a session, and the subgroups that it receives.

use bytes::Bytes;
use moq::coding::{DecodeError, KeyValuePairs, ReasonPhrase, TrackName, TrackNamespace};
use moq::data::{
    Datagram, DatagramType, ExtensionHeaders, ObjectStatus, StreamHeaderType, SubgroupHeader,
    SubgroupIdMode, SubgroupObject,
};
use moq::message;
use moq::message::RequestErrorCode;
use moq::serve::{ServeError, TrackWriter};
use moq::session::receiving::SubgroupReceiver;
use moq::session::request_id::RequestId;
use moq::session::subscribe::SubscribeOptions;
use moq::session::subscribe_recv::Subscribe;
use moq::session::subscriber::{Subscriber, SubscriberEvent};
use moq::session::SessionError;
use moq::watch::Progress;

fn track() -> TrackWriter {
    TrackWriter::new(TrackNamespace::from_utf8_path("tenant"), TrackName::of("video"))
}

fn subscribed(id: u64, alias: u64) -> Subscriber {
    let mut subscriber = Subscriber::new();
    let (_, recv) =
        Subscribe::new_with_options(id, track(), SubscribeOptions::default()).unwrap();
    subscriber.register(id, recv);
    let event = subscriber.recv_message(accept(id, alias)).unwrap();
    assert!(matches!(event, SubscriberEvent::AliasKnown { track_alias } if track_alias == alias));
    subscriber
}

fn accept(id: u64, track_alias: u64) -> message::Publisher {
    message::Publisher::SubscribeOk(message::SubscribeOk {
        id,
        track_alias,
        params: KeyValuePairs::default(),
        track_extensions: Default::default(),
    })
}

fn refuse(id: u64, code: u64) -> message::Publisher {
    message::Publisher::RequestError(message::RequestError {
        id,
        error_code: code,
        retry_interval: 0,
        reason: ReasonPhrase("gone".to_string()),
        redirect: None,
    })
}

fn header(mode: SubgroupIdMode, subgroup_id: Option<u64>) -> SubgroupHeader {
    SubgroupHeader {
        header_type: StreamHeaderType::subgroup(true, mode, false, false, true),
        track_alias: 7,
        group_id: 4,
        subgroup_id,
        publisher_priority: 9,
    }
}

fn object(delta: u64, size: usize) -> SubgroupObject {
    SubgroupObject {
        object_id_delta: delta,
        extension_headers: Some(ExtensionHeaders::new()),
        payload_length: size,
        status: None,
    }
}

#[test]
fn remove_subscribe_clears_alias_map() {
    let mut subscriber = subscribed(0, 7);
    assert_eq!(subscriber.get_subscribe_id_by_alias(7), Some(0));
    assert!(subscriber.remove_subscribe(0).is_some());
    assert_eq!(subscriber.get_subscribe_id_by_alias(7), None);
    assert!(subscriber.remove_subscribe(0).is_none());
}

#[test]
fn refusals_are_told_by_their_meaning() {
    for (code, expected) in [
        (
            RequestErrorCode::DoesNotExist.code(),
            ServeError::NotFoundWithId(0, "gone".to_string()),
        ),
        (
            RequestErrorCode::InternalError.code(),
            ServeError::InternalWithId(0, "gone".to_string()),
        ),
        (RequestErrorCode::DuplicateSubscription.code(), ServeError::Duplicate),
        (
            RequestErrorCode::NotSupported.code(),
            ServeError::NotImplemented("gone".to_string()),
        ),
        (0x7777, ServeError::Closed(0x7777)),
    ] {
        let mut subscriber = subscribed(0, 7);
        match subscriber.recv_message(refuse(0, code)).unwrap() {
            SubscriberEvent::Ended { id, state } => {
                assert_eq!(id, 0);
                assert_eq!(state.lock().closed, Err(expected.clone()));
            }
            other => panic!("unexpected event {:?}", other),
        }
        // The track's readers are told the same, once.
        assert_eq!(subscriber.take_endings(), vec![(0, expected)]);
        assert!(subscriber.take_endings().is_empty());
        assert_eq!(subscriber.get_subscribe_id_by_alias(7), None);
    }
}

#[test]
fn publish_done_ends_the_subscription_with_its_code() {
    let mut subscriber = subscribed(0, 7);
    let done = |id| {
        message::Publisher::PublishDone(message::PublishDone {
            id,
            status_code: 5,
            stream_count: 1,
            reason: ReasonPhrase("over".to_string()),
        })
    };
    match subscriber.recv_message(done(0)).unwrap() {
        SubscriberEvent::Ended { state, .. } => {
            assert_eq!(state.lock().closed, Err(ServeError::Closed(5)));
        }
        other => panic!("unexpected event {:?}", other),
    }
    assert!(matches!(subscriber.recv_message(done(0)).unwrap(), SubscriberEvent::Nothing));
}

#[test]
fn second_acceptance_is_a_duplicate() {
    let mut subscriber = subscribed(0, 7);
    assert_eq!(
        subscriber.recv_message(accept(0, 8)).err(),
        Some(SessionError::Serve(ServeError::Duplicate))
    );
    assert!(matches!(
        subscriber.recv_message(accept(2, 8)).unwrap(),
        SubscriberEvent::Nothing
    ));
}

#[test]
fn namespace_is_offered_once() {
    let mut subscriber = Subscriber::new();
    let offer = |id| {
        message::Publisher::PublishNamespace(message::PublishNamespace {
            id,
            track_namespace: TrackNamespace::from_utf8_path("tenant"),
            params: Default::default(),
        })
    };
    assert!(matches!(
        subscriber.recv_message(offer(1)).unwrap(),
        SubscriberEvent::NamespaceOffered { request_id: 1, .. }
    ));
    assert_eq!(subscriber.recv_message(offer(3)).err(), Some(SessionError::Duplicate));
    let done =
        message::Publisher::PublishNamespaceDone(message::PublishNamespaceDone { id: 1 });
    assert!(matches!(
        subscriber.recv_message(done).unwrap(),
        SubscriberEvent::NamespaceDone { .. }
    ));
    subscriber.recv_message(offer(5)).unwrap();
    subscriber.send_message(message::Subscriber::PublishNamespaceCancel(
        message::PublishNamespaceCancel { id: 5 },
    ));
    subscriber.recv_message(offer(7)).unwrap();
}

#[test]
fn offered_track_is_refused_as_not_supported() {
    let mut subscriber = Subscriber::new();
    let publish = message::Publisher::Publish(message::Publish {
        id: 11,
        track_namespace: TrackNamespace::from_utf8_path("tenant"),
        track_name: TrackName::of("video"),
        track_alias: 1,
        params: Default::default(),
    });
    assert!(matches!(subscriber.recv_message(publish).unwrap(), SubscriberEvent::Nothing));
    assert!(matches!(
        &subscriber.take_outgoing()[0],
        message::Subscriber::RequestError(error)
            if error.id == 11 && error.error_code == RequestErrorCode::NotSupported.code()
    ));
}

#[test]
fn track_status_is_sent_while_ids_last() {
    let mut subscriber = Subscriber::new();
    let mut ids = RequestId::new(u64::MAX - 1, 1);
    let namespace = TrackNamespace::from_utf8_path("tenant");
    subscriber.track_status(&mut ids, &namespace, TrackName::of("video"));
    subscriber.track_status(&mut ids, &namespace, TrackName::of("video"));
    let sent = subscriber.take_outgoing();
    assert_eq!(sent.len(), 1);
    assert!(matches!(
        &sent[0],
        message::Subscriber::TrackStatus(status)
            if status.id == u64::MAX - 1 && status.track_namespace == namespace
    ));
}

#[test]
fn subscription_starts_with_the_next_id() {
    let mut ids = RequestId::new(4, 1);
    let (subscribe, _) =
        Subscriber::begin_subscribe(&mut ids, track(), SubscribeOptions::default()).unwrap();
    assert_eq!(subscribe.wire_message().id, 4);
    assert_eq!(subscribe.wire_message().track_name, TrackName::of("video"));

    let mut spent = RequestId::new(u64::MAX, 0);
    spent.allocate().unwrap();
    assert_eq!(
        Subscriber::begin_subscribe(&mut spent, track(), SubscribeOptions::default()).err(),
        Some(ServeError::InternalWithId(
            0,
            "request ID limit: invalid request ID".to_string()
        ))
    );
    assert_eq!(
        Subscriber::open_failed(&SessionError::WrongSize),
        ServeError::InternalWithId(
            0,
            "failed to open request stream: wrong size".to_string()
        )
    );
}

#[test]
fn objects_are_numbered_by_their_gaps() {
    let mut subscriber = subscribed(0, 7);
    let mut receiver = SubgroupReceiver::new(0, header(SubgroupIdMode::FirstObject, None));
    let mut first = receiver.begin_object(object(5, 3), &mut subscriber).unwrap();
    assert_eq!(first.object_id, 5);
    assert_eq!(first.subgroup.subgroup_id, 5);
    assert_eq!(first.subgroup.group_id, 4);
    assert!(first.subgroup.first_object);
    assert!(!receiver.take_chunk(&mut first, Bytes::from_static(b"a")));
    assert_eq!(receiver.stream_ended().err(), Some(SessionError::WrongSize));
    assert!(receiver.take_chunk(&mut first, Bytes::from_static(b"bc")));
    assert_eq!(first.chunks.concat(), b"abc");
    assert!(receiver.stream_ended().is_ok());

    let second = receiver.begin_object(object(0, 0), &mut subscriber).unwrap();
    assert_eq!(second.object_id, 6);
    assert_eq!(second.subgroup, first.subgroup);
    let third = receiver.begin_object(object(2, 0), &mut subscriber).unwrap();
    assert_eq!(third.object_id, 9);
    assert_eq!(
        receiver.begin_object(object(u64::MAX - 9, 0), &mut subscriber).err(),
        Some(SessionError::ProtocolViolation("subgroup object id overflow".to_string()))
    );
}

#[test]
fn marked_object_has_no_extension_headers() {
    let mut subscriber = subscribed(0, 7);
    let mut receiver = SubgroupReceiver::new(0, header(SubgroupIdMode::Explicit, Some(1)));
    let mut headers = ExtensionHeaders::new();
    headers.set_intvalue(2, 1);
    let mut marked = object(0, 0);
    marked.status = Some(ObjectStatus::EndOfGroup);
    marked.extension_headers = Some(headers);
    assert_eq!(
        receiver.begin_object(marked, &mut subscriber).err(),
        Some(SessionError::ProtocolViolation(
            "non-normal object status with extension headers".to_string()
        ))
    );
}

#[test]
fn stream_of_an_unknown_subscription_is_not_found() {
    let mut subscriber = Subscriber::new();
    let mut receiver = SubgroupReceiver::new(3, header(SubgroupIdMode::Zero, None));
    assert_eq!(
        receiver.begin_object(object(0, 0), &mut subscriber).err(),
        Some(SessionError::Serve(ServeError::NotFoundWithId(
            0,
            "subscribe_id=3 not found for track_alias=7".to_string()
        )))
    );
    assert_eq!(
        Subscriber::unknown_alias(7),
        SessionError::Serve(ServeError::NotFoundWithId(
            0,
            "subscription track_alias=7 not found".to_string()
        ))
    );
}

#[test]
fn only_subgroup_streams_are_taken() {
    assert!(Subscriber::check_stream(header(SubgroupIdMode::Zero, None).header_type).is_ok());
    assert_eq!(
        Subscriber::check_stream(StreamHeaderType::Fetch).err(),
        Some(SessionError::Unimplemented("non-SUBGROUP stream types".to_string()))
    );
}

#[test]
fn failed_stream_ends_its_subscription() {
    let mut subscriber = subscribed(0, 7);
    let other = subscriber.abort_stream(7, &SessionError::WrongSize).unwrap();
    assert!(matches!(other, SubscriberEvent::Nothing));
    let ended = subscriber
        .abort_stream(7, &SessionError::Serve(ServeError::Size))
        .unwrap();
    assert!(matches!(ended, SubscriberEvent::Ended { id: 0, .. }));
    assert_eq!(subscriber.get_subscribe_id_by_alias(7), None);
}

fn datagram(track_alias: u64) -> Datagram {
    Datagram {
        datagram_type: DatagramType::ObjectIdPayload,
        track_alias,
        group_id: 3,
        object_id: Some(4),
        publisher_priority: 5,
        extension_headers: None,
        status: None,
        payload: Some(Bytes::from_static(b"hello")),
    }
}

#[test]
fn datagram_goes_to_the_track_of_its_alias() {
    let mut subscriber = subscribed(0, 7);
    assert_eq!(subscriber.recv_datagram(datagram(8)), Ok(false));
    assert_eq!(subscriber.recv_datagram(datagram(7)), Ok(true));
    let mut receiver = SubgroupReceiver::new(0, header(SubgroupIdMode::Zero, None));
    assert_eq!(
        receiver.begin_object(object(0, 0), &mut subscriber).err(),
        Some(SessionError::Serve(ServeError::Mode))
    );
}

#[test]
fn datagram_is_read_off_the_wire() {
    let mut buffer = bytes::BytesMut::new();
    datagram(7).encode(&mut buffer).unwrap();
    let read = Subscriber::decode_datagram(&buffer.freeze()).unwrap();
    assert_eq!(read, datagram(7));
    assert_eq!(
        Subscriber::decode_datagram(&Bytes::new()).err(),
        Some(SessionError::Decode(DecodeError::More(1)))
    );
}

#[test]
fn alias_is_waited_for_until_the_time_is_up() {
    let subscriber = subscribed(0, 7);
    assert_eq!(subscriber.poll_alias(7, false), Progress::Ready(Some(0)));
    assert_eq!(subscriber.poll_alias(8, false), Progress::Pending);
    assert_eq!(subscriber.poll_alias(8, true), Progress::Ready(None));
}

#[test]
fn cause_is_told_to_readers_and_to_the_application() {
    let recv = || {
        Subscribe::new_with_options(0, track(), SubscribeOptions::default()).unwrap().1
    };
    let mut accepted = recv();
    if let message::Publisher::SubscribeOk(ok) = accept(0, 7) {
        accepted.ok(&ok).unwrap();
    }
    let ending = accepted.error(ServeError::Closed(3));
    assert_eq!(ending.result, Ok(()));
    assert_eq!(ending.told, Some(ServeError::Closed(3)));
    assert_eq!(ending.state.poll_closed(), Progress::Ready(Err(ServeError::Closed(3))));
    assert_eq!(ending.state.poll_ok(), Progress::Ready(Err(ServeError::Closed(3))));

    let mut unread = track();
    unread.live = false;
    let (_, recv) =
        Subscribe::new_with_options(0, unread, SubscribeOptions::default()).unwrap();
    let ending = recv.error(ServeError::Closed(3));
    assert_eq!(ending.result, Err(ServeError::Cancel));
    assert_eq!(ending.told, None);
    assert_eq!(ending.state.poll_closed(), Progress::Pending);
}

#[test]
fn readers_take_the_datagrams_that_came() {
    let mut subscriber = subscribed(0, 7);
    assert!(subscriber.take_datagrams(0).is_empty());
    assert_eq!(subscriber.recv_datagram(datagram(7)), Ok(true));
    assert_eq!(subscriber.recv_datagram(datagram(7)), Ok(true));
    let taken = subscriber.take_datagrams(0);
    assert_eq!(taken.len(), 2);
    assert_eq!(Some(&taken[0].payload), datagram(7).payload.as_ref());
    assert!(subscriber.take_datagrams(0).is_empty());
    assert!(subscriber.take_datagrams(1).is_empty());
    assert_eq!(subscriber.recv_datagram(datagram(7)), Ok(true));
    assert_eq!(subscriber.take_datagrams(0).len(), 1);
}

#[test]
fn nothing_is_written_once_nobody_reads() {
    let mut subscriber = subscribed(0, 7);
    subscriber.readers_gone(0);
    subscriber.readers_gone(1);
    assert_eq!(
        subscriber.recv_datagram(datagram(7)),
        Err(SessionError::Serve(ServeError::Cancel))
    );
    let mut subscriber = subscribed(0, 7);
    subscriber.readers_gone(0);
    assert_eq!(
        subscriber.recv_message(refuse(0, 0x7777)).err(),
        Some(SessionError::Serve(ServeError::Cancel))
    );
    assert!(subscriber.take_endings().is_empty());
}

#[test]
fn subscription_is_waited_on_while_it_lasts() {
    let mut subscriber = subscribed(0, 7);
    assert!(subscriber.subscription_state(1).is_none());
    let state = subscriber.subscription_state(0).unwrap();
    assert_eq!(state.poll_ok(), Progress::Ready(Ok(())));
    assert_eq!(state.poll_closed(), Progress::Pending);
    subscriber.hang_up(0);
    subscriber.hang_up(1);
    let state = subscriber.subscription_state(0).unwrap();
    assert_eq!(state.poll_closed(), Progress::Ready(Ok(())));
    assert_eq!(
        subscriber.recv_message(refuse(0, 0x7777)).err(),
        Some(SessionError::Serve(ServeError::Cancel))
    );
    // The track's readers are there, and are told.
    assert_eq!(subscriber.take_endings(), vec![(0, ServeError::Closed(0x7777))]);
}
