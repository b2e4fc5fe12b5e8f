//! The publisher of a session.

use moq::coding::{KeyValuePairs, ReasonPhrase, TrackName, TrackNamespace};
use moq::message;
use moq::message::RequestErrorCode;
use moq::serve::{FullTrackName, ServeError};
use moq::session::publisher::{
    NamespaceArrival, NamespaceServing, NamespaceStep, Publisher, PublisherEvent,
};
use moq::session::registry::{NamespaceTable, SubscribedNames};
use moq::session::request_id::RequestId;
use moq::session::subscribed::{Farewell, SubscriptionInitiator};
use moq::session::SessionError;

fn full_track_name(namespace: &str, name: &str) -> FullTrackName {
    FullTrackName {
        namespace: TrackNamespace::from_utf8_path(namespace),
        name: TrackName::of(name),
    }
}

fn subscribe(id: u64, namespace: &str, name: &str) -> message::Subscriber {
    message::Subscriber::Subscribe(message::Subscribe {
        id,
        track_namespace: TrackNamespace::from_utf8_path(namespace),
        track_name: TrackName::of(name),
        params: KeyValuePairs::default(),
    })
}

fn request_error(id: u64, code: u64) -> message::RequestError {
    message::RequestError {
        id,
        error_code: code,
        retry_interval: 0,
        reason: ReasonPhrase("no".to_string()),
        redirect: None,
    }
}

#[test]
fn drop_subscribed_name_removes_only_matching_request_id() {
    let mut subscribed_names = SubscribedNames::new();
    let unsubscribed_track = full_track_name("bb1", "video.m4s");
    let active_track = full_track_name("bb1", "audio.m4s");

    subscribed_names.insert(unsubscribed_track.clone(), 6);
    subscribed_names.insert(active_track.clone(), 8);

    subscribed_names.drop_subscribed_name(6);

    assert!(!subscribed_names.contains_key(&unsubscribed_track));
    assert_eq!(subscribed_names.get(&active_track), Some(8));
}

#[test]
fn namespace_table_frees_a_dropped_namespace() {
    let mut table = NamespaceTable::new();
    let live = TrackNamespace::from_utf8_path("tenant/live");
    let other = TrackNamespace::from_utf8_path("tenant/other");
    table.insert(live.clone(), 0);
    table.insert(other.clone(), 2);
    assert_eq!(table.get(&live), Some(0));
    assert!(table.has_request(2));
    assert_eq!(table.drop_request(0), Some(live.clone()));
    assert!(!table.contains_key(&live));
    assert!(table.contains_key(&other));
    assert_eq!(table.drop_request(0), None);
}

#[test]
fn subscription_is_registered_and_routed() {
    let mut publisher = Publisher::new();
    let mut ids = RequestId::new(0, 1);
    let namespace = TrackNamespace::from_utf8_path("tenant/live");
    let offer = publisher.begin_publish_namespace(&mut ids, &namespace).unwrap();
    assert_eq!(offer.id, 0);
    assert_eq!(offer.track_namespace, namespace);

    match publisher.recv_message(subscribe(1, "tenant/live", "video")).unwrap() {
        PublisherEvent::Subscribed { subscribed, namespace_request } => {
            assert!(!subscribed.ok);
            assert_eq!(subscribed.initiator, SubscriptionInitiator::Subscriber);
            assert_eq!(subscribed.info.id, 1);
            assert_eq!(subscribed.initiator, SubscriptionInitiator::Subscriber);
            assert!(!subscribed.ok);
            assert_eq!(namespace_request, Some(0));
        }
        other => panic!("unexpected event {:?}", other),
    }
    match publisher.recv_message(subscribe(3, "elsewhere", "video")).unwrap() {
        PublisherEvent::Subscribed { namespace_request, .. } => {
            assert_eq!(namespace_request, None);
        }
        other => panic!("unexpected event {:?}", other),
    }
    assert!(publisher.take_outgoing().is_empty());
}

#[test]
fn repeated_subscription_is_refused_without_ending_the_session() {
    let mut publisher = Publisher::new();
    publisher.recv_message(subscribe(1, "tenant", "video")).unwrap();
    for (id, name) in [(1, "audio"), (3, "video")] {
        let event = publisher.recv_message(subscribe(id, "tenant", name)).unwrap();
        assert!(matches!(event, PublisherEvent::Nothing));
        let sent = publisher.take_outgoing();
        assert_eq!(sent.len(), 1);
        assert!(matches!(
            &sent[0],
            message::Publisher::RequestError(error)
                if error.id == id
                    && error.error_code == RequestErrorCode::DuplicateSubscription.code()
                    && error.reason.0 == "duplicate subscription"
        ));
    }
}

#[test]
fn ended_subscription_can_be_made_again() {
    let mut publisher = Publisher::new();
    publisher.recv_message(subscribe(1, "tenant", "video")).unwrap();
    publisher.bid_farewell(Farewell::Done(message::PublishDone {
        id: 1,
        status_code: 2,
        stream_count: 3,
        reason: ReasonPhrase("done".to_string()),
    }));
    let sent = publisher.take_outgoing();
    assert!(matches!(&sent[0], message::Publisher::PublishDone(done) if done.id == 1));
    let event = publisher.recv_message(subscribe(3, "tenant", "video")).unwrap();
    assert!(matches!(event, PublisherEvent::Subscribed { .. }));

    publisher.bid_farewell(Farewell::Refused(request_error(3, 0x10)));
    assert!(matches!(
        &publisher.take_outgoing()[0],
        message::Publisher::RequestError(error) if error.id == 3
    ));
    publisher.recv_message(subscribe(5, "tenant", "video")).unwrap();
    publisher.bid_farewell(Farewell::DropPublished(5));
    assert!(publisher.take_outgoing().is_empty());
    assert!(publisher.take_subscribed(5).is_none());
}

#[test]
fn unsubscribe_cancels_or_is_a_violation() {
    let mut publisher = Publisher::new();
    publisher.recv_message(subscribe(1, "tenant", "video")).unwrap();
    let unsubscribe = |id| message::Subscriber::Unsubscribe(message::Unsubscribe { id });
    match publisher.recv_message(unsubscribe(1)).unwrap() {
        PublisherEvent::Unsubscribed { id, recv } => {
            assert_eq!(id, 1);
            assert!(recv.state.lock().peer_rejected);
            assert_eq!(recv.state.lock().closed, Err(ServeError::Cancel));
        }
        other => panic!("unexpected event {:?}", other),
    }
    assert_eq!(
        publisher.recv_message(unsubscribe(1)).err(),
        Some(SessionError::ProtocolViolation(
            "UNSUBSCRIBE for unknown subscribe ID 1".to_string()
        ))
    );
}

#[test]
fn namespace_is_offered_once_at_a_time() {
    let mut publisher = Publisher::new();
    let mut ids = RequestId::new(u64::MAX - 1, 1);
    let namespace = TrackNamespace::from_utf8_path("tenant");
    let offer = publisher.begin_publish_namespace(&mut ids, &namespace).unwrap();
    assert_eq!(
        publisher.begin_publish_namespace(&mut ids, &namespace).err(),
        Some(SessionError::Serve(ServeError::Duplicate))
    );
    assert!(publisher.drop_publish_namespace(offer.id).is_some());
    assert_eq!(
        publisher.begin_publish_namespace(&mut ids, &namespace).err(),
        Some(SessionError::InvalidRequestId)
    );
}

#[test]
fn answers_to_an_offer_reach_its_namespace() {
    let mut publisher = Publisher::new();
    let mut ids = RequestId::new(0, 1);
    let namespace = TrackNamespace::from_utf8_path("tenant");
    publisher.begin_publish_namespace(&mut ids, &namespace).unwrap();
    let ok = message::Subscriber::RequestOk(message::RequestOk {
        id: 0,
        params: Default::default(),
        track_properties: Default::default(),
    });
    assert!(matches!(
        publisher.recv_message(ok).unwrap(),
        PublisherEvent::NamespaceAccepted { request_id: 0 }
    ));
    match publisher
        .recv_message(message::Subscriber::RequestError(request_error(0, 0x42)))
        .unwrap()
    {
        PublisherEvent::NamespaceClosed { namespace: closed, cause } => {
            assert_eq!(closed, namespace);
            assert_eq!(cause, ServeError::Closed(0x42));
        }
        other => panic!("unexpected event {:?}", other),
    }
    publisher.begin_publish_namespace(&mut ids, &namespace).unwrap();
    let cancel =
        message::Subscriber::PublishNamespaceCancel(message::PublishNamespaceCancel { id: 2 });
    assert!(matches!(
        publisher.recv_message(cancel).unwrap(),
        PublisherEvent::NamespaceClosed { cause: ServeError::Cancel, .. }
    ));
}

#[test]
fn unimplemented_requests_are_refused() {
    let mut publisher = Publisher::new();
    let update = message::Subscriber::RequestUpdate(message::RequestUpdate {
        id: 9,
        params: Default::default(),
    });
    assert!(matches!(publisher.recv_message(update).unwrap(), PublisherEvent::Nothing));
    assert!(matches!(
        &publisher.take_outgoing()[0],
        message::Publisher::RequestError(error)
            if error.id == 9
                && error.error_code == RequestErrorCode::NotSupported.code()
                && error.reason.0 == "not supported"
    ));
    let cancel = message::Subscriber::FetchCancel(message::FetchCancel { id: 9 });
    assert!(matches!(publisher.recv_message(cancel).unwrap(), PublisherEvent::Nothing));
    assert!(publisher.take_outgoing().is_empty());
}

#[test]
fn texts_name_the_track() {
    assert_eq!(
        Publisher::track_not_found("tenant", "video", "in tracks"),
        ServeError::NotFoundWithId(0, "track 'tenant/video' not found in tracks".to_string())
    );
    assert_eq!(
        Publisher::not_taken("tenant"),
        ServeError::NotFoundWithId(
            0,
            "unknown_subscribed queue full for namespace tenant".to_string()
        )
    );
}

#[test]
fn namespace_is_served_until_everything_is_done() {
    let mut serving = NamespaceServing::new();
    let step = serving.next(NamespaceArrival::Subscription(Ok(true))).unwrap();
    assert_eq!(step, NamespaceStep::Serve);
    assert_eq!(
        serving.next(NamespaceArrival::Subscription(Ok(false))).unwrap(),
        NamespaceStep::Wait
    );
    assert_eq!(
        serving.next(NamespaceArrival::StatusRequest(Ok(false))).unwrap(),
        NamespaceStep::Wait
    );
    assert_eq!(serving.next(NamespaceArrival::Served).unwrap(), NamespaceStep::Finish);
    assert_eq!(
        serving.next(NamespaceArrival::Subscription(Err(ServeError::Cancel))).err(),
        Some(SessionError::Serve(ServeError::Cancel))
    );
}
