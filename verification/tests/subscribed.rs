//! Subscriptions that are being served.

use moq::coding::KeyValuePairs;
use moq::message;
use moq::message::RequestErrorCode;
use moq::serve::ServeError;
use moq::session::subscribed::{Subscribed, SubscribedRecv, SubscribedState};
use moq::session::SessionError;
use moq::watch::State;

#[test]
fn subscribed_state_counts_opened_streams() {
    let mut state = SubscribedState::default();
    assert_eq!(state.stream_count, 0);

    state.record_stream_opened();
    assert_eq!(state.stream_count, 1);

    state.record_stream_opened();
    assert_eq!(state.stream_count, 2);
}

#[test]
fn publish_ok_updates_forward_and_acceptance() {
    let state = State::<SubscribedState>::default();
    let mut recv = SubscribedRecv { state };
    let mut params = KeyValuePairs::default();
    params.set_forward(false);
    recv.recv_publish_ok(&message::RequestOk {
        id: 7,
        params,
        track_properties: Default::default(),
    })
    .unwrap();
    assert!(recv.state.lock().accepted);
    assert!(!recv.state.lock().forward);
}

#[test]
fn reverse_request_update_changes_live_forward_state() {
    let state = State::<SubscribedState>::default();
    let mut recv = SubscribedRecv { state };
    recv.recv_forward_update(false).unwrap();
    assert!(!recv.state.lock().forward);
    recv.recv_forward_update(true).unwrap();
    assert!(recv.state.lock().forward);
}

#[test]
fn failed_reverse_update_marks_terminal_state_without_snapshotting_early() {
    let mut initial = SubscribedState::default();
    initial.record_stream_opened();
    let state = State::new(initial);
    let mut recv = SubscribedRecv { state };

    recv.recv_update_failed().unwrap();
    let state = recv.state.lock();
    assert_eq!(state.stream_count, 1);
    assert!(matches!(
        state.closed,
        Err(ServeError::Closed(code))
            if code == message::PublishDoneCode::UpdateFailed.code()
    ));
}

#[test]
fn subgroup_header_preserves_first_object_semantics() {
    assert!(Subscribed::subgroup_header_type(true).is_first_object());
    assert!(!Subscribed::subgroup_header_type(false).is_first_object());
}

#[test]
fn publish_rejection_is_terminal_before_acceptance() {
    let state = State::<SubscribedState>::default();
    let mut recv = SubscribedRecv { state };
    recv.recv_error(ServeError::Closed(RequestErrorCode::Uninterested.code()))
        .unwrap();
    let state = recv.state.lock();
    assert!(state.peer_rejected);
    assert!(matches!(
        state.closed,
        Err(ServeError::Closed(code)) if code == RequestErrorCode::Uninterested.code()
    ));
}

#[test]
fn peer_cancellation_closes_shared_media_state() {
    let state = State::<SubscribedState>::default();
    let mut recv = SubscribedRecv { state };
    recv.recv_error(ServeError::Cancel).unwrap();
    let state = recv.state.lock();
    assert!(state.peer_rejected);
    assert!(matches!(state.closed, Err(ServeError::Cancel)));
}

#[test]
fn publish_done_code_maps_done_to_track_ended() {
    assert_eq!(
        Subscribed::publish_done_code(&ServeError::Done),
        message::PublishDoneCode::TrackEnded.code()
    );
}

#[test]
fn publish_done_code_passes_through_closed_code() {
    assert_eq!(
        Subscribed::publish_done_code(&ServeError::Closed(0x12)),
        0x12
    );
}

#[test]
fn publish_done_code_maps_other_errors_to_internal() {
    assert_eq!(
        Subscribed::publish_done_code(&ServeError::internal_ctx("test")),
        message::PublishDoneCode::InternalError.code()
    );
}

#[test]
fn request_error_code_maps_rejection_reasons() {
    assert_eq!(
        Subscribed::request_error_code(&ServeError::NotFound),
        RequestErrorCode::DoesNotExist.code()
    );
    assert_eq!(
        Subscribed::request_error_code(&ServeError::Duplicate),
        RequestErrorCode::Uninterested.code()
    );
    assert_eq!(
        Subscribed::request_error_code(&ServeError::NotImplemented("fetch".to_string())),
        RequestErrorCode::NotSupported.code()
    );
    assert_eq!(
        Subscribed::request_error_code(&ServeError::Cancel),
        RequestErrorCode::Uninterested.code()
    );
    assert_eq!(
        Subscribed::request_error_code(&ServeError::Closed(0x42)),
        0x42
    );
}

#[test]
fn expected_serve_shutdown_is_only_cancel_or_done() {
    assert!(Subscribed::is_expected_serve_shutdown(
        &SessionError::Serve(ServeError::Cancel)
    ));
    assert!(Subscribed::is_expected_serve_shutdown(
        &SessionError::Serve(ServeError::Done)
    ));
    assert!(!Subscribed::is_expected_serve_shutdown(
        &SessionError::Serve(ServeError::NotFound)
    ));
    assert!(!Subscribed::is_expected_serve_shutdown(
        &SessionError::Internal
    ));
}
