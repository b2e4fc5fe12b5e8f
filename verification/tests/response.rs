//! Responses on request streams.

use bytes::BytesMut;
use moq::coding::{
    EncodeError, KeyValuePairs, Location, ReasonPhrase, SessionUri, TrackName, TrackNamespace,
};
use moq::message;
use moq::message::{wire_id, Message};
use moq::session::{RequestKind, Session, SessionError};

fn encode_bidi_response_bytes(msg: &Message) -> Vec<u8> {
    Session::encode_bidi_response_frame(msg).unwrap().to_vec()
}

#[test]
fn encode_bidi_request_ok_omits_request_id() {
    let msg = Message::RequestOk(message::RequestOk {
        id: 42, // should NOT appear on the wire
        params: KeyValuePairs::default(),
        track_properties: Default::default(),
    });
    let bytes = encode_bidi_response_bytes(&msg);
    // type (1 byte) + length 0x0001 (2 bytes) + params_count=0 (1 byte) = 4 bytes
    assert_eq!(bytes[0], wire_id::RequestOk as u8);
    assert_eq!(bytes.len(), 4);
}

#[test]
fn encode_bidi_request_error_omits_request_id() {
    let msg = Message::RequestError(message::RequestError {
        id: 99, // should NOT appear on the wire
        error_code: 0x10,
        retry_interval: 0,
        reason: ReasonPhrase("nf".to_string()),
        redirect: None,
    });
    let bytes = encode_bidi_response_bytes(&msg);
    assert_eq!(bytes[0], wire_id::RequestError as u8);
    // No 99 (0x63) anywhere in the output
    assert!(
        !bytes.contains(&99),
        "Request ID must not appear in bidi encoding"
    );
}

#[test]
fn response_target_id_covers_responses_only() {
    // Response messages should return Some(id)
    assert!(Message::RequestOk(message::RequestOk {
        id: 1,
        params: Default::default(),
        track_properties: Default::default(),
    })
    .response_target_id()
    .is_some());
    assert!(Message::RequestError(message::RequestError {
        id: 1,
        error_code: 0,
        retry_interval: 0,
        reason: Default::default(),
        redirect: None,
    })
    .response_target_id()
    .is_some());

    // Request messages should return None
    assert!(Message::Subscribe(message::Subscribe {
        id: 1,
        track_namespace: TrackNamespace::from_utf8_path("t"),
        track_name: TrackName::of("n"),
        params: Default::default(),
    })
    .response_target_id()
    .is_none());
    assert!(Message::GoAway(message::GoAway {
        uri: SessionUri(String::new()),
        timeout: 0,
    })
    .response_target_id()
    .is_none());
}

#[test]
fn request_ok_properties_are_rejected_outside_track_status() {
    let mut properties = message::TrackProperties::default();
    properties.set_int_extension(0x78, 1);
    let response = Message::RequestOk(message::RequestOk {
        id: 2,
        params: Default::default(),
        track_properties: properties,
    });

    assert!(matches!(
        Session::validate_response_for_request(RequestKind::Subscribe, false, &response),
        Err(SessionError::ProtocolViolation(_))
    ));
    assert!(
        Session::validate_response_for_request(RequestKind::TrackStatus, false, &response)
            .is_ok()
    );
    assert!(matches!(
        Session::validate_response_for_request(RequestKind::TrackStatus, true, &response),
        Err(SessionError::ProtocolViolation(_))
    ));
}

#[test]
fn namespace_redirect_rejects_track_name() {
    let response = Message::RequestError(message::RequestError {
        id: 2,
        error_code: message::RequestErrorCode::Redirect.code(),
        retry_interval: 0,
        reason: Default::default(),
        redirect: Some(message::Redirect {
            connect_uri: Default::default(),
            track_namespace: Default::default(),
            track_name: TrackName::of("audio"),
        }),
    });

    assert!(matches!(
        Session::validate_response_for_request(RequestKind::PublishNamespace, false, &response),
        Err(SessionError::ProtocolViolation(_))
    ));
}

#[test]
fn encode_bidi_publish_done_omits_request_id() {
    let msg = Message::PublishDone(message::PublishDone {
        id: 77,
        status_code: 0,
        stream_count: 3,
        reason: ReasonPhrase("done".to_string()),
    });
    let bytes = encode_bidi_response_bytes(&msg);
    assert_eq!(bytes[0], wire_id::PublishDone as u8);
    assert!(
        !bytes.contains(&77),
        "Request ID must not appear in bidi encoding"
    );
}

#[test]
fn encode_bidi_fetch_ok_omits_request_id() {
    let msg = Message::FetchOk(message::FetchOk {
        id: 88,
        end_of_track: true,
        end_location: Location::new(5, 10),
        params: KeyValuePairs::default(),
        track_extensions: Default::default(),
    });
    let bytes = encode_bidi_response_bytes(&msg);
    assert_eq!(bytes[0], wire_id::FetchOk as u8);
    assert!(
        !bytes.contains(&88),
        "Request ID must not appear in bidi encoding"
    );
}

#[test]
fn publish_followups_keep_terminal_and_update_response_associations_distinct() {
    assert_eq!(
        Session::publish_followup_request_id(message::wire_id::PublishDone, 10, Some(12))
            .unwrap(),
        10
    );
    assert_eq!(
        Session::publish_followup_request_id(message::wire_id::RequestOk, 10, Some(12))
            .unwrap(),
        12
    );
    assert!(matches!(
        Session::publish_followup_request_id(message::wire_id::RequestError, 10, None),
        Err(SessionError::ProtocolViolation(_))
    ));
}

#[test]
fn publish_response_direction_decodes_full_request_update_id_and_forward() {
    let mut params = KeyValuePairs::default();
    params.set_forward(false);
    let update = message::RequestUpdate { id: 14, params };
    let mut payload = BytesMut::new();
    update.encode(&mut payload).unwrap();

    let decoded =
        Session::decode_publish_response_payload(message::wire_id::RequestUpdate, payload, 10)
            .unwrap();
    let Message::RequestUpdate(decoded) = decoded else {
        panic!("expected REQUEST_UPDATE");
    };
    assert_eq!(decoded.id, 14);
    assert_eq!(decoded.params.forward().unwrap(), Some(false));
}

fn refusal(error_code: u64, reason: &str, redirect: Option<message::Redirect>) -> Message {
    Message::RequestError(message::RequestError {
        id: 2,
        error_code,
        retry_interval: 0,
        reason: ReasonPhrase(reason.to_string()),
        redirect,
    })
}

#[test]
fn redirect_must_match_the_error_code() {
    let redirect = message::RequestErrorCode::Redirect.code();
    let target = message::Redirect {
        connect_uri: Default::default(),
        track_namespace: Default::default(),
        track_name: TrackName::of("audio"),
    };

    let Err(SessionError::ProtocolViolation(text)) =
        Session::encode_bidi_response_frame(&refusal(redirect, "", None))
    else {
        panic!("expected a violation");
    };
    assert_eq!(text, "REDIRECT REQUEST_ERROR omitted Redirect");

    let Err(SessionError::ProtocolViolation(text)) =
        Session::encode_bidi_response_frame(&refusal(0x10, "", Some(target)))
    else {
        panic!("expected a violation");
    };
    assert_eq!(text, "non-REDIRECT REQUEST_ERROR contained Redirect");
}

#[test]
fn first_field_that_cannot_be_written_decides() {
    let long = "x".repeat(1025);
    assert!(matches!(
        Session::encode_bidi_response_frame(&refusal(0x10, &long, None)),
        Err(SessionError::Encode(EncodeError::FieldBoundsExceeded))
    ));
    // The code comes before the reason, and the reason before the redirect.
    assert!(matches!(
        Session::encode_bidi_response_frame(&refusal(1 << 62, &long, None)),
        Err(SessionError::Encode(EncodeError::BoundsExceeded))
    ));
    assert!(matches!(
        Session::encode_bidi_response_frame(&refusal(
            message::RequestErrorCode::Redirect.code(),
            &long,
            None
        )),
        Err(SessionError::Encode(EncodeError::FieldBoundsExceeded))
    ));
}

#[test]
fn oversized_response_is_refused() {
    let mut params = KeyValuePairs::default();
    params.set_bytesvalue(0x101, vec![7u8; 40_000]);
    params.set_bytesvalue(0x103, vec![7u8; 40_000]);
    let msg = Message::RequestOk(message::RequestOk {
        id: 2,
        params,
        track_properties: Default::default(),
    });
    assert!(matches!(
        Session::encode_bidi_response_frame(&msg),
        Err(SessionError::Encode(EncodeError::MsgBoundsExceeded))
    ));
}

#[test]
fn frame_does_not_depend_on_the_request_id() {
    let frame = |id| {
        encode_bidi_response_bytes(&Message::PublishDone(message::PublishDone {
            id,
            status_code: 2,
            stream_count: 3,
            reason: ReasonPhrase("done".to_string()),
        }))
    };
    assert_eq!(frame(0), frame(u64::MAX));
    assert_eq!(frame(0)[1..3], [0, 7]);
    assert_eq!(frame(0).len(), 1 + 2 + 7);
}
