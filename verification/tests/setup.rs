//! SETUP: what endpoints tell each other, and the path of a connection.

use moq::coding::{DecodeError, KeyValuePairs};
use moq::session::setup::{AUTHORITY, DEFAULT_MAX_REQUEST_UPDATES, MAX_REQUEST_UPDATES, PATH};
use moq::session::{Session, SessionError, Transport};

fn bytes_of(params: &KeyValuePairs, key: u64) -> Option<Vec<u8>> {
    match params.get(key) {
        Some(pair) => match &pair.value {
            moq::coding::Value::BytesValue(bytes) => Some(bytes.clone()),
            moq::coding::Value::IntValue(_) => None,
        },
        None => None,
    }
}

#[test]
fn raw_quic_tells_authority_and_path() {
    let plan = Session::plan_connect("moqt://relay.example:4433/Live/", Transport::RawQuic)
        .unwrap();
    assert_eq!(plan.connection_path.as_deref(), Some("/Live"));
    assert_eq!(bytes_of(&plan.params, AUTHORITY), Some(b"relay.example:4433".to_vec()));
    assert_eq!(bytes_of(&plan.params, PATH), Some(b"/Live/".to_vec()));
    assert_eq!(
        Session::peer_max_request_updates(&plan.params),
        Ok(DEFAULT_MAX_REQUEST_UPDATES)
    );
    assert_eq!(
        Session::decode_client_setup_path(&plan.params),
        Ok(Some("/Live".to_string()))
    );
}

#[test]
fn web_transport_tells_them_elsewhere() {
    let plan = Session::plan_connect("https://relay.example/Live?x=1", Transport::WebTransport)
        .unwrap();
    assert_eq!(plan.connection_path.as_deref(), Some("/Live"));
    assert!(!plan.params.has(AUTHORITY));
    assert!(!plan.params.has(PATH));
}

#[test]
fn query_travels_with_the_path_and_the_root_does_not() {
    let plan = Session::plan_connect("moqt://h/a?q=1", Transport::RawQuic).unwrap();
    assert_eq!(bytes_of(&plan.params, AUTHORITY), Some(b"h".to_vec()));
    assert_eq!(bytes_of(&plan.params, PATH), Some(b"/a?q=1".to_vec()));
    let plan = Session::plan_connect("https://h/", Transport::RawQuic).unwrap();
    assert_eq!(plan.connection_path, None);
    assert!(!plan.params.has(PATH));
}

#[test]
fn what_is_no_url_or_no_path_is_refused() {
    assert_eq!(
        Session::plan_connect("relay", Transport::RawQuic).err(),
        Some(SessionError::InvalidPath("not a URL".to_string()))
    );
    assert!(matches!(
        Session::plan_connect("moqt://h/a%20b", Transport::RawQuic).err(),
        Some(SessionError::InvalidPath(_))
    ));
}

#[test]
fn limit_of_updates_is_an_integer() {
    let mut params = KeyValuePairs::default();
    assert_eq!(Session::peer_max_request_updates(&params), Ok(0));
    params.set_intvalue(MAX_REQUEST_UPDATES, 3);
    assert_eq!(Session::peer_max_request_updates(&params), Ok(3));
    params.set_bytesvalue(MAX_REQUEST_UPDATES, vec![3]);
    assert_eq!(
        Session::peer_max_request_updates(&params),
        Err(SessionError::Decode(DecodeError::InvalidValue))
    );
}

#[test]
fn path_of_the_url_comes_before_that_of_setup() {
    let mut params = KeyValuePairs::default();
    params.set_bytesvalue(PATH, b"/setup".to_vec());
    assert_eq!(
        Session::resolve_connection_path("/url/", &params),
        Ok(Some("/url".to_string()))
    );
    assert_eq!(
        Session::resolve_connection_path("/", &params),
        Ok(Some("/setup".to_string()))
    );
    params.set_intvalue(PATH, 1);
    assert!(Session::decode_client_setup_path(&params).is_err());
    params.set_bytesvalue(PATH, vec![0xff]);
    assert!(Session::decode_client_setup_path(&params).is_err());
}

#[test]
fn session_knows_what_was_negotiated() {
    let session = Session::new(Transport::RawQuic, Some("/a".to_string()), 5);
    assert_eq!(session.transport(), Transport::RawQuic);
    assert_eq!(session.connection_path(), Some("/a"));
    assert_eq!(session.request_update_limits(), (DEFAULT_MAX_REQUEST_UPDATES, 5));
}

#[test]
fn both_ends_of_a_handshake_agree() {
    let plan = Session::plan_connect("moqt://relay.example/live", Transport::RawQuic).unwrap();
    let (server, answer, mut server_ids) =
        Session::accept(Transport::RawQuic, "", &plan.params).unwrap();
    let (client, mut client_ids) =
        Session::connected(plan, Transport::RawQuic, &answer).unwrap();
    assert_eq!(server.connection_path(), Some("/live"));
    assert_eq!(client.connection_path(), Some("/live"));
    let limits = (DEFAULT_MAX_REQUEST_UPDATES, DEFAULT_MAX_REQUEST_UPDATES);
    assert_eq!(server.request_update_limits(), limits);
    assert_eq!(client.request_update_limits(), limits);
    assert_eq!(server_ids.validate_incoming(0), Ok(()));
    assert_eq!(server_ids.validate_incoming(1), Err(SessionError::InvalidRequestId));
    assert_eq!(client_ids.validate_incoming(1), Ok(()));
}

#[test]
fn setup_that_cannot_be_read_is_refused() {
    let mut client = KeyValuePairs::default();
    client.set_bytesvalue(PATH, vec![0xff]);
    assert!(matches!(
        Session::accept(Transport::RawQuic, "", &client),
        Err(SessionError::InvalidPath(_))
    ));
    client.set_bytesvalue(MAX_REQUEST_UPDATES, vec![3]);
    assert!(matches!(
        Session::accept(Transport::RawQuic, "", &client),
        Err(SessionError::Decode(DecodeError::InvalidValue))
    ));
    let plan = Session::plan_connect("moqt://relay.example/", Transport::RawQuic).unwrap();
    assert!(matches!(
        Session::connected(plan, Transport::RawQuic, &client),
        Err(SessionError::Decode(DecodeError::InvalidValue))
    ));
}

#[test]
fn errors_are_described() {
    assert_eq!(SessionError::StreamReset(12).message(), "stream reset, code=12");
    assert_eq!(
        SessionError::Serve(moq::serve::ServeError::Closed(7)).message(),
        format!("serve error: {}", moq::serve::ServeError::Closed(7).message())
    );
    assert_eq!(
        SessionError::Decode(DecodeError::More(1)).message(),
        format!("decode error: {}", DecodeError::More(1).message())
    );
}

#[test]
fn normalizing_twice_changes_nothing() {
    for raw in ["/a", "/a/b///", "/A-b.c"] {
        let once = Session::normalize_connection_path(raw).unwrap().unwrap();
        assert_eq!(
            Session::normalize_connection_path(&once),
            Ok(Some(once.clone()))
        );
    }
}

#[test]
fn capitals_stay_capitals() {
    assert_eq!(
        Session::normalize_connection_path("/BigBuckBunny//"),
        Ok(Some("/BigBuckBunny".to_string()))
    );
    assert_ne!(
        Session::normalize_connection_path("/bigbuckbunny"),
        Session::normalize_connection_path("/BigBuckBunny")
    );
}
