//! The wire encoding: exact bytes, round trips and errors.

use bytes::{Bytes, BytesMut};
use moq::coding::buffer::Cursor;
use moq::coding::field::{decode_flag, encode_flag};
use moq::coding::varint::{decode_varint, encode_varint, VARINT_LIMIT};
use moq::coding::{
    DecodeError, EncodeError, KeyValuePairs, Location, ReasonPhrase, SessionUri, TrackName,
    TrackNamespace,
};
use moq::data::{Datagram, DatagramType, ExtensionHeaders, ObjectStatus};
use moq::message::{FilterType, SubscriptionFilter};

fn varint(value: u64) -> Vec<u8> {
    let mut buffer = BytesMut::new();
    encode_varint(value, &mut buffer).unwrap();
    buffer.to_vec()
}

fn reason(text: &str) -> Result<Vec<u8>, EncodeError> {
    let mut buffer = BytesMut::new();
    ReasonPhrase(text.to_string()).encode(&mut buffer)?;
    Ok(buffer.to_vec())
}

#[test]
fn integers_take_as_many_bytes_as_they_need() {
    assert_eq!(varint(0), [0x00]);
    assert_eq!(varint(0x3f), [0x3f]);
    assert_eq!(varint(0x40), [0x40, 0x40]);
    assert_eq!(varint(0x3fff), [0x7f, 0xff]);
    assert_eq!(varint(0x4000), [0x80, 0x00, 0x40, 0x00]);
    assert_eq!(varint(0x4000_0000), [0xc0, 0, 0, 0, 0x40, 0, 0, 0]);
    assert_eq!(varint(VARINT_LIMIT - 1), [0xff; 8]);
    for value in [0, 0x3f, 0x40, 0x3fff, 0x4000, 0x3fff_ffff, 0x4000_0000, VARINT_LIMIT - 1] {
        let bytes = varint(value);
        let mut cursor = Cursor::new(&bytes);
        assert_eq!(decode_varint(&mut cursor), Ok(value));
        assert_eq!(cursor.remaining(), 0);
    }
    let mut buffer = BytesMut::new();
    assert_eq!(encode_varint(VARINT_LIMIT, &mut buffer), Err(EncodeError::BoundsExceeded));
    assert!(buffer.is_empty());
    assert_eq!(decode_varint(&mut Cursor::new(&[0x80, 0])), Err(DecodeError::More(2)));
}

#[test]
fn flags_are_one_byte() {
    let mut buffer = BytesMut::new();
    encode_flag(true, &mut buffer).unwrap();
    encode_flag(false, &mut buffer).unwrap();
    assert_eq!(buffer.to_vec(), [1, 0]);
    let mut cursor = Cursor::new(&buffer);
    assert_eq!(decode_flag(&mut cursor), Ok(true));
    assert_eq!(decode_flag(&mut cursor), Ok(false));
    assert_eq!(decode_flag(&mut Cursor::new(&[2])), Err(DecodeError::InvalidValue));
}

#[test]
fn pairs_are_written_by_ascending_key() {
    let mut pairs = KeyValuePairs::default();
    pairs.set_intvalue(8, 5);
    pairs.set_bytesvalue(3, vec![0xaa, 0xbb]);
    pairs.set_intvalue(8, 6);
    let mut buffer = BytesMut::new();
    pairs.encode(&mut buffer).unwrap();
    // A count, then each key as its distance from the one before.
    assert_eq!(buffer.to_vec(), [2, 3, 2, 0xaa, 0xbb, 5, 6]);
    let read = KeyValuePairs::decode(&mut Cursor::new(&buffer)).unwrap();
    assert!(read.has(3) && read.has(8) && !read.has(5));
    assert_eq!(read.get(8), pairs.get(8));
    assert_eq!(read.0[0].key, 3);

    let mut wrong = KeyValuePairs::default();
    wrong.set_intvalue(3, 1);
    assert_eq!(
        wrong.encode(&mut BytesMut::new()),
        Err(EncodeError::InvalidValue)
    );
}

#[test]
fn names_are_fields() {
    let mut buffer = BytesMut::new();
    TrackName::of("ab").encode(&mut buffer).unwrap();
    TrackNamespace::from_utf8_path("x/yz").encode(&mut buffer).unwrap();
    assert_eq!(buffer.to_vec(), [2, b'a', b'b', 2, 1, b'x', 2, b'y', b'z']);
    let mut cursor = Cursor::new(&buffer);
    assert_eq!(TrackName::decode(&mut cursor), Ok(TrackName::of("ab")));
    assert_eq!(
        TrackNamespace::decode(&mut cursor),
        Ok(TrackNamespace::from_utf8_path("x/yz"))
    );
    let mut buffer = BytesMut::new();
    TrackNamespace::from_utf8_path("/x/").encode(&mut buffer).unwrap();
    assert_eq!(buffer.to_vec(), [3, 0, 1, b'x', 0]);
}

#[test]
fn texts_are_utf8() {
    let bytes = reason("h\u{e9}").unwrap();
    assert_eq!(bytes, [3, b'h', 0xc3, 0xa9]);
    assert_eq!(
        ReasonPhrase::decode(&mut Cursor::new(&bytes)),
        Ok(ReasonPhrase("h\u{e9}".to_string()))
    );
    assert_eq!(
        ReasonPhrase::decode(&mut Cursor::new(&[1, 0xff])),
        Err(DecodeError::InvalidString)
    );
    assert_eq!(reason(&"x".repeat(1025)), Err(EncodeError::FieldBoundsExceeded));
    assert_eq!(reason(&"x".repeat(1024)).unwrap().len(), 1026);
    let mut buffer = BytesMut::new();
    SessionUri("moqt://h".to_string()).encode(&mut buffer).unwrap();
    assert_eq!(
        SessionUri::decode(&mut Cursor::new(&buffer)),
        Ok(SessionUri("moqt://h".to_string()))
    );
}

#[test]
fn locations_are_ordered_by_group_first() {
    assert!(Location::new(1, 9).is_before(&Location::new(2, 0)));
    assert!(Location::new(1, 1).is_before(&Location::new(1, 2)));
    assert!(!Location::new(1, 2).is_before(&Location::new(1, 2)));
    let mut buffer = BytesMut::new();
    Location::new(0x40, 2).encode(&mut buffer).unwrap();
    assert_eq!(buffer.to_vec(), [0x40, 0x40, 2]);
    assert_eq!(
        Location::decode(&mut Cursor::new(&buffer)),
        Ok(Location::new(0x40, 2))
    );
}

#[test]
fn filters_are_read_back() {
    for filter in [
        SubscriptionFilter {
            filter_type: FilterType::LargestObject,
            start_location: None,
            end_group_id: None,
        },
        SubscriptionFilter {
            filter_type: FilterType::AbsoluteStart,
            start_location: Some(Location::new(4, 5)),
            end_group_id: None,
        },
        SubscriptionFilter {
            filter_type: FilterType::AbsoluteRange,
            start_location: Some(Location::new(4, 5)),
            end_group_id: Some(9),
        },
    ] {
        let mut buffer = BytesMut::new();
        filter.encode(&mut buffer).unwrap();
        assert_eq!(SubscriptionFilter::decode(&buffer), Ok(filter));
    }
    assert_eq!(
        SubscriptionFilter::decode(&[2, 0]),
        Err(DecodeError::TrailingBytes)
    );
}

#[test]
fn datagrams_have_the_fields_of_their_type() {
    let mut headers = ExtensionHeaders::new();
    headers.set_intvalue(2, 7);
    for (datagram_type, object_id, extension_headers) in [
        (DatagramType::ObjectIdPayload, Some(4), None),
        (DatagramType::ObjectIdPayloadExt, Some(4), Some(headers.clone())),
        (DatagramType::Payload, None, None),
        (DatagramType::PayloadExtEndOfGroup, None, Some(headers.clone())),
    ] {
        let datagram = Datagram {
            datagram_type,
            track_alias: 1,
            group_id: 2,
            object_id,
            publisher_priority: 3,
            extension_headers,
            status: None,
            payload: Some(Bytes::from_static(b"pay")),
        };
        let mut buffer = BytesMut::new();
        datagram.encode(&mut buffer).unwrap();
        assert_eq!(u64::from(buffer[0]), datagram_type.code());
        assert_eq!(Datagram::decode(&buffer), Ok(datagram));
    }
}

#[test]
fn datagram_has_exact_bytes() {
    let datagram = Datagram {
        datagram_type: DatagramType::ObjectIdStatus,
        track_alias: 1,
        group_id: 2,
        object_id: Some(3),
        publisher_priority: 0xfe,
        extension_headers: None,
        status: Some(ObjectStatus::EndOfTrack),
        payload: None,
    };
    let mut buffer = BytesMut::new();
    datagram.encode(&mut buffer).unwrap();
    assert_eq!(buffer.to_vec(), [0x20, 1, 2, 3, 0xfe, 4]);
    assert_eq!(Datagram::decode(&buffer), Ok(datagram));
    assert_eq!(Datagram::decode(&[0x1f]), Err(DecodeError::InvalidValue));
    let missing = Datagram {
        datagram_type: DatagramType::ObjectIdPayload,
        track_alias: 1,
        group_id: 2,
        object_id: None,
        publisher_priority: 0,
        extension_headers: None,
        status: None,
        payload: Some(Bytes::new()),
    };
    assert_eq!(
        missing.encode(&mut BytesMut::new()),
        Err(EncodeError::MissingField)
    );
}
