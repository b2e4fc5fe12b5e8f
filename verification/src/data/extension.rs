//! Extension headers, the properties that travel with an object.

use bytes::BytesMut;
use vstd::prelude::*;

use crate::coding::buffer::{appended, buffer_as_slice, buffer_contents, Cursor, Stop};
use crate::coding::field::{
    decode_field, encode_field, field_encoding, field_round_trip, read_field,
};
use crate::coding::kvp::{
    pairs_encoding, pairs_round_trip, read_all_pairs, sorted_pairs, sorted_pairs_ascending,
    values_fit, with_value, KeyValuePairs, Pair, ValueView,
};
use crate::coding::{DecodeError, EncodeError};

verus! {

/// The extension headers of an object.
#[derive(Debug, PartialEq, Eq)]
pub struct ExtensionHeaders(pub KeyValuePairs);

/// What writing extension headers yields: their length in bytes, then the
/// headers by ascending key. The headers are put together before their length
/// is written.
pub open spec fn headers_encoding(headers: Seq<Pair>) -> Result<Seq<u8>, Stop> {
    match pairs_encoding(0, sorted_pairs(headers)) {
        Ok(bytes) => match field_encoding(bytes) {
            Ok(field) => Ok(field),
            Err(stop) => Err(Stop { aside: bytes.len(), ..stop }),
        },
        Err(stop) => Err(
            Stop {
                reach: 0,
                aside: if stop.aside > stop.reach {
                    stop.aside
                } else {
                    stop.reach
                },
                ..stop
            },
        ),
    }
}

/// The most bytes that the headers of an object may take.
pub const MAX_HEADERS_LENGTH: u32 = 0x3fff_ffff;

/// Reads extension headers off the front of `bytes`.
pub open spec fn read_headers(bytes: Seq<u8>) -> Result<(Seq<Pair>, Seq<u8>), DecodeError> {
    match read_field(bytes, MAX_HEADERS_LENGTH as u64) {
        Ok((field, rest)) => match read_all_pairs(0, field) {
            Ok(headers) => Ok((headers, rest)),
            Err(error) => Err(error),
        },
        Err(error) => Err(error),
    }
}

/// Headers are read back by ascending key.
pub proof fn headers_round_trip(headers: Seq<Pair>, rest: Seq<u8>)
    requires
        headers_encoding(headers) is Ok,
        values_fit(sorted_pairs(headers)),
        pairs_encoding(0, sorted_pairs(headers))->Ok_0.len() <= MAX_HEADERS_LENGTH,
    ensures
        read_headers(headers_encoding(headers)->Ok_0 + rest) == Ok::<_, DecodeError>(
            (sorted_pairs(headers), rest),
        ),
{
    let body = pairs_encoding(0, sorted_pairs(headers))->Ok_0;
    sorted_pairs_ascending(headers);
    field_round_trip(body, MAX_HEADERS_LENGTH as u64, rest);
    pairs_round_trip(0, sorted_pairs(headers), Seq::empty());
}

impl View for ExtensionHeaders {
    type V = Seq<Pair>;

    open spec fn view(&self) -> Seq<Pair> {
        self.0@
    }
}

impl Default for ExtensionHeaders {
    fn default() -> (headers: Self)
        ensures
            headers@ == Seq::<Pair>::empty(),
    {
        ExtensionHeaders(KeyValuePairs::default())
    }
}

impl Clone for ExtensionHeaders {
    fn clone(&self) -> (copy: Self)
        ensures
            copy@ == self@,
    {
        ExtensionHeaders(self.0.clone())
    }
}

impl ExtensionHeaders {
    pub fn new() -> (headers: Self)
        ensures
            headers@ == Seq::<Pair>::empty(),
    {
        ExtensionHeaders(KeyValuePairs::default())
    }

    pub fn is_empty(&self) -> (empty: bool)
        ensures
            empty == (self@.len() == 0),
    {
        self.0.is_empty()
    }

    pub fn set_intvalue(&mut self, key: u64, value: u64)
        ensures
            final(self)@ == with_value(old(self)@, key, ValueView::Int(value)),
    {
        self.0.set_intvalue(key, value);
    }

    pub fn set_bytesvalue(&mut self, key: u64, value: Vec<u8>)
        ensures
            final(self)@ == with_value(old(self)@, key, ValueView::Bytes(value@)),
    {
        self.0.set_bytesvalue(key, value);
    }

    /// Whether two sets of headers are the same.
    pub fn same(&self, other: &ExtensionHeaders) -> (same: bool)
        ensures
            same == (self@ == other@),
    {
        self.0.same(&other.0)
    }

    pub fn encode(&self, buffer: &mut BytesMut) -> (result: Result<(), EncodeError>)
        ensures
            appended(
                buffer_contents(*old(buffer)),
                buffer_contents(*final(buffer)),
                headers_encoding(self@),
                result,
            ),
    {
        let ghost before = buffer_contents(*old(buffer));
        assert(before.is_prefix_of(before));
        let mut headers = BytesMut::new();
        let ghost empty = buffer_contents(headers);
        self.0.encode_pairs(&mut headers)?;
        assert(empty + pairs_encoding(0, sorted_pairs(self@))->Ok_0 =~= pairs_encoding(
            0,
            sorted_pairs(self@),
        )->Ok_0);
        encode_field(buffer_as_slice(&headers), buffer)
    }

    pub fn decode(cursor: &mut Cursor) -> (result: Result<ExtensionHeaders, DecodeError>)
        ensures
            match read_headers(old(cursor)@) {
                Ok((headers, rest)) => {
                    &&& result is Ok
                    &&& result->Ok_0@ == headers
                    &&& final(cursor)@ == rest
                },
                Err(error) => result == Err::<ExtensionHeaders, DecodeError>(error),
            },
    {
        let field = decode_field(cursor, MAX_HEADERS_LENGTH)?;
        let mut inner = Cursor::new(field);
        let pairs = KeyValuePairs::decode_all(&mut inner)?;
        Ok(ExtensionHeaders(pairs))
    }
}

} // verus!
