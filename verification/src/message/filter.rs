//! Subscription filters.

use bytes::BytesMut;
use vstd::prelude::*;

use crate::coding::buffer::{appended, buffer_contents, join_step, joined, stop, Cursor, Stop};
use crate::coding::varint::{
    decode_varint, encode_varint, read_varint, varint, varint_encoding, varint_round_trip,
};
use crate::coding::{DecodeError, EncodeError, Location};

verus! {

/// Where a subscription starts and ends.
#[derive(Clone, Copy, Debug, PartialEq, Eq, Structural)]
pub enum FilterType {
    /// From the start of the next group.
    NextGroupStart,
    /// From behind the largest object.
    LargestObject,
    /// From a given location.
    AbsoluteStart,
    /// From a given location to the end of a given group.
    AbsoluteRange,
}

/// Which objects of a track a subscriber wants.
#[derive(Clone, Copy, Debug, PartialEq, Eq, Structural)]
pub struct SubscriptionFilter {
    pub filter_type: FilterType,
    pub start_location: Option<Location>,
    pub end_group_id: Option<u64>,
}

impl FilterType {
    pub open spec fn code(self) -> u64 {
        match self {
            FilterType::NextGroupStart => 0x1,
            FilterType::LargestObject => 0x2,
            FilterType::AbsoluteStart => 0x3,
            FilterType::AbsoluteRange => 0x4,
        }
    }

    pub fn wire_code(&self) -> (code: u64)
        ensures
            code == self.code(),
    {
        match self {
            FilterType::NextGroupStart => 0x1,
            FilterType::LargestObject => 0x2,
            FilterType::AbsoluteStart => 0x3,
            FilterType::AbsoluteRange => 0x4,
        }
    }
}

impl SubscriptionFilter {
    /// The filter that starts behind the largest object.
    pub fn largest_object() -> (filter: Self)
        ensures
            filter == (SubscriptionFilter {
                filter_type: FilterType::LargestObject,
                start_location: None,
                end_group_id: None,
            }),
    {
        SubscriptionFilter {
            filter_type: FilterType::LargestObject,
            start_location: None,
            end_group_id: None,
        }
    }

    /// Exactly the fields are there that the filter's type calls for.
    pub open spec fn consistent(self) -> bool {
        match self.filter_type {
            FilterType::NextGroupStart | FilterType::LargestObject => self.start_location is None
                && self.end_group_id is None,
            FilterType::AbsoluteStart => self.start_location is Some && self.end_group_id is None,
            FilterType::AbsoluteRange => self.start_location is Some && self.end_group_id is Some,
        }
    }

    /// What writing a filter yields: its type and the fields that belong to it.
    pub open spec fn encoding(self) -> Result<Seq<u8>, Stop> {
        joined(
            varint_encoding(self.filter_type.code()),
            match self.filter_type {
                FilterType::NextGroupStart | FilterType::LargestObject => Ok(Seq::empty()),
                FilterType::AbsoluteStart => match self.start_location {
                    Some(start) => start.encoding(),
                    None => Err(stop(EncodeError::MissingField)),
                },
                FilterType::AbsoluteRange => match self.start_location {
                    Some(start) => match self.end_group_id {
                        Some(end) => joined(start.encoding(), varint_encoding(end)),
                        None => Err(stop(EncodeError::MissingField)),
                    },
                    None => Err(stop(EncodeError::MissingField)),
                },
            },
        )
    }

    /// Reads a filter that fills `bytes`.
    pub open spec fn read(bytes: Seq<u8>) -> Result<SubscriptionFilter, DecodeError> {
        match read_varint(bytes) {
            Ok((code, rest)) => if code == 0x1 || code == 0x2 {
                if rest.len() > 0 {
                    Err(DecodeError::TrailingBytes)
                } else {
                    Ok(
                        SubscriptionFilter {
                            filter_type: if code == 0x1 {
                                FilterType::NextGroupStart
                            } else {
                                FilterType::LargestObject
                            },
                            start_location: None,
                            end_group_id: None,
                        },
                    )
                }
            } else if code == 0x3 || code == 0x4 {
                match Location::read(rest) {
                    Ok((start, rest)) => if code == 0x3 {
                        if rest.len() > 0 {
                            Err(DecodeError::TrailingBytes)
                        } else {
                            Ok(
                                SubscriptionFilter {
                                    filter_type: FilterType::AbsoluteStart,
                                    start_location: Some(start),
                                    end_group_id: None,
                                },
                            )
                        }
                    } else {
                        match read_varint(rest) {
                            Ok((end, rest)) => if rest.len() > 0 {
                                Err(DecodeError::TrailingBytes)
                            } else {
                                Ok(
                                    SubscriptionFilter {
                                        filter_type: FilterType::AbsoluteRange,
                                        start_location: Some(start),
                                        end_group_id: Some(end),
                                    },
                                )
                            },
                            Err(error) => Err(error),
                        }
                    },
                    Err(error) => Err(error),
                }
            } else {
                Err(DecodeError::InvalidValue)
            },
            Err(error) => Err(error),
        }
    }

    /// A filter takes few bytes.
    pub proof fn encoding_is_short(self)
        ensures
            self.encoding() is Ok ==> 0 < self.encoding()->Ok_0.len() <= 32,
            self.encoding() matches Err(stop) ==> stop.reach <= 32 && stop.aside == 0,
    {
    }

    /// Reading gives back a filter that was written.
    pub proof fn round_trip(self)
        requires
            self.consistent(),
            self.encoding() is Ok,
        ensures
            SubscriptionFilter::read(self.encoding()->Ok_0) == Ok::<_, DecodeError>(self),
    {
        let bytes = self.encoding()->Ok_0;
        let code = self.filter_type.code();
        match self.filter_type {
            FilterType::NextGroupStart | FilterType::LargestObject => {
                varint_round_trip(code, Seq::empty());
            },
            FilterType::AbsoluteStart => {
                let start = self.start_location->0;
                let body = start.encoding()->Ok_0;
                varint_round_trip(code, body);
                location_round_trip(start, Seq::empty());
                assert(body + Seq::<u8>::empty() =~= body);
            },
            FilterType::AbsoluteRange => {
                let start = self.start_location->0;
                let end = self.end_group_id->0;
                let tail = varint(end);
                varint_round_trip(code, start.encoding()->Ok_0 + tail);
                location_round_trip(start, tail);
                varint_round_trip(end, Seq::empty());
                assert(tail + Seq::<u8>::empty() =~= tail);
            },
        }
    }

    pub fn encode(&self, buffer: &mut BytesMut) -> (result: Result<(), EncodeError>)
        ensures
            appended(
                buffer_contents(*old(buffer)),
                buffer_contents(*final(buffer)),
                self.encoding(),
                result,
            ),
    {
        let ghost before = buffer_contents(*old(buffer));
        let code = encode_varint(self.filter_type.wire_code(), buffer);
        let ghost middle = buffer_contents(*buffer);
        let ghost tail = match self.filter_type {
            FilterType::NextGroupStart | FilterType::LargestObject => Ok(Seq::empty()),
            FilterType::AbsoluteStart => match self.start_location {
                Some(start) => start.encoding(),
                None => Err(stop(EncodeError::MissingField)),
            },
            FilterType::AbsoluteRange => match self.start_location {
                Some(start) => match self.end_group_id {
                    Some(end) => joined(start.encoding(), varint_encoding(end)),
                    None => Err(stop(EncodeError::MissingField)),
                },
                None => Err(stop(EncodeError::MissingField)),
            },
        };
        proof {
            join_step(before, middle, varint_encoding(self.filter_type.code()), tail, code);
            assert(middle.is_prefix_of(middle));
            assert(middle + Seq::<u8>::empty() =~= middle);
        }
        code?;
        match self.filter_type {
            FilterType::NextGroupStart | FilterType::LargestObject => {
                assert(appended(middle, middle, tail, Ok(())));
                Ok(())
            },
            FilterType::AbsoluteStart => match self.start_location {
                Some(start) => start.encode(buffer),
                None => {
                    assert(appended(middle, middle, tail, Err(EncodeError::MissingField)));
                    Err(EncodeError::MissingField)
                },
            },
            FilterType::AbsoluteRange => match (self.start_location, self.end_group_id) {
                (Some(start), Some(end)) => {
                    let written = start.encode(buffer);
                    proof {
                        join_step(
                            middle,
                            buffer_contents(*buffer),
                            start.encoding(),
                            varint_encoding(end),
                            written,
                        );
                    }
                    written?;
                    encode_varint(end, buffer)
                },
                _ => {
                    assert(appended(middle, middle, tail, Err(EncodeError::MissingField)));
                    Err(EncodeError::MissingField)
                },
            },
        }
    }

    /// Reads a filter that fills `bytes`.
    pub fn decode(bytes: &[u8]) -> (result: Result<SubscriptionFilter, DecodeError>)
        ensures
            result == SubscriptionFilter::read(bytes@),
    {
        let mut cursor = Cursor::new(bytes);
        let code: u64 = decode_varint(&mut cursor)?;
        let mut filter = SubscriptionFilter {
            filter_type: FilterType::NextGroupStart,
            start_location: None,
            end_group_id: None,
        };
        if code == 0x1 {
        } else if code == 0x2 {
            filter.filter_type = FilterType::LargestObject;
        } else if code == 0x3 {
            filter.filter_type = FilterType::AbsoluteStart;
            filter.start_location = Some(Location::decode(&mut cursor)?);
        } else if code == 0x4 {
            filter.filter_type = FilterType::AbsoluteRange;
            filter.start_location = Some(Location::decode(&mut cursor)?);
            let end: u64 = decode_varint(&mut cursor)?;
            filter.end_group_id = Some(end);
        } else {
            return Err(DecodeError::InvalidValue);
        }
        if cursor.remaining() > 0 {
            return Err(DecodeError::TrailingBytes);
        }
        Ok(filter)
    }
}

/// Reading gives back a location that was written.
pub proof fn location_round_trip(location: Location, rest: Seq<u8>)
    requires
        location.encoding() is Ok,
    ensures
        Location::read(location.encoding()->Ok_0 + rest) == Ok::<_, DecodeError>((location, rest)),
{
    let group = varint(location.group_id);
    let object = varint(location.object_id);
    assert(location.encoding()->Ok_0 + rest =~= group + (object + rest));
    varint_round_trip(location.group_id, object + rest);
    varint_round_trip(location.object_id, rest);
}

} // verus!
