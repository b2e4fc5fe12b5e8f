//! Object locations and their order.

use bytes::BytesMut;
use vstd::prelude::*;

use super::buffer::{appended, buffer_contents, join_step, joined, Cursor, Stop};
use super::error::{DecodeError, EncodeError};
use super::varint::{decode_varint, encode_varint, read_varint, varint_encoding};

verus! {

/// The place of an object in its track: a group, and an object in it.
#[derive(Clone, Copy, Debug, PartialEq, Eq, PartialOrd, Ord, Hash, Structural)]
pub struct Location {
    pub group_id: u64,
    pub object_id: u64,
}

impl Location {
    pub fn new(group_id: u64, object_id: u64) -> (location: Self)
        ensures
            location.group_id == group_id,
            location.object_id == object_id,
    {
        Location { group_id, object_id }
    }

    /// Locations are ordered by group, and within a group by object.
    pub open spec fn before(self, other: Location) -> bool {
        self.group_id < other.group_id || (self.group_id == other.group_id && self.object_id
            < other.object_id)
    }

    /// Whether this location comes before the other one.
    pub fn is_before(&self, other: &Location) -> (result: bool)
        ensures
            result == self.before(*other),
    {
        self.group_id < other.group_id || (self.group_id == other.group_id && self.object_id
            < other.object_id)
    }

    /// What writing a location yields: the group, then the object.
    pub open spec fn encoding(self) -> Result<Seq<u8>, Stop> {
        joined(varint_encoding(self.group_id), varint_encoding(self.object_id))
    }

    /// Reads a location off the front of `bytes`.
    pub open spec fn read(bytes: Seq<u8>) -> Result<(Location, Seq<u8>), DecodeError> {
        match read_varint(bytes) {
            Ok((group_id, rest)) => match read_varint(rest) {
                Ok((object_id, rest)) => Ok((Location { group_id, object_id }, rest)),
                Err(error) => Err(error),
            },
            Err(error) => Err(error),
        }
    }

    pub fn encode(&self, buffer: &mut BytesMut) -> (result: Result<(), EncodeError>)
        ensures
            appended(
                buffer_contents(*old(buffer)),
                buffer_contents(*final(buffer)),
                self.encoding(),
                result,
            ),
    {
        let group = encode_varint(self.group_id, buffer);
        proof {
            join_step(
                buffer_contents(*old(buffer)),
                buffer_contents(*buffer),
                varint_encoding(self.group_id),
                varint_encoding(self.object_id),
                group,
            );
        }
        group?;
        encode_varint(self.object_id, buffer)
    }

    pub fn decode(cursor: &mut Cursor) -> (result: Result<Location, DecodeError>)
        ensures
            match Location::read(old(cursor)@) {
                Ok((location, rest)) => result == Ok::<Location, DecodeError>(location)
                    && final(cursor)@ == rest,
                Err(error) => result == Err::<Location, DecodeError>(error),
            },
    {
        let group_id: u64 = decode_varint(cursor)?;
        let object_id: u64 = decode_varint(cursor)?;
        Ok(Location { group_id, object_id })
    }
}

} // verus!
