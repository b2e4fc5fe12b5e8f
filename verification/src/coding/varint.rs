//! The variable-length integer encoding: one, two, four or eight bytes, with
//! the width in the two high bits of the first.

use bytes::BytesMut;
use vstd::prelude::*;

use super::buffer::{appended, buffer_contents, put, stop, Cursor, Stop};
use super::error::{DecodeError, EncodeError};

verus! {

/// One more than the largest integer that can be written.
pub const VARINT_LIMIT: u64 = 0x4000_0000_0000_0000;

/// The shortest encoding of an integer.
pub open spec fn varint(value: u64) -> Seq<u8> {
    if value < 0x40 {
        seq![value as u8]
    } else if value < 0x4000 {
        seq![(0x40 + value / 0x100) as u8, (value % 0x100) as u8]
    } else if value < 0x4000_0000 {
        seq![
            (0x80 + value / 0x100_0000) as u8,
            (value / 0x1_0000 % 0x100) as u8,
            (value / 0x100 % 0x100) as u8,
            (value % 0x100) as u8,
        ]
    } else {
        seq![
            (0xc0 + value / 0x100_0000_0000_0000) as u8,
            (value / 0x1_0000_0000_0000 % 0x100) as u8,
            (value / 0x100_0000_0000 % 0x100) as u8,
            (value / 0x1_0000_0000 % 0x100) as u8,
            (value / 0x100_0000 % 0x100) as u8,
            (value / 0x1_0000 % 0x100) as u8,
            (value / 0x100 % 0x100) as u8,
            (value % 0x100) as u8,
        ]
    }
}

/// What writing an integer yields.
pub open spec fn varint_encoding(value: u64) -> Result<Seq<u8>, Stop> {
    if value < VARINT_LIMIT {
        Ok(varint(value))
    } else {
        Err(stop(EncodeError::BoundsExceeded))
    }
}

/// The width that a first byte announces.
pub open spec fn varint_width(first: u8) -> int {
    if first < 0x40 {
        1
    } else if first < 0x80 {
        2
    } else if first < 0xc0 {
        4
    } else {
        8
    }
}

/// The integer that the bytes of an encoding stand for.
pub open spec fn varint_value(bytes: Seq<u8>) -> int {
    if bytes[0] < 0x40 {
        bytes[0] as int
    } else if bytes[0] < 0x80 {
        (bytes[0] - 0x40) * 0x100 + bytes[1]
    } else if bytes[0] < 0xc0 {
        (bytes[0] - 0x80) * 0x100_0000 + bytes[1] * 0x1_0000 + bytes[2] * 0x100 + bytes[3]
    } else {
        (bytes[0] - 0xc0) * 0x100_0000_0000_0000 + bytes[1] * 0x1_0000_0000_0000 + bytes[2]
            * 0x100_0000_0000 + bytes[3] * 0x1_0000_0000 + bytes[4] * 0x100_0000 + bytes[5]
            * 0x1_0000 + bytes[6] * 0x100 + bytes[7]
    }
}

/// Reads an integer off the front of `bytes`, with what follows it.
pub open spec fn read_varint(bytes: Seq<u8>) -> Result<(u64, Seq<u8>), DecodeError> {
    if bytes.len() == 0 {
        Err(DecodeError::More(1))
    } else if bytes.len() < varint_width(bytes[0]) {
        Err(DecodeError::More((varint_width(bytes[0]) - bytes.len()) as usize))
    } else {
        Ok((varint_value(bytes) as u64, bytes.skip(varint_width(bytes[0]))))
    }
}

/// Reading gives back what was written, and leaves what follows.
pub proof fn varint_round_trip(value: u64, rest: Seq<u8>)
    requires
        value < VARINT_LIMIT,
    ensures
        read_varint(varint(value) + rest) == Ok::<_, DecodeError>((value, rest)),
{
    let bytes = varint(value) + rest;
    if value < 0x40 {
    } else if value < 0x4000 {
        assert(0x40 <= 0x40 + value / 0x100 < 0x80);
    } else if value < 0x4000_0000 {
        varint_digits_4(value);
    } else {
        varint_digits_8(value);
    }
    assert(bytes.skip(varint_width(bytes[0])) =~= rest);
}

proof fn varint_digits_4(value: u64)
    by (bit_vector)
    requires
        value < 0x4000_0000,
    ensures
        value / 0x100_0000 < 0x40,
        (value / 0x100_0000) * 0x100_0000 + (value / 0x1_0000 % 0x100) * 0x1_0000 + (value / 0x100
            % 0x100) * 0x100 + value % 0x100 == value,
{
}

proof fn varint_digits_8(value: u64)
    by (bit_vector)
    requires
        value < 0x4000_0000_0000_0000,
    ensures
        value / 0x100_0000_0000_0000 < 0x40,
        (value / 0x100_0000_0000_0000) * 0x100_0000_0000_0000 + (value / 0x1_0000_0000_0000 % 0x100)
            * 0x1_0000_0000_0000 + (value / 0x100_0000_0000 % 0x100) * 0x100_0000_0000 + (value
            / 0x1_0000_0000 % 0x100) * 0x1_0000_0000 + (value / 0x100_0000 % 0x100) * 0x100_0000 + (
        value / 0x1_0000 % 0x100) * 0x1_0000 + (value / 0x100 % 0x100) * 0x100 + value % 0x100
            == value,
{
}

/// An integer that was read can be written again.
pub proof fn varint_value_bounded(bytes: Seq<u8>)
    requires
        bytes.len() > 0,
        varint_width(bytes[0]) <= bytes.len(),
    ensures
        0 <= varint_value(bytes) < VARINT_LIMIT,
{
}

/// Writes an integer.
pub fn encode_varint(value: u64, buffer: &mut BytesMut) -> (result: Result<(), EncodeError>)
    ensures
        appended(
            buffer_contents(*old(buffer)),
            buffer_contents(*final(buffer)),
            varint_encoding(value),
            result,
        ),
{
    let ghost before = buffer_contents(*old(buffer));
    if value < 0x40 {
        let bytes: [u8; 1] = [value as u8];
        assert(bytes@ =~= varint(value));
        put(buffer, &bytes)
    } else if value < 0x4000 {
        let bytes: [u8; 2] = [(0x40 + value / 0x100) as u8, (value % 0x100) as u8];
        assert(bytes@ =~= varint(value));
        put(buffer, &bytes)
    } else if value < 0x4000_0000 {
        let bytes: [u8; 4] = [
            (0x80 + value / 0x100_0000) as u8,
            (value / 0x1_0000 % 0x100) as u8,
            (value / 0x100 % 0x100) as u8,
            (value % 0x100) as u8,
        ];
        assert(bytes@ =~= varint(value));
        put(buffer, &bytes)
    } else if value < VARINT_LIMIT {
        let bytes: [u8; 8] = [
            (0xc0 + value / 0x100_0000_0000_0000) as u8,
            (value / 0x1_0000_0000_0000 % 0x100) as u8,
            (value / 0x100_0000_0000 % 0x100) as u8,
            (value / 0x1_0000_0000 % 0x100) as u8,
            (value / 0x100_0000 % 0x100) as u8,
            (value / 0x1_0000 % 0x100) as u8,
            (value / 0x100 % 0x100) as u8,
            (value % 0x100) as u8,
        ];
        assert(bytes@ =~= varint(value));
        put(buffer, &bytes)
    } else {
        assert(before.is_prefix_of(before));
        Err(EncodeError::BoundsExceeded)
    }
}

/// Reads an integer.
pub fn decode_varint(cursor: &mut Cursor) -> (result: Result<u64, DecodeError>)
    ensures
        match read_varint(old(cursor)@) {
            Ok((value, rest)) => result == Ok::<u64, DecodeError>(value) && final(cursor)@ == rest,
            Err(error) => result == Err::<u64, DecodeError>(error),
        },
{
    let left: usize = cursor.remaining();
    if left == 0 {
        return Err(DecodeError::More(1));
    }
    let first: u8 = cursor.peek();
    let width: usize = if first < 0x40 {
        1
    } else if first < 0x80 {
        2
    } else if first < 0xc0 {
        4
    } else {
        8
    };
    let b = cursor.take(width)?;
    proof {
        varint_value_bounded(old(cursor)@);
        assert forall|i: int| 0 <= i < width implies b@[i] == old(cursor)@[i] by {};
    }
    if width == 1 {
        Ok(first as u64)
    } else if width == 2 {
        Ok((first - 0x40) as u64 * 0x100 + b[1] as u64)
    } else if width == 4 {
        Ok(
            (first - 0x80) as u64 * 0x100_0000 + b[1] as u64 * 0x1_0000 + b[2] as u64 * 0x100
                + b[3] as u64,
        )
    } else {
        Ok(
            (first - 0xc0) as u64 * 0x100_0000_0000_0000 + b[1] as u64 * 0x1_0000_0000_0000
                + b[2] as u64 * 0x100_0000_0000 + b[3] as u64 * 0x1_0000_0000 + b[4] as u64
                * 0x100_0000 + b[5] as u64 * 0x1_0000 + b[6] as u64 * 0x100 + b[7] as u64,
        )
    }
}

} // verus!
