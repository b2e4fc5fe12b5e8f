//! Fields that carry their length, and single-byte flags.

use bytes::BytesMut;
use vstd::prelude::*;

use super::buffer::{appended, buffer_contents, join_step, joined, put, Cursor, Stop};
use super::error::{DecodeError, EncodeError};
use super::varint::{
    decode_varint, encode_varint, read_varint, varint, varint_encoding, varint_round_trip,
    VARINT_LIMIT,
};

verus! {

/// What writing a length-prefixed field yields.
pub open spec fn field_encoding(bytes: Seq<u8>) -> Result<Seq<u8>, Stop> {
    joined(varint_encoding(bytes.len() as u64), Ok(bytes))
}

/// Reads a length-prefixed field of at most `limit` bytes off the front.
pub open spec fn read_field(bytes: Seq<u8>, limit: u64) -> Result<
    (Seq<u8>, Seq<u8>),
    DecodeError,
> {
    match read_varint(bytes) {
        Ok((length, rest)) => if length > limit {
            Err(DecodeError::FieldBoundsExceeded)
        } else if length > rest.len() {
            Err(DecodeError::More((length - rest.len()) as usize))
        } else {
            Ok((rest.take(length as int), rest.skip(length as int)))
        },
        Err(error) => Err(error),
    }
}

/// Reading gives back a field that was written, if it is short enough.
pub proof fn field_round_trip(bytes: Seq<u8>, limit: u64, rest: Seq<u8>)
    requires
        bytes.len() <= limit < VARINT_LIMIT,
    ensures
        field_encoding(bytes) is Ok,
        read_field(field_encoding(bytes)->Ok_0 + rest, limit) == Ok::<_, DecodeError>((bytes, rest)),
{
    let head = varint(bytes.len() as u64);
    assert(field_encoding(bytes)->Ok_0 + rest =~= head + (bytes + rest));
    varint_round_trip(bytes.len() as u64, bytes + rest);
    assert((bytes + rest).take(bytes.len() as int) =~= bytes);
    assert((bytes + rest).skip(bytes.len() as int) =~= rest);
}

/// Writes a length-prefixed field.
pub fn encode_field(bytes: &[u8], buffer: &mut BytesMut) -> (result: Result<(), EncodeError>)
    ensures
        appended(
            buffer_contents(*old(buffer)),
            buffer_contents(*final(buffer)),
            field_encoding(bytes@),
            result,
        ),
{
    let length = encode_varint(bytes.len() as u64, buffer);
    proof {
        join_step(
            buffer_contents(*old(buffer)),
            buffer_contents(*buffer),
            varint_encoding(bytes@.len() as u64),
            Ok(bytes@),
            length,
        );
    }
    length?;
    put(buffer, bytes)
}

/// Reads a length-prefixed field of at most `limit` bytes.
pub fn decode_field<'a>(cursor: &mut Cursor<'a>, limit: u32) -> (result: Result<
    &'a [u8],
    DecodeError,
>)
    ensures
        match read_field(old(cursor)@, limit as u64) {
            Ok((field, rest)) => {
                &&& result is Ok
                &&& result->Ok_0@ == field
                &&& final(cursor)@ == rest
            },
            Err(error) => result == Err::<&'a [u8], DecodeError>(error),
        },
{
    let length: u64 = decode_varint(cursor)?;
    if length > limit as u64 {
        return Err(DecodeError::FieldBoundsExceeded);
    }
    cursor.take(length as usize)
}

/// What writing a flag yields.
pub open spec fn flag_encoding(flag: bool) -> Result<Seq<u8>, Stop> {
    Ok(
        seq![
            if flag {
                1u8
            } else {
                0u8
            },
        ],
    )
}

/// Reads a flag off the front of `bytes`.
pub open spec fn read_flag(bytes: Seq<u8>) -> Result<(bool, Seq<u8>), DecodeError> {
    if bytes.len() == 0 {
        Err(DecodeError::More(1))
    } else if bytes[0] > 1 {
        Err(DecodeError::InvalidValue)
    } else {
        Ok((bytes[0] == 1, bytes.skip(1)))
    }
}

/// Reading gives back a flag that was written.
pub proof fn flag_round_trip(flag: bool, rest: Seq<u8>)
    ensures
        read_flag(flag_encoding(flag)->Ok_0 + rest) == Ok::<_, DecodeError>((flag, rest)),
{
    assert((flag_encoding(flag)->Ok_0 + rest).skip(1) =~= rest);
}

/// Writes a flag as one byte.
pub fn encode_flag(flag: bool, buffer: &mut BytesMut) -> (result: Result<(), EncodeError>)
    ensures
        appended(
            buffer_contents(*old(buffer)),
            buffer_contents(*final(buffer)),
            flag_encoding(flag),
            result,
        ),
{
    let byte: u8 = if flag {
        1
    } else {
        0
    };
    let bytes: [u8; 1] = [byte];
    assert(bytes@ =~= flag_encoding(flag)->Ok_0);
    put(buffer, &bytes)
}

/// Reads a flag; any byte other than zero and one is refused.
pub fn decode_flag(cursor: &mut Cursor) -> (result: Result<bool, DecodeError>)
    ensures
        match read_flag(old(cursor)@) {
            Ok((flag, rest)) => result == Ok::<bool, DecodeError>(flag) && final(cursor)@ == rest,
            Err(error) => result == Err::<bool, DecodeError>(error),
        },
{
    let byte = cursor.take(1)?;
    if byte[0] > 1 {
        Err(DecodeError::InvalidValue)
    } else {
        Ok(byte[0] == 1)
    }
}

/// The two bytes of a message length, high byte first.
pub open spec fn length_encoding(length: u16) -> Seq<u8> {
    seq![(length / 0x100) as u8, (length % 0x100) as u8]
}

/// Writes a message length.
pub fn encode_length(length: u16, buffer: &mut BytesMut) -> (result: Result<(), EncodeError>)
    ensures
        appended(
            buffer_contents(*old(buffer)),
            buffer_contents(*final(buffer)),
            Ok(length_encoding(length)),
            result,
        ),
{
    let bytes: [u8; 2] = [(length / 0x100) as u8, (length % 0x100) as u8];
    assert(bytes@ =~= length_encoding(length));
    put(buffer, &bytes)
}

} // verus!
