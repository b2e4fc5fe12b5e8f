//! Byte buffers of the `bytes` crate, and a cursor for reading.

use bytes::BufMut;
use bytes::{Bytes, BytesMut};
use vstd::prelude::*;

use super::error::{DecodeError, EncodeError};

verus! {

/// `bytes::Bytes`, a cheaply cloned view of immutable bytes.
#[verifier::external_type_specification]
#[verifier::external_body]
pub struct ExBytes(bytes::Bytes);

/// `bytes::BytesMut`, a growable byte buffer.
#[verifier::external_type_specification]
#[verifier::external_body]
pub struct ExBytesMut(bytes::BytesMut);

/// The bytes that a `Bytes` shows.
pub uninterp spec fn bytes_contents(bytes: Bytes) -> Seq<u8>;

/// The bytes that a `BytesMut` holds.
pub uninterp spec fn buffer_contents(buffer: BytesMut) -> Seq<u8>;

/// `Bytes::len` counts the bytes shown.
pub assume_specification[ bytes::Bytes::len ](bytes: &Bytes) -> (len: usize)
    ensures
        len == bytes_contents(*bytes).len(),
;

/// `Bytes::clone` shows the same bytes.
pub assume_specification[ <bytes::Bytes as core::clone::Clone>::clone ](bytes: &Bytes) -> (copy:
    Bytes)
    ensures
        bytes_contents(copy) == bytes_contents(*bytes),
;

/// `==` of two `Bytes` compares the bytes they show.
#[verifier::external_body]
pub(crate) fn same_bytes(left: &Bytes, right: &Bytes) -> (same: bool)
    ensures
        same == (bytes_contents(*left) == bytes_contents(*right)),
{
    left == right
}

/// `Bytes::new` shows nothing.
#[verifier::external_body]
pub(crate) fn empty_bytes() -> (bytes: Bytes)
    ensures
        bytes_contents(bytes).len() == 0,
{
    Bytes::new()
}

/// `Bytes::copy_from_slice` shows a copy of the slice.
pub assume_specification[ bytes::Bytes::copy_from_slice ](data: &[u8]) -> (bytes: Bytes)
    ensures
        bytes_contents(bytes) == data@,
;

/// `Bytes` dereferences to the bytes it shows.
#[verifier::external_body]
pub(crate) fn bytes_as_slice(bytes: &Bytes) -> (slice: &[u8])
    ensures
        slice@ == bytes_contents(*bytes),
{
    &bytes[..]
}

/// `BytesMut::new` holds nothing.
pub assume_specification[ bytes::BytesMut::new ]() -> (buffer: BytesMut)
    ensures
        buffer_contents(buffer).len() == 0,
;

/// `BytesMut::len` counts the bytes held.
pub assume_specification[ bytes::BytesMut::len ](buffer: &BytesMut) -> (len: usize)
    ensures
        len == buffer_contents(*buffer).len(),
;

/// `BytesMut::remaining_mut`: a buffer may grow to `isize::MAX` bytes.
#[verifier::external_body]
pub(crate) fn remaining_mut(buffer: &BytesMut) -> (room: usize)
    ensures
        room + buffer_contents(*buffer).len() == isize::MAX,
{
    buffer.remaining_mut()
}

/// `BytesMut::extend_from_slice` appends the slice. It panics where the
/// buffer would grow past the largest allocation.
#[verifier::external_body]
pub(crate) fn extend_from_slice(buffer: &mut BytesMut, bytes: &[u8])
    requires
        buffer_contents(*old(buffer)).len() + bytes@.len() <= isize::MAX,
    ensures
        buffer_contents(*final(buffer)) == buffer_contents(*old(buffer)) + bytes@,
{
    buffer.extend_from_slice(bytes)
}

/// `BytesMut` dereferences to the bytes it holds.
#[verifier::external_body]
pub(crate) fn buffer_as_slice(buffer: &BytesMut) -> (bytes: &[u8])
    ensures
        bytes@ == buffer_contents(*buffer),
{
    &buffer[..]
}

/// Why a value cannot be written, and how many of its bytes go before that
/// comes out: into the buffer, and into one that a part of it is put together
/// in first.
pub struct Stop {
    pub error: EncodeError,
    pub reach: nat,
    pub aside: nat,
}

impl Stop {
    /// Whether a buffer that holds so much is full before the error comes out.
    pub open spec fn overruns(self, held: nat) -> bool {
        (self.reach > 0 && held + self.reach > isize::MAX) || self.aside > isize::MAX
    }
}

/// A value of which nothing can be written.
pub open spec fn stop(error: EncodeError) -> Stop {
    Stop { error, reach: 0, aside: 0 }
}

/// What writing `encoding` to a buffer that held `before` leaves behind:
/// success exactly when there is an encoding and it fits. Where there is none,
/// its error comes out, unless the buffer is full first.
pub open spec fn appended(
    before: Seq<u8>,
    after: Seq<u8>,
    encoding: Result<Seq<u8>, Stop>,
    result: Result<(), EncodeError>,
) -> bool {
    match encoding {
        Ok(bytes) => if bytes.len() == 0 || before.len() + bytes.len() <= isize::MAX {
            result is Ok && after == before + bytes
        } else {
            result is Err && result->Err_0 is More && before.is_prefix_of(after)
        },
        Err(stop) => {
            &&& result is Err
            &&& if stop.overruns(before.len()) {
                result->Err_0 is More
            } else {
                result->Err_0 == stop.error
            }
            &&& before.is_prefix_of(after)
        },
    }
}

/// One encoding behind another: the first that cannot be written decides.
pub open spec fn joined(
    first: Result<Seq<u8>, Stop>,
    second: Result<Seq<u8>, Stop>,
) -> Result<Seq<u8>, Stop> {
    match first {
        Ok(head) => match second {
            Ok(tail) => Ok(head + tail),
            Err(stop) => Err(Stop { reach: head.len() + stop.reach, ..stop }),
        },
        Err(stop) => Err(stop),
    }
}

/// Writing one encoding and then another writes the two joined.
pub proof fn join_step(
    before: Seq<u8>,
    middle: Seq<u8>,
    first: Result<Seq<u8>, Stop>,
    second: Result<Seq<u8>, Stop>,
    result: Result<(), EncodeError>,
)
    requires
        appended(before, middle, first, result),
    ensures
        result is Err ==> appended(before, middle, joined(first, second), result),
        result is Ok ==> forall|after: Seq<u8>, outcome: Result<(), EncodeError>| #[trigger]
            appended(middle, after, second, outcome) ==> appended(
                before,
                after,
                joined(first, second),
                outcome,
            ),
{
    if result is Ok {
        assert forall|after: Seq<u8>, outcome: Result<(), EncodeError>| #[trigger]
            appended(middle, after, second, outcome) implies appended(
            before,
            after,
            joined(first, second),
            outcome,
        ) by {
            let head = first->Ok_0;
            if second is Ok {
                assert((before + head) + second->Ok_0 =~= before + (head + second->Ok_0));
            }
        }
    }
}

/// Appends bytes to a buffer, or reports how many of them do not fit.
pub fn put(buffer: &mut BytesMut, bytes: &[u8]) -> (result: Result<(), EncodeError>)
    ensures
        appended(
            buffer_contents(*old(buffer)),
            buffer_contents(*final(buffer)),
            Ok(bytes@),
            result,
        ),
        result is Err ==> *final(buffer) == *old(buffer),
{
    let room: usize = remaining_mut(buffer);
    if bytes.len() > room {
        return Err(EncodeError::More(bytes.len() - room));
    }
    extend_from_slice(buffer, bytes);
    Ok(())
}

/// A position in bytes that are being read.
pub struct Cursor<'a> {
    data: &'a [u8],
    position: usize,
}

impl<'a> Cursor<'a> {
    /// The bytes that have not been read yet.
    pub closed spec fn view(&self) -> Seq<u8> {
        self.data@.skip(self.position as int)
    }

    #[verifier::type_invariant]
    closed spec fn inside(self) -> bool {
        self.position <= self.data@.len()
    }

    pub fn new(data: &'a [u8]) -> (cursor: Self)
        ensures
            cursor@ == data@,
    {
        let cursor = Cursor { data, position: 0 };
        assert(cursor@ =~= data@);
        cursor
    }

    pub fn remaining(&self) -> (count: usize)
        ensures
            count == self@.len(),
    {
        proof {
            use_type_invariant(&*self);
        }
        self.data.len() - self.position
    }

    /// The next unread byte.
    pub fn peek(&self) -> (byte: u8)
        requires
            self@.len() > 0,
        ensures
            byte == self@[0],
    {
        proof {
            use_type_invariant(&*self);
        }
        self.data[self.position]
    }

    /// Reads `count` bytes.
    pub fn take(&mut self, count: usize) -> (result: Result<&'a [u8], DecodeError>)
        ensures
            match result {
                Ok(bytes) => {
                    &&& count <= old(self)@.len()
                    &&& bytes@ == old(self)@.take(count as int)
                    &&& final(self)@ == old(self)@.skip(count as int)
                },
                Err(error) => {
                    &&& count > old(self)@.len()
                    &&& error == DecodeError::More((count - old(self)@.len()) as usize)
                    &&& *final(self) == *old(self)
                },
            },
    {
        proof {
            use_type_invariant(&*self);
        }
        let left: usize = self.data.len() - self.position;
        if count > left {
            return Err(DecodeError::More(count - left));
        }
        let bytes = vstd::slice::slice_subrange(self.data, self.position, self.position + count);
        self.position = self.position + count;
        assert(bytes@ =~= old(self)@.take(count as int));
        assert(self@ =~= old(self)@.skip(count as int));
        Ok(bytes)
    }
}

} // verus!
