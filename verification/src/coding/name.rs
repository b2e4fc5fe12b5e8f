//! Names of tracks, and texts that travel in messages.

use bytes::BytesMut;
use vstd::prelude::*;
use vstd::utf8::{decode_utf8, encode_utf8, valid_utf8};

use super::buffer::{appended, buffer_contents, join_step, joined, stop, Cursor, Stop};
use super::error::{DecodeError, EncodeError};
use super::field::{decode_field, encode_field, field_encoding, field_round_trip, read_field};
use super::kvp::{bytes_match, copy_bytes};
use super::varint::{
    decode_varint, encode_varint, read_varint, varint, varint_encoding, varint_round_trip,
};
use crate::text::string_from_utf8;

verus! {

/// The longest name, or part of a name, in bytes.
pub const MAX_NAME_LENGTH: u32 = 4096;

/// The most parts that a namespace has.
pub const MAX_NAMESPACE_PARTS: u64 = 32;

/// The longest reason phrase in bytes.
pub const MAX_REASON_LENGTH: u32 = 1024;

/// The longest session URI in bytes.
pub const MAX_URI_LENGTH: u32 = 8192;

/// The name of a track in its namespace.
#[derive(Debug, PartialEq, Eq, Hash)]
pub struct TrackName(Vec<u8>);

impl View for TrackName {
    type V = Seq<u8>;

    closed spec fn view(&self) -> Seq<u8> {
        self.0@
    }
}

impl Default for TrackName {
    fn default() -> (name: Self)
        ensures
            name@ == Seq::<u8>::empty(),
    {
        TrackName(Vec::new())
    }
}

impl Clone for TrackName {
    fn clone(&self) -> (copy: Self)
        ensures
            copy@ == self@,
    {
        TrackName(copy_bytes(&self.0))
    }
}

impl TrackName {
    /// A name made of a text.
    pub fn of(text: &str) -> (name: Self)
        ensures
            name@ == encode_utf8(text@),
    {
        TrackName(copy_bytes(text.as_bytes()))
    }

    pub fn as_bytes(&self) -> (bytes: &[u8])
        ensures
            bytes@ == self@,
    {
        &self.0
    }

    /// Whether two names are the same.
    pub fn same(&self, other: &TrackName) -> (same: bool)
        ensures
            same == (self@ == other@),
    {
        bytes_match(&self.0, &other.0)
    }

    pub fn encode(&self, buffer: &mut BytesMut) -> (result: Result<(), EncodeError>)
        ensures
            appended(
                buffer_contents(*old(buffer)),
                buffer_contents(*final(buffer)),
                field_encoding(self@),
                result,
            ),
    {
        encode_field(&self.0, buffer)
    }

    pub fn decode(cursor: &mut Cursor) -> (result: Result<TrackName, DecodeError>)
        ensures
            match read_field(old(cursor)@, MAX_NAME_LENGTH as u64) {
                Ok((name, rest)) => {
                    &&& result is Ok
                    &&& result->Ok_0@ == name
                    &&& final(cursor)@ == rest
                },
                Err(error) => result == Err::<TrackName, DecodeError>(error),
            },
    {
        let bytes = decode_field(cursor, MAX_NAME_LENGTH)?;
        Ok(TrackName(copy_bytes(bytes)))
    }
}

/// The namespace of tracks: a sequence of parts.
#[derive(Debug, PartialEq, Eq, Hash)]
pub struct TrackNamespace {
    pub fields: Vec<TrackName>,
}

impl View for TrackNamespace {
    type V = Seq<Seq<u8>>;

    open spec fn view(&self) -> Seq<Seq<u8>> {
        self.fields@.map_values(|part: TrackName| part@)
    }
}

impl Default for TrackNamespace {
    fn default() -> (namespace: Self)
        ensures
            namespace@ == Seq::<Seq<u8>>::empty(),
    {
        let namespace = TrackNamespace { fields: Vec::new() };
        assert(namespace@ =~= Seq::<Seq<u8>>::empty());
        namespace
    }
}

impl Clone for TrackNamespace {
    fn clone(&self) -> (copy: Self)
        ensures
            copy@ == self@,
    {
        let mut fields: Vec<TrackName> = Vec::new();
        let mut i: usize = 0;
        while i < self.fields.len()
            invariant
                i <= self.fields@.len(),
                fields@.len() == i,
                forall|j: int| 0 <= j < i ==> (#[trigger] fields@[j])@ == self.fields@[j]@,
            decreases self.fields@.len() - i,
        {
            fields.push(self.fields[i].clone());
            i = i + 1;
        }
        let copy = TrackNamespace { fields };
        assert(copy@ =~= self@);
        copy
    }
}

/// A path cut at its slashes.
pub open spec fn path_parts(path: Seq<u8>) -> Seq<Seq<u8>>
    decreases path.len(),
{
    if path.len() == 0 {
        seq![path]
    } else {
        let front = path_parts(path.drop_last());
        if path.last() == 0x2f {
            front.push(Seq::empty())
        } else {
            front.update(front.len() - 1, front.last().push(path.last()))
        }
    }
}

/// A path has at least one part.
pub proof fn path_has_parts(path: Seq<u8>)
    ensures
        path_parts(path).len() > 0,
    decreases path.len(),
{
    if path.len() > 0 {
        path_has_parts(path.drop_last());
    }
}

/// What writing the parts of a namespace yields.
pub open spec fn parts_encoding(parts: Seq<Seq<u8>>) -> Result<Seq<u8>, Stop>
    decreases parts.len(),
{
    if parts.len() == 0 {
        Ok(Seq::empty())
    } else {
        joined(field_encoding(parts[0]), parts_encoding(parts.drop_first()))
    }
}

/// What writing a namespace yields.
pub open spec fn namespace_encoding(parts: Seq<Seq<u8>>) -> Result<Seq<u8>, Stop> {
    joined(varint_encoding(parts.len() as u64), parts_encoding(parts))
}

/// Reads `count` parts off the front of `bytes`.
pub open spec fn read_parts(count: nat, bytes: Seq<u8>) -> Result<
    (Seq<Seq<u8>>, Seq<u8>),
    DecodeError,
>
    decreases count,
{
    if count == 0 {
        Ok((Seq::empty(), bytes))
    } else {
        match read_field(bytes, MAX_NAME_LENGTH as u64) {
            Ok((part, rest)) => match read_parts((count - 1) as nat, rest) {
                Ok((parts, rest)) => Ok((seq![part] + parts, rest)),
                Err(error) => Err(error),
            },
            Err(error) => Err(error),
        }
    }
}

/// Reads a namespace off the front of `bytes`.
pub open spec fn read_namespace(bytes: Seq<u8>) -> Result<(Seq<Seq<u8>>, Seq<u8>), DecodeError> {
    match read_varint(bytes) {
        Ok((count, rest)) => if count > MAX_NAMESPACE_PARTS {
            Err(DecodeError::FieldBoundsExceeded)
        } else {
            read_parts(count as nat, rest)
        },
        Err(error) => Err(error),
    }
}

/// Whether a namespace is small enough to be read back.
pub open spec fn namespace_fits(parts: Seq<Seq<u8>>) -> bool {
    &&& parts.len() <= MAX_NAMESPACE_PARTS
    &&& forall|i: int| 0 <= i < parts.len() ==> (#[trigger] parts[i]).len() <= MAX_NAME_LENGTH
}

proof fn parts_round_trip(parts: Seq<Seq<u8>>, rest: Seq<u8>)
    requires
        forall|i: int| 0 <= i < parts.len() ==> (#[trigger] parts[i]).len() <= MAX_NAME_LENGTH,
    ensures
        parts_encoding(parts) is Ok,
        read_parts(parts.len(), parts_encoding(parts)->Ok_0 + rest) == Ok::<_, DecodeError>(
            (parts, rest),
        ),
    decreases parts.len(),
{
    if parts.len() > 0 {
        let tail = parts.drop_first();
        assert forall|i: int| 0 <= i < tail.len() implies (#[trigger] tail[i]).len()
            <= MAX_NAME_LENGTH by {
            assert(tail[i] == parts[i + 1]);
        }
        parts_round_trip(tail, rest);
        let body = parts_encoding(tail)->Ok_0;
        let head = field_encoding(parts[0])->Ok_0;
        field_round_trip(parts[0], MAX_NAME_LENGTH as u64, body + rest);
        assert(parts_encoding(parts)->Ok_0 + rest =~= head + (body + rest));
        assert(seq![parts[0]] + tail =~= parts);
    } else {
        assert(parts =~= Seq::empty());
        assert(Seq::<u8>::empty() + rest =~= rest);
    }
}

/// Reading gives back a namespace that was written.
pub proof fn namespace_round_trip(parts: Seq<Seq<u8>>, rest: Seq<u8>)
    requires
        namespace_fits(parts),
    ensures
        namespace_encoding(parts) is Ok,
        read_namespace(namespace_encoding(parts)->Ok_0 + rest) == Ok::<_, DecodeError>(
            (parts, rest),
        ),
{
    parts_round_trip(parts, rest);
    let body = parts_encoding(parts)->Ok_0;
    let head = varint(parts.len() as u64);
    varint_round_trip(parts.len() as u64, body + rest);
    assert(namespace_encoding(parts)->Ok_0 + rest =~= head + (body + rest));
}

impl TrackNamespace {
    /// The namespace whose parts stand between the slashes of a path.
    pub fn from_utf8_path(path: &str) -> (namespace: Self)
        ensures
            namespace@ == path_parts(encode_utf8(path@)),
    {
        let bytes = path.as_bytes();
        let ghost all = bytes@;
        let mut fields: Vec<TrackName> = Vec::new();
        let mut part: Vec<u8> = Vec::new();
        let mut i: usize = 0;
        assert(all.take(0) =~= Seq::<u8>::empty());
        assert(fields@.map_values(|name: TrackName| name@).push(part@) =~= path_parts(all.take(0)));
        while i < bytes.len()
            invariant
                i <= bytes@.len(),
                all == bytes@,
                fields@.map_values(|name: TrackName| name@).push(part@) == path_parts(
                    all.take(i as int),
                ),
            decreases bytes@.len() - i,
        {
            let ghost done = fields@.map_values(|name: TrackName| name@);
            let ghost parts = path_parts(all.take(i as int));
            let ghost here = part@;
            let byte: u8 = bytes[i];
            assert(all.take(i + 1).drop_last() =~= all.take(i as int));
            if byte == 0x2f {
                fields.push(TrackName(part));
                part = Vec::new();
                assert(fields@.map_values(|name: TrackName| name@) =~= done.push(here));
                assert(part@ =~= Seq::<u8>::empty());
            } else {
                part.push(byte);
                assert(done.push(here).update(done.len() as int, here.push(byte)) =~= done.push(
                    here.push(byte),
                ));
            }
            i = i + 1;
        }
        assert(all.take(i as int) =~= all);
        let ghost done = fields@.map_values(|name: TrackName| name@);
        let ghost here = part@;
        fields.push(TrackName(part));
        let namespace = TrackNamespace { fields };
        assert(namespace@ =~= done.push(here));
        namespace
    }

    /// Whether two namespaces are the same.
    pub fn same(&self, other: &TrackNamespace) -> (same: bool)
        ensures
            same == (self@ == other@),
    {
        if self.fields.len() != other.fields.len() {
            assert(self@.len() != other@.len());
            return false;
        }
        let mut i: usize = 0;
        while i < self.fields.len()
            invariant
                i <= self.fields@.len() == other.fields@.len(),
                forall|j: int| 0 <= j < i ==> #[trigger] self@[j] == other@[j],
            decreases self.fields@.len() - i,
        {
            assert(self@[i as int] == self.fields@[i as int]@);
            assert(other@[i as int] == other.fields@[i as int]@);
            if !self.fields[i].same(&other.fields[i]) {
                return false;
            }
            i = i + 1;
        }
        assert(self@ =~= other@);
        true
    }

    pub fn encode(&self, buffer: &mut BytesMut) -> (result: Result<(), EncodeError>)
        ensures
            appended(
                buffer_contents(*old(buffer)),
                buffer_contents(*final(buffer)),
                namespace_encoding(self@),
                result,
            ),
    {
        let ghost before = buffer_contents(*old(buffer));
        let count = encode_varint(self.fields.len() as u64, buffer);
        proof {
            join_step(
                before,
                buffer_contents(*buffer),
                varint_encoding(self@.len() as u64),
                parts_encoding(self@),
                count,
            );
            assert(self@.skip(0) =~= self@);
        }
        count?;
        let mut i: usize = 0;
        while i < self.fields.len()
            invariant
                i <= self.fields@.len(),
                before == buffer_contents(*old(buffer)),
                forall|after: Seq<u8>, outcome: Result<(), EncodeError>| #[trigger]
                    appended(
                        buffer_contents(*buffer),
                        after,
                        parts_encoding(self@.skip(i as int)),
                        outcome,
                    ) ==> appended(before, after, namespace_encoding(self@), outcome),
            decreases self.fields@.len() - i,
        {
            let ghost rest = self@.skip(i as int);
            let ghost middle = buffer_contents(*buffer);
            assert(rest[0] == self.fields@[i as int]@);
            assert(rest.drop_first() =~= self@.skip(i + 1));
            let written = self.fields[i].encode(buffer);
            proof {
                join_step(
                    middle,
                    buffer_contents(*buffer),
                    field_encoding(rest[0]),
                    parts_encoding(rest.drop_first()),
                    written,
                );
            }
            written?;
            i = i + 1;
        }
        assert(buffer_contents(*buffer) + Seq::<u8>::empty() =~= buffer_contents(*buffer));
        assert(appended(
            buffer_contents(*buffer),
            buffer_contents(*buffer),
            Ok(Seq::empty()),
            Ok(()),
        ));
        Ok(())
    }

    pub fn decode(cursor: &mut Cursor) -> (result: Result<TrackNamespace, DecodeError>)
        ensures
            match read_namespace(old(cursor)@) {
                Ok((parts, rest)) => {
                    &&& result is Ok
                    &&& result->Ok_0@ == parts
                    &&& final(cursor)@ == rest
                },
                Err(error) => result == Err::<TrackNamespace, DecodeError>(error),
            },
    {
        let count: u64 = decode_varint(cursor)?;
        if count > MAX_NAMESPACE_PARTS {
            return Err(DecodeError::FieldBoundsExceeded);
        }
        let ghost goal = read_parts(count as nat, cursor@);
        let mut namespace = TrackNamespace { fields: Vec::new() };
        let mut left: u64 = count;
        assert(namespace@ =~= Seq::<Seq<u8>>::empty());
        assert(forall|tail: Seq<Seq<u8>>| #[trigger] (Seq::<Seq<u8>>::empty() + tail) =~= tail);
        while left > 0
            invariant
                goal == read_namespace(old(cursor)@),
                goal == (match read_parts(left as nat, cursor@) {
                    Ok((tail, rest)) => Ok::<(Seq<Seq<u8>>, Seq<u8>), DecodeError>(
                        (namespace@ + tail, rest),
                    ),
                    Err(error) => Err(error),
                }),
            decreases left,
        {
            let ghost done = namespace@;
            let part = TrackName::decode(cursor)?;
            let ghost name = part@;
            namespace.fields.push(part);
            assert(namespace@ =~= done.push(name));
            proof {
                match read_parts((left - 1) as nat, cursor@) {
                    Ok((tail, rest)) => {
                        assert(done + (seq![name] + tail) =~= namespace@ + tail);
                    },
                    Err(_) => {},
                }
            }
            left = left - 1;
        }
        assert(namespace@ + Seq::<Seq<u8>>::empty() =~= namespace@);
        Ok(namespace)
    }
}

/// Reads a text of at most `limit` bytes off the front of `bytes`.
pub open spec fn read_text(bytes: Seq<u8>, limit: u64) -> Result<(Seq<char>, Seq<u8>), DecodeError> {
    match read_field(bytes, limit) {
        Ok((field, rest)) => if valid_utf8(field) {
            Ok((decode_utf8(field), rest))
        } else {
            Err(DecodeError::InvalidString)
        },
        Err(error) => Err(error),
    }
}

/// What writing a text of at most `limit` bytes yields.
pub open spec fn text_encoding(text: Seq<char>, limit: u64) -> Result<Seq<u8>, Stop> {
    if encode_utf8(text).len() > limit {
        Err(stop(EncodeError::FieldBoundsExceeded))
    } else {
        field_encoding(encode_utf8(text))
    }
}

/// Reading gives back a text that was written.
pub proof fn text_round_trip(text: Seq<char>, limit: u64, rest: Seq<u8>)
    requires
        limit <= 0xffff_ffff,
        text_encoding(text, limit) is Ok,
    ensures
        read_text(text_encoding(text, limit)->Ok_0 + rest, limit) == Ok::<_, DecodeError>(
            (text, rest),
        ),
{
    field_round_trip(encode_utf8(text), limit, rest);
    vstd::utf8::encode_utf8_valid_utf8(text);
    vstd::utf8::encode_utf8_decode_utf8(text);
}

fn encode_text(text: &str, limit: u32, buffer: &mut BytesMut) -> (result: Result<(), EncodeError>)
    ensures
        appended(
            buffer_contents(*old(buffer)),
            buffer_contents(*final(buffer)),
            text_encoding(text@, limit as u64),
            result,
        ),
{
    let bytes = text.as_bytes();
    if bytes.len() as u64 > limit as u64 {
        let ghost before = buffer_contents(*old(buffer));
        assert(before.is_prefix_of(before));
        return Err(EncodeError::FieldBoundsExceeded);
    }
    encode_field(bytes, buffer)
}

fn decode_text(cursor: &mut Cursor, limit: u32) -> (result: Result<String, DecodeError>)
    ensures
        match read_text(old(cursor)@, limit as u64) {
            Ok((text, rest)) => {
                &&& result is Ok
                &&& result->Ok_0@ == text
                &&& final(cursor)@ == rest
            },
            Err(error) => result == Err::<String, DecodeError>(error),
        },
{
    let field = decode_field(cursor, limit)?;
    match string_from_utf8(copy_bytes(field)) {
        Some(text) => Ok(text),
        None => Err(DecodeError::InvalidString),
    }
}

/// A text that says why.
#[derive(Debug, PartialEq, Eq)]
pub struct ReasonPhrase(pub String);

impl Default for ReasonPhrase {
    fn default() -> (reason: Self)
        ensures
            reason.0@ == Seq::<char>::empty(),
    {
        ReasonPhrase(String::new())
    }
}

impl Clone for ReasonPhrase {
    fn clone(&self) -> (copy: Self)
        ensures
            copy.0@ == self.0@,
    {
        ReasonPhrase(self.0.clone())
    }
}

impl ReasonPhrase {
    pub fn encode(&self, buffer: &mut BytesMut) -> (result: Result<(), EncodeError>)
        ensures
            appended(
                buffer_contents(*old(buffer)),
                buffer_contents(*final(buffer)),
                text_encoding(self.0@, MAX_REASON_LENGTH as u64),
                result,
            ),
    {
        encode_text(&self.0, MAX_REASON_LENGTH, buffer)
    }

    pub fn decode(cursor: &mut Cursor) -> (result: Result<ReasonPhrase, DecodeError>)
        ensures
            match read_text(old(cursor)@, MAX_REASON_LENGTH as u64) {
                Ok((text, rest)) => {
                    &&& result is Ok
                    &&& result->Ok_0.0@ == text
                    &&& final(cursor)@ == rest
                },
                Err(error) => result == Err::<ReasonPhrase, DecodeError>(error),
            },
    {
        let text = decode_text(cursor, MAX_REASON_LENGTH)?;
        Ok(ReasonPhrase(text))
    }
}

/// The URI of another session.
#[derive(Debug, PartialEq, Eq)]
pub struct SessionUri(pub String);

impl Default for SessionUri {
    fn default() -> (uri: Self)
        ensures
            uri.0@ == Seq::<char>::empty(),
    {
        SessionUri(String::new())
    }
}

impl Clone for SessionUri {
    fn clone(&self) -> (copy: Self)
        ensures
            copy.0@ == self.0@,
    {
        SessionUri(self.0.clone())
    }
}

impl SessionUri {
    pub fn encode(&self, buffer: &mut BytesMut) -> (result: Result<(), EncodeError>)
        ensures
            appended(
                buffer_contents(*old(buffer)),
                buffer_contents(*final(buffer)),
                text_encoding(self.0@, MAX_URI_LENGTH as u64),
                result,
            ),
    {
        encode_text(&self.0, MAX_URI_LENGTH, buffer)
    }

    pub fn decode(cursor: &mut Cursor) -> (result: Result<SessionUri, DecodeError>)
        ensures
            match read_text(old(cursor)@, MAX_URI_LENGTH as u64) {
                Ok((text, rest)) => {
                    &&& result is Ok
                    &&& result->Ok_0.0@ == text
                    &&& final(cursor)@ == rest
                },
                Err(error) => result == Err::<SessionUri, DecodeError>(error),
            },
    {
        let text = decode_text(cursor, MAX_URI_LENGTH)?;
        Ok(SessionUri(text))
    }
}

} // verus!
