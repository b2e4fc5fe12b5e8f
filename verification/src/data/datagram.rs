//! Objects in datagrams.

use bytes::{Bytes, BytesMut};
use vstd::prelude::*;

use super::extension::{
    headers_encoding, headers_round_trip, read_headers, ExtensionHeaders, MAX_HEADERS_LENGTH,
};
use super::stream::ObjectStatus;
use crate::coding::buffer::{
    appended, buffer_contents, bytes_as_slice, bytes_contents, join_step, joined, put, stop, Cursor,
    Stop,
};
use crate::coding::kvp::{pairs_encoding, sorted_pairs, values_fit, Pair};
use crate::coding::varint::{
    decode_varint, encode_varint, read_varint, varint, varint_encoding, varint_round_trip,
};
use crate::coding::{DecodeError, EncodeError};

verus! {

/// What a datagram carries, and which fields it has.
#[derive(Clone, Copy, Debug, PartialEq, Eq, Structural)]
pub enum DatagramType {
    ObjectIdPayload,
    ObjectIdPayloadExt,
    ObjectIdPayloadEndOfGroup,
    ObjectIdPayloadExtEndOfGroup,
    Payload,
    PayloadExt,
    PayloadEndOfGroup,
    PayloadExtEndOfGroup,
    ObjectIdStatus,
    ObjectIdStatusExt,
}

impl DatagramType {
    pub open spec fn spec_code(self) -> u64 {
        match self {
            DatagramType::ObjectIdPayload => 0x00,
            DatagramType::ObjectIdPayloadExt => 0x01,
            DatagramType::ObjectIdPayloadEndOfGroup => 0x02,
            DatagramType::ObjectIdPayloadExtEndOfGroup => 0x03,
            DatagramType::Payload => 0x04,
            DatagramType::PayloadExt => 0x05,
            DatagramType::PayloadEndOfGroup => 0x06,
            DatagramType::PayloadExtEndOfGroup => 0x07,
            DatagramType::ObjectIdStatus => 0x20,
            DatagramType::ObjectIdStatusExt => 0x21,
        }
    }

    pub fn code(&self) -> (code: u64)
        ensures
            code == self.spec_code(),
    {
        match self {
            DatagramType::ObjectIdPayload => 0x00,
            DatagramType::ObjectIdPayloadExt => 0x01,
            DatagramType::ObjectIdPayloadEndOfGroup => 0x02,
            DatagramType::ObjectIdPayloadExtEndOfGroup => 0x03,
            DatagramType::Payload => 0x04,
            DatagramType::PayloadExt => 0x05,
            DatagramType::PayloadEndOfGroup => 0x06,
            DatagramType::PayloadExtEndOfGroup => 0x07,
            DatagramType::ObjectIdStatus => 0x20,
            DatagramType::ObjectIdStatusExt => 0x21,
        }
    }

    pub open spec fn of_code(code: u64) -> Option<DatagramType> {
        match code {
            0x00 => Some(DatagramType::ObjectIdPayload),
            0x01 => Some(DatagramType::ObjectIdPayloadExt),
            0x02 => Some(DatagramType::ObjectIdPayloadEndOfGroup),
            0x03 => Some(DatagramType::ObjectIdPayloadExtEndOfGroup),
            0x04 => Some(DatagramType::Payload),
            0x05 => Some(DatagramType::PayloadExt),
            0x06 => Some(DatagramType::PayloadEndOfGroup),
            0x07 => Some(DatagramType::PayloadExtEndOfGroup),
            0x20 => Some(DatagramType::ObjectIdStatus),
            0x21 => Some(DatagramType::ObjectIdStatusExt),
            _ => None,
        }
    }

    fn from_code(code: u64) -> (kind: Option<DatagramType>)
        ensures
            kind == DatagramType::of_code(code),
    {
        match code {
            0x00 => Some(DatagramType::ObjectIdPayload),
            0x01 => Some(DatagramType::ObjectIdPayloadExt),
            0x02 => Some(DatagramType::ObjectIdPayloadEndOfGroup),
            0x03 => Some(DatagramType::ObjectIdPayloadExtEndOfGroup),
            0x04 => Some(DatagramType::Payload),
            0x05 => Some(DatagramType::PayloadExt),
            0x06 => Some(DatagramType::PayloadEndOfGroup),
            0x07 => Some(DatagramType::PayloadExtEndOfGroup),
            0x20 => Some(DatagramType::ObjectIdStatus),
            0x21 => Some(DatagramType::ObjectIdStatusExt),
            _ => None,
        }
    }

    pub open spec fn names_object(self) -> bool {
        match self {
            DatagramType::Payload
            | DatagramType::PayloadExt
            | DatagramType::PayloadEndOfGroup
            | DatagramType::PayloadExtEndOfGroup => false,
            _ => true,
        }
    }

    pub fn has_object_id(&self) -> (result: bool)
        ensures
            result == self.names_object(),
    {
        match self {
            DatagramType::Payload
            | DatagramType::PayloadExt
            | DatagramType::PayloadEndOfGroup
            | DatagramType::PayloadExtEndOfGroup => false,
            _ => true,
        }
    }

    pub open spec fn extended(self) -> bool {
        match self {
            DatagramType::ObjectIdPayloadExt
            | DatagramType::ObjectIdPayloadExtEndOfGroup
            | DatagramType::PayloadExt
            | DatagramType::PayloadExtEndOfGroup
            | DatagramType::ObjectIdStatusExt => true,
            _ => false,
        }
    }

    pub fn has_extension_headers(&self) -> (result: bool)
        ensures
            result == self.extended(),
    {
        match self {
            DatagramType::ObjectIdPayloadExt
            | DatagramType::ObjectIdPayloadExtEndOfGroup
            | DatagramType::PayloadExt
            | DatagramType::PayloadExtEndOfGroup
            | DatagramType::ObjectIdStatusExt => true,
            _ => false,
        }
    }

    pub open spec fn tells_status(self) -> bool {
        self == DatagramType::ObjectIdStatus || self == DatagramType::ObjectIdStatusExt
    }

    pub fn has_status(&self) -> (result: bool)
        ensures
            result == self.tells_status(),
    {
        *self == DatagramType::ObjectIdStatus || *self == DatagramType::ObjectIdStatusExt
    }
}

impl ObjectStatus {
    pub open spec fn spec_code(self) -> u64 {
        match self {
            ObjectStatus::NormalObject => 0x0,
            ObjectStatus::DoesNotExist => 0x1,
            ObjectStatus::EndOfGroup => 0x3,
            ObjectStatus::EndOfTrack => 0x4,
        }
    }

    pub fn code(&self) -> (code: u64)
        ensures
            code == self.spec_code(),
    {
        match self {
            ObjectStatus::NormalObject => 0x0,
            ObjectStatus::DoesNotExist => 0x1,
            ObjectStatus::EndOfGroup => 0x3,
            ObjectStatus::EndOfTrack => 0x4,
        }
    }

    pub open spec fn of_code(code: u64) -> Option<ObjectStatus> {
        match code {
            0x0 => Some(ObjectStatus::NormalObject),
            0x1 => Some(ObjectStatus::DoesNotExist),
            0x3 => Some(ObjectStatus::EndOfGroup),
            0x4 => Some(ObjectStatus::EndOfTrack),
            _ => None,
        }
    }

    fn from_code(code: u64) -> (status: Option<ObjectStatus>)
        ensures
            status == ObjectStatus::of_code(code),
    {
        match code {
            0x0 => Some(ObjectStatus::NormalObject),
            0x1 => Some(ObjectStatus::DoesNotExist),
            0x3 => Some(ObjectStatus::EndOfGroup),
            0x4 => Some(ObjectStatus::EndOfTrack),
            _ => None,
        }
    }
}

/// An object in a datagram.
#[derive(Debug, PartialEq, Eq)]
pub struct Datagram {
    pub datagram_type: DatagramType,
    pub track_alias: u64,
    pub group_id: u64,
    pub object_id: Option<u64>,
    pub publisher_priority: u8,
    pub extension_headers: Option<ExtensionHeaders>,
    pub status: Option<ObjectStatus>,
    pub payload: Option<Bytes>,
}

/// The model of a [`Datagram`].
pub struct DatagramFields {
    pub datagram_type: DatagramType,
    pub track_alias: u64,
    pub group_id: u64,
    pub object_id: Option<u64>,
    pub publisher_priority: u8,
    pub extension_headers: Option<Seq<Pair>>,
    pub status: Option<ObjectStatus>,
    pub payload: Option<Seq<u8>>,
}

impl View for Datagram {
    type V = DatagramFields;

    open spec fn view(&self) -> DatagramFields {
        DatagramFields {
            datagram_type: self.datagram_type,
            track_alias: self.track_alias,
            group_id: self.group_id,
            object_id: self.object_id,
            publisher_priority: self.publisher_priority,
            extension_headers: match self.extension_headers {
                Some(headers) => Some(headers@),
                None => None,
            },
            status: self.status,
            payload: match self.payload {
                Some(payload) => Some(bytes_contents(payload)),
                None => None,
            },
        }
    }
}

impl DatagramFields {
    /// Exactly the fields are there that the type calls for.
    pub open spec fn consistent(self) -> bool {
        &&& self.object_id is Some == self.datagram_type.names_object()
        &&& self.extension_headers is Some == self.datagram_type.extended()
        &&& self.status is Some == self.datagram_type.tells_status()
        &&& self.payload is Some == !self.datagram_type.tells_status()
    }

    pub open spec fn object_part(self) -> Result<Seq<u8>, Stop> {
        if self.datagram_type.names_object() {
            match self.object_id {
                Some(id) => varint_encoding(id),
                None => Err(stop(EncodeError::MissingField)),
            }
        } else {
            Ok(Seq::empty())
        }
    }

    pub open spec fn headers_part(self) -> Result<Seq<u8>, Stop> {
        if self.datagram_type.extended() {
            match self.extension_headers {
                Some(headers) => headers_encoding(headers),
                None => Err(stop(EncodeError::MissingField)),
            }
        } else {
            Ok(Seq::empty())
        }
    }

    pub open spec fn content_part(self) -> Result<Seq<u8>, Stop> {
        if self.datagram_type.tells_status() {
            match self.status {
                Some(status) => varint_encoding(status.spec_code()),
                None => Err(stop(EncodeError::MissingField)),
            }
        } else {
            match self.payload {
                Some(payload) => Ok(payload),
                None => Err(stop(EncodeError::MissingField)),
            }
        }
    }

    /// What writing a datagram yields: its type, alias and group, the object
    /// ID, the priority, the headers, and the status or the payload.
    pub open spec fn encoding(self) -> Result<Seq<u8>, Stop> {
        joined(
            varint_encoding(self.datagram_type.spec_code()),
            joined(
                varint_encoding(self.track_alias),
                joined(
                    varint_encoding(self.group_id),
                    joined(
                        self.object_part(),
                        joined(
                            Ok(seq![self.publisher_priority]),
                            joined(self.headers_part(), self.content_part()),
                        ),
                    ),
                ),
            ),
        )
    }

    /// Reads the object ID of a datagram, where its type has one.
    pub open spec fn read_object_part(kind: DatagramType, bytes: Seq<u8>) -> Result<
        (Option<u64>, Seq<u8>),
        DecodeError,
    > {
        if kind.names_object() {
            match read_varint(bytes) {
                Ok((id, rest)) => Ok((Some(id), rest)),
                Err(error) => Err(error),
            }
        } else {
            Ok((None, bytes))
        }
    }

    /// Reads the headers of a datagram, where its type has them.
    pub open spec fn read_headers_part(kind: DatagramType, bytes: Seq<u8>) -> Result<
        (Option<Seq<Pair>>, Seq<u8>),
        DecodeError,
    > {
        if kind.extended() {
            match read_headers(bytes) {
                Ok((headers, rest)) => Ok((Some(headers), rest)),
                Err(error) => Err(error),
            }
        } else {
            Ok((None, bytes))
        }
    }

    /// Reads the status of a datagram, or takes the rest as its payload.
    pub open spec fn read_content_part(kind: DatagramType, bytes: Seq<u8>) -> Result<
        (Option<ObjectStatus>, Option<Seq<u8>>),
        DecodeError,
    > {
        if kind.tells_status() {
            match read_varint(bytes) {
                Ok((code, rest)) => match ObjectStatus::of_code(code) {
                    Some(status) => Ok((Some(status), None)),
                    None => Err(DecodeError::InvalidValue),
                },
                Err(error) => Err(error),
            }
        } else {
            Ok((None, Some(bytes)))
        }
    }

    /// Reads the parts of a datagram that follow its group.
    pub open spec fn read_tail(
        kind: DatagramType,
        track_alias: u64,
        group_id: u64,
        bytes: Seq<u8>,
    ) -> Result<DatagramFields, DecodeError> {
        match DatagramFields::read_object_part(kind, bytes) {
            Ok((object_id, rest)) => if rest.len() == 0 {
                Err(DecodeError::More(1))
            } else {
                match DatagramFields::read_headers_part(kind, rest.skip(1)) {
                    Ok((extension_headers, tail)) => match DatagramFields::read_content_part(
                        kind,
                        tail,
                    ) {
                        Ok((status, payload)) => Ok(
                            DatagramFields {
                                datagram_type: kind,
                                track_alias,
                                group_id,
                                object_id,
                                publisher_priority: rest[0],
                                extension_headers,
                                status,
                                payload,
                            },
                        ),
                        Err(error) => Err(error),
                    },
                    Err(error) => Err(error),
                }
            },
            Err(error) => Err(error),
        }
    }

    /// Reads a datagram.
    pub open spec fn read(bytes: Seq<u8>) -> Result<DatagramFields, DecodeError> {
        match read_varint(bytes) {
            Ok((code, rest)) => match DatagramType::of_code(code) {
                Some(kind) => match read_varint(rest) {
                    Ok((track_alias, rest)) => match read_varint(rest) {
                        Ok((group_id, rest)) => DatagramFields::read_tail(
                            kind,
                            track_alias,
                            group_id,
                            rest,
                        ),
                        Err(error) => Err(error),
                    },
                    Err(error) => Err(error),
                },
                None => Err(DecodeError::InvalidValue),
            },
            Err(error) => Err(error),
        }
    }

    /// The datagram with its headers by ascending key.
    pub open spec fn sorted(self) -> DatagramFields {
        DatagramFields {
            extension_headers: match self.extension_headers {
                Some(headers) => Some(sorted_pairs(headers)),
                None => None,
            },
            ..self
        }
    }

    /// Whether the headers are small enough to be read back.
    pub open spec fn headers_fit(self) -> bool {
        self.extension_headers matches Some(headers) ==> values_fit(sorted_pairs(headers))
            && pairs_encoding(0, sorted_pairs(headers)) is Ok && pairs_encoding(
            0,
            sorted_pairs(headers),
        )->Ok_0.len() <= MAX_HEADERS_LENGTH
    }

    /// A datagram that was written is read back, with its headers by
    /// ascending key.
    pub proof fn round_trip(self)
        requires
            self.consistent(),
            self.encoding() is Ok,
            self.headers_fit(),
        ensures
            DatagramFields::read(self.encoding()->Ok_0) == Ok::<_, DecodeError>(self.sorted()),
    {
        let kind = self.datagram_type;
        let object = self.object_part()->Ok_0;
        let headers = self.headers_part()->Ok_0;
        let content = self.content_part()->Ok_0;
        let priority = seq![self.publisher_priority];
        let four = headers + content;
        let three = priority + four;
        let two = object + three;
        let one = varint(self.group_id) + two;
        varint_round_trip(kind.spec_code(), varint(self.track_alias) + one);
        varint_round_trip(self.track_alias, one);
        varint_round_trip(self.group_id, two);
        if kind.names_object() {
            varint_round_trip(self.object_id->0, three);
        } else {
            assert(two =~= three);
        }
        assert(DatagramFields::read_object_part(kind, two) == Ok::<_, DecodeError>(
            (self.object_id, three),
        ));
        assert(three.skip(1) =~= four);
        if kind.extended() {
            headers_round_trip(self.extension_headers->0, content);
        } else {
            assert(four =~= content);
        }
        if kind.tells_status() {
            varint_round_trip(self.status->0.spec_code(), Seq::empty());
            assert(content + Seq::<u8>::empty() =~= content);
        }
        assert(DatagramFields::read_content_part(kind, content) == Ok::<_, DecodeError>(
            (self.status, self.payload),
        ));
    }
}

impl Datagram {
    fn encode_object_part(&self, buffer: &mut BytesMut) -> (result: Result<(), EncodeError>)
        ensures
            appended(
                buffer_contents(*old(buffer)),
                buffer_contents(*final(buffer)),
                self@.object_part(),
                result,
            ),
    {
        let ghost before = buffer_contents(*old(buffer));
        assert(before.is_prefix_of(before));
        assert(before + Seq::<u8>::empty() =~= before);
        if !self.datagram_type.has_object_id() {
            return Ok(());
        }
        match self.object_id {
            Some(id) => encode_varint(id, buffer),
            None => Err(EncodeError::MissingField),
        }
    }

    fn encode_headers_part(&self, buffer: &mut BytesMut) -> (result: Result<(), EncodeError>)
        ensures
            appended(
                buffer_contents(*old(buffer)),
                buffer_contents(*final(buffer)),
                self@.headers_part(),
                result,
            ),
    {
        let ghost before = buffer_contents(*old(buffer));
        assert(before.is_prefix_of(before));
        assert(before + Seq::<u8>::empty() =~= before);
        if !self.datagram_type.has_extension_headers() {
            return Ok(());
        }
        match &self.extension_headers {
            Some(headers) => headers.encode(buffer),
            None => Err(EncodeError::MissingField),
        }
    }

    fn encode_content_part(&self, buffer: &mut BytesMut) -> (result: Result<(), EncodeError>)
        ensures
            appended(
                buffer_contents(*old(buffer)),
                buffer_contents(*final(buffer)),
                self@.content_part(),
                result,
            ),
    {
        let ghost before = buffer_contents(*old(buffer));
        assert(before.is_prefix_of(before));
        if self.datagram_type.has_status() {
            match self.status {
                Some(status) => encode_varint(status.code(), buffer),
                None => Err(EncodeError::MissingField),
            }
        } else {
            match &self.payload {
                Some(payload) => put(buffer, bytes_as_slice(payload)),
                None => Err(EncodeError::MissingField),
            }
        }
    }

    fn encode_tail(&self, buffer: &mut BytesMut) -> (result: Result<(), EncodeError>)
        ensures
            appended(
                buffer_contents(*old(buffer)),
                buffer_contents(*final(buffer)),
                joined(
                    self@.object_part(),
                    joined(
                        Ok(seq![self.publisher_priority]),
                        joined(self@.headers_part(), self@.content_part()),
                    ),
                ),
                result,
            ),
    {
        let ghost last = joined(self@.headers_part(), self@.content_part());
        let ghost priority: Result<Seq<u8>, Stop> = Ok(seq![self.publisher_priority]);
        let object = self.encode_object_part(buffer);
        let ghost one = buffer_contents(*buffer);
        proof {
            join_step(
                buffer_contents(*old(buffer)),
                one,
                self@.object_part(),
                joined(priority, last),
                object,
            );
        }
        object?;
        let byte: [u8; 1] = [self.publisher_priority];
        assert(byte@ =~= seq![self.publisher_priority]);
        let urgent = put(buffer, &byte);
        let ghost two = buffer_contents(*buffer);
        proof {
            join_step(one, two, priority, last, urgent);
        }
        urgent?;
        let headers = self.encode_headers_part(buffer);
        proof {
            join_step(
                two,
                buffer_contents(*buffer),
                self@.headers_part(),
                self@.content_part(),
                headers,
            );
        }
        headers?;
        self.encode_content_part(buffer)
    }

    pub fn encode(&self, buffer: &mut BytesMut) -> (result: Result<(), EncodeError>)
        ensures
            appended(
                buffer_contents(*old(buffer)),
                buffer_contents(*final(buffer)),
                self@.encoding(),
                result,
            ),
    {
        let ghost tail = joined(
            self@.object_part(),
            joined(
                Ok(seq![self.publisher_priority]),
                joined(self@.headers_part(), self@.content_part()),
            ),
        );
        let kind = encode_varint(self.datagram_type.code(), buffer);
        let ghost one = buffer_contents(*buffer);
        proof {
            join_step(
                buffer_contents(*old(buffer)),
                one,
                varint_encoding(self.datagram_type.spec_code()),
                joined(
                    varint_encoding(self.track_alias),
                    joined(varint_encoding(self.group_id), tail),
                ),
                kind,
            );
        }
        kind?;
        let alias = encode_varint(self.track_alias, buffer);
        let ghost two = buffer_contents(*buffer);
        proof {
            join_step(
                one,
                two,
                varint_encoding(self.track_alias),
                joined(varint_encoding(self.group_id), tail),
                alias,
            );
        }
        alias?;
        let group = encode_varint(self.group_id, buffer);
        proof {
            join_step(
                two,
                buffer_contents(*buffer),
                varint_encoding(self.group_id),
                tail,
                group,
            );
        }
        group?;
        self.encode_tail(buffer)
    }

    /// Reads a datagram.
    pub fn decode(bytes: &[u8]) -> (result: Result<Datagram, DecodeError>)
        ensures
            match DatagramFields::read(bytes@) {
                Ok(fields) => result is Ok && result->Ok_0@ == fields,
                Err(error) => result == Err::<Datagram, DecodeError>(error),
            },
    {
        let mut cursor = Cursor::new(bytes);
        let code: u64 = decode_varint(&mut cursor)?;
        let datagram_type = match DatagramType::from_code(code) {
            Some(kind) => kind,
            None => {
                return Err(DecodeError::InvalidValue);
            },
        };
        let track_alias: u64 = decode_varint(&mut cursor)?;
        let group_id: u64 = decode_varint(&mut cursor)?;
        let object_id: Option<u64> = if datagram_type.has_object_id() {
            Some(decode_varint(&mut cursor)?)
        } else {
            None
        };
        let priority = cursor.take(1)?;
        let publisher_priority: u8 = priority[0];
        let extension_headers = if datagram_type.has_extension_headers() {
            Some(ExtensionHeaders::decode(&mut cursor)?)
        } else {
            None
        };
        let mut status: Option<ObjectStatus> = None;
        let mut payload: Option<Bytes> = None;
        if datagram_type.has_status() {
            let code: u64 = decode_varint(&mut cursor)?;
            match ObjectStatus::from_code(code) {
                Some(found) => {
                    status = Some(found);
                },
                None => {
                    return Err(DecodeError::InvalidValue);
                },
            }
        } else {
            let left: usize = cursor.remaining();
            let ghost rest = cursor@;
            let bytes = cursor.take(left)?;
            assert(rest.take(left as int) =~= rest);
            payload = Some(Bytes::copy_from_slice(bytes));
        }
        Ok(
            Datagram {
                datagram_type,
                track_alias,
                group_id,
                object_id,
                publisher_priority,
                extension_headers,
                status,
                payload,
            },
        )
    }
}

} // verus!
