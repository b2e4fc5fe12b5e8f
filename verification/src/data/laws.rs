//! Datagrams: what is written is what is read, and the type tells the fields.

use bytes::BytesMut;
use vstd::prelude::*;

use super::datagram::{Datagram, DatagramFields, DatagramType};
use super::extension::headers_encoding;
use super::stream::{ObjectStatus, StreamHeaderType, SubgroupHeader, SubgroupIdMode};
use crate::coding::buffer::buffer_contents;
use crate::coding::kvp::value_of;
use crate::coding::laws::sorting_changes_no_value;
use crate::coding::{DecodeError, EncodeError};

verus! {

/// The bits of a datagram's type tell its fields: the lowest that it has
/// extension headers, the third that it leaves out its object's ID, and the
/// sixth that it has a status and no payload.
pub proof fn type_tells_the_fields(kind: &DatagramType, code: u64)
    requires
        call_ensures(DatagramType::code, (kind,), code),
    ensures
        kind.extended() <==> code % 2 == 1,
        kind.names_object() <==> code / 4 % 2 == 0,
        kind.tells_status() <==> code / 0x20 % 2 == 1,
        code < 0x40,
        DatagramType::of_code(code) == Some(*kind),
{
}

/// Every code belongs to one type at most.
pub proof fn codes_belong_to_one_type(code: u64)
    ensures
        DatagramType::of_code(code) matches Some(kind) ==> kind.spec_code() == code,
        DatagramType::of_code(code) is Some <==> code < 8 || code == 0x20 || code == 0x21,
        ObjectStatus::of_code(code) matches Some(status) ==> status.spec_code() == code,
        ObjectStatus::of_code(code) is Some <==> code <= 4 && code != 2,
{
}

/// Whether a datagram has a form on the wire: the fields of its type, and
/// numbers and headers that the wire can hold.
pub open spec fn has_wire_form(datagram: DatagramFields) -> bool {
    &&& datagram.object_id is Some <==> datagram.datagram_type.names_object()
    &&& datagram.extension_headers is Some <==> datagram.datagram_type.extended()
    &&& datagram.status is Some <==> datagram.datagram_type.tells_status()
    &&& datagram.payload is Some <==> !datagram.datagram_type.tells_status()
    &&& datagram.track_alias < 0x4000_0000_0000_0000
    &&& datagram.group_id < 0x4000_0000_0000_0000
    &&& datagram.object_id matches Some(id) ==> id < 0x4000_0000_0000_0000
    &&& datagram.extension_headers matches Some(headers) ==> headers_encoding(headers) is Ok
}

/// Every datagram that has a form is written, as long as the buffer holds it,
/// and read back with every field as it was; its extension headers come by
/// ascending key, with the same value under every key.
pub proof fn datagram_is_written_and_read(
    datagram: &Datagram,
    buffer: &mut BytesMut,
    written: Result<(), EncodeError>,
    bytes: &[u8],
    result: Result<Datagram, DecodeError>,
    key: u64,
)
    requires
        call_ensures(Datagram::encode, (datagram, buffer), written),
        buffer_contents(*old(buffer)).len() == 0,
        has_wire_form(datagram@),
        datagram@.headers_fit(),
        datagram@.encoding() matches Ok(all) ==> all.len() <= isize::MAX,
        bytes@ == buffer_contents(*final(buffer)),
        call_ensures(Datagram::decode, (bytes,), result),
    ensures
        written is Ok,
        result is Ok,
        result->Ok_0.datagram_type == datagram.datagram_type,
        result->Ok_0.track_alias == datagram.track_alias,
        result->Ok_0.group_id == datagram.group_id,
        result->Ok_0.object_id == datagram.object_id,
        result->Ok_0.publisher_priority == datagram.publisher_priority,
        result->Ok_0.status == datagram.status,
        result->Ok_0@.payload == datagram@.payload,
        result->Ok_0@.extension_headers is Some <==> datagram@.extension_headers is Some,
        datagram@.extension_headers matches Some(headers) ==> value_of(
            result->Ok_0@.extension_headers->0,
            key,
        ) == value_of(headers, key) && result->Ok_0@.extension_headers->0.len() == headers.len(),
{
    let fields = datagram@;
    assert(fields.object_part() is Ok);
    assert(fields.headers_part() is Ok);
    assert(fields.content_part() is Ok);
    assert(fields.encoding() is Ok);
    fields.round_trip();
    assert(buffer_contents(*old(buffer)) + fields.encoding()->Ok_0 =~= fields.encoding()->Ok_0);
    if let Some(headers) = fields.extension_headers {
        sorting_changes_no_value(headers, key);
    }
}

/// The ID of a subgroup is zero, that of its first object, or the one in the
/// header, as the type of the stream says; a header that should tell it and
/// does not is refused.
pub proof fn subgroup_id_is_told_by_the_mode(
    header: &SubgroupHeader,
    result: Result<Option<u64>, DecodeError>,
)
    requires
        call_ensures(SubgroupHeader::resolved_subgroup_id, (header,), result),
        header.header_type is Subgroup,
    ensures
        header.header_type->subgroup_id == SubgroupIdMode::Zero ==> result == Ok::<
            Option<u64>,
            DecodeError,
        >(Some(0)),
        header.header_type->subgroup_id != SubgroupIdMode::Zero && header.subgroup_id is Some
            ==> result == Ok::<Option<u64>, DecodeError>(header.subgroup_id),
        header.header_type->subgroup_id == SubgroupIdMode::Explicit && header.subgroup_id is None
            ==> result is Err,
        header.header_type->subgroup_id == SubgroupIdMode::FirstObject && header.subgroup_id is None
            ==> result == Ok::<Option<u64>, DecodeError>(None),
{
}

/// A stream type that is made for a subgroup says what it was made with.
pub proof fn stream_type_says_what_it_was_made_with(
    extension_headers: bool,
    mode: SubgroupIdMode,
    end_of_group: bool,
    default_priority: bool,
    first_object: bool,
    made: StreamHeaderType,
    extended: bool,
    first: bool,
    named: bool,
)
    requires
        call_ensures(
            StreamHeaderType::subgroup,
            (extension_headers, mode, end_of_group, default_priority, first_object),
            made,
        ),
        call_ensures(StreamHeaderType::has_extension_headers, (&made,), extended),
        call_ensures(StreamHeaderType::is_first_object, (&made,), first),
        call_ensures(StreamHeaderType::uses_first_object_id_as_subgroup_id, (&made,), named),
    ensures
        made is Subgroup,
        extended == extension_headers,
        first == first_object,
        named == (mode == SubgroupIdMode::FirstObject),
{
}

} // verus!
