//! What is written is what is read, and everything that has a form on the wire
//! can be written.

use bytes::BytesMut;
use vstd::prelude::*;
use vstd::utf8::encode_utf8;

use super::buffer::{buffer_contents, Cursor};
use super::error::{DecodeError, EncodeError};
use super::field::field_round_trip;
use super::kvp::{
    ascending, insert_pair, key_index, key_index_is_first, key_index_unique, list_encoding,
    list_round_trip, pair_encoding, pairs_encoding, read_list, sorted_pairs,
    sorted_pairs_ascending, value_of, KeyValuePairs, Pair, ValueView,
};
use super::location::Location;
use super::name::{path_parts, ReasonPhrase, TrackName, TrackNamespace};
use super::varint::{decode_varint, encode_varint, read_varint, varint, varint_round_trip};

verus! {

/// Every integer below the limit of the wire is written, in one, two, four or
/// eight bytes, the fewest that hold it; no other is.
pub proof fn every_small_integer_is_written(
    value: u64,
    buffer: &mut BytesMut,
    result: Result<(), EncodeError>,
)
    requires
        call_ensures(encode_varint, (value, buffer), result),
        buffer_contents(*old(buffer)).len() + 8 <= isize::MAX,
    ensures
        result is Ok <==> value < 0x4000_0000_0000_0000,
        result is Err ==> result->Err_0 == EncodeError::BoundsExceeded,
        result is Ok ==> {
            let before = buffer_contents(*old(buffer));
            let after = buffer_contents(*final(buffer));
            &&& before.is_prefix_of(after)
            &&& after.len() - before.len() == (if value < 0x40 {
                1int
            } else if value < 0x4000 {
                2int
            } else if value < 0x4000_0000 {
                4int
            } else {
                8int
            })
        },
{
}

/// The bytes of an integer are its digits to the base of 256, the highest
/// first; the two highest bits of the first byte tell how many there are.
pub proof fn integers_are_written_highest_byte_first(value: u64)
    requires
        value < 0x4000_0000_0000_0000,
    ensures
        value < 0x40 ==> varint(value)[0] == value,
        0x40 <= value < 0x4000 ==> varint(value)[0] * 0x100 + varint(value)[1] == 0x4000 + value,
        0x4000 <= value < 0x4000_0000 ==> varint(value)[0] * 0x100_0000 + varint(value)[1]
            * 0x1_0000 + varint(value)[2] * 0x100 + varint(value)[3] == 0x8000_0000 + value,
        0x4000_0000 <= value ==> varint(value)[0] * 0x100_0000_0000_0000 + varint(value)[1]
            * 0x1_0000_0000_0000 + varint(value)[2] * 0x100_0000_0000 + varint(value)[3]
            * 0x1_0000_0000 + varint(value)[4] * 0x100_0000 + varint(value)[5] * 0x1_0000
            + varint(value)[6] * 0x100 + varint(value)[7] == 0xc000_0000_0000_0000 + value,
{
    varint_round_trip(value, Seq::empty());
    assert(varint(value) + Seq::<u8>::empty() =~= varint(value));
    assert(read_varint(varint(value)) == Ok::<_, DecodeError>((value, Seq::<u8>::empty())));
    super::varint::varint_value_bounded(varint(value));
    assert(super::varint::varint_value(varint(value)) == value);
}

/// An integer that was written is read back, and what follows it is left.
pub proof fn written_integer_is_read(
    value: u64,
    buffer: &mut BytesMut,
    rest: Seq<u8>,
    cursor: &mut Cursor,
    result: Result<u64, DecodeError>,
)
    requires
        call_ensures(encode_varint, (value, buffer), Ok(())),
        buffer_contents(*old(buffer)).len() == 0,
        old(cursor)@ == buffer_contents(*final(buffer)) + rest,
        call_ensures(decode_varint, (cursor,), result),
    ensures
        result == Ok::<u64, DecodeError>(value),
        final(cursor)@ == rest,
{
    varint_round_trip(value, rest);
    assert(buffer_contents(*old(buffer)) + varint(value) =~= varint(value));
}

proof fn pushed_value_comes_last(pairs: Seq<Pair>, pair: Pair, key: u64)
    ensures
        value_of(pairs.push(pair), key) == (if value_of(pairs, key) is Some {
            value_of(pairs, key)
        } else if pair.key == key {
            Some(pair.value)
        } else {
            None
        }),
{
    let more = pairs.push(pair);
    let at = key_index(pairs, key);
    key_index_is_first(pairs, key);
    assert forall|i: int| 0 <= i < at implies (#[trigger] more[i]).key != key by {
        assert(more[i] == pairs[i]);
    }
    if at < pairs.len() {
        assert(more[at] == pairs[at]);
        key_index_unique(more, key, at);
    } else if pair.key == key {
        key_index_unique(more, key, pairs.len() as int);
    } else {
        key_index_unique(more, key, more.len() as int);
    }
}

proof fn inserted_value_comes_last(pairs: Seq<Pair>, pair: Pair, key: u64)
    ensures
        value_of(insert_pair(pairs, pair), key) == (if value_of(pairs, key) is Some {
            value_of(pairs, key)
        } else if pair.key == key {
            Some(pair.value)
        } else {
            None
        }),
        insert_pair(pairs, pair).to_multiset() == pairs.to_multiset().insert(pair),
        insert_pair(pairs, pair).len() == pairs.len() + 1,
    decreases pairs.len(),
{
    broadcast use vstd::seq_lib::group_to_multiset_ensures;

    pushed_value_comes_last(pairs, pair, key);
    if pairs.len() == 0 || pairs.last().key <= pair.key {
    } else {
        let front = pairs.drop_last();
        let last = pairs.last();
        inserted_value_comes_last(front, pair, key);
        pushed_value_comes_last(insert_pair(front, pair), last, key);
        pushed_value_comes_last(front, last, key);
        assert(front.push(last) =~= pairs);
        assert(pairs.to_multiset() =~= front.to_multiset().insert(last));
        assert(insert_pair(pairs, pair).to_multiset() =~= pairs.to_multiset().insert(pair));
    }
}

/// To bring parameters in order loses none, adds none, and changes no value:
/// under every key the same one is found as before.
pub proof fn sorting_changes_no_value(pairs: Seq<Pair>, key: u64)
    ensures
        value_of(sorted_pairs(pairs), key) == value_of(pairs, key),
        sorted_pairs(pairs).to_multiset() == pairs.to_multiset(),
        sorted_pairs(pairs).len() == pairs.len(),
        ascending(sorted_pairs(pairs)),
    decreases pairs.len(),
{
    broadcast use vstd::seq_lib::group_to_multiset_ensures;

    sorted_pairs_ascending(pairs);
    if pairs.len() > 0 {
        let front = pairs.drop_last();
        sorting_changes_no_value(front, key);
        inserted_value_comes_last(sorted_pairs(front), pairs.last(), key);
        pushed_value_comes_last(front, pairs.last(), key);
        assert(front.push(pairs.last()) =~= pairs);
        assert(pairs.to_multiset() =~= front.to_multiset().insert(pairs.last()));
    }
}

/// Whether a parameter has a form on the wire: an even key for an integer, an
/// odd one for bytes, and numbers that the wire can hold.
pub open spec fn has_form(pair: Pair) -> bool {
    &&& pair.key < 0x4000_0000_0000_0000
    &&& match pair.value {
        ValueView::Int(value) => pair.key % 2 == 0 && value < 0x4000_0000_0000_0000,
        ValueView::Bytes(bytes) => pair.key % 2 == 1 && bytes.len() <= u16::MAX,
    }
}

/// Parameters by ascending key that have a form are written.
pub proof fn formed_pairs_are_written(previous: u64, pairs: Seq<Pair>)
    requires
        ascending(pairs),
        pairs.len() > 0 ==> previous <= pairs[0].key,
        forall|i: int| 0 <= i < pairs.len() ==> has_form(#[trigger] pairs[i]),
    ensures
        pairs_encoding(previous, pairs) is Ok,
    decreases pairs.len(),
{
    if pairs.len() > 0 {
        let tail = pairs.drop_first();
        assert forall|i: int| 0 <= i < tail.len() implies has_form(#[trigger] tail[i]) by {
            assert(tail[i] == pairs[i + 1]);
        }
        assert forall|i: int, j: int| 0 <= i <= j < tail.len() implies (#[trigger] tail[i]).key <= (
        #[trigger] tail[j]).key by {
            assert(tail[i] == pairs[i + 1] && tail[j] == pairs[j + 1]);
        }
        if tail.len() > 0 {
            assert(tail[0] == pairs[1]);
            assert(pairs[0].key <= pairs[1].key);
        }
        formed_pairs_are_written(pairs[0].key, tail);
        assert(has_form(pairs[0]));
        if let ValueView::Bytes(bytes) = pairs[0].value {
            field_round_trip(bytes, u16::MAX as u64, Seq::empty());
        }
        assert(pair_encoding(previous, pairs[0]) is Ok);
    }
}

/// Every list of parameters that have a form is written, and read back with
/// the same value under every key.
pub proof fn formed_parameters_are_written_and_read(
    params: &KeyValuePairs,
    buffer: &mut BytesMut,
    written: Result<(), EncodeError>,
    rest: Seq<u8>,
    cursor: &mut Cursor,
    result: Result<KeyValuePairs, DecodeError>,
    key: u64,
)
    requires
        call_ensures(KeyValuePairs::encode, (params, buffer), written),
        buffer_contents(*old(buffer)).len() == 0,
        forall|i: int| 0 <= i < params@.len() ==> has_form(#[trigger] params@[i]),
        params@.len() < 0x4000_0000_0000_0000,
        list_encoding(params@) matches Ok(bytes) ==> bytes.len() <= isize::MAX,
        old(cursor)@ == buffer_contents(*final(buffer)) + rest,
        call_ensures(KeyValuePairs::decode, (cursor,), result),
    ensures
        written is Ok,
        result is Ok,
        value_of(result->Ok_0@, key) == value_of(params@, key),
        result->Ok_0@.to_multiset() == params@.to_multiset(),
        ascending(result->Ok_0@),
        final(cursor)@ == rest,
{
    broadcast use vstd::seq_lib::group_to_multiset_ensures;

    let pairs = params@;
    let sorted = sorted_pairs(pairs);
    sorting_changes_no_value(pairs, key);
    assert forall|i: int| 0 <= i < sorted.len() implies has_form(#[trigger] sorted[i]) by {
        assert(sorted.to_multiset().count(sorted[i]) > 0);
        assert(pairs.to_multiset().count(sorted[i]) > 0);
        assert(pairs.contains(sorted[i]));
    }
    formed_pairs_are_written(0, sorted);
    assert(list_encoding(pairs) is Ok);
    assert(buffer_contents(*old(buffer)) + list_encoding(pairs)->Ok_0 =~= list_encoding(
        pairs,
    )->Ok_0);
    list_round_trip(pairs, rest);
    assert(read_list(old(cursor)@) == Ok::<_, DecodeError>((sorted, rest)));
}

/// A parameter that is set is found under its key, and every other as before.
pub proof fn set_parameter_is_found(params: &mut KeyValuePairs, key: u64, value: u64, other: u64)
    requires
        call_ensures(KeyValuePairs::set_intvalue, (params, key, value), ()),
    ensures
        value_of(final(params)@, key) == Some(ValueView::Int(value)),
        other != key ==> value_of(final(params)@, other) == value_of(old(params)@, other),
{
    super::kvp::set_then_get(old(params)@, key, ValueView::Int(value), other);
}

/// A parameter of bytes that is set is found under its key, and every other as
/// before.
pub proof fn set_bytes_are_found(params: &mut KeyValuePairs, key: u64, value: Vec<u8>, other: u64)
    requires
        call_ensures(KeyValuePairs::set_bytesvalue, (params, key, value), ()),
    ensures
        value_of(final(params)@, key) == Some(ValueView::Bytes(value@)),
        other != key ==> value_of(final(params)@, other) == value_of(old(params)@, other),
{
    super::kvp::set_then_get(old(params)@, key, ValueView::Bytes(value@), other);
}

/// Locations are in order: by group first, and by object within a group. Of
/// two that differ exactly one comes first.
pub proof fn locations_are_in_order(left: &Location, right: &Location, before: bool, after: bool)
    requires
        call_ensures(Location::is_before, (left, right), before),
        call_ensures(Location::is_before, (right, left), after),
    ensures
        left.group_id < right.group_id ==> before,
        left.group_id == right.group_id ==> before == (left.object_id < right.object_id),
        !(before && after),
        before || after <==> *left != *right,
{
}

/// Parts with a slash between any two of them.
pub open spec fn slashed(parts: Seq<Seq<u8>>) -> Seq<u8>
    decreases parts.len(),
{
    if parts.len() == 0 {
        Seq::empty()
    } else if parts.len() == 1 {
        parts[0]
    } else {
        slashed(parts.drop_last()) + seq![0x2fu8] + parts.last()
    }
}

proof fn parts_make_the_path(path: Seq<u8>)
    ensures
        path_parts(path).len() > 0,
        slashed(path_parts(path)) == path,
        forall|i: int, k: int|
            0 <= i < path_parts(path).len() && 0 <= k < path_parts(path)[i].len()
                ==> #[trigger] path_parts(path)[i][k] != 0x2f,
    decreases path.len(),
{
    let parts = path_parts(path);
    if path.len() > 0 {
        let shorter = path.drop_last();
        let front = path_parts(shorter);
        parts_make_the_path(shorter);
        assert(shorter.push(path.last()) =~= path);
        if path.last() == 0x2f {
            assert(parts.drop_last() =~= front);
            assert(parts.last() =~= Seq::<u8>::empty());
            assert(slashed(parts) =~= path);
            assert forall|i: int, k: int|
                0 <= i < parts.len() && 0 <= k < parts[i].len() implies #[trigger] parts[i][k]
                != 0x2f by {
                if i < front.len() {
                    assert(parts[i] == front[i]);
                }
            }
        } else {
            let n = front.len() - 1;
            assert(parts[n] == front[n].push(path.last()));
            assert forall|i: int, k: int|
                0 <= i < parts.len() && 0 <= k < parts[i].len() implies #[trigger] parts[i][k]
                != 0x2f by {
                if i < n {
                    assert(parts[i] == front[i]);
                    assert(front[i][k] != 0x2f);
                } else if k < front[n].len() {
                    assert(front[n][k] != 0x2f);
                }
            }
            if n > 0 {
                assert(parts.drop_last() =~= front.drop_last());
                assert(slashed(parts) =~= path);
            } else {
                assert(slashed(parts) =~= path);
            }
        }
    } else {
        assert(parts =~= seq![path]);
    }
}

/// The parts of a namespace that is named by a path are what stands between
/// its slashes: none of them holds one, and together they make the path.
pub proof fn namespace_has_the_parts_of_its_path(path: &str, namespace: TrackNamespace)
    requires
        call_ensures(TrackNamespace::from_utf8_path, (path,), namespace),
    ensures
        namespace@.len() > 0,
        slashed(namespace@) == encode_utf8(path@),
        forall|i: int, k: int|
            0 <= i < namespace@.len() && 0 <= k < namespace@[i].len()
                ==> #[trigger] namespace@[i][k] != 0x2f,
{
    parts_make_the_path(encode_utf8(path@));
}

/// Parameters that have a form are written in any order, with their number
/// before them or without.
pub proof fn formed_list_is_written(pairs: Seq<Pair>)
    requires
        forall|i: int| 0 <= i < pairs.len() ==> has_form(#[trigger] pairs[i]),
        pairs.len() < 0x4000_0000_0000_0000,
    ensures
        pairs_encoding(0, sorted_pairs(pairs)) is Ok,
        list_encoding(pairs) is Ok,
{
    broadcast use vstd::seq_lib::group_to_multiset_ensures;

    let sorted = sorted_pairs(pairs);
    sorting_changes_no_value(pairs, 0);
    assert forall|i: int| 0 <= i < sorted.len() implies has_form(#[trigger] sorted[i]) by {
        assert(sorted.to_multiset().count(sorted[i]) > 0);
        assert(pairs.to_multiset().count(sorted[i]) > 0);
        assert(pairs.contains(sorted[i]));
    }
    formed_pairs_are_written(0, sorted);
}

/// Every reason that is not too long is written, and read back as it was; one
/// that is too long is refused.
pub proof fn reason_is_written_and_read(
    reason: &ReasonPhrase,
    buffer: &mut BytesMut,
    written: Result<(), EncodeError>,
    rest: Seq<u8>,
    cursor: &mut Cursor,
    result: Result<ReasonPhrase, DecodeError>,
)
    requires
        call_ensures(ReasonPhrase::encode, (reason, buffer), written),
        buffer_contents(*old(buffer)).len() == 0,
        old(cursor)@ == buffer_contents(*final(buffer)) + rest,
        call_ensures(ReasonPhrase::decode, (cursor,), result),
    ensures
        written is Ok <==> encode_utf8(reason.0@).len() <= 1024,
        written is Err ==> written->Err_0 == EncodeError::FieldBoundsExceeded,
        written is Ok ==> result is Ok && result->Ok_0.0@ == reason.0@ && final(cursor)@ == rest,
{
    let text = encode_utf8(reason.0@);
    if text.len() <= 1024 {
        field_round_trip(text, 1024, rest);
        super::name::text_round_trip(reason.0@, 1024, rest);
        let bytes = super::name::text_encoding(reason.0@, 1024)->Ok_0;
        assert(buffer_contents(*old(buffer)) + bytes =~= bytes);
    }
}

/// Every name that is not too long is written, and read back as it was.
pub proof fn name_is_written_and_read(
    name: &TrackName,
    buffer: &mut BytesMut,
    written: Result<(), EncodeError>,
    rest: Seq<u8>,
    cursor: &mut Cursor,
    result: Result<TrackName, DecodeError>,
)
    requires
        call_ensures(TrackName::encode, (name, buffer), written),
        buffer_contents(*old(buffer)).len() == 0,
        name@.len() <= super::name::MAX_NAME_LENGTH,
        old(cursor)@ == buffer_contents(*final(buffer)) + rest,
        call_ensures(TrackName::decode, (cursor,), result),
    ensures
        written is Ok,
        result is Ok,
        result->Ok_0@ == name@,
        final(cursor)@ == rest,
{
    field_round_trip(name@, super::name::MAX_NAME_LENGTH as u64, rest);
    let bytes = super::field::field_encoding(name@)->Ok_0;
    assert(buffer_contents(*old(buffer)) + bytes =~= bytes);
}

/// Every namespace that is small enough is written, and read back as it was,
/// part by part.
pub proof fn namespace_is_written_and_read(
    namespace: &TrackNamespace,
    buffer: &mut BytesMut,
    written: Result<(), EncodeError>,
    rest: Seq<u8>,
    cursor: &mut Cursor,
    result: Result<TrackNamespace, DecodeError>,
)
    requires
        call_ensures(TrackNamespace::encode, (namespace, buffer), written),
        buffer_contents(*old(buffer)).len() == 0,
        namespace@.len() <= 32,
        forall|i: int|
            0 <= i < namespace@.len() ==> (#[trigger] namespace@[i]).len()
                <= super::name::MAX_NAME_LENGTH,
        super::name::namespace_encoding(namespace@) matches Ok(bytes) ==> bytes.len()
            <= isize::MAX,
        old(cursor)@ == buffer_contents(*final(buffer)) + rest,
        call_ensures(TrackNamespace::decode, (cursor,), result),
    ensures
        written is Ok,
        result is Ok,
        result->Ok_0@ == namespace@,
        final(cursor)@ == rest,
{
    super::name::namespace_round_trip(namespace@, rest);
    let bytes = super::name::namespace_encoding(namespace@)->Ok_0;
    assert(buffer_contents(*old(buffer)) + bytes =~= bytes);
}

} // verus!
