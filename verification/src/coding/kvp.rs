//! Key-value pairs: the parameters of messages and the headers of objects.

use bytes::BytesMut;
use vstd::prelude::*;

use super::buffer::{appended, buffer_contents, join_step, joined, stop, Cursor, Stop};
use super::error::{DecodeError, EncodeError};
use super::field::{decode_field, encode_field, field_encoding, field_round_trip, read_field};
use super::varint::{
    decode_varint, encode_varint, read_varint, varint, varint_encoding, varint_round_trip,
    VARINT_LIMIT,
};

verus! {

/// The longest byte value that is accepted from a peer.
pub const MAX_VALUE_LENGTH: u32 = 0xffff;

/// The value of a parameter. Even keys carry integers, odd keys carry bytes.
#[derive(Debug, PartialEq, Eq)]
pub enum Value {
    IntValue(u64),
    BytesValue(Vec<u8>),
}

/// A parameter.
#[derive(Debug, PartialEq, Eq)]
pub struct KeyValuePair {
    pub key: u64,
    pub value: Value,
}

/// Parameters, in the order in which they were set.
#[derive(Debug, PartialEq, Eq)]
pub struct KeyValuePairs(pub Vec<KeyValuePair>);

/// The model of a value.
pub enum ValueView {
    Int(u64),
    Bytes(Seq<u8>),
}

/// The model of a parameter.
pub struct Pair {
    pub key: u64,
    pub value: ValueView,
}

impl View for Value {
    type V = ValueView;

    open spec fn view(&self) -> ValueView {
        match self {
            Value::IntValue(value) => ValueView::Int(*value),
            Value::BytesValue(bytes) => ValueView::Bytes(bytes@),
        }
    }
}

impl View for KeyValuePair {
    type V = Pair;

    open spec fn view(&self) -> Pair {
        Pair { key: self.key, value: self.value@ }
    }
}

impl View for KeyValuePairs {
    type V = Seq<Pair>;

    open spec fn view(&self) -> Seq<Pair> {
        self.0@.map_values(|pair: KeyValuePair| pair@)
    }
}

/// Where the first parameter with this key stands, or the number of
/// parameters if there is none.
pub open spec fn key_index(pairs: Seq<Pair>, key: u64) -> int
    decreases pairs.len(),
{
    if pairs.len() == 0 {
        0
    } else if pairs[0].key == key {
        0
    } else {
        1 + key_index(pairs.drop_first(), key)
    }
}

/// Whether a parameter with this key is there.
pub open spec fn has_key(pairs: Seq<Pair>, key: u64) -> bool {
    exists|i: int| 0 <= i < pairs.len() && #[trigger] pairs[i].key == key
}

/// The first value under a key.
pub open spec fn value_of(pairs: Seq<Pair>, key: u64) -> Option<ValueView> {
    if key_index(pairs, key) < pairs.len() {
        Some(pairs[key_index(pairs, key)].value)
    } else {
        None
    }
}

/// The parameters after one is set: the first with its key is replaced, and
/// where there is none the new one comes last.
pub open spec fn with_value(pairs: Seq<Pair>, key: u64, value: ValueView) -> Seq<Pair> {
    if key_index(pairs, key) < pairs.len() {
        pairs.update(key_index(pairs, key), Pair { key, value })
    } else {
        pairs.push(Pair { key, value })
    }
}

/// What `key_index` finds is the first parameter with the key.
pub proof fn key_index_is_first(pairs: Seq<Pair>, key: u64)
    ensures
        0 <= key_index(pairs, key) <= pairs.len(),
        key_index(pairs, key) < pairs.len() ==> pairs[key_index(pairs, key)].key == key,
        forall|i: int| 0 <= i < key_index(pairs, key) ==> (#[trigger] pairs[i]).key != key,
        has_key(pairs, key) <==> key_index(pairs, key) < pairs.len(),
    decreases pairs.len(),
{
    if pairs.len() > 0 && pairs[0].key != key {
        let tail = pairs.drop_first();
        key_index_is_first(tail, key);
        assert forall|i: int| 0 <= i < key_index(pairs, key) implies (#[trigger] pairs[i]).key
            != key by {
            if i > 0 {
                assert(tail[i - 1] == pairs[i]);
            }
        }
        if has_key(pairs, key) {
            let i = choose|i: int| 0 <= i < pairs.len() && #[trigger] pairs[i].key == key;
            assert(tail[i - 1] == pairs[i]);
            assert(has_key(tail, key));
        }
    }
}

/// The index of the first parameter with a key is known by its properties.
pub proof fn key_index_unique(pairs: Seq<Pair>, key: u64, at: int)
    requires
        0 <= at <= pairs.len(),
        at < pairs.len() ==> pairs[at].key == key,
        forall|i: int| 0 <= i < at ==> (#[trigger] pairs[i]).key != key,
    ensures
        key_index(pairs, key) == at,
{
    key_index_is_first(pairs, key);
    let found = key_index(pairs, key);
    if found < at {
        assert(pairs[found].key != key);
    } else if at < found {
        assert(pairs[at].key != key);
    }
}

/// A value that was set is the one that is read back, and no other changes.
pub proof fn set_then_get(pairs: Seq<Pair>, key: u64, value: ValueView, other: u64)
    ensures
        value_of(with_value(pairs, key, value), key) == Some(value),
        other != key ==> value_of(with_value(pairs, key, value), other) == value_of(pairs, other),
{
    let after = with_value(pairs, key, value);
    let at = key_index(pairs, key);
    key_index_is_first(pairs, key);
    assert forall|i: int| 0 <= i < at implies (#[trigger] after[i]).key != key by {
        assert(after[i] == pairs[i]);
    }
    key_index_unique(after, key, at);
    if other != key {
        let there = key_index(pairs, other);
        key_index_is_first(pairs, other);
        assert forall|i: int| 0 <= i < there implies (#[trigger] after[i]).key != other by {
            assert(i != at ==> after[i] == pairs[i]);
        }
        if there < pairs.len() {
            assert(after[there] == pairs[there]);
            key_index_unique(after, other, there);
        } else {
            key_index_unique(after, other, after.len() as int);
        }
    }
}

/// A parameter put behind every one whose key is not larger.
pub open spec fn insert_pair(sorted: Seq<Pair>, pair: Pair) -> Seq<Pair>
    decreases sorted.len(),
{
    if sorted.len() == 0 || sorted.last().key <= pair.key {
        sorted.push(pair)
    } else {
        insert_pair(sorted.drop_last(), pair).push(sorted.last())
    }
}

/// The parameters by ascending key; those with one key keep their order.
pub open spec fn sorted_pairs(pairs: Seq<Pair>) -> Seq<Pair>
    decreases pairs.len(),
{
    if pairs.len() == 0 {
        pairs
    } else {
        insert_pair(sorted_pairs(pairs.drop_last()), pairs.last())
    }
}

/// Whether keys never decrease.
pub open spec fn ascending(pairs: Seq<Pair>) -> bool {
    forall|i: int, j: int| 0 <= i <= j < pairs.len() ==> (#[trigger] pairs[i]).key <= (
    #[trigger] pairs[j]).key
}

/// What writing a parameter yields: how far its key is behind the one before
/// it, and its value.
pub open spec fn pair_encoding(previous: u64, pair: Pair) -> Result<Seq<u8>, Stop> {
    match pair.value {
        ValueView::Int(value) => if pair.key % 2 != 0 {
            Err(stop(EncodeError::InvalidValue))
        } else {
            joined(varint_encoding((pair.key - previous) as u64), varint_encoding(value))
        },
        ValueView::Bytes(bytes) => if pair.key % 2 == 0 {
            Err(stop(EncodeError::InvalidValue))
        } else {
            joined(varint_encoding((pair.key - previous) as u64), field_encoding(bytes))
        },
    }
}

/// What writing parameters with ascending keys yields.
pub open spec fn pairs_encoding(previous: u64, pairs: Seq<Pair>) -> Result<Seq<u8>, Stop>
    decreases pairs.len(),
{
    if pairs.len() == 0 {
        Ok(Seq::empty())
    } else {
        joined(
            pair_encoding(previous, pairs[0]),
            pairs_encoding(pairs[0].key, pairs.drop_first()),
        )
    }
}

/// What writing a parameter list yields: its length and its parameters.
pub open spec fn list_encoding(pairs: Seq<Pair>) -> Result<Seq<u8>, Stop> {
    joined(varint_encoding(pairs.len() as u64), pairs_encoding(0, sorted_pairs(pairs)))
}

/// Reads a parameter off the front of `bytes`.
pub open spec fn read_pair(previous: u64, bytes: Seq<u8>) -> Result<(Pair, Seq<u8>), DecodeError> {
    match read_varint(bytes) {
        Ok((delta, rest)) => if previous + delta > u64::MAX {
            Err(DecodeError::InvalidValue)
        } else {
            let key = (previous + delta) as u64;
            if key % 2 == 0 {
                match read_varint(rest) {
                    Ok((value, rest)) => Ok((Pair { key, value: ValueView::Int(value) }, rest)),
                    Err(error) => Err(error),
                }
            } else {
                match read_field(rest, MAX_VALUE_LENGTH as u64) {
                    Ok((field, rest)) => Ok((Pair { key, value: ValueView::Bytes(field) }, rest)),
                    Err(error) => Err(error),
                }
            }
        },
        Err(error) => Err(error),
    }
}

/// Reads `count` parameters off the front of `bytes`.
pub open spec fn read_pairs(count: nat, previous: u64, bytes: Seq<u8>) -> Result<
    (Seq<Pair>, Seq<u8>),
    DecodeError,
>
    decreases count,
{
    if count == 0 {
        Ok((Seq::empty(), bytes))
    } else {
        match read_pair(previous, bytes) {
            Ok((pair, rest)) => match read_pairs((count - 1) as nat, pair.key, rest) {
                Ok((pairs, rest)) => Ok((seq![pair] + pairs, rest)),
                Err(error) => Err(error),
            },
            Err(error) => Err(error),
        }
    }
}

/// Reads a parameter list off the front of `bytes`.
pub open spec fn read_list(bytes: Seq<u8>) -> Result<(Seq<Pair>, Seq<u8>), DecodeError> {
    match read_varint(bytes) {
        Ok((count, rest)) => read_pairs(count as nat, 0, rest),
        Err(error) => Err(error),
    }
}

/// Reading a parameter takes at least two bytes.
pub proof fn read_pair_consumes(previous: u64, bytes: Seq<u8>)
    ensures
        read_pair(previous, bytes) matches Ok((_, rest)) ==> rest.len() < bytes.len(),
{
}

/// Reads parameters until nothing is left of `bytes`.
pub open spec fn read_all_pairs(previous: u64, bytes: Seq<u8>) -> Result<Seq<Pair>, DecodeError>
    decreases bytes.len(),
{
    if bytes.len() == 0 {
        Ok(Seq::empty())
    } else {
        match read_pair(previous, bytes) {
            Ok((pair, rest)) => {
                if rest.len() < bytes.len() {
                    match read_all_pairs(pair.key, rest) {
                        Ok(pairs) => Ok(seq![pair] + pairs),
                        Err(error) => Err(error),
                    }
                } else {
                    Err(DecodeError::InvalidValue)
                }
            },
            Err(error) => Err(error),
        }
    }
}

/// Inserting by key is inserting at the one place that keeps the order.
proof fn insert_pair_at(sorted: Seq<Pair>, pair: Pair, at: int)
    requires
        0 <= at <= sorted.len(),
        at > 0 ==> sorted[at - 1].key <= pair.key,
        forall|j: int| at <= j < sorted.len() ==> (#[trigger] sorted[j]).key > pair.key,
    ensures
        insert_pair(sorted, pair) == sorted.insert(at, pair),
    decreases sorted.len(),
{
    if at == sorted.len() {
        assert(sorted.insert(at, pair) =~= sorted.push(pair));
    } else {
        let front = sorted.drop_last();
        assert(sorted.last() == sorted[sorted.len() - 1]);
        assert forall|j: int| at <= j < front.len() implies (#[trigger] front[j]).key
            > pair.key by {
            assert(front[j] == sorted[j]);
        }
        insert_pair_at(front, pair, at);
        assert(sorted.insert(at, pair) =~= front.insert(at, pair).push(sorted.last()));
    }
}

/// Inserting keeps ascending keys ascending, and adds one parameter.
proof fn insert_pair_ascending(sorted: Seq<Pair>, pair: Pair)
    requires
        ascending(sorted),
    ensures
        ascending(insert_pair(sorted, pair)),
        insert_pair(sorted, pair).len() == sorted.len() + 1,
        forall|i: int|
            0 <= i < sorted.len() + 1 ==> (#[trigger] insert_pair(sorted, pair)[i]) == pair || exists|
                j: int,
            |
                0 <= j < sorted.len() && sorted[j] == insert_pair(sorted, pair)[i],
    decreases sorted.len(),
{
    if sorted.len() == 0 || sorted.last().key <= pair.key {
        let after = sorted.push(pair);
        assert forall|i: int, j: int| 0 <= i <= j < after.len() implies (#[trigger] after[i]).key
            <= (#[trigger] after[j]).key by {
            if j == sorted.len() && i < j {
                assert(sorted[i].key <= sorted[sorted.len() - 1].key);
            }
        }
        assert forall|i: int| 0 <= i < after.len() implies #[trigger] after[i] == pair || exists|
            j: int,
        |
            0 <= j < sorted.len() && sorted[j] == after[i] by {
            if i < sorted.len() {
                assert(sorted[i] == after[i]);
            }
        }
    } else {
        let front = sorted.drop_last();
        let inner = insert_pair(front, pair);
        assert forall|i: int, j: int| 0 <= i <= j < front.len() implies (#[trigger] front[i]).key
            <= (#[trigger] front[j]).key by {
            assert(sorted[i].key <= sorted[j].key);
        }
        insert_pair_ascending(front, pair);
        let after = inner.push(sorted.last());
        let top = sorted.len() - 1;
        assert forall|i: int, j: int| 0 <= i <= j < after.len() implies (#[trigger] after[i]).key
            <= (#[trigger] after[j]).key by {
            if j == top + 1 && i < j {
                assert(inner[i] == after[i]);
                if inner[i] != pair {
                    let k = choose|k: int| 0 <= k < front.len() && front[k] == inner[i];
                    assert(sorted[k].key <= sorted[top].key);
                }
            } else if j < top + 1 {
                assert(inner[i].key <= inner[j].key);
            }
        }
        assert forall|i: int| 0 <= i < after.len() implies #[trigger] after[i] == pair || exists|
            j: int,
        |
            0 <= j < sorted.len() && sorted[j] == after[i] by {
            if i == top + 1 {
                assert(sorted[top] == after[i]);
            } else {
                assert(inner[i] == after[i]);
                if inner[i] != pair {
                    let k = choose|k: int| 0 <= k < front.len() && front[k] == inner[i];
                    assert(sorted[k] == after[i]);
                }
            }
        }
    }
}

/// Parameters are written by ascending key, none lost and none added.
pub proof fn sorted_pairs_ascending(pairs: Seq<Pair>)
    ensures
        ascending(sorted_pairs(pairs)),
        sorted_pairs(pairs).len() == pairs.len(),
        forall|i: int|
            0 <= i < pairs.len() ==> exists|j: int|
                0 <= j < pairs.len() && pairs[j] == #[trigger] sorted_pairs(pairs)[i],
    decreases pairs.len(),
{
    if pairs.len() > 0 {
        let front = pairs.drop_last();
        sorted_pairs_ascending(front);
        insert_pair_ascending(sorted_pairs(front), pairs.last());
        assert forall|i: int| 0 <= i < pairs.len() implies exists|j: int|
            0 <= j < pairs.len() && pairs[j] == #[trigger] sorted_pairs(pairs)[i] by {
            let here = sorted_pairs(pairs)[i];
            assert(here == insert_pair(sorted_pairs(front), pairs.last())[i]);
            if here == pairs.last() {
                assert(pairs[pairs.len() - 1] == here);
            } else {
                let k = choose|k: int|
                    0 <= k < sorted_pairs(front).len() && sorted_pairs(front)[k] == here;
                let j = choose|j: int| 0 <= j < front.len() && front[j] == sorted_pairs(front)[k];
                assert(pairs[j] == here);
            }
        }
    }
}

/// Sorting changes nothing where the keys ascend already.
pub proof fn sorted_pairs_fixed(pairs: Seq<Pair>)
    requires
        ascending(pairs),
    ensures
        sorted_pairs(pairs) == pairs,
    decreases pairs.len(),
{
    if pairs.len() > 0 {
        let front = pairs.drop_last();
        assert forall|i: int, j: int| 0 <= i <= j < front.len() implies (#[trigger] front[i]).key
            <= (#[trigger] front[j]).key by {
            assert(pairs[i].key <= pairs[j].key);
        }
        sorted_pairs_fixed(front);
        if front.len() > 0 {
            assert(pairs[front.len() - 1].key <= pairs[front.len() as int].key);
        }
        assert(front.push(pairs.last()) =~= pairs);
    }
}

/// Whether the byte values are short enough for a peer to accept.
pub open spec fn values_fit(pairs: Seq<Pair>) -> bool {
    forall|i: int| 0 <= i < pairs.len() ==> match (#[trigger] pairs[i]).value {
        ValueView::Int(_) => true,
        ValueView::Bytes(bytes) => bytes.len() <= MAX_VALUE_LENGTH,
    }
}

/// Reading gives back a parameter that was written.
pub proof fn pair_round_trip(previous: u64, pair: Pair, rest: Seq<u8>)
    requires
        previous <= pair.key,
        pair_encoding(previous, pair) is Ok,
        pair.value matches ValueView::Bytes(bytes) ==> bytes.len() <= MAX_VALUE_LENGTH,
    ensures
        read_pair(previous, pair_encoding(previous, pair)->Ok_0 + rest) == Ok::<_, DecodeError>(
            (pair, rest),
        ),
{
    let delta = (pair.key - previous) as u64;
    match pair.value {
        ValueView::Int(value) => {
            assert(pair_encoding(previous, pair)->Ok_0 + rest =~= varint(delta) + (varint(value)
                + rest));
            varint_round_trip(delta, varint(value) + rest);
            varint_round_trip(value, rest);
        },
        ValueView::Bytes(bytes) => {
            let field = field_encoding(bytes)->Ok_0;
            assert(pair_encoding(previous, pair)->Ok_0 + rest =~= varint(delta) + (field + rest));
            varint_round_trip(delta, field + rest);
            field_round_trip(bytes, MAX_VALUE_LENGTH as u64, rest);
        },
    }
}

/// Reading gives back parameters that were written.
pub proof fn pairs_round_trip(previous: u64, pairs: Seq<Pair>, rest: Seq<u8>)
    requires
        ascending(pairs),
        pairs.len() > 0 ==> previous <= pairs[0].key,
        pairs_encoding(previous, pairs) is Ok,
        values_fit(pairs),
    ensures
        read_pairs(pairs.len(), previous, pairs_encoding(previous, pairs)->Ok_0 + rest) == Ok::<
            _,
            DecodeError,
        >((pairs, rest)),
        read_all_pairs(previous, pairs_encoding(previous, pairs)->Ok_0) == Ok::<_, DecodeError>(
            pairs,
        ),
    decreases pairs.len(),
{
    if pairs.len() > 0 {
        let pair = pairs[0];
        let tail = pairs.drop_first();
        let head = pair_encoding(previous, pair)->Ok_0;
        let body = pairs_encoding(pair.key, tail)->Ok_0;
        assert forall|i: int, j: int| 0 <= i <= j < tail.len() implies (#[trigger] tail[i]).key
            <= (#[trigger] tail[j]).key by {
            assert(pairs[i + 1].key <= pairs[j + 1].key);
        }
        assert forall|i: int| 0 <= i < tail.len() implies match (#[trigger] tail[i]).value {
            ValueView::Int(_) => true,
            ValueView::Bytes(bytes) => bytes.len() <= MAX_VALUE_LENGTH,
        } by {
            assert(tail[i] == pairs[i + 1]);
        }
        if tail.len() > 0 {
            assert(pairs[0].key <= pairs[1].key);
        }
        pairs_round_trip(pair.key, tail, rest);
        assert(pairs_encoding(previous, pairs)->Ok_0 + rest =~= head + (body + rest));
        assert(pairs_encoding(previous, pairs)->Ok_0 == head + body);
        pair_round_trip(previous, pair, body + rest);
        read_pairs_step(pairs.len(), previous, head + (body + rest), pair, body + rest, tail, rest);
        pair_round_trip(previous, pair, body);
        read_all_pairs_step(previous, head + body, pair, body, tail);
        assert(seq![pair] + tail =~= pairs);
    } else {
        assert(pairs =~= Seq::empty());
        assert(Seq::<u8>::empty() + rest =~= rest);
    }
}

proof fn read_pairs_step(
    count: nat,
    previous: u64,
    bytes: Seq<u8>,
    pair: Pair,
    middle: Seq<u8>,
    tail: Seq<Pair>,
    rest: Seq<u8>,
)
    requires
        count > 0,
        read_pair(previous, bytes) == Ok::<_, DecodeError>((pair, middle)),
        read_pairs((count - 1) as nat, pair.key, middle) == Ok::<_, DecodeError>((tail, rest)),
    ensures
        read_pairs(count, previous, bytes) == Ok::<_, DecodeError>((seq![pair] + tail, rest)),
{
}

proof fn read_all_pairs_step(
    previous: u64,
    bytes: Seq<u8>,
    pair: Pair,
    middle: Seq<u8>,
    tail: Seq<Pair>,
)
    requires
        read_pair(previous, bytes) == Ok::<_, DecodeError>((pair, middle)),
        read_all_pairs(pair.key, middle) == Ok::<_, DecodeError>(tail),
    ensures
        read_all_pairs(previous, bytes) == Ok::<_, DecodeError>(seq![pair] + tail),
{
    read_pair_consumes(previous, bytes);
}

/// A parameter list that was written is read back with its parameters by
/// ascending key.
pub proof fn list_round_trip(pairs: Seq<Pair>, rest: Seq<u8>)
    requires
        list_encoding(pairs) is Ok,
        pairs.len() < VARINT_LIMIT,
        values_fit(sorted_pairs(pairs)),
    ensures
        read_list(list_encoding(pairs)->Ok_0 + rest) == Ok::<_, DecodeError>(
            (sorted_pairs(pairs), rest),
        ),
{
    let sorted = sorted_pairs(pairs);
    sorted_pairs_ascending(pairs);
    let count = varint(pairs.len() as u64);
    let body = pairs_encoding(0, sorted)->Ok_0;
    assert(list_encoding(pairs)->Ok_0 + rest =~= count + (body + rest));
    varint_round_trip(pairs.len() as u64, body + rest);
    pairs_round_trip(0, sorted, rest);
}

/// Parameters that were written in few bytes are few, and their values short.
pub proof fn short_pairs_fit(previous: u64, pairs: Seq<Pair>)
    requires
        pairs_encoding(previous, pairs) is Ok,
        pairs_encoding(previous, pairs)->Ok_0.len() <= MAX_VALUE_LENGTH,
    ensures
        values_fit(pairs),
        pairs.len() <= pairs_encoding(previous, pairs)->Ok_0.len(),
    decreases pairs.len(),
{
    if pairs.len() > 0 {
        let tail = pairs.drop_first();
        short_pairs_fit(pairs[0].key, tail);
        assert forall|i: int| 0 <= i < pairs.len() implies match (#[trigger] pairs[i]).value {
            ValueView::Int(_) => true,
            ValueView::Bytes(bytes) => bytes.len() <= MAX_VALUE_LENGTH,
        } by {
            if i > 0 {
                assert(pairs[i] == tail[i - 1]);
            }
        }
    }
}

impl Clone for Value {
    fn clone(&self) -> (copy: Self)
        ensures
            copy@ == self@,
    {
        match self {
            Value::IntValue(value) => Value::IntValue(*value),
            Value::BytesValue(bytes) => {
                let copy = copy_bytes(bytes);
                Value::BytesValue(copy)
            },
        }
    }
}

/// A vector with the same bytes.
pub fn copy_bytes(bytes: &[u8]) -> (copy: Vec<u8>)
    ensures
        copy@ == bytes@,
{
    let mut copy: Vec<u8> = Vec::new();
    copy.extend_from_slice(bytes);
    assert(copy@ =~= bytes@);
    copy
}

/// Whether two slices hold the same bytes.
pub fn bytes_match(left: &[u8], right: &[u8]) -> (same: bool)
    ensures
        same == (left@ == right@),
{
    if left.len() != right.len() {
        return false;
    }
    let mut i: usize = 0;
    while i < left.len()
        invariant
            i <= left@.len() == right@.len(),
            left@.take(i as int) == right@.take(i as int),
        decreases left@.len() - i,
    {
        if left[i] != right[i] {
            assert(left@[i as int] != right@[i as int]);
            return false;
        }
        assert(left@.take(i + 1) =~= left@.take(i as int).push(left@[i as int]));
        assert(right@.take(i + 1) =~= right@.take(i as int).push(right@[i as int]));
        i = i + 1;
    }
    assert(left@.take(i as int) =~= left@);
    assert(right@.take(i as int) =~= right@);
    true
}

impl Value {
    /// Whether two values are the same.
    pub fn same(&self, other: &Value) -> (same: bool)
        ensures
            same == (self@ == other@),
    {
        match (self, other) {
            (Value::IntValue(left), Value::IntValue(right)) => *left == *right,
            (Value::BytesValue(left), Value::BytesValue(right)) => bytes_match(left, right),
            _ => false,
        }
    }
}

impl Clone for KeyValuePair {
    fn clone(&self) -> (copy: Self)
        ensures
            copy@ == self@,
    {
        KeyValuePair { key: self.key, value: self.value.clone() }
    }
}

impl KeyValuePair {
    pub fn new_int(key: u64, value: u64) -> (pair: Self)
        ensures
            pair@ == (Pair { key, value: ValueView::Int(value) }),
    {
        KeyValuePair { key, value: Value::IntValue(value) }
    }

    pub fn new_bytes(key: u64, value: Vec<u8>) -> (pair: Self)
        ensures
            pair@ == (Pair { key, value: ValueView::Bytes(value@) }),
    {
        KeyValuePair { key, value: Value::BytesValue(value) }
    }

    fn encode(&self, previous: u64, buffer: &mut BytesMut) -> (result: Result<(), EncodeError>)
        requires
            previous <= self.key,
        ensures
            appended(
                buffer_contents(*old(buffer)),
                buffer_contents(*final(buffer)),
                pair_encoding(previous, self@),
                result,
            ),
    {
        let ghost before = buffer_contents(*old(buffer));
        assert(before.is_prefix_of(before));
        match &self.value {
            Value::IntValue(value) => {
                if self.key % 2 != 0 {
                    return Err(EncodeError::InvalidValue);
                }
                let delta = encode_varint(self.key - previous, buffer);
                proof {
                    join_step(
                        before,
                        buffer_contents(*buffer),
                        varint_encoding((self.key - previous) as u64),
                        varint_encoding(*value),
                        delta,
                    );
                }
                delta?;
                encode_varint(*value, buffer)
            },
            Value::BytesValue(bytes) => {
                if self.key % 2 == 0 {
                    return Err(EncodeError::InvalidValue);
                }
                let delta = encode_varint(self.key - previous, buffer);
                proof {
                    join_step(
                        before,
                        buffer_contents(*buffer),
                        varint_encoding((self.key - previous) as u64),
                        field_encoding(bytes@),
                        delta,
                    );
                }
                delta?;
                encode_field(bytes, buffer)
            },
        }
    }

    fn decode(previous: u64, cursor: &mut Cursor) -> (result: Result<KeyValuePair, DecodeError>)
        ensures
            match read_pair(previous, old(cursor)@) {
                Ok((pair, rest)) => {
                    &&& result is Ok
                    &&& result->Ok_0@ == pair
                    &&& final(cursor)@ == rest
                },
                Err(error) => result == Err::<KeyValuePair, DecodeError>(error),
            },
    {
        let delta: u64 = decode_varint(cursor)?;
        let key: u64 = match previous.checked_add(delta) {
            Some(key) => key,
            None => return Err(DecodeError::InvalidValue),
        };
        if key % 2 == 0 {
            let value: u64 = decode_varint(cursor)?;
            Ok(KeyValuePair { key, value: Value::IntValue(value) })
        } else {
            let field = decode_field(cursor, MAX_VALUE_LENGTH)?;
            Ok(KeyValuePair { key, value: Value::BytesValue(copy_bytes(field)) })
        }
    }
}

impl Default for KeyValuePairs {
    fn default() -> (pairs: Self)
        ensures
            pairs@ == Seq::<Pair>::empty(),
    {
        let pairs = KeyValuePairs(Vec::new());
        assert(pairs@ =~= Seq::<Pair>::empty());
        pairs
    }
}

impl Clone for KeyValuePairs {
    fn clone(&self) -> (copy: Self)
        ensures
            copy@ == self@,
    {
        let mut pairs: Vec<KeyValuePair> = Vec::new();
        let mut i: usize = 0;
        while i < self.0.len()
            invariant
                i <= self.0@.len(),
                pairs@.len() == i,
                forall|j: int| 0 <= j < i ==> (#[trigger] pairs@[j])@ == self.0@[j]@,
            decreases self.0@.len() - i,
        {
            pairs.push(self.0[i].clone());
            i = i + 1;
        }
        let copy = KeyValuePairs(pairs);
        assert(copy@ =~= self@);
        copy
    }
}

impl KeyValuePairs {
    /// Whether there is no parameter.
    pub fn is_empty(&self) -> (empty: bool)
        ensures
            empty == (self@.len() == 0),
    {
        self.0.len() == 0
    }

    fn find(&self, key: u64) -> (at: usize)
        ensures
            at == key_index(self@, key),
            0 <= at <= self@.len(),
    {
        let mut i: usize = 0;
        while i < self.0.len()
            invariant
                i <= self.0@.len(),
                forall|j: int| 0 <= j < i ==> (#[trigger] self@[j]).key != key,
            decreases self.0@.len() - i,
        {
            assert(self@[i as int] == self.0@[i as int]@);
            if self.0[i].key == key {
                proof {
                    key_index_unique(self@, key, i as int);
                }
                return i;
            }
            i = i + 1;
        }
        proof {
            key_index_unique(self@, key, i as int);
        }
        i
    }

    /// Whether a parameter with this key is there.
    pub fn has(&self, key: u64) -> (found: bool)
        ensures
            found == has_key(self@, key),
    {
        proof {
            key_index_is_first(self@, key);
        }
        self.find(key) < self.0.len()
    }

    /// The first parameter with this key.
    pub fn get(&self, key: u64) -> (found: Option<&KeyValuePair>)
        ensures
            match found {
                Some(pair) => pair.key == key && value_of(self@, key) == Some(pair.value@),
                None => value_of(self@, key) is None,
            },
    {
        proof {
            key_index_is_first(self@, key);
        }
        let at: usize = self.find(key);
        if at < self.0.len() {
            assert(self@[at as int] == self.0@[at as int]@);
            Some(&self.0[at])
        } else {
            None
        }
    }

    fn set(&mut self, pair: KeyValuePair)
        ensures
            final(self)@ == with_value(old(self)@, pair.key, pair@.value),
    {
        let at: usize = self.find(pair.key);
        let ghost after = with_value(self@, pair.key, pair@.value);
        if at < self.0.len() {
            self.0.set(at, pair);
        } else {
            self.0.push(pair);
        }
        assert(self@ =~= after);
    }

    /// Sets an integer parameter.
    pub fn set_intvalue(&mut self, key: u64, value: u64)
        ensures
            final(self)@ == with_value(old(self)@, key, ValueView::Int(value)),
    {
        self.set(KeyValuePair::new_int(key, value));
    }

    /// Sets a byte parameter.
    pub fn set_bytesvalue(&mut self, key: u64, value: Vec<u8>)
        ensures
            final(self)@ == with_value(old(self)@, key, ValueView::Bytes(value@)),
    {
        self.set(KeyValuePair::new_bytes(key, value));
    }

    /// Whether two parameter lists hold the same parameters in the same order.
    pub fn same(&self, other: &KeyValuePairs) -> (same: bool)
        ensures
            same == (self@ == other@),
    {
        if self.0.len() != other.0.len() {
            assert(self@.len() != other@.len());
            return false;
        }
        let mut i: usize = 0;
        while i < self.0.len()
            invariant
                i <= self.0@.len() == other.0@.len(),
                forall|j: int| 0 <= j < i ==> #[trigger] self@[j] == other@[j],
            decreases self.0@.len() - i,
        {
            assert(self@[i as int] == self.0@[i as int]@);
            assert(other@[i as int] == other.0@[i as int]@);
            if self.0[i].key != other.0[i].key || !self.0[i].value.same(&other.0[i].value) {
                assert(self@[i as int] != other@[i as int]);
                return false;
            }
            i = i + 1;
        }
        assert(self@ =~= other@);
        true
    }

    /// The order in which the parameters are written.
    fn order(&self) -> (order: Vec<usize>)
        ensures
            forall|i: int| 0 <= i < order@.len() ==> (#[trigger] order@[i]) < self.0@.len(),
            order@.map_values(|i: usize| self@[i as int]) == sorted_pairs(self@),
    {
        let ghost at = |i: usize| self@[i as int];
        let mut order: Vec<usize> = Vec::new();
        let mut i: usize = 0;
        assert(order@.map_values(at) =~= sorted_pairs(self@.take(0)));
        while i < self.0.len()
            invariant
                i <= self.0@.len(),
                at == |i: usize| self@[i as int],
                order@.len() == i,
                forall|j: int| 0 <= j < order@.len() ==> (#[trigger] order@[j]) < self.0@.len(),
                order@.map_values(at) == sorted_pairs(self@.take(i as int)),
            decreases self.0@.len() - i,
        {
            let key: u64 = self.0[i].key;
            let mut place: usize = order.len();
            let ghost sorted = order@.map_values(at);
            while place > 0 && self.0[order[place - 1]].key > key
                invariant
                    place <= order@.len(),
                    forall|j: int| 0 <= j < order@.len() ==> (#[trigger] order@[j])
                        < self.0@.len(),
                    at == |i: usize| self@[i as int],
                    sorted == order@.map_values(at),
                    forall|j: int| place <= j < sorted.len() ==> (#[trigger] sorted[j]).key > key,
                decreases place,
            {
                assert(sorted[place - 1] == self@[order@[place - 1] as int]);
                place = place - 1;
            }
            let ghost pair = self@[i as int];
            assert(place > 0 ==> sorted[place - 1] == self@[order@[place - 1] as int]);
            proof {
                insert_pair_at(sorted, pair, place as int);
            }
            order.insert(place, i);
            assert(order@.map_values(at) =~= sorted.insert(place as int, pair));
            assert(self@.take(i + 1).drop_last() =~= self@.take(i as int));
            i = i + 1;
        }
        assert(self@.take(i as int) =~= self@);
        order
    }

    /// Writes the parameters by ascending key, each key as its distance from
    /// the one before.
    pub fn encode_pairs(&self, buffer: &mut BytesMut) -> (result: Result<(), EncodeError>)
        ensures
            appended(
                buffer_contents(*old(buffer)),
                buffer_contents(*final(buffer)),
                pairs_encoding(0, sorted_pairs(self@)),
                result,
            ),
    {
        let order = self.order();
        let ghost sorted = sorted_pairs(self@);
        let ghost before = buffer_contents(*old(buffer));
        proof {
            sorted_pairs_ascending(self@);
            assert(sorted.skip(0) =~= sorted);
        }
        let mut i: usize = 0;
        let mut previous: u64 = 0;
        while i < order.len()
            invariant
                i <= order@.len(),
                forall|j: int| 0 <= j < order@.len() ==> (#[trigger] order@[j]) < self.0@.len(),
                order@.map_values(|i: usize| self@[i as int]) == sorted,
                ascending(sorted),
                previous == (if i == 0 {
                    0
                } else {
                    sorted[i - 1].key
                }),
                sorted == sorted_pairs(self@),
                before == buffer_contents(*old(buffer)),
                forall|after: Seq<u8>, outcome: Result<(), EncodeError>| #[trigger]
                    appended(
                        buffer_contents(*buffer),
                        after,
                        pairs_encoding(previous, sorted.skip(i as int)),
                        outcome,
                    ) ==> appended(before, after, pairs_encoding(0, sorted), outcome),
            decreases order@.len() - i,
        {
            let ghost rest = sorted.skip(i as int);
            let ghost middle = buffer_contents(*buffer);
            assert(rest[0] == self@[order@[i as int] as int]);
            assert(rest[0] == self.0@[order@[i as int] as int]@);
            assert(i > 0 ==> sorted[i - 1].key <= sorted[i as int].key);
            let pair = &self.0[order[i]];
            let written = pair.encode(previous, buffer);
            assert(rest.drop_first() =~= sorted.skip(i + 1));
            proof {
                join_step(
                    middle,
                    buffer_contents(*buffer),
                    pair_encoding(previous, rest[0]),
                    pairs_encoding(rest[0].key, rest.drop_first()),
                    written,
                );
            }
            written?;
            previous = pair.key;
            i = i + 1;
        }
        assert(sorted.skip(i as int).len() == 0);
        assert(buffer_contents(*buffer) + Seq::<u8>::empty() =~= buffer_contents(*buffer));
        assert(appended(
            buffer_contents(*buffer),
            buffer_contents(*buffer),
            Ok(Seq::empty()),
            Ok(()),
        ));
        Ok(())
    }

    /// Writes the number of parameters, then the parameters by ascending key.
    pub fn encode(&self, buffer: &mut BytesMut) -> (result: Result<(), EncodeError>)
        ensures
            appended(
                buffer_contents(*old(buffer)),
                buffer_contents(*final(buffer)),
                list_encoding(self@),
                result,
            ),
    {
        let count = encode_varint(self.0.len() as u64, buffer);
        proof {
            join_step(
                buffer_contents(*old(buffer)),
                buffer_contents(*buffer),
                varint_encoding(self@.len() as u64),
                pairs_encoding(0, sorted_pairs(self@)),
                count,
            );
        }
        count?;
        self.encode_pairs(buffer)
    }

    /// Reads a parameter list.
    pub fn decode(cursor: &mut Cursor) -> (result: Result<KeyValuePairs, DecodeError>)
        ensures
            match read_list(old(cursor)@) {
                Ok((pairs, rest)) => {
                    &&& result is Ok
                    &&& result->Ok_0@ == pairs
                    &&& final(cursor)@ == rest
                },
                Err(error) => result == Err::<KeyValuePairs, DecodeError>(error),
            },
    {
        let count: u64 = decode_varint(cursor)?;
        let ghost goal = read_pairs(count as nat, 0, cursor@);
        let mut pairs = KeyValuePairs(Vec::new());
        let mut left: u64 = count;
        let mut previous: u64 = 0;
        assert(pairs@ =~= Seq::<Pair>::empty());
        assert(forall|tail: Seq<Pair>| #[trigger] (Seq::<Pair>::empty() + tail) =~= tail);
        while left > 0
            invariant
                goal == read_list(old(cursor)@),
                goal == (match read_pairs(left as nat, previous, cursor@) {
                    Ok((tail, rest)) => Ok::<(Seq<Pair>, Seq<u8>), DecodeError>((pairs@ + tail, rest)),
                    Err(error) => Err(error),
                }),
            decreases left,
        {
            let ghost here = cursor@;
            let ghost done = pairs@;
            match KeyValuePair::decode(previous, cursor) {
                Ok(pair) => {
                    previous = pair.key;
                    pairs.0.push(pair);
                    assert(pairs@ =~= done.push(pair@));
                    proof {
                        match read_pairs((left - 1) as nat, previous, cursor@) {
                            Ok((tail, rest)) => {
                                assert(done + (seq![pair@] + tail) =~= pairs@ + tail);
                            },
                            Err(_) => {},
                        }
                    }
                },
                Err(error) => {
                    return Err(error);
                },
            }
            left = left - 1;
        }
        assert(pairs@ + Seq::<Pair>::empty() =~= pairs@);
        Ok(pairs)
    }

    /// Reads parameters until nothing is left.
    pub fn decode_all(cursor: &mut Cursor) -> (result: Result<KeyValuePairs, DecodeError>)
        ensures
            match read_all_pairs(0, old(cursor)@) {
                Ok(pairs) => {
                    &&& result is Ok
                    &&& result->Ok_0@ == pairs
                    &&& final(cursor)@.len() == 0
                },
                Err(error) => result == Err::<KeyValuePairs, DecodeError>(error),
            },
    {
        let ghost goal = read_all_pairs(0, cursor@);
        let mut pairs = KeyValuePairs(Vec::new());
        let mut previous: u64 = 0;
        assert(pairs@ =~= Seq::<Pair>::empty());
        assert(forall|tail: Seq<Pair>| #[trigger] (Seq::<Pair>::empty() + tail) =~= tail);
        while cursor.remaining() > 0
            invariant
                goal == read_all_pairs(0, old(cursor)@),
                goal == (match read_all_pairs(previous, cursor@) {
                    Ok(tail) => Ok::<Seq<Pair>, DecodeError>(pairs@ + tail),
                    Err(error) => Err(error),
                }),
            decreases cursor@.len(),
        {
            let ghost done = pairs@;
            proof {
                read_pair_consumes(previous, cursor@);
            }
            match KeyValuePair::decode(previous, cursor) {
                Ok(pair) => {
                    previous = pair.key;
                    pairs.0.push(pair);
                    assert(pairs@ =~= done.push(pair@));
                    proof {
                        match read_all_pairs(previous, cursor@) {
                            Ok(tail) => {
                                assert(done + (seq![pair@] + tail) =~= pairs@ + tail);
                            },
                            Err(_) => {},
                        }
                    }
                },
                Err(error) => {
                    return Err(error);
                },
            }
        }
        assert(pairs@ + Seq::<Pair>::empty() =~= pairs@);
        Ok(pairs)
    }
}

} // verus!
