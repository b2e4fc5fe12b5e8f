//! Parameters with a meaning of their own: what is set is what is read.

use bytes::BytesMut;
use vstd::prelude::*;

use super::filter::{location_round_trip, FilterType, SubscriptionFilter};
use super::parameter_type::{
    FORWARD, GROUP_ORDER, LARGEST_OBJECT, SUBSCRIBER_PRIORITY, SUBSCRIPTION_FILTER,
};
use super::types::GroupOrder;
use crate::coding::buffer::buffer_contents;
use crate::coding::kvp::{set_then_get, value_of, KeyValuePairs, ValueView};
use crate::coding::{DecodeError, EncodeError, Location};

verus! {

/// Whether the numbers in a filter are ones that the wire can hold.
pub open spec fn numbers_fit(filter: SubscriptionFilter) -> bool {
    &&& filter.start_location matches Some(start) ==> start.group_id < 0x4000_0000_0000_0000
        && start.object_id < 0x4000_0000_0000_0000
    &&& filter.end_group_id matches Some(end) ==> end < 0x4000_0000_0000_0000
}

/// Every filter that has the fields of its type is written, and read back as
/// it is. One that lacks a field of its type is not.
pub proof fn filter_is_written_and_read(
    filter: &SubscriptionFilter,
    buffer: &mut BytesMut,
    written: Result<(), EncodeError>,
    bytes: &[u8],
    result: Result<SubscriptionFilter, DecodeError>,
)
    requires
        call_ensures(SubscriptionFilter::encode, (filter, buffer), written),
        buffer_contents(*old(buffer)).len() == 0,
        numbers_fit(*filter),
        bytes@ == buffer_contents(*final(buffer)),
        call_ensures(SubscriptionFilter::decode, (bytes,), result),
    ensures
        filter.consistent() ==> written is Ok && result == Ok::<SubscriptionFilter, DecodeError>(
            *filter,
        ),
        (filter.filter_type == FilterType::AbsoluteStart || filter.filter_type
            == FilterType::AbsoluteRange) && filter.start_location is None ==> written == Err::<
            (),
            EncodeError,
        >(EncodeError::MissingField),
        filter.filter_type == FilterType::AbsoluteRange && filter.end_group_id is None
            ==> written == Err::<(), EncodeError>(EncodeError::MissingField),
{
    filter.encoding_is_short();
    if filter.consistent() {
        assert(filter.encoding() is Ok);
        filter.round_trip();
        assert(buffer_contents(*old(buffer)) + filter.encoding()->Ok_0
            =~= filter.encoding()->Ok_0);
    }
}

/// A filter that is read has exactly the fields of its type: a start for the
/// absolute ones, and an end for a range.
pub proof fn read_filter_is_whole(bytes: &[u8], filter: SubscriptionFilter)
    requires
        call_ensures(SubscriptionFilter::decode, (bytes,), Ok(filter)),
    ensures
        filter.start_location is Some <==> filter.filter_type == FilterType::AbsoluteStart
            || filter.filter_type == FilterType::AbsoluteRange,
        filter.end_group_id is Some <==> filter.filter_type == FilterType::AbsoluteRange,
{
}

/// A filter has the fields of its type exactly if it has a start where its type
/// is absolute, and an end where it is a range, and no others.
pub proof fn fields_go_with_the_type(filter: SubscriptionFilter)
    ensures
        filter.consistent() <==> {
            &&& filter.start_location is Some <==> filter.filter_type == FilterType::AbsoluteStart
                || filter.filter_type == FilterType::AbsoluteRange
            &&& filter.end_group_id is Some <==> filter.filter_type == FilterType::AbsoluteRange
        },
{
}

/// FORWARD is read as it was set, and left alone by the others.
pub proof fn forward_is_read_as_set(
    params: &mut KeyValuePairs,
    forward: bool,
    after: &KeyValuePairs,
    result: Result<Option<bool>, DecodeError>,
    other: u64,
)
    requires
        call_ensures(KeyValuePairs::set_forward, (params, forward), ()),
        *after == *final(params),
        call_ensures(KeyValuePairs::forward, (after,), result),
    ensures
        result == Ok::<Option<bool>, DecodeError>(Some(forward)),
        other != FORWARD ==> value_of(after@, other) == value_of(old(params)@, other),
{
    set_then_get(
        old(params)@,
        FORWARD,
        crate::message::parameters::flag_value(forward),
        other,
    );
}

/// FORWARD is zero or one, and nothing where it is absent.
pub proof fn forward_is_a_flag(params: &KeyValuePairs, result: Result<Option<bool>, DecodeError>)
    requires
        call_ensures(KeyValuePairs::forward, (params,), result),
    ensures
        value_of(params@, FORWARD) is None ==> result == Ok::<Option<bool>, DecodeError>(None),
        value_of(params@, FORWARD) == Some(ValueView::Int(0)) ==> result == Ok::<
            Option<bool>,
            DecodeError,
        >(Some(false)),
        value_of(params@, FORWARD) == Some(ValueView::Int(1)) ==> result == Ok::<
            Option<bool>,
            DecodeError,
        >(Some(true)),
        value_of(params@, FORWARD) matches Some(ValueView::Int(value)) ==> (value > 1
            ==> result is Err),
        value_of(params@, FORWARD) matches Some(ValueView::Bytes(_)) ==> result is Err,
{
}

/// The priority is read as it was set; a number that is no byte is refused.
pub proof fn priority_is_read_as_set(
    params: &mut KeyValuePairs,
    priority: u8,
    after: &KeyValuePairs,
    result: Result<Option<u8>, DecodeError>,
    found: &KeyValuePairs,
    read: Result<Option<u8>, DecodeError>,
)
    requires
        call_ensures(KeyValuePairs::set_subscriber_priority, (params, priority), ()),
        *after == *final(params),
        call_ensures(KeyValuePairs::subscriber_priority, (after,), result),
        call_ensures(KeyValuePairs::subscriber_priority, (found,), read),
    ensures
        result == Ok::<Option<u8>, DecodeError>(Some(priority)),
        value_of(found@, SUBSCRIBER_PRIORITY) is None ==> read == Ok::<Option<u8>, DecodeError>(
            None,
        ),
        value_of(found@, SUBSCRIBER_PRIORITY) matches Some(ValueView::Int(value)) ==> {
            &&& value <= 255 ==> read == Ok::<Option<u8>, DecodeError>(Some(value as u8))
            &&& value > 255 ==> read is Err
        },
{
    set_then_get(
        old(params)@,
        SUBSCRIBER_PRIORITY,
        ValueView::Int(priority as u64),
        SUBSCRIBER_PRIORITY,
    );
}

/// A group order is read as it was set. The publisher's own, which is what an
/// absence means, is not one that can be read.
pub proof fn group_order_is_read_as_set(
    params: &mut KeyValuePairs,
    order: GroupOrder,
    after: &KeyValuePairs,
    result: Result<Option<GroupOrder>, DecodeError>,
)
    requires
        call_ensures(KeyValuePairs::set_group_order, (params, order), ()),
        *after == *final(params),
        call_ensures(KeyValuePairs::group_order, (after,), result),
    ensures
        order != GroupOrder::Publisher ==> result == Ok::<Option<GroupOrder>, DecodeError>(
            Some(order),
        ),
        order == GroupOrder::Publisher ==> result is Err,
{
    set_then_get(
        old(params)@,
        GROUP_ORDER,
        crate::message::parameters::group_order_value(order),
        GROUP_ORDER,
    );
}

/// A filter is read as it was set, if it has the fields of its type and numbers
/// that the wire can hold.
pub proof fn filter_is_read_as_set(
    params: &mut KeyValuePairs,
    filter: &SubscriptionFilter,
    set: Result<(), EncodeError>,
    after: &KeyValuePairs,
    result: Result<Option<SubscriptionFilter>, DecodeError>,
    other: u64,
)
    requires
        call_ensures(KeyValuePairs::set_subscription_filter, (params, filter), set),
        *after == *final(params),
        call_ensures(KeyValuePairs::subscription_filter, (after,), result),
        filter.consistent(),
        numbers_fit(*filter),
    ensures
        set is Ok,
        result == Ok::<Option<SubscriptionFilter>, DecodeError>(Some(*filter)),
        other != SUBSCRIPTION_FILTER ==> value_of(after@, other) == value_of(old(params)@, other),
{
    assert(filter.encoding() is Ok);
    filter.round_trip();
    set_then_get(
        old(params)@,
        SUBSCRIPTION_FILTER,
        ValueView::Bytes(filter.encoding()->Ok_0),
        other,
    );
}

/// The largest object is read as it was set.
pub proof fn largest_object_is_read_as_set(
    params: &mut KeyValuePairs,
    location: Location,
    set: Result<(), EncodeError>,
    after: &KeyValuePairs,
    result: Result<Option<Location>, DecodeError>,
    other: u64,
)
    requires
        call_ensures(KeyValuePairs::set_largest_object, (params, location), set),
        *after == *final(params),
        call_ensures(KeyValuePairs::largest_object, (after,), result),
        location.group_id < 0x4000_0000_0000_0000,
        location.object_id < 0x4000_0000_0000_0000,
    ensures
        set is Ok,
        result == Ok::<Option<Location>, DecodeError>(Some(location)),
        other != LARGEST_OBJECT ==> value_of(after@, other) == value_of(old(params)@, other),
{
    assert(location.encoding() is Ok);
    let bytes = location.encoding()->Ok_0;
    location_round_trip(location, Seq::empty());
    assert(bytes + Seq::<u8>::empty() =~= bytes);
    set_then_get(old(params)@, LARGEST_OBJECT, ValueView::Bytes(bytes), other);
}

} // verus!
