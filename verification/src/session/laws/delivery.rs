//! Which objects a subscription is given, filter by filter.

use vstd::prelude::*;

use crate::coding::kvp::{value_of, Pair};
use crate::coding::Location;
use crate::message::parameter_type::{
    FORWARD, GROUP_ORDER, SUBSCRIBER_PRIORITY, SUBSCRIPTION_FILTER,
};
use crate::message::{FilterType, GroupOrder};
use crate::serve::track::FullName;
use crate::session::subscribe::{
    info_of, options_are_merged, DeliveryFilter, OptionsView, SubscribeInfo,
};

verus! {

/// Whether a subscription whose track has a largest object is given an object:
/// what its filter, made for that track, says of it.
pub open spec fn given(
    info: &SubscribeInfo,
    largest: Option<Location>,
    group_id: u64,
    object_id: u64,
    allowed: bool,
) -> bool {
    exists|filter: DeliveryFilter|
        {
            &&& #[trigger] call_ensures(SubscribeInfo::delivery_filter, (info, largest), filter)
            &&& call_ensures(DeliveryFilter::allows, (&filter, group_id, object_id), allowed)
        }
}

/// A subscription from the next group on is given exactly the objects of
/// groups behind that of the largest object. Where that is the last group
/// there can be, the subscription is given it.
pub proof fn next_group_start_gives_later_groups(
    info: &SubscribeInfo,
    largest: Location,
    group_id: u64,
    object_id: u64,
    allowed: bool,
)
    requires
        info.forward,
        info.filter is Some,
        info.filter->0.filter_type == FilterType::NextGroupStart,
        info.filter->0.consistent(),
        given(info, Some(largest), group_id, object_id, allowed),
    ensures
        largest.group_id < u64::MAX ==> allowed == (group_id > largest.group_id),
        largest.group_id == u64::MAX ==> allowed == (group_id == u64::MAX),
{
}

/// A subscription from the largest object on is given exactly the objects
/// behind it: later ones of its group, and all of later groups.
pub proof fn largest_object_gives_what_follows(
    info: &SubscribeInfo,
    largest: Location,
    group_id: u64,
    object_id: u64,
    allowed: bool,
)
    requires
        info.forward,
        info.filter is Some,
        info.filter->0.filter_type == FilterType::LargestObject,
        info.filter->0.consistent(),
        largest.group_id < u64::MAX || largest.object_id < u64::MAX,
        given(info, Some(largest), group_id, object_id, allowed),
    ensures
        allowed == (group_id > largest.group_id || (group_id == largest.group_id && object_id
            > largest.object_id)),
{
}

/// Of a track that has no object yet, a subscription that starts by the
/// largest object, or by its group, is given everything.
pub proof fn track_without_objects_is_given_from_its_start(
    info: &SubscribeInfo,
    group_id: u64,
    object_id: u64,
    allowed: bool,
)
    requires
        info.forward,
        info.filter is Some,
        info.filter->0.filter_type == FilterType::NextGroupStart || info.filter->0.filter_type
            == FilterType::LargestObject,
        info.filter->0.consistent(),
        given(info, None, group_id, object_id, allowed),
    ensures
        allowed,
{
}

/// A subscription from a location on is given that location and every one
/// behind it, up to its last group where it names one, whatever objects the
/// track has.
pub proof fn absolute_filter_gives_its_range(
    info: &SubscribeInfo,
    largest: Option<Location>,
    group_id: u64,
    object_id: u64,
    allowed: bool,
)
    requires
        info.forward,
        info.filter is Some,
        info.filter->0.filter_type == FilterType::AbsoluteStart || info.filter->0.filter_type
            == FilterType::AbsoluteRange,
        info.filter->0.consistent(),
        given(info, largest, group_id, object_id, allowed),
    ensures
        ({
            let start = info.filter->0.start_location->0;
            let begun = group_id > start.group_id || (group_id == start.group_id && object_id
                >= start.object_id);
            &&& info.filter->0.filter_type == FilterType::AbsoluteStart ==> allowed == begun
            &&& info.filter->0.filter_type == FilterType::AbsoluteRange ==> allowed == (begun
                && group_id <= info.filter->0.end_group_id->0)
        }),
{
}

/// A subscription without a filter is given every object, and one that does
/// not forward is given none.
pub proof fn forwarding_decides_without_a_filter(
    info: &SubscribeInfo,
    largest: Option<Location>,
    group_id: u64,
    object_id: u64,
    allowed: bool,
)
    requires
        given(info, largest, group_id, object_id, allowed),
    ensures
        info.forward && info.filter is None ==> allowed,
        !info.forward ==> !allowed,
{
}

/// A filter gives every object between its ends and no other.
pub proof fn filter_gives_what_lies_between(
    filter: &DeliveryFilter,
    group_id: u64,
    object_id: u64,
    allowed: bool,
)
    requires
        call_ensures(DeliveryFilter::allows, (filter, group_id, object_id), allowed),
    ensures
        !filter.forward ==> !allowed,
        filter.start_location is None && filter.end_group_id is None ==> allowed == filter.forward,
        filter.start_location matches Some(start) ==> {
            &&& group_id < start.group_id ==> !allowed
            &&& group_id == start.group_id && object_id < start.object_id ==> !allowed
        },
        filter.end_group_id matches Some(end) ==> (group_id > end ==> !allowed),
        filter.forward && (filter.start_location matches Some(start) ==> group_id > start.group_id
            || (group_id == start.group_id && object_id >= start.object_id)) && (
        filter.end_group_id matches Some(end) ==> group_id <= end) ==> allowed,
{
}

/// A SUBSCRIBE that leaves out a parameter means its default: objects are
/// forwarded, none is filtered, the publisher orders the groups, and the
/// priority is in the middle.
pub proof fn omitted_parameters_mean_their_defaults(id: u64, name: FullName, params: Seq<Pair>)
    requires
        info_of(id, name, params) is Ok,
    ensures
        ({
            let info = info_of(id, name, params)->Ok_0;
            &&& info.id == id
            &&& info.name == name
            &&& info.params == params
            &&& !info.track_status
            &&& value_of(params, FORWARD) is None ==> info.forward
            &&& value_of(params, SUBSCRIPTION_FILTER) is None ==> info.filter is None
            &&& value_of(params, GROUP_ORDER) is None ==> info.group_order
                == GroupOrder::Publisher
            &&& value_of(params, SUBSCRIBER_PRIORITY) is None ==> info.subscriber_priority == 128
            &&& info.filter matches Some(filter) ==> {
                &&& info.filter_type == filter.filter_type
                &&& info.start_location == filter.start_location
                &&& info.end_group_id == filter.end_group_id
            }
        }),
{
}

/// What a subscriber asks for is what the publisher reads in the SUBSCRIBE:
/// options that make a request are accepted, and every one that was given
/// arrives as it was.
pub proof fn asked_options_arrive(options: OptionsView, id: u64, name: FullName)
    requires
        options.parameters() is Ok,
    ensures
        info_of(id, name, options.parameters()->Ok_0) is Ok,
        ({
            let info = info_of(id, name, options.parameters()->Ok_0)->Ok_0;
            &&& options.forward matches Some(forward) ==> info.forward == forward
            &&& options.filter is Some ==> info.filter == options.filter
            &&& options.group_order matches Some(order) ==> info.group_order == order
            &&& options.subscriber_priority matches Some(priority) ==> info.subscriber_priority
                == priority
        }),
{
    options_are_merged(options, FORWARD);
}

/// Options without a filter or a FORWARD of their own, and without parameters,
/// ask for every object.
pub proof fn default_options_ask_for_everything(
    options: OptionsView,
    id: u64,
    name: FullName,
    largest: Option<Location>,
    location: Location,
)
    requires
        options.parameters() is Ok,
        options.forward is None,
        options.filter is None,
        options.request_parameters.len() == 0,
    ensures
        info_of(id, name, options.parameters()->Ok_0)->Ok_0.delivery(largest).delivers(location),
{
    let start = options.request_parameters;
    assert(value_of(start, FORWARD) is None);
    assert(value_of(start, SUBSCRIPTION_FILTER) is None);
    options_keep_what_is_absent(options);
}

/// A parameter that neither the options nor the request parameters name is not
/// sent.
pub proof fn options_keep_what_is_absent(options: OptionsView)
    requires
        options.parameters() is Ok,
    ensures
        options.forward is None && value_of(options.request_parameters, FORWARD) is None
            ==> value_of(options.parameters()->Ok_0, FORWARD) is None,
        options.filter is None && value_of(options.request_parameters, SUBSCRIPTION_FILTER) is None
            ==> value_of(options.parameters()->Ok_0, SUBSCRIPTION_FILTER) is None,
        options.group_order is None && value_of(options.request_parameters, GROUP_ORDER) is None
            ==> value_of(options.parameters()->Ok_0, GROUP_ORDER) is None,
        options.subscriber_priority is None && value_of(
            options.request_parameters,
            SUBSCRIBER_PRIORITY,
        ) is None ==> value_of(options.parameters()->Ok_0, SUBSCRIBER_PRIORITY) is None,
{
    options_are_merged(options, FORWARD);
    options_are_merged(options, SUBSCRIPTION_FILTER);
    options_are_merged(options, GROUP_ORDER);
    options_are_merged(options, SUBSCRIBER_PRIORITY);
}

} // verus!
