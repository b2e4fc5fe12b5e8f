//! Asking for a track: what a subscriber wants is what the publisher is asked.

use vstd::prelude::*;

use crate::coding::kvp::{
    has_key, key_index_is_first, list_encoding, sorted_pairs, value_of, with_value, Pair, ValueView,
};
use crate::coding::laws::{formed_pairs_are_written, has_form, sorting_changes_no_value};
use crate::coding::KeyValuePairs;
use crate::message;
use crate::message::laws::numbers_fit;
use crate::message::parameter_type::{
    EXPIRES, FORWARD, GROUP_ORDER, LARGEST_OBJECT, SUBSCRIBER_PRIORITY, SUBSCRIPTION_FILTER,
};
use crate::message::parameters::{flag_value, group_order_value};
use crate::message::GroupOrder;
use crate::serve::track::FullName;
use crate::serve::{ServeError, TrackWriter};
use crate::session::error::SessionError;
use crate::session::request_id::RequestId;
use crate::session::subscribe::{
    info_of, options_are_merged, with_option, SubscribeOptions, SubscribeOptionsError,
};
use crate::session::subscribe_recv::{Subscribe, SubscribeRecv};
use crate::session::subscribed::{Subscribed, SubscribedRecv, SubscriptionInitiator};
use crate::session::subscriber::Subscriber;

verus! {

/// Whether request parameters leave alone what options say, and what belongs
/// to responses.
pub open spec fn leave_options_alone(params: Seq<Pair>) -> bool {
    &&& !has_key(params, FORWARD)
    &&& !has_key(params, SUBSCRIPTION_FILTER)
    &&& !has_key(params, GROUP_ORDER)
    &&& !has_key(params, SUBSCRIBER_PRIORITY)
    &&& !has_key(params, EXPIRES)
    &&& !has_key(params, LARGEST_OBJECT)
}

proof fn form_is_kept(pairs: Seq<Pair>, key: u64, value: Option<ValueView>)
    requires
        forall|i: int| 0 <= i < pairs.len() ==> has_form(#[trigger] pairs[i]),
        value matches Some(value) ==> has_form(Pair { key, value }),
    ensures
        forall|i: int|
            0 <= i < with_option(pairs, key, value).len() ==> has_form(
                #[trigger] with_option(pairs, key, value)[i],
            ),
        with_option(pairs, key, value).len() <= pairs.len() + 1,
{
    if let Some(value) = value {
        key_index_is_first(pairs, key);
        let more = with_value(pairs, key, value);
        assert forall|i: int| 0 <= i < more.len() implies has_form(#[trigger] more[i]) by {
            if i < pairs.len() && more[i] != (Pair { key, value }) {
                assert(more[i] == pairs[i]);
            }
        }
    }
}

proof fn absent_key_has_no_value(pairs: Seq<Pair>, key: u64)
    requires
        !has_key(pairs, key),
    ensures
        value_of(pairs, key) is None,
{
    key_index_is_first(pairs, key);
}

/// Options make a request where their filter has the fields of its type, their
/// group order is one that can be sent, and the request parameters have a form
/// on the wire and leave the options alone.
pub proof fn proper_options_make_a_request(
    options: &SubscribeOptions,
    result: Result<KeyValuePairs, SubscribeOptionsError>,
)
    requires
        call_ensures(SubscribeOptions::to_request_parameters, (options,), result),
        options.filter matches Some(filter) ==> filter.consistent() && numbers_fit(filter),
        options.group_order != Some(GroupOrder::Publisher),
        leave_options_alone(options.request_parameters@),
        forall|i: int|
            0 <= i < options.request_parameters@.len() ==> has_form(
                #[trigger] options.request_parameters@[i],
            ),
        options.request_parameters@.len() < u32::MAX,
        list_encoding(options@.merged()) matches Ok(bytes) ==> bytes.len() <= isize::MAX,
    ensures
        result is Ok,
{
    let view = options@;
    let start = view.request_parameters;
    let forward = match view.forward {
        Some(forward) => Some(flag_value(forward)),
        None => None,
    };
    let filter = match view.filter {
        Some(filter) => Some(ValueView::Bytes(filter.encoding()->Ok_0)),
        None => None,
    };
    let order = match view.group_order {
        Some(order) => Some(group_order_value(order)),
        None => None,
    };
    let priority = match view.subscriber_priority {
        Some(priority) => Some(ValueView::Int(priority as u64)),
        None => None,
    };
    if let Some(filter) = view.filter {
        assert(filter.encoding() is Ok);
        filter.encoding_is_short();
        filter.round_trip();
    }
    let one = with_option(start, FORWARD, forward);
    let two = with_option(one, SUBSCRIPTION_FILTER, filter);
    let three = with_option(two, GROUP_ORDER, order);
    let four = with_option(three, SUBSCRIBER_PRIORITY, priority);
    form_is_kept(start, FORWARD, forward);
    form_is_kept(one, SUBSCRIPTION_FILTER, filter);
    form_is_kept(two, GROUP_ORDER, order);
    form_is_kept(three, SUBSCRIBER_PRIORITY, priority);
    assert(view.merged() == four);
    let sorted = sorted_pairs(four);
    sorting_changes_no_value(four, FORWARD);
    assert forall|i: int| 0 <= i < sorted.len() implies has_form(#[trigger] sorted[i]) by {
        broadcast use vstd::seq_lib::group_to_multiset_ensures;

        assert(sorted.to_multiset().count(sorted[i]) > 0);
        assert(four.to_multiset().count(sorted[i]) > 0);
        assert(four.contains(sorted[i]));
    }
    formed_pairs_are_written(0, sorted);
    assert(list_encoding(four) is Ok);
    absent_key_has_no_value(start, FORWARD);
    absent_key_has_no_value(start, SUBSCRIPTION_FILTER);
    absent_key_has_no_value(start, GROUP_ORDER);
    absent_key_has_no_value(start, SUBSCRIBER_PRIORITY);
    assert forall|k: u64| true implies #[trigger] value_of(four, k) == (if k == SUBSCRIBER_PRIORITY
        && priority is Some {
        priority
    } else if k == GROUP_ORDER && order is Some {
        order
    } else if k == SUBSCRIPTION_FILTER && filter is Some {
        filter
    } else if k == FORWARD && forward is Some {
        forward
    } else {
        value_of(start, k)
    }) by {
        if forward is Some {
            crate::coding::kvp::set_then_get(start, FORWARD, forward->0, k);
        }
        if filter is Some {
            crate::coding::kvp::set_then_get(one, SUBSCRIPTION_FILTER, filter->0, k);
        }
        if order is Some {
            crate::coding::kvp::set_then_get(two, GROUP_ORDER, order->0, k);
        }
        if priority is Some {
            crate::coding::kvp::set_then_get(three, SUBSCRIBER_PRIORITY, priority->0, k);
        }
    }
    assert(value_of(four, FORWARD) == forward);
    assert(value_of(four, SUBSCRIPTION_FILTER) == filter);
    assert(value_of(four, GROUP_ORDER) == order);
    assert(value_of(four, SUBSCRIBER_PRIORITY) == priority);
}

/// Options are refused for what is wrong with them: a filter without the fields
/// of its type, the publisher's own group order, a parameter that belongs to a
/// response, or an option that the parameters name too. Each of these is
/// refused.
pub proof fn improper_options_are_refused(
    options: &SubscribeOptions,
    result: Result<KeyValuePairs, SubscribeOptionsError>,
)
    requires
        call_ensures(SubscribeOptions::to_request_parameters, (options,), result),
    ensures
        ({
            let given = options.request_parameters@;
            let bad_filter = options.filter is Some && !options.filter->0.consistent();
            let bad_order = options.group_order == Some(GroupOrder::Publisher);
            &&& bad_filter ==> result == Err::<KeyValuePairs, SubscribeOptionsError>(
                SubscribeOptionsError::InvalidFilter(options.filter->0.filter_type),
            )
            &&& bad_order && !bad_filter ==> result == Err::<KeyValuePairs, SubscribeOptionsError>(
                SubscribeOptionsError::InvalidGroupOrder,
            )
            &&& has_key(given, EXPIRES) || has_key(given, LARGEST_OBJECT) ==> result is Err
            &&& options.forward is Some && has_key(given, FORWARD) ==> result is Err
            &&& options.filter is Some && has_key(given, SUBSCRIPTION_FILTER) ==> result is Err
            &&& options.group_order is Some && has_key(given, GROUP_ORDER) ==> result is Err
            &&& options.subscriber_priority is Some && has_key(given, SUBSCRIBER_PRIORITY)
                ==> result is Err
            &&& result == Err::<KeyValuePairs, SubscribeOptionsError>(
                SubscribeOptionsError::InvalidGroupOrder,
            ) ==> bad_order
            &&& result matches Err(SubscribeOptionsError::ParameterNotAllowed(key)) ==> has_key(
                given,
                key,
            ) && (key == EXPIRES || key == LARGEST_OBJECT)
            &&& result matches Err(SubscribeOptionsError::ConflictingParameter(key)) ==> {
                &&& has_key(given, key)
                &&& {
                    ||| key == FORWARD && options.forward is Some
                    ||| key == SUBSCRIPTION_FILTER && options.filter is Some
                    ||| key == GROUP_ORDER && options.group_order is Some
                    ||| key == SUBSCRIBER_PRIORITY && options.subscriber_priority is Some
                }
            }
        }),
{
}

/// A subscription that is made asks, under the next request ID, for the track
/// that it writes to, and the publisher that gets the request finds in it
/// exactly what the subscriber knows of it.
pub proof fn subscription_is_asked_for_as_it_was_made(
    ids: &mut RequestId,
    track: TrackWriter,
    options: SubscribeOptions,
    made: Subscribe,
    recv: SubscribeRecv,
    msg: message::Subscribe,
    served: Result<(Subscribed, SubscribedRecv), SessionError>,
)
    requires
        call_ensures(Subscriber::begin_subscribe, (ids, track, options), Ok((made, recv))),
        call_ensures(Subscribe::wire_message, (&made,), msg),
        call_ensures(Subscribed::new, (&msg,), served),
    ensures
        Some(msg.id) == old(ids).upcoming(),
        msg.track_namespace@ == track.namespace@,
        msg.track_name@ == track.name@,
        served is Ok,
        ({
            let subscribed = (served->Ok_0).0;
            let state = (served->Ok_0).1.state;
            &&& subscribed.info@ == recv@.info
            &&& subscribed.info@ == made.info@
            &&& subscribed.initiator == SubscriptionInitiator::Subscriber
            &&& !subscribed.ok
            &&& state.live
            &&& state.value@.forward == recv@.info.forward
            &&& state.value@.closed is None
            &&& state.value@.stream_count == 0
            &&& options.forward matches Some(forward) ==> recv@.info.forward == forward
            &&& options.filter is Some ==> recv@.info.filter == options.filter
        }),
        !recv@.ok,
        recv@.live,
        recv@.closed is None,
        recv@.track_alias is None,
        recv@.delivery_filter is None,
        forall|location: crate::coding::Location| !recv@.seen.contains(location),
{
    options_are_merged(options@, FORWARD);
}

/// A subscription can be made with every set of options that makes a request,
/// while there are request IDs.
pub proof fn subscription_is_made(
    ids: &mut RequestId,
    track: TrackWriter,
    options: SubscribeOptions,
    params: Result<KeyValuePairs, SubscribeOptionsError>,
    result: Result<(Subscribe, SubscribeRecv), ServeError>,
)
    requires
        call_ensures(Subscriber::begin_subscribe, (ids, track, options), result),
        call_ensures(SubscribeOptions::to_request_parameters, (&options,), params),
    ensures
        result is Ok <==> params is Ok && old(ids).upcoming() is Some,
{
}

/// The order in which parameters come on the wire makes no difference to what
/// a SUBSCRIBE says.
pub proof fn order_on_the_wire_says_nothing(id: u64, name: FullName, params: Seq<Pair>)
    ensures
        ({
            let asked = info_of(id, name, params);
            let read = info_of(id, name, sorted_pairs(params));
            &&& asked is Ok <==> read is Ok
            &&& asked is Ok ==> {
                &&& read->Ok_0.forward == asked->Ok_0.forward
                &&& read->Ok_0.filter == asked->Ok_0.filter
                &&& read->Ok_0.group_order == asked->Ok_0.group_order
                &&& read->Ok_0.subscriber_priority == asked->Ok_0.subscriber_priority
            }
        }),
{
    sorting_changes_no_value(params, FORWARD);
    sorting_changes_no_value(params, SUBSCRIPTION_FILTER);
    sorting_changes_no_value(params, GROUP_ORDER);
    sorting_changes_no_value(params, SUBSCRIBER_PRIORITY);
}

} // verus!
