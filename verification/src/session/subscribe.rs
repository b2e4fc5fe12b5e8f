//! Subscriptions that this endpoint makes.

use bytes::BytesMut;
use vstd::prelude::*;

use super::error::{SessionError, SessionFault};
use crate::coding::kvp::{
    has_key, key_index_is_first, list_encoding, set_then_get, value_of, with_value, KeyValuePairs,
    Pair, ValueView,
};
use crate::coding::{Location, TrackName, TrackNamespace};
use crate::message::parameter_type::{
    EXPIRES, FORWARD, GROUP_ORDER, LARGEST_OBJECT, SUBSCRIBER_PRIORITY, SUBSCRIPTION_FILTER,
};
use crate::message::parameters::{
    filter_of, flag_value, forward_of, group_order_of, group_order_value, priority_of,
};
use crate::message::{self, FilterType, GroupOrder, SubscriptionFilter};
use crate::serve::error::ServeFault;
use crate::serve::track::FullName;
use crate::serve::ServeError;
use crate::text::{concat2, concat3, digits, hexadecimal};

verus! {

/// Which objects of a track are delivered.
#[derive(Clone, Copy, Debug, PartialEq, Eq, Structural)]
pub struct DeliveryFilter {
    pub forward: bool,
    pub start_location: Option<Location>,
    pub end_group_id: Option<u64>,
}

impl DeliveryFilter {
    /// Nothing is delivered without FORWARD, before the start or behind the
    /// last group.
    pub open spec fn delivers(self, location: Location) -> bool {
        &&& self.forward
        &&& self.start_location matches Some(start) ==> !location.before(start)
        &&& self.end_group_id matches Some(end) ==> location.group_id <= end
    }

    pub fn allows(&self, group_id: u64, object_id: u64) -> (result: bool)
        ensures
            result == self.delivers(Location { group_id, object_id }),
    {
        if !self.forward {
            return false;
        }
        let location = Location::new(group_id, object_id);
        if let Some(start) = self.start_location {
            if location.is_before(&start) {
                return false;
            }
        }
        if let Some(end_group_id) = self.end_group_id {
            if group_id > end_group_id {
                return false;
            }
        }
        true
    }
}

/// Configuration of an outbound SUBSCRIBE request.
///
/// `None` leaves a typed parameter off the wire and so uses its default. A
/// default can still be sent explicitly, such as `Forward=1`.
#[derive(Debug, PartialEq, Eq)]
pub struct SubscribeOptions {
    pub forward: Option<bool>,
    pub filter: Option<SubscriptionFilter>,
    pub group_order: Option<GroupOrder>,
    pub subscriber_priority: Option<u8>,
    /// Additional request parameters, such as authorization or delivery
    /// policy. The typed fields above may not also appear here.
    pub request_parameters: KeyValuePairs,
}

/// The model of [`SubscribeOptions`].
pub struct OptionsView {
    pub forward: Option<bool>,
    pub filter: Option<SubscriptionFilter>,
    pub group_order: Option<GroupOrder>,
    pub subscriber_priority: Option<u8>,
    pub request_parameters: Seq<Pair>,
}

/// Why options make no request.
#[derive(Clone, Copy, Debug, PartialEq, Eq, Structural)]
pub enum SubscribeOptionsError {
    /// The publisher's group order is what an omission means and cannot be sent.
    InvalidGroupOrder,
    /// The filter's fields do not fit its type.
    InvalidFilter(FilterType),
    /// A typed option is among the request parameters too.
    ConflictingParameter(u64),
    /// A request parameter belongs to a response.
    ParameterNotAllowed(u64),
    /// The request parameters cannot be sent.
    InvalidRequestParameters,
}

impl View for SubscribeOptions {
    type V = OptionsView;

    open spec fn view(&self) -> OptionsView {
        OptionsView {
            forward: self.forward,
            filter: self.filter,
            group_order: self.group_order,
            subscriber_priority: self.subscriber_priority,
            request_parameters: self.request_parameters@,
        }
    }
}

impl Default for SubscribeOptions {
    fn default() -> (options: Self)
        ensures
            options@ == (OptionsView {
                forward: None,
                filter: None,
                group_order: None,
                subscriber_priority: None,
                request_parameters: Seq::empty(),
            }),
    {
        SubscribeOptions {
            forward: None,
            filter: None,
            group_order: None,
            subscriber_priority: None,
            request_parameters: KeyValuePairs::default(),
        }
    }
}

impl Clone for SubscribeOptions {
    fn clone(&self) -> (copy: Self)
        ensures
            copy@ == self@,
    {
        SubscribeOptions {
            forward: self.forward,
            filter: self.filter,
            group_order: self.group_order,
            subscriber_priority: self.subscriber_priority,
            request_parameters: self.request_parameters.clone(),
        }
    }
}

/// Parameters with one more, where it is wanted.
pub open spec fn with_option(pairs: Seq<Pair>, key: u64, value: Option<ValueView>) -> Seq<Pair> {
    match value {
        Some(value) => with_value(pairs, key, value),
        None => pairs,
    }
}

/// Whether parameters can be sent with a SUBSCRIBE, and why not.
pub open spec fn parameters_outcome(pairs: Seq<Pair>) -> Result<(), SubscribeOptionsError> {
    if list_encoding(pairs) is Err || list_encoding(pairs)->Ok_0.len() > isize::MAX || forward_of(
        pairs,
    ) is Err || priority_of(pairs) is Err || group_order_of(pairs) is Err || filter_of(
        pairs,
    ) is Err {
        Err(SubscribeOptionsError::InvalidRequestParameters)
    } else {
        match filter_of(pairs)->Ok_0 {
            Some(filter) => filter_outcome(filter),
            None => Ok(()),
        }
    }
}

/// Whether a filter has the fields of its type.
pub open spec fn filter_outcome(filter: SubscriptionFilter) -> Result<(), SubscribeOptionsError> {
    if filter.consistent() {
        Ok(())
    } else {
        Err(SubscribeOptionsError::InvalidFilter(filter.filter_type))
    }
}

impl OptionsView {
    /// The request parameters with the typed options among them.
    pub open spec fn merged(self) -> Seq<Pair> {
        let with_forward = with_option(
            self.request_parameters,
            FORWARD,
            match self.forward {
                Some(forward) => Some(flag_value(forward)),
                None => None,
            },
        );
        let with_filter = with_option(
            with_forward,
            SUBSCRIPTION_FILTER,
            match self.filter {
                Some(filter) => Some(ValueView::Bytes(filter.encoding()->Ok_0)),
                None => None,
            },
        );
        let with_order = with_option(
            with_filter,
            GROUP_ORDER,
            match self.group_order {
                Some(order) => Some(group_order_value(order)),
                None => None,
            },
        );
        with_option(
            with_order,
            SUBSCRIBER_PRIORITY,
            match self.subscriber_priority {
                Some(priority) => Some(ValueView::Int(priority as u64)),
                None => None,
            },
        )
    }

    /// The first typed option that is among the request parameters too.
    pub open spec fn conflict(self) -> Option<u64> {
        if self.forward is Some && has_key(self.request_parameters, FORWARD) {
            Some(FORWARD)
        } else if self.filter is Some && has_key(self.request_parameters, SUBSCRIPTION_FILTER) {
            Some(SUBSCRIPTION_FILTER)
        } else if self.group_order is Some && has_key(self.request_parameters, GROUP_ORDER) {
            Some(GROUP_ORDER)
        } else if self.subscriber_priority is Some && has_key(
            self.request_parameters,
            SUBSCRIBER_PRIORITY,
        ) {
            Some(SUBSCRIBER_PRIORITY)
        } else {
            None
        }
    }

    /// The parameters of the request, or why there is none.
    pub open spec fn parameters(self) -> Result<Seq<Pair>, SubscribeOptionsError> {
        if self.filter is Some && !self.filter->0.consistent() {
            Err(SubscribeOptionsError::InvalidFilter(self.filter->0.filter_type))
        } else if self.group_order == Some(GroupOrder::Publisher) {
            Err(SubscribeOptionsError::InvalidGroupOrder)
        } else if has_key(self.request_parameters, EXPIRES) {
            Err(SubscribeOptionsError::ParameterNotAllowed(EXPIRES))
        } else if has_key(self.request_parameters, LARGEST_OBJECT) {
            Err(SubscribeOptionsError::ParameterNotAllowed(LARGEST_OBJECT))
        } else if self.conflict() is Some {
            Err(SubscribeOptionsError::ConflictingParameter(self.conflict()->0))
        } else if self.filter is Some && self.filter->0.encoding() is Err {
            Err(SubscribeOptionsError::InvalidRequestParameters)
        } else {
            match parameters_outcome(self.merged()) {
                Ok(()) => Ok(self.merged()),
                Err(error) => Err(error),
            }
        }
    }
}

/// Every typed option is read back from the parameters of the request, and no
/// other parameter is lost or changed.
pub proof fn options_are_merged(options: OptionsView, key: u64)
    requires
        options.parameters() is Ok,
    ensures
        options.forward is Some ==> forward_of(options.parameters()->Ok_0) == Ok::<
            _,
            crate::coding::DecodeError,
        >(options.forward),
        options.filter is Some ==> filter_of(options.parameters()->Ok_0) == Ok::<
            _,
            crate::coding::DecodeError,
        >(options.filter),
        options.group_order is Some ==> group_order_of(options.parameters()->Ok_0) == Ok::<
            _,
            crate::coding::DecodeError,
        >(options.group_order),
        options.subscriber_priority is Some ==> priority_of(options.parameters()->Ok_0) == Ok::<
            _,
            crate::coding::DecodeError,
        >(options.subscriber_priority),
        value_of(options.request_parameters, key) is Some ==> value_of(
            options.parameters()->Ok_0,
            key,
        ) == value_of(options.request_parameters, key),
        (key == FORWARD ==> options.forward is None) && (key == SUBSCRIPTION_FILTER
            ==> options.filter is None) && (key == GROUP_ORDER ==> options.group_order is None) && (
        key == SUBSCRIBER_PRIORITY ==> options.subscriber_priority is None) ==> value_of(
            options.parameters()->Ok_0,
            key,
        ) == value_of(options.request_parameters, key),
{
    let start = options.request_parameters;
    let forward = match options.forward {
        Some(forward) => Some(flag_value(forward)),
        None => None,
    };
    let filter = match options.filter {
        Some(filter) => Some(ValueView::Bytes(filter.encoding()->Ok_0)),
        None => None,
    };
    let order = match options.group_order {
        Some(order) => Some(group_order_value(order)),
        None => None,
    };
    let priority = match options.subscriber_priority {
        Some(priority) => Some(ValueView::Int(priority as u64)),
        None => None,
    };
    let one = with_option(start, FORWARD, forward);
    let two = with_option(one, SUBSCRIPTION_FILTER, filter);
    let three = with_option(two, GROUP_ORDER, order);
    let four = with_option(three, SUBSCRIBER_PRIORITY, priority);
    assert(options.merged() == four);
    assert forall|k: u64| true implies #[trigger] value_of(four, k) == (if k == SUBSCRIBER_PRIORITY
        && priority is Some {
        priority
    } else if k == GROUP_ORDER && order is Some {
        order
    } else if k == SUBSCRIPTION_FILTER && filter is Some {
        filter
    } else if k == FORWARD && forward is Some {
        forward
    } else {
        value_of(start, k)
    }) by {
        if forward is Some {
            set_then_get(start, FORWARD, forward->0, k);
        }
        if filter is Some {
            set_then_get(one, SUBSCRIPTION_FILTER, filter->0, k);
        }
        if order is Some {
            set_then_get(two, GROUP_ORDER, order->0, k);
        }
        if priority is Some {
            set_then_get(three, SUBSCRIBER_PRIORITY, priority->0, k);
        }
    }
    assert(value_of(four, FORWARD) == value_of(four, FORWARD));
    assert(value_of(four, SUBSCRIPTION_FILTER) == value_of(four, SUBSCRIPTION_FILTER));
    assert(value_of(four, GROUP_ORDER) == value_of(four, GROUP_ORDER));
    assert(value_of(four, SUBSCRIBER_PRIORITY) == value_of(four, SUBSCRIBER_PRIORITY));
    if options.filter is Some {
        options.filter->0.round_trip();
    }
    key_index_is_first(start, FORWARD);
    key_index_is_first(start, SUBSCRIPTION_FILTER);
    key_index_is_first(start, GROUP_ORDER);
    key_index_is_first(start, SUBSCRIBER_PRIORITY);
    assert(value_of(four, key) == value_of(four, key));
}

/// Whether a filter has exactly the fields that its type calls for.
pub fn validate_subscription_filter(filter: &SubscriptionFilter) -> (result: Result<
    (),
    SubscribeOptionsError,
>)
    ensures
        result == filter_outcome(*filter),
{
    let valid = match filter.filter_type {
        FilterType::NextGroupStart | FilterType::LargestObject => filter.start_location.is_none()
            && filter.end_group_id.is_none(),
        FilterType::AbsoluteStart => filter.start_location.is_some()
            && filter.end_group_id.is_none(),
        FilterType::AbsoluteRange => filter.start_location.is_some()
            && filter.end_group_id.is_some(),
    };
    if valid {
        Ok(())
    } else {
        Err(SubscribeOptionsError::InvalidFilter(filter.filter_type))
    }
}

/// Whether parameters can be sent with a SUBSCRIBE.
pub fn validate_request_parameters(parameters: &KeyValuePairs) -> (result: Result<
    (),
    SubscribeOptionsError,
>)
    ensures
        result == parameters_outcome(parameters@),
{
    let mut encoded = BytesMut::new();
    if parameters.encode(&mut encoded).is_err() || parameters.forward().is_err()
        || parameters.subscriber_priority().is_err() || parameters.group_order().is_err() {
        return Err(SubscribeOptionsError::InvalidRequestParameters);
    }
    match parameters.subscription_filter() {
        Ok(Some(filter)) => validate_subscription_filter(&filter),
        Ok(None) => Ok(()),
        Err(_) => Err(SubscribeOptionsError::InvalidRequestParameters),
    }
}

impl SubscribeOptions {
    pub fn with_forward(self, forward: bool) -> (options: Self)
        ensures
            options@ == (OptionsView { forward: Some(forward), ..self@ }),
    {
        SubscribeOptions { forward: Some(forward), ..self }
    }

    pub fn with_filter(self, filter: SubscriptionFilter) -> (options: Self)
        ensures
            options@ == (OptionsView { filter: Some(filter), ..self@ }),
    {
        SubscribeOptions { filter: Some(filter), ..self }
    }

    pub fn with_group_order(self, group_order: GroupOrder) -> (options: Self)
        ensures
            options@ == (OptionsView { group_order: Some(group_order), ..self@ }),
    {
        SubscribeOptions { group_order: Some(group_order), ..self }
    }

    pub fn with_subscriber_priority(self, subscriber_priority: u8) -> (options: Self)
        ensures
            options@ == (OptionsView { subscriber_priority: Some(subscriber_priority), ..self@ }),
    {
        SubscribeOptions { subscriber_priority: Some(subscriber_priority), ..self }
    }

    pub fn with_request_parameters(self, request_parameters: KeyValuePairs) -> (options: Self)
        ensures
            options@ == (OptionsView { request_parameters: request_parameters@, ..self@ }),
    {
        SubscribeOptions { request_parameters, ..self }
    }

    /// Validates and merges typed and additional parameters without dropping
    /// or overwriting either source.
    pub fn to_request_parameters(&self) -> (result: Result<KeyValuePairs, SubscribeOptionsError>)
        ensures
            match self@.parameters() {
                Ok(pairs) => result is Ok && result->Ok_0@ == pairs,
                Err(error) => result == Err::<KeyValuePairs, SubscribeOptionsError>(error),
            },
    {
        if let Some(filter) = &self.filter {
            validate_subscription_filter(filter)?;
        }
        if let Some(GroupOrder::Publisher) = self.group_order {
            return Err(SubscribeOptionsError::InvalidGroupOrder);
        }
        if self.request_parameters.has(EXPIRES) {
            return Err(SubscribeOptionsError::ParameterNotAllowed(EXPIRES));
        }
        if self.request_parameters.has(LARGEST_OBJECT) {
            return Err(SubscribeOptionsError::ParameterNotAllowed(LARGEST_OBJECT));
        }
        if self.forward.is_some() && self.request_parameters.has(FORWARD) {
            return Err(SubscribeOptionsError::ConflictingParameter(FORWARD));
        }
        if self.filter.is_some() && self.request_parameters.has(SUBSCRIPTION_FILTER) {
            return Err(SubscribeOptionsError::ConflictingParameter(SUBSCRIPTION_FILTER));
        }
        if self.group_order.is_some() && self.request_parameters.has(GROUP_ORDER) {
            return Err(SubscribeOptionsError::ConflictingParameter(GROUP_ORDER));
        }
        if self.subscriber_priority.is_some() && self.request_parameters.has(SUBSCRIBER_PRIORITY) {
            return Err(SubscribeOptionsError::ConflictingParameter(SUBSCRIBER_PRIORITY));
        }
        let mut parameters = self.request_parameters.clone();
        if let Some(forward) = self.forward {
            parameters.set_forward(forward);
        }
        if let Some(filter) = &self.filter {
            match parameters.set_subscription_filter(filter) {
                Ok(()) => {},
                Err(_) => {
                    return Err(SubscribeOptionsError::InvalidRequestParameters);
                },
            }
        }
        if let Some(group_order) = self.group_order {
            parameters.set_group_order(group_order);
        }
        if let Some(priority) = self.subscriber_priority {
            parameters.set_subscriber_priority(priority);
        }
        validate_request_parameters(&parameters)?;
        Ok(parameters)
    }
}

impl SubscribeOptionsError {
    /// The sentence that describes the error.
    pub open spec fn spec_message(self) -> Seq<char> {
        match self {
            SubscribeOptionsError::InvalidGroupOrder =>
            "Publisher group order is an omission sentinel and cannot be sent"@,
            SubscribeOptionsError::InvalidFilter(FilterType::NextGroupStart) =>
            "invalid fields for subscription filter NextGroupStart"@,
            SubscribeOptionsError::InvalidFilter(FilterType::LargestObject) =>
            "invalid fields for subscription filter LargestObject"@,
            SubscribeOptionsError::InvalidFilter(FilterType::AbsoluteStart) =>
            "invalid fields for subscription filter AbsoluteStart"@,
            SubscribeOptionsError::InvalidFilter(FilterType::AbsoluteRange) =>
            "invalid fields for subscription filter AbsoluteRange"@,
            SubscribeOptionsError::ConflictingParameter(key) =>
            "typed option conflicts with request parameter 0x"@ + digits(key as nat, 16),
            SubscribeOptionsError::ParameterNotAllowed(key) => "request parameter 0x"@ + digits(
                key as nat,
                16,
            ) + " is not allowed on SUBSCRIBE"@,
            SubscribeOptionsError::InvalidRequestParameters =>
            "request parameters are not valid MOQT parameters"@,
        }
    }

    /// A sentence that describes the error.
    pub fn message(&self) -> (text: String)
        ensures
            text@ == self.spec_message(),
    {
        match self {
            SubscribeOptionsError::InvalidGroupOrder =>
            "Publisher group order is an omission sentinel and cannot be sent".to_string(),
            SubscribeOptionsError::InvalidFilter(FilterType::NextGroupStart) =>
            "invalid fields for subscription filter NextGroupStart".to_string(),
            SubscribeOptionsError::InvalidFilter(FilterType::LargestObject) =>
            "invalid fields for subscription filter LargestObject".to_string(),
            SubscribeOptionsError::InvalidFilter(FilterType::AbsoluteStart) =>
            "invalid fields for subscription filter AbsoluteStart".to_string(),
            SubscribeOptionsError::InvalidFilter(FilterType::AbsoluteRange) =>
            "invalid fields for subscription filter AbsoluteRange".to_string(),
            SubscribeOptionsError::ConflictingParameter(key) => concat2(
                "typed option conflicts with request parameter 0x",
                &hexadecimal(*key),
            ),
            SubscribeOptionsError::ParameterNotAllowed(key) => concat3(
                "request parameter 0x",
                &hexadecimal(*key),
                " is not allowed on SUBSCRIBE",
            ),
            SubscribeOptionsError::InvalidRequestParameters =>
            "request parameters are not valid MOQT parameters".to_string(),
        }
    }

    /// What the error is to a track.
    pub fn into_serve(self) -> (error: ServeError)
        ensures
            error@ == ServeFault::Internal(self.spec_message()),
    {
        ServeError::Internal(self.message())
    }
}

/// What is known of a subscription.
#[derive(Debug)]
pub struct SubscribeInfo {
    pub id: u64,
    pub track_namespace: TrackNamespace,
    pub track_name: TrackName,
    pub subscriber_priority: u8,
    pub group_order: GroupOrder,
    /// Whether objects are forwarded.
    pub forward: bool,
    pub filter_type: FilterType,
    /// The starting location, for the filter types that have one.
    pub start_location: Option<Location>,
    /// The last group, inclusive, for the filter type that has one.
    pub end_group_id: Option<u64>,
    /// `None` means that the filter was omitted: nothing is filtered.
    pub filter: Option<SubscriptionFilter>,
    pub params: KeyValuePairs,
    /// Whether only the state of the track is asked for.
    pub track_status: bool,
}

/// The model of a [`SubscribeInfo`].
pub struct InfoView {
    pub id: u64,
    pub name: FullName,
    pub subscriber_priority: u8,
    pub group_order: GroupOrder,
    pub forward: bool,
    pub filter_type: FilterType,
    pub start_location: Option<Location>,
    pub end_group_id: Option<u64>,
    pub filter: Option<SubscriptionFilter>,
    pub params: Seq<Pair>,
    pub track_status: bool,
}

impl View for SubscribeInfo {
    type V = InfoView;

    open spec fn view(&self) -> InfoView {
        InfoView {
            id: self.id,
            name: FullName { namespace: self.track_namespace@, name: self.track_name@ },
            subscriber_priority: self.subscriber_priority,
            group_order: self.group_order,
            forward: self.forward,
            filter_type: self.filter_type,
            start_location: self.start_location,
            end_group_id: self.end_group_id,
            filter: self.filter,
            params: self.params@,
            track_status: self.track_status,
        }
    }
}

impl Clone for SubscribeInfo {
    fn clone(&self) -> (copy: Self)
        ensures
            copy@ == self@,
    {
        SubscribeInfo {
            id: self.id,
            track_namespace: self.track_namespace.clone(),
            track_name: self.track_name.clone(),
            subscriber_priority: self.subscriber_priority,
            group_order: self.group_order,
            forward: self.forward,
            filter_type: self.filter_type,
            start_location: self.start_location,
            end_group_id: self.end_group_id,
            filter: self.filter,
            params: self.params.clone(),
            track_status: self.track_status,
        }
    }
}

/// What a SUBSCRIBE says, with the defaults for what it leaves out.
pub open spec fn info_of(id: u64, name: FullName, params: Seq<Pair>) -> Result<
    InfoView,
    SessionFault,
> {
    match filter_of(params) {
        Err(error) => Err(SessionFault::Decode(error)),
        Ok(filter) => match priority_of(params) {
            Err(error) => Err(SessionFault::Decode(error)),
            Ok(priority) => match group_order_of(params) {
                Err(error) => Err(SessionFault::Decode(error)),
                Ok(order) => match forward_of(params) {
                    Err(error) => Err(SessionFault::Decode(error)),
                    Ok(forward) => Ok(
                        InfoView {
                            id,
                            name,
                            subscriber_priority: match priority {
                                Some(priority) => priority,
                                None => 128,
                            },
                            group_order: match order {
                                Some(order) => order,
                                None => GroupOrder::Publisher,
                            },
                            forward: match forward {
                                Some(forward) => forward,
                                None => true,
                            },
                            filter_type: match filter {
                                Some(filter) => filter.filter_type,
                                None => FilterType::AbsoluteStart,
                            },
                            start_location: match filter {
                                Some(filter) => filter.start_location,
                                None => None,
                            },
                            end_group_id: match filter {
                                Some(filter) => filter.end_group_id,
                                None => None,
                            },
                            filter,
                            params,
                            track_status: false,
                        },
                    ),
                },
            },
        },
    }
}

/// The first location behind the largest one, or the very first.
pub open spec fn next_object(largest: Option<Location>) -> Location {
    match largest {
        None => Location { group_id: 0, object_id: 0 },
        Some(location) => if location.object_id < u64::MAX {
            Location {
                group_id: location.group_id,
                object_id: (location.object_id + 1) as u64,
            }
        } else {
            next_group(largest)
        },
    }
}

/// The start of the group behind the largest location, or the very first.
pub open spec fn next_group(largest: Option<Location>) -> Location {
    match largest {
        None => Location { group_id: 0, object_id: 0 },
        Some(location) => Location {
            group_id: if location.group_id < u64::MAX {
                (location.group_id + 1) as u64
            } else {
                u64::MAX
            },
            object_id: 0,
        },
    }
}

impl InfoView {
    /// Which objects are delivered of a track whose largest object is known.
    pub open spec fn delivery(self, largest: Option<Location>) -> DeliveryFilter {
        match self.filter {
            None => DeliveryFilter {
                forward: self.forward,
                start_location: None,
                end_group_id: None,
            },
            Some(filter) => DeliveryFilter {
                forward: self.forward,
                start_location: match filter.filter_type {
                    FilterType::LargestObject => Some(next_object(largest)),
                    FilterType::NextGroupStart => Some(next_group(largest)),
                    FilterType::AbsoluteStart | FilterType::AbsoluteRange => filter.start_location,
                },
                end_group_id: filter.end_group_id,
            },
        }
    }
}

/// Behind the largest location comes the next object: nothing is delivered
/// twice and nothing in between is left out. At the end of the numbers there
/// is no next location.
pub proof fn next_object_follows(location: Location, other: Location)
    requires
        location != (Location { group_id: u64::MAX, object_id: u64::MAX }),
    ensures
        location.before(next_object(Some(location))),
        location.before(other) ==> !other.before(next_object(Some(location))),
{
}

/// A filter that starts behind the largest object delivers no object up to
/// it, and every object behind it.
pub proof fn largest_object_filter_starts_behind(info: InfoView, largest: Location, other: Location)
    requires
        info.forward,
        info.filter matches Some(filter) && filter.filter_type == FilterType::LargestObject
            && filter.consistent(),
        largest != (Location { group_id: u64::MAX, object_id: u64::MAX }),
    ensures
        info.delivery(Some(largest)).delivers(other) <==> largest.before(other),
{
    next_object_follows(largest, other);
}

/// A subscription without a filter delivers everything while it forwards.
pub proof fn omitted_filter_delivers_all(
    info: InfoView,
    largest: Option<Location>,
    location: Location,
)
    requires
        info.filter is None,
    ensures
        info.delivery(largest).delivers(location) == info.forward,
{
}

/// The first location behind the largest one.
pub fn next_object_location(largest_location: Option<Location>) -> (location: Location)
    ensures
        location == next_object(largest_location),
{
    let location = match largest_location {
        Some(location) => location,
        None => {
            return Location::new(0, 0);
        },
    };
    match location.object_id.checked_add(1) {
        Some(object_id) => Location::new(location.group_id, object_id),
        None => next_group_location(Some(location)),
    }
}

/// The start of the group behind the largest location.
pub fn next_group_location(largest_location: Option<Location>) -> (location: Location)
    ensures
        location == next_group(largest_location),
{
    match largest_location {
        Some(location) => Location::new(location.group_id.saturating_add(1), 0),
        None => Location::new(0, 0),
    }
}

impl SubscribeInfo {
    pub fn new_from_subscribe(msg: &message::Subscribe) -> (result: Result<Self, SessionError>)
        ensures
            match info_of(
                msg.id,
                FullName { namespace: msg.track_namespace@, name: msg.track_name@ },
                msg.params@,
            ) {
                Ok(info) => result is Ok && result->Ok_0@ == info,
                Err(fault) => result matches Err(error) && error@ == fault,
            },
    {
        let filter = match msg.params.subscription_filter() {
            Ok(filter) => filter,
            Err(error) => {
                return Err(SessionError::Decode(error));
            },
        };
        let mut filter_type = FilterType::AbsoluteStart;
        let mut start_location: Option<Location> = None;
        let mut end_group_id: Option<u64> = None;
        if let Some(filter) = filter {
            filter_type = filter.filter_type;
            start_location = filter.start_location;
            end_group_id = filter.end_group_id;
        }
        let subscriber_priority: u8 = match msg.params.subscriber_priority() {
            Ok(Some(priority)) => priority,
            Ok(None) => 128,
            Err(error) => {
                return Err(SessionError::Decode(error));
            },
        };
        let group_order = match msg.params.group_order() {
            Ok(Some(order)) => order,
            Ok(None) => GroupOrder::Publisher,
            Err(error) => {
                return Err(SessionError::Decode(error));
            },
        };
        let forward = match msg.params.forward() {
            Ok(Some(forward)) => forward,
            Ok(None) => true,
            Err(error) => {
                return Err(SessionError::Decode(error));
            },
        };
        Ok(
            SubscribeInfo {
                id: msg.id,
                track_namespace: msg.track_namespace.clone(),
                track_name: msg.track_name.clone(),
                subscriber_priority,
                group_order,
                forward,
                filter_type,
                start_location,
                end_group_id,
                filter,
                params: msg.params.clone(),
                track_status: false,
            },
        )
    }

    /// Which objects are delivered, given the largest object of the track.
    pub fn delivery_filter(&self, largest_location: Option<Location>) -> (filter: DeliveryFilter)
        ensures
            filter == self@.delivery(largest_location),
    {
        let filter = match self.filter {
            Some(filter) => filter,
            None => {
                return DeliveryFilter {
                    forward: self.forward,
                    start_location: None,
                    end_group_id: None,
                };
            },
        };
        let start_location = match filter.filter_type {
            FilterType::LargestObject => Some(next_object_location(largest_location)),
            FilterType::NextGroupStart => Some(next_group_location(largest_location)),
            FilterType::AbsoluteStart | FilterType::AbsoluteRange => filter.start_location,
        };
        DeliveryFilter {
            forward: self.forward,
            start_location,
            end_group_id: filter.end_group_id,
        }
    }
}

} // verus!
