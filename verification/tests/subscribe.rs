//! Options of a subscription and what they deliver.

use bytes::BytesMut;
use moq::coding::{KeyValuePair, KeyValuePairs, Location, TrackName, TrackNamespace};
use moq::message;
use moq::message::{FilterType, GroupOrder, SubscriptionFilter};
use moq::serve::TrackWriter;
use moq::session::subscribe::{SubscribeInfo, SubscribeOptions, SubscribeOptionsError};
use moq::session::subscribe_recv::Subscribe;

fn track_writer() -> TrackWriter {
    TrackWriter::new(TrackNamespace::from_utf8_path("test/session"), TrackName::of("audio"))
}

fn subscribe_info_with(params: KeyValuePairs) -> SubscribeInfo {
    SubscribeInfo::new_from_subscribe(&message::Subscribe {
        id: 0,
        track_namespace: TrackNamespace::from_utf8_path("test"),
        track_name: TrackName::of("track"),
        params,
    })
    .unwrap()
}

#[test]
fn omitted_subscription_filter_is_unfiltered() {
    let info = subscribe_info_with(KeyValuePairs::default());
    let filter = info.delivery_filter(Some(Location::new(10, 20)));

    assert!(info.filter.is_none());
    assert!(filter.allows(0, 0));
    assert!(filter.allows(10, 20));
    assert!(filter.allows(100, 0));
}

#[test]
fn largest_object_filter_starts_after_largest_object() {
    let mut params = KeyValuePairs::default();
    params
        .set_subscription_filter(&SubscriptionFilter::largest_object())
        .unwrap();
    let info = subscribe_info_with(params);
    let filter = info.delivery_filter(Some(Location::new(2, 3)));

    assert!(!filter.allows(2, 3));
    assert!(filter.allows(2, 4));
    assert!(filter.allows(3, 0));
}

#[test]
fn absolute_range_filter_limits_start_and_end_group() {
    let mut params = KeyValuePairs::default();
    params
        .set_subscription_filter(&SubscriptionFilter {
            filter_type: FilterType::AbsoluteRange,
            start_location: Some(Location::new(2, 3)),
            end_group_id: Some(4),
        })
        .unwrap();
    let info = subscribe_info_with(params);
    let filter = info.delivery_filter(None);

    assert!(!filter.allows(2, 2));
    assert!(filter.allows(2, 3));
    assert!(filter.allows(4, 10));
    assert!(!filter.allows(5, 0));
}

#[test]
fn forward_false_blocks_delivery() {
    let mut params = KeyValuePairs::default();
    params.set_forward(false);
    let info = subscribe_info_with(params);
    let filter = info.delivery_filter(None);

    assert!(!filter.allows(0, 0));
    assert!(!filter.allows(100, 100));
}

#[test]
fn explicit_forward_one_and_largest_object_have_stable_wire_and_model() {
    let options = SubscribeOptions::default()
        .with_forward(true)
        .with_filter(SubscriptionFilter::largest_object());
    let parameters = options.to_request_parameters().unwrap();
    let mut wire = BytesMut::new();
    parameters.encode(&mut wire).unwrap();

    // count=2, FORWARD(type=0x10,value=1), then LOCATION_FILTER
    // (delta=0x11,length=1,LargestObject=0x2).
    assert_eq!(wire.as_ref(), &[0x02, 0x10, 0x01, 0x11, 0x01, 0x02]);
    let info = Subscribe::build_info(8, &track_writer(), &options).unwrap();
    assert_eq!(info.id, 8);
    assert!(info.forward);
    assert_eq!(info.filter, Some(SubscriptionFilter::largest_object()));
    assert_eq!(info.params, parameters);
}

#[test]
fn default_options_preserve_legacy_empty_parameters_and_semantics() {
    let options = SubscribeOptions::default();
    assert!(options.to_request_parameters().unwrap().0.is_empty());

    let info = Subscribe::build_info(10, &track_writer(), &options).unwrap();
    assert!(info.params.0.is_empty());
    assert!(info.forward);
    assert_eq!(info.subscriber_priority, 128);
    assert_eq!(info.group_order, GroupOrder::Publisher);
    assert_eq!(info.filter, None);
}

#[test]
fn explicit_priority_and_group_order_round_trip_into_model() {
    let options = SubscribeOptions::default()
        .with_subscriber_priority(7)
        .with_group_order(GroupOrder::Descending);
    let parameters = options.to_request_parameters().unwrap();
    assert_eq!(parameters.subscriber_priority().unwrap(), Some(7));
    assert_eq!(
        parameters.group_order().unwrap(),
        Some(GroupOrder::Descending)
    );

    let info = Subscribe::build_info(12, &track_writer(), &options).unwrap();
    assert_eq!(info.subscriber_priority, 7);
    assert_eq!(info.group_order, GroupOrder::Descending);
}

#[test]
fn invalid_option_combinations_are_rejected_before_wire_encoding() {
    assert_eq!(
        SubscribeOptions::default()
            .with_group_order(GroupOrder::Publisher)
            .to_request_parameters(),
        Err(SubscribeOptionsError::InvalidGroupOrder)
    );

    for filter in [
        SubscriptionFilter {
            filter_type: FilterType::LargestObject,
            start_location: Some(Location::new(1, 0)),
            end_group_id: None,
        },
        SubscriptionFilter {
            filter_type: FilterType::AbsoluteStart,
            start_location: None,
            end_group_id: None,
        },
        SubscriptionFilter {
            filter_type: FilterType::AbsoluteRange,
            start_location: Some(Location::new(1, 0)),
            end_group_id: None,
        },
    ] {
        let filter_type = filter.filter_type;
        assert_eq!(
            SubscribeOptions::default()
                .with_filter(filter)
                .to_request_parameters(),
            Err(SubscribeOptionsError::InvalidFilter(filter_type))
        );
    }

    let mut collision = KeyValuePairs::default();
    collision.set_forward(false);
    assert_eq!(
        SubscribeOptions::default()
            .with_forward(true)
            .with_request_parameters(collision)
            .to_request_parameters(),
        Err(SubscribeOptionsError::ConflictingParameter(
            message::parameter_type::FORWARD
        ))
    );

    let mut response_only = KeyValuePairs::default();
    response_only.set_intvalue(message::parameter_type::EXPIRES, 1);
    assert_eq!(
        SubscribeOptions::default()
            .with_request_parameters(response_only)
            .to_request_parameters(),
        Err(SubscribeOptionsError::ParameterNotAllowed(
            message::parameter_type::EXPIRES
        ))
    );

    let invalid_wire = KeyValuePairs(vec![KeyValuePair::new_bytes(
        message::parameter_type::DELIVERY_TIMEOUT,
        vec![1],
    )]);
    assert_eq!(
        SubscribeOptions::default()
            .with_request_parameters(invalid_wire)
            .to_request_parameters(),
        Err(SubscribeOptionsError::InvalidRequestParameters)
    );
}

#[test]
fn additional_request_parameters_are_preserved_without_silent_overwrite() {
    let mut request_parameters = KeyValuePairs::default();
    request_parameters.set_intvalue(message::parameter_type::DELIVERY_TIMEOUT, 250);
    request_parameters.set_bytesvalue(0x41, vec![1, 2, 3]);
    let original = request_parameters.clone();

    let merged = SubscribeOptions::default()
        .with_forward(true)
        .with_subscriber_priority(9)
        .with_request_parameters(request_parameters)
        .to_request_parameters()
        .unwrap();

    assert_eq!(
        merged.get(message::parameter_type::DELIVERY_TIMEOUT),
        original.get(message::parameter_type::DELIVERY_TIMEOUT)
    );
    assert_eq!(merged.get(0x41), original.get(0x41));
    assert_eq!(merged.forward().unwrap(), Some(true));
    assert_eq!(merged.subscriber_priority().unwrap(), Some(9));
    assert_eq!(merged.0.len(), original.0.len() + 2);
}

#[test]
fn valid_typed_request_parameter_is_preserved_when_option_is_omitted() {
    let mut request_parameters = KeyValuePairs::default();
    request_parameters.set_forward(false);
    let parameters = SubscribeOptions::default()
        .with_request_parameters(request_parameters)
        .to_request_parameters()
        .unwrap();
    assert_eq!(parameters.forward().unwrap(), Some(false));

    let info = Subscribe::build_info(
        14,
        &track_writer(),
        &SubscribeOptions::default().with_request_parameters(parameters),
    )
    .unwrap();
    assert!(!info.forward);
}
