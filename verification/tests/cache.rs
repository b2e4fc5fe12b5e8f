//! Bounded retention of completed objects.

use bytes::Bytes;
use moq::coding::Location;
use moq::data::ExtensionHeaders;
use moq::message::GroupOrder;
use moq::serve::cache::{
    RetainedObject, RetainedObjectBuilder, RetainedObjectMetadata, RetainedRange, RetainedTrack,
    RetentionError, RetentionLimit, RetentionLimits, RetentionRangeError,
};
use std::collections::BTreeSet;

fn limits() -> RetentionLimits {
    RetentionLimits {
        max_object_bytes: 64,
        max_group_bytes: 256,
        max_objects_per_group: 8,
        max_groups: 2,
        max_store_bytes: 512,
        max_store_objects: 16,
        max_active_snapshots: 4,
    }
}

fn metadata(group_id: u64, object_id: u64, subgroup_id: Option<u64>) -> RetainedObjectMetadata {
    RetainedObjectMetadata {
        location: Location::new(group_id, object_id),
        subgroup_id,
        publisher_priority: 7,
        properties: ExtensionHeaders::new(),
    }
}

fn object(
    group_id: u64,
    object_id: u64,
    subgroup_id: Option<u64>,
    size: usize,
) -> RetainedObject {
    RetainedObject::new(
        metadata(group_id, object_id, subgroup_id),
        Bytes::from(vec![object_id as u8; size]),
    )
    .unwrap()
}

fn range(start: (u64, u64), end: (u64, u64)) -> RetainedRange {
    RetainedRange::new(Location::new(start.0, start.1), Location::new(end.0, end.1))
}

fn complete(track: &mut RetainedTrack, group_id: u64, ids: &[u64]) {
    for id in ids {
        track.commit(object(group_id, *id, None, 4)).unwrap();
    }
    track.complete_group(group_id).unwrap();
}

fn assert_error<T: std::fmt::Debug>(
    result: Result<T, RetentionError>,
    expected: RetentionError,
) {
    assert_eq!(result.err(), Some(expected));
}

#[test]
fn incomplete_object_is_rejected_and_invisible() {
    let mut track = RetainedTrack::new(limits()).unwrap();
    let builder = RetainedObjectBuilder::new(metadata(1, 0, None), 4);
    assert_eq!(
        builder.finish(Bytes::from_static(b"bad")),
        Err(RetentionError::InvalidRange(
            RetentionRangeError::IncompleteObject
        ))
    );
    assert_error(
        track.snapshot(range((1, 0), (2, 0)), GroupOrder::Ascending),
        RetentionError::InvalidRange(RetentionRangeError::NoObjects),
    );
    assert_eq!(track.stats().store_objects, 0);
}

#[test]
fn bytes_are_shared_through_commit_and_snapshot() {
    let mut track = RetainedTrack::new(limits()).unwrap();
    let payload = Bytes::from_static(b"shared");
    let pointer = payload.as_ptr();
    track
        .commit(RetainedObject::new(metadata(1, 0, None), payload).unwrap())
        .unwrap();
    track.complete_group(1).unwrap();
    let snapshot = track
        .snapshot(range((1, 0), (2, 0)), GroupOrder::Ascending)
        .unwrap();
    assert_eq!(snapshot.iter()[0].payload().as_ptr(), pointer);
}

#[test]
fn pending_group_is_invisible_until_atomic_completion() {
    let mut track = RetainedTrack::new(limits()).unwrap();
    track.commit(object(1, 1, None, 4)).unwrap();
    track.commit(object(1, 0, None, 4)).unwrap();
    assert_eq!(track.stats().pending_objects, 2);
    assert_error(
        track.snapshot(range((1, 0), (2, 0)), GroupOrder::Ascending),
        RetentionError::InvalidRange(RetentionRangeError::NoObjects),
    );

    track.complete_group(1).unwrap();
    let snapshot = track
        .snapshot(range((1, 0), (2, 0)), GroupOrder::Ascending)
        .unwrap();
    assert_eq!(
        snapshot
            .iter()
            .into_iter()
            .map(RetainedObject::object_id)
            .collect::<Vec<_>>(),
        vec![0, 1]
    );
}

#[test]
fn completed_group_rotation_occurs_only_at_completion() {
    let mut config = limits();
    config.max_groups = 1;
    let mut track = RetainedTrack::new(config).unwrap();
    complete(&mut track, 1, &[0]);
    track.commit(object(2, 0, None, 4)).unwrap();

    let shown = track.snapshot(range((1, 0), (2, 0)), GroupOrder::Ascending);
    assert!(shown.is_ok());
    track.release(shown.unwrap());
    assert_eq!(track.stats().pending_group, Some(2));

    track.complete_group(2).unwrap();
    assert_error(
        track.snapshot(range((1, 0), (2, 0)), GroupOrder::Ascending),
        RetentionError::InvalidRange(RetentionRangeError::NotRetained),
    );
    assert_eq!(
        track
            .snapshot(range((2, 0), (3, 0)), GroupOrder::Ascending)
            .unwrap()
            .iter()
            .into_iter()
            .map(RetainedObject::group_id)
            .collect::<Vec<_>>(),
        vec![2]
    );
}

#[test]
fn snapshot_pins_rotation_then_retry_succeeds_after_drop() {
    let mut config = limits();
    config.max_groups = 1;
    let mut track = RetainedTrack::new(config).unwrap();
    complete(&mut track, 1, &[0]);
    let pinned = track
        .snapshot(range((1, 0), (2, 0)), GroupOrder::Ascending)
        .unwrap();
    track.commit(object(2, 0, None, 4)).unwrap();

    assert_eq!(
        track.complete_group(2),
        Err(RetentionError::ExcessiveLoad(RetentionLimit::PinnedGroups))
    );
    assert_eq!(track.stats().pending_group, Some(2));
    assert_eq!(pinned.iter()[0].group_id(), 1);

    track.release(pinned);
    track.complete_group(2).unwrap();
    assert_eq!(track.stats().largest_location, Some(Location::new(2, 0)));
}

#[test]
fn rotation_skips_pinned_oldest_and_evicts_oldest_unpinned() {
    let mut track = RetainedTrack::new(limits()).unwrap();
    complete(&mut track, 1, &[0]);
    let pinned = track
        .snapshot(range((1, 0), (2, 0)), GroupOrder::Ascending)
        .unwrap();
    complete(&mut track, 2, &[0]);
    track.commit(object(3, 0, None, 4)).unwrap();
    track.complete_group(3).unwrap();

    assert_eq!(pinned.iter()[0].group_id(), 1);
    assert_error(
        track.snapshot(range((2, 0), (3, 0)), GroupOrder::Ascending),
        RetentionError::InvalidRange(RetentionRangeError::NotRetained),
    );
    assert!(track
        .snapshot(range((3, 0), (4, 0)), GroupOrder::Ascending)
        .is_ok());
}

#[test]
fn active_snapshot_bound_is_exact() {
    let mut config = limits();
    config.max_active_snapshots = 1;
    let mut track = RetainedTrack::new(config).unwrap();
    complete(&mut track, 1, &[0]);
    let first = track
        .snapshot(range((1, 0), (2, 0)), GroupOrder::Ascending)
        .unwrap();
    assert_eq!(track.stats().active_snapshots, 1);
    assert_error(
        track.snapshot(range((1, 0), (2, 0)), GroupOrder::Ascending),
        RetentionError::ExcessiveLoad(RetentionLimit::ActiveSnapshots),
    );
    track.release(first);
    assert_eq!(track.stats().active_snapshots, 0);
}

#[test]
fn object_group_and_store_bounds_have_specific_errors() {
    let mut object_config = limits();
    object_config.max_object_bytes = 4;
    let mut track = RetainedTrack::new(object_config).unwrap();
    assert_eq!(
        track.commit(object(1, 0, None, 4)),
        Err(RetentionError::ExcessiveLoad(RetentionLimit::ObjectBytes))
    );

    let mut group_object_config = limits();
    group_object_config.max_objects_per_group = 1;
    let mut track = RetainedTrack::new(group_object_config).unwrap();
    track.commit(object(1, 0, None, 4)).unwrap();
    assert_eq!(
        track.commit(object(1, 1, None, 4)),
        Err(RetentionError::ExcessiveLoad(RetentionLimit::GroupObjects))
    );

    let mut group_byte_config = limits();
    group_byte_config.max_object_bytes = 9;
    group_byte_config.max_group_bytes = 9;
    let mut track = RetainedTrack::new(group_byte_config).unwrap();
    track.commit(object(1, 0, None, 4)).unwrap();
    assert_eq!(
        track.commit(object(1, 1, None, 4)),
        Err(RetentionError::ExcessiveLoad(RetentionLimit::GroupBytes))
    );

    let mut store_object_config = limits();
    store_object_config.max_store_objects = 2;
    store_object_config.max_objects_per_group = 2;
    let mut track = RetainedTrack::new(store_object_config).unwrap();
    complete(&mut track, 1, &[0]);
    track.commit(object(2, 0, None, 4)).unwrap();
    assert_eq!(
        track.commit(object(2, 1, None, 4)),
        Err(RetentionError::ExcessiveLoad(RetentionLimit::StoreObjects))
    );

    let mut store_byte_config = limits();
    store_byte_config.max_store_bytes = 14;
    store_byte_config.max_group_bytes = 14;
    store_byte_config.max_object_bytes = 14;
    let mut track = RetainedTrack::new(store_byte_config).unwrap();
    complete(&mut track, 1, &[0]);
    track.commit(object(2, 0, None, 4)).unwrap();
    assert_eq!(
        track.commit(object(2, 1, None, 4)),
        Err(RetentionError::ExcessiveLoad(RetentionLimit::StoreBytes))
    );
}

#[test]
fn invalid_limits_are_deterministic() {
    for invalid in [
        RetentionLimits {
            max_groups: 0,
            ..limits()
        },
        RetentionLimits {
            max_object_bytes: 65,
            max_group_bytes: 64,
            ..limits()
        },
        RetentionLimits {
            max_group_bytes: 513,
            max_store_bytes: 512,
            ..limits()
        },
        RetentionLimits {
            max_objects_per_group: 17,
            max_store_objects: 16,
            ..limits()
        },
    ] {
        assert_error(
            RetainedTrack::new(invalid),
            RetentionError::InvalidRange(RetentionRangeError::InvalidLimits),
        );
    }
}

#[test]
fn ordering_is_by_group_and_object_never_subgroup() {
    let mut track = RetainedTrack::new(limits()).unwrap();
    track.commit(object(1, 9, Some(0), 4)).unwrap();
    track.commit(object(1, 1, Some(99), 4)).unwrap();
    track.commit(object(1, 5, None, 4)).unwrap();
    track.complete_group(1).unwrap();
    track.commit(object(2, 3, Some(1000), 4)).unwrap();
    track.commit(object(2, 0, Some(2), 4)).unwrap();
    track.complete_group(2).unwrap();

    let ascending = track
        .snapshot(range((1, 0), (3, 0)), GroupOrder::Ascending)
        .unwrap();
    assert_eq!(
        ascending
            .iter()
            .into_iter()
            .map(|object| (object.group_id(), object.object_id()))
            .collect::<Vec<_>>(),
        vec![(1, 1), (1, 5), (1, 9), (2, 0), (2, 3)]
    );

    let descending = track
        .snapshot(range((1, 0), (3, 0)), GroupOrder::Descending)
        .unwrap();
    assert_eq!(
        descending
            .iter()
            .into_iter()
            .map(|object| (object.group_id(), object.object_id()))
            .collect::<Vec<_>>(),
        vec![(2, 0), (2, 3), (1, 1), (1, 5), (1, 9)]
    );
}

#[test]
fn sparse_range_filtering_is_half_open() {
    let mut track = RetainedTrack::new(limits()).unwrap();
    complete(&mut track, 4, &[0, 2, 7]);
    complete(&mut track, 5, &[1, 6]);
    let snapshot = track
        .snapshot(range((4, 2), (5, 6)), GroupOrder::Ascending)
        .unwrap();
    assert_eq!(
        snapshot
            .iter()
            .into_iter()
            .map(|object| (object.group_id(), object.object_id()))
            .collect::<Vec<_>>(),
        vec![(4, 2), (4, 7), (5, 1)]
    );
    assert_eq!(snapshot.len(), 3);
    assert_eq!(snapshot.retained_bytes(), 15);
}

#[test]
fn invalid_ranges_and_missing_groups_are_distinct() {
    let mut track = RetainedTrack::new(limits()).unwrap();
    complete(&mut track, 1, &[0, 2]);
    track.commit(object(3, 0, None, 4)).unwrap();
    track.complete_group(3).unwrap();

    assert_error(
        track.snapshot(range((1, 0), (1, 0)), GroupOrder::Ascending),
        RetentionError::InvalidRange(RetentionRangeError::EmptyOrReversed),
    );
    assert_error(
        track.snapshot(range((4, 0), (5, 0)), GroupOrder::Ascending),
        RetentionError::InvalidRange(RetentionRangeError::StartAfterLargest),
    );
    assert_error(
        track.snapshot(range((1, 0), (4, 0)), GroupOrder::Ascending),
        RetentionError::InvalidRange(RetentionRangeError::NotRetained),
    );
    assert_error(
        track.snapshot(range((1, 0), (2, 0)), GroupOrder::Publisher),
        RetentionError::InvalidRange(RetentionRangeError::UnsupportedGroupOrder),
    );
}

#[test]
fn duplicate_and_group_lifecycle_errors_are_deterministic() {
    let mut track = RetainedTrack::new(limits()).unwrap();
    let original = object(1, 0, None, 4);
    track.commit(original.clone()).unwrap();
    track.commit(original).unwrap();
    assert_eq!(track.stats().pending_objects, 1);

    assert_eq!(
        track.commit(object(1, 0, None, 5)),
        Err(RetentionError::InvalidRange(
            RetentionRangeError::ConflictingObject
        ))
    );
    assert_eq!(
        track.commit(object(2, 0, None, 4)),
        Err(RetentionError::InvalidRange(
            RetentionRangeError::PendingGroupMismatch
        ))
    );
    assert_eq!(
        track.complete_group(2),
        Err(RetentionError::InvalidRange(
            RetentionRangeError::PendingGroupMismatch
        ))
    );
    track.complete_group(1).unwrap();
    assert_eq!(
        track.complete_group(1),
        Err(RetentionError::InvalidRange(
            RetentionRangeError::NoPendingGroup
        ))
    );
    assert_eq!(
        track.commit(object(1, 1, None, 4)),
        Err(RetentionError::InvalidRange(
            RetentionRangeError::NonIncreasingGroup
        ))
    );
}

#[test]
fn snapshot_outlives_track() {
    let snapshot = {
        let mut track = RetainedTrack::new(limits()).unwrap();
        complete(&mut track, 1, &[0, 1]);
        track
            .snapshot(range((1, 0), (2, 0)), GroupOrder::Ascending)
            .unwrap()
    };
    assert_eq!(
        snapshot
            .iter()
            .into_iter()
            .map(RetainedObject::object_id)
            .collect::<Vec<_>>(),
        vec![0, 1]
    );
}

#[test]
fn stats_account_for_pending_completed_and_snapshots() {
    let mut track = RetainedTrack::new(limits()).unwrap();
    complete(&mut track, 1, &[0, 1]);
    track.commit(object(2, 0, None, 4)).unwrap();
    let snapshot = track
        .snapshot(range((1, 0), (2, 0)), GroupOrder::Ascending)
        .unwrap();
    let stats = track.stats();
    assert_eq!(stats.completed_groups, 1);
    assert_eq!(stats.completed_objects, 2);
    assert_eq!(stats.completed_bytes, 10);
    assert_eq!(stats.pending_group, Some(2));
    assert_eq!(stats.pending_objects, 1);
    assert_eq!(stats.pending_bytes, 5);
    assert_eq!(stats.store_objects, 3);
    assert_eq!(stats.store_bytes, 15);
    assert_eq!(stats.active_snapshots, 1);
    assert_eq!(stats.largest_location, Some(Location::new(1, 1)));
    track.release(snapshot);
}

#[test]
fn selected_groups_are_pinned_even_when_range_contains_no_object() {
    let mut track = RetainedTrack::new(limits()).unwrap();
    complete(&mut track, 1, &[0, 2]);
    complete(&mut track, 2, &[10]);
    let snapshot = track
        .snapshot(range((1, 1), (1, 2)), GroupOrder::Ascending)
        .unwrap();
    assert!(snapshot.is_empty());
    assert_eq!(snapshot.pinned_group_count(), 1);
}

#[test]
fn every_group_in_range_must_be_retained() {
    let mut config = limits();
    config.max_groups = 3;
    let mut track = RetainedTrack::new(config).unwrap();
    complete(&mut track, 10, &[0]);
    complete(&mut track, 12, &[0]);
    assert_error(
        track.snapshot(range((10, 0), (13, 0)), GroupOrder::Ascending),
        RetentionError::InvalidRange(RetentionRangeError::NotRetained),
    );
}

#[test]
fn no_subgroup_dimension_leaks_into_group_identity() {
    let mut track = RetainedTrack::new(limits()).unwrap();
    for (object_id, subgroup_id) in [(0, Some(7)), (1, Some(2)), (2, None)] {
        track.commit(object(1, object_id, subgroup_id, 4)).unwrap();
    }
    track.complete_group(1).unwrap();
    let snapshot = track
        .snapshot(range((1, 0), (2, 0)), GroupOrder::Ascending)
        .unwrap();
    let groups: BTreeSet<_> = snapshot.iter().into_iter().map(RetainedObject::group_id).collect();
    assert_eq!(groups, BTreeSet::from([1]));
}

