//! What the operations of a retention store promise: what fits is taken, what
//! is complete is kept, and what is kept is shown.

use bytes::Bytes;
use vstd::prelude::*;

use super::laws::{
    first_unpinned_is_first, shown_before, snapshot_is_ordered,
    snapshot_shows_range,
};
use super::model::{
    first_unpinned, group_bytes, group_objects, pinned, retained, total_size, ObjectView,
    RetainedRange, RetentionError, RetentionLimit, RetentionLimits, RetentionRangeError, TrackView,
};
use super::object::{RetainedObject, RetainedObjectBuilder, RetainedObjectMetadata};
use super::track::{checked_bound, RetainedSnapshot, RetainedTrack, RetainedTrackStats};
use crate::coding::buffer::bytes_contents;
use crate::coding::Location;
use crate::data::extension::headers_encoding;
use crate::message::GroupOrder;

verus! {

/// Whether an object fits into a store beside what it holds.
pub open spec fn fits(track: TrackView, object: ObjectView) -> bool {
    let objects = match track.pending {
        Some(group) => group.objects,
        None => Seq::empty(),
    };
    &&& object.size() <= track.limits.max_object_bytes
    &&& objects.len() + 1 <= track.limits.max_objects_per_group
    &&& total_size(objects) + object.size() <= track.limits.max_group_bytes
    &&& group_objects(track.groups) + objects.len() + 1 <= track.limits.max_store_objects
    &&& group_bytes(track.groups) + total_size(objects) + object.size()
        <= track.limits.max_store_bytes
}

/// An object that fits is committed: the first of a group behind those that are
/// complete, or a new one of the group that is pending. It is then pending,
/// beside every object that was, and what is complete stays as it is.
pub proof fn fitting_object_is_committed(
    track: &mut RetainedTrack,
    object: RetainedObject,
    result: Result<(), RetentionError>,
)
    requires
        call_ensures(RetainedTrack::commit, (track, object), result),
        fits(old(track)@, object@),
        match old(track)@.pending {
            Some(group) => {
                &&& group.id == object@.location.group_id
                &&& forall|i: int|
                    0 <= i < group.objects.len() ==> (
                    #[trigger] group.objects[i]).location.object_id != object@.location.object_id
            },
            None => forall|i: int|
                0 <= i < old(track)@.groups.len() ==> (#[trigger] old(track)@.groups[i]).id
                    < object@.location.group_id,
        },
    ensures
        result is Ok,
        final(track)@.groups == old(track)@.groups,
        final(track)@.pins == old(track)@.pins,
        final(track)@.limits == old(track)@.limits,
        final(track)@.pending is Some,
        final(track)@.pending->0.id == object@.location.group_id,
        final(track)@.pending->0.objects.contains(object@),
        old(track)@.pending is None ==> final(track)@.pending->0.objects.len() == 1,
        old(track)@.pending matches Some(group) ==> {
            &&& final(track)@.pending->0.objects.len() == group.objects.len() + 1
            &&& forall|i: int|
                0 <= i < group.objects.len() ==> final(track)@.pending->0.objects.contains(
                    #[trigger] group.objects[i],
                )
        },
{
    let before = old(track)@;
    match before.pending {
        Some(group) => {
            let objects = group.objects;
            let id = object@.location.object_id;
            if objects.contains(object@) {
                let i = choose|i: int| 0 <= i < objects.len() && objects[i] == object@;
                assert(objects[i].location.object_id == id);
            }
            if super::model::has_object(objects, id) {
                let i = choose|i: int|
                    0 <= i < objects.len() && (#[trigger] objects[i]).location.object_id == id;
                assert(false);
            }
            let at = super::model::object_rank(objects, id);
            rank_is_a_place(objects, id);
            let after = final(track)@.pending->0.objects;
            assert(after[at] == object@);
            assert forall|i: int| 0 <= i < objects.len() implies after.contains(
                #[trigger] objects[i],
            ) by {
                if i < at {
                    assert(after[i] == objects[i]);
                } else {
                    assert(after[i + 1] == objects[i]);
                }
            }
        },
        None => {
            assert(final(track)@.pending->0.objects[0] == object@);
            if before.groups.len() > 0 {
                assert(before.groups[before.groups.len() - 1].id < object@.location.group_id);
            }
            assert(total_size(Seq::<ObjectView>::empty()) == 0);
        },
    }
}

proof fn rank_is_a_place(objects: Seq<ObjectView>, object_id: u64)
    ensures
        0 <= super::model::object_rank(objects, object_id) <= objects.len(),
    decreases objects.len(),
{
    if objects.len() > 0 {
        rank_is_a_place(objects.drop_last(), object_id);
    }
}

/// An object is refused for what is wrong with it: it is too large, belongs to
/// another group than the one that is pending or to one that is past,
/// contradicts one that was committed, or does not fit. The same object again
/// is taken, and nothing of what is refused is kept.
pub proof fn unfit_object_is_refused(
    track: &mut RetainedTrack,
    object: RetainedObject,
    result: Result<(), RetentionError>,
)
    requires
        call_ensures(RetainedTrack::commit, (track, object), result),
    ensures
        result is Err ==> final(track)@ == old(track)@,
        result == Err::<(), RetentionError>(
            RetentionError::ExcessiveLoad(RetentionLimit::ObjectBytes),
        ) <==> object@.size() > old(track)@.limits.max_object_bytes,
        object@.size() <= old(track)@.limits.max_object_bytes ==> match old(track)@.pending {
            Some(group) => {
                let same_place = exists|i: int|
                    0 <= i < group.objects.len() && (
                    #[trigger] group.objects[i]).location.object_id == object@.location.object_id;
                &&& group.id != object@.location.group_id ==> result == Err::<(), RetentionError>(
                    RetentionError::InvalidRange(RetentionRangeError::PendingGroupMismatch),
                )
                &&& group.id == object@.location.group_id && group.objects.contains(object@)
                    ==> result is Ok && final(track)@ == old(track)@
                &&& group.id == object@.location.group_id && same_place && !group.objects.contains(
                    object@,
                ) ==> result == Err::<(), RetentionError>(
                    RetentionError::InvalidRange(RetentionRangeError::ConflictingObject),
                )
                &&& group.id == object@.location.group_id && !same_place ==> (result is Ok <==> fits(
                    old(track)@,
                    object@,
                ))
            },
            None => {
                let past = old(track)@.groups.len() > 0 && object@.location.group_id
                    <= old(track)@.groups.last().id;
                &&& past ==> result == Err::<(), RetentionError>(
                    RetentionError::InvalidRange(RetentionRangeError::NonIncreasingGroup),
                )
                &&& !past ==> (result is Ok <==> fits(old(track)@, object@))
            },
        },
        result matches Err(RetentionError::ExcessiveLoad(limit)) ==> match limit {
            RetentionLimit::ObjectBytes => object@.size() > old(track)@.limits.max_object_bytes,
            RetentionLimit::GroupObjects => old(track)@.pending_objects() + 1 > old(track)@.limits.max_objects_per_group,
            RetentionLimit::GroupBytes => old(track)@.pending_bytes() + object@.size() > old(track)@.limits.max_group_bytes,
            RetentionLimit::StoreObjects => group_objects(old(track)@.groups) + old(track)@.pending_objects() + 1 > old(track)@.limits.max_store_objects,
            RetentionLimit::StoreBytes => group_bytes(old(track)@.groups) + old(track)@.pending_bytes() + object@.size() > old(track)@.limits.max_store_bytes,
            _ => false,
        },
{
    assert(total_size(Seq::<ObjectView>::empty()) == 0);
    if let Some(group) = old(track)@.pending {
        if group.objects.contains(object@) {
            let i = choose|i: int| 0 <= i < group.objects.len() && group.objects[i] == object@;
            assert(group.objects[i].location.object_id == object@.location.object_id);
        }
    }
}

/// The pending group is completed, as it is, unless the store is full and every
/// group is pinned. It is then the newest, and nothing is pending. Where there
/// was room all groups stay; otherwise exactly one goes, the oldest of those
/// that no snapshot pins.
pub proof fn pending_group_is_completed(
    track: &mut RetainedTrack,
    group_id: u64,
    result: Result<(), RetentionError>,
)
    requires
        call_ensures(RetainedTrack::complete_group, (track, group_id), result),
        old(track)@.pending is Some,
        old(track)@.pending->0.id == group_id,
        old(track)@.groups.len() <= old(track)@.limits.max_groups,
    ensures
        ({
            let before = old(track)@.groups;
            let after = final(track)@.groups;
            let pins = old(track)@.pins;
            let full = before.len() == old(track)@.limits.max_groups;
            let all_pinned = forall|i: int|
                0 <= i < before.len() ==> pinned(pins, (#[trigger] before[i]).id);
            &&& result is Ok <==> !(full && all_pinned)
            &&& result is Err ==> {
                &&& result == Err::<(), RetentionError>(
                    RetentionError::ExcessiveLoad(RetentionLimit::PinnedGroups),
                )
                &&& final(track)@ == old(track)@
            }
            &&& result is Ok ==> {
                &&& final(track)@.pending is None
                &&& final(track)@.pins == pins
                &&& after.len() > 0
                &&& after.last() == old(track)@.pending->0
                &&& !full ==> after.drop_last() == before
                &&& full ==> exists|gone: int|
                    {
                        &&& 0 <= gone < before.len()
                        &&& !pinned(pins, (#[trigger] before[gone]).id)
                        &&& forall|i: int|
                            0 <= i < gone ==> pinned(pins, (#[trigger] before[i]).id)
                        &&& after.drop_last() == before.remove(gone)
                    }
            }
        }),
{
    let before = old(track)@.groups;
    let after = final(track)@.groups;
    let pins = old(track)@.pins;
    let at = first_unpinned(before, pins);
    first_unpinned_is_first(before, pins);
    if result is Ok {
        if before.len() == old(track)@.limits.max_groups {
            assert(!pinned(pins, before[at].id));
            assert(after.drop_last() =~= before.remove(at));
        } else {
            assert(after.drop_last() =~= before);
        }
    }
}

/// Only the group that is pending can be completed.
pub proof fn only_the_pending_group_is_completed(
    track: &mut RetainedTrack,
    group_id: u64,
    result: Result<(), RetentionError>,
)
    requires
        call_ensures(RetainedTrack::complete_group, (track, group_id), result),
        old(track)@.pending matches Some(group) ==> group.id != group_id,
    ensures
        result is Err,
        final(track)@ == old(track)@,
        old(track)@.pending is None ==> result->Err_0 == RetentionError::InvalidRange(
            RetentionRangeError::NoPendingGroup,
        ),
        old(track)@.pending is Some ==> result->Err_0 == RetentionError::InvalidRange(
            RetentionRangeError::PendingGroupMismatch,
        ),
{
}

/// Whether a location lies in a range, which leaves out its end.
pub open spec fn lies_in(location: Location, range: RetainedRange) -> bool {
    &&& location.group_id > range.start.group_id || (location.group_id == range.start.group_id
        && location.object_id >= range.start.object_id)
    &&& location.group_id < range.end.group_id || (location.group_id == range.end.group_id
        && location.object_id < range.end.object_id)
}

/// A snapshot is taken of every range whose groups are all kept, in either
/// order, while no more are held than are allowed. It shows exactly the
/// objects of the range, in order, and pins its groups.
pub proof fn kept_range_is_shown(
    track: &mut RetainedTrack,
    range: RetainedRange,
    order: GroupOrder,
    result: Result<RetainedSnapshot, RetentionError>,
)
    requires
        call_ensures(RetainedTrack::snapshot, (track, range, order), result),
        old(track)@.well_formed(),
        order != GroupOrder::Publisher,
        range.start.group_id < range.end.group_id || (range.start.group_id == range.end.group_id
            && range.start.object_id < range.end.object_id),
        old(track)@.groups.len() > 0,
        ({
            let largest = old(track)@.groups.last().objects.last().location;
            largest.group_id > range.start.group_id || (largest.group_id == range.start.group_id
                && largest.object_id >= range.start.object_id)
        }),
        forall|id: u64|
            range.start.group_id <= id && (id < range.end.group_id || (id == range.end.group_id
                && range.end.object_id > 0)) ==> #[trigger] retained(old(track)@.groups, id),
        old(track)@.pins.len() < old(track)@.limits.max_active_snapshots,
    ensures
        result is Ok,
        result->Ok_0@.range == range,
        result->Ok_0@.order == order,
        forall|object: ObjectView| #[trigger]
            result->Ok_0@.objects().contains(object) <==> lies_in(object.location, range)
                && exists|i: int|
                0 <= i < old(track)@.groups.len() && (
                #[trigger] old(track)@.groups[i]).objects.contains(object),
        forall|i: int, j: int|
            0 <= i < j < result->Ok_0@.objects().len() ==> {
                let left = (#[trigger] result->Ok_0@.objects()[i]).location;
                let right = (#[trigger] result->Ok_0@.objects()[j]).location;
                if left.group_id == right.group_id {
                    left.object_id < right.object_id
                } else if order == GroupOrder::Ascending {
                    left.group_id < right.group_id
                } else {
                    left.group_id > right.group_id
                }
            },
        final(track)@.groups == old(track)@.groups,
        final(track)@.pending == old(track)@.pending,
        final(track)@.pins.len() == old(track)@.pins.len() + 1,
        forall|id: u64|
            range.start.group_id <= id && (id < range.end.group_id || (id == range.end.group_id
                && range.end.object_id > 0)) ==> #[trigger] pinned(final(track)@.pins, id),
{
    let before = old(track)@;
    assert(before.snapshot_outcome(range, order) is Ok);
    snapshot_is_ordered(before, range, order);
    super::laws::snapshot_keeps_store(before, range, order);
    assert forall|object: ObjectView| #[trigger]
        result->Ok_0@.objects().contains(object) <==> lies_in(object.location, range) && exists|i: int|
            0 <= i < old(track)@.groups.len() && (
            #[trigger] old(track)@.groups[i]).objects.contains(object) by {
        snapshot_shows_range(before, range, order, object);
    }
    assert forall|i: int, j: int| 0 <= i < j < result->Ok_0@.objects().len() implies {
        let left = (#[trigger] result->Ok_0@.objects()[i]).location;
        let right = (#[trigger] result->Ok_0@.objects()[j]).location;
        if left.group_id == right.group_id {
            left.object_id < right.object_id
        } else if order == GroupOrder::Ascending {
            left.group_id < right.group_id
        } else {
            left.group_id > right.group_id
        }
    } by {
        let shown = before.snapshot_of(range, order).objects();
        assert(shown_before(shown[i].location, shown[j].location, order));
    }
}

/// A snapshot is refused only for what stands against it, and then nothing is
/// pinned.
pub proof fn refused_snapshot_has_its_reason(
    track: &mut RetainedTrack,
    range: RetainedRange,
    order: GroupOrder,
    error: RetentionError,
)
    requires
        call_ensures(RetainedTrack::snapshot, (track, range, order), Err(error)),
    ensures
        final(track)@ == old(track)@,
        match error {
            RetentionError::ExcessiveLoad(limit) => limit == RetentionLimit::ActiveSnapshots && old(track)@.pins.len() >= old(track)@.limits.max_active_snapshots,
            RetentionError::InvalidRange(reason) => match reason {
                RetentionRangeError::UnsupportedGroupOrder => order == GroupOrder::Publisher,
                RetentionRangeError::EmptyOrReversed => range.end.group_id < range.start.group_id
                    || (range.end.group_id == range.start.group_id && range.end.object_id
                    <= range.start.object_id),
                RetentionRangeError::NoObjects => old(track)@.groups.len() == 0,
                RetentionRangeError::StartAfterLargest => {
                    let largest = old(track)@.groups.last().objects.last().location;
                    largest.group_id < range.start.group_id || (largest.group_id
                        == range.start.group_id && largest.object_id < range.start.object_id)
                },
                RetentionRangeError::NotRetained => exists|id: u64|
                    range.start.group_id <= id <= range.end.group_id && !#[trigger] retained(
                        old(track)@.groups,
                        id,
                    ),
                _ => false,
            },
        },
{
    let before = old(track)@;
    if error == RetentionError::InvalidRange(RetentionRangeError::NotRetained) {
        let id = choose|id: u64|
            range.start.group_id <= id <= range.last_group() && !#[trigger] retained(
                before.groups,
                id,
            );
        assert(range.start.group_id <= id <= range.end.group_id && !retained(before.groups, id));
    }
}

/// Limits are in order exactly if each is positive and none is larger than what
/// it is a part of; a store with such limits starts empty.
pub proof fn proper_limits_are_taken(
    limits: RetentionLimits,
    result: Result<RetainedTrack, RetentionError>,
)
    requires
        call_ensures(RetainedTrack::new, (limits,), result),
    ensures
        result is Ok <==> {
            &&& 0 < limits.max_object_bytes <= limits.max_group_bytes <= limits.max_store_bytes
            &&& 0 < limits.max_objects_per_group <= limits.max_store_objects
            &&& limits.max_groups > 0
            &&& limits.max_active_snapshots > 0
        },
        result matches Ok(track) ==> {
            &&& track@.limits == limits
            &&& track@.groups.len() == 0
            &&& track@.pending is None
            &&& track@.pins.len() == 0
        },
        result is Err ==> result->Err_0 == RetentionError::InvalidRange(
            RetentionRangeError::InvalidLimits,
        ),
{
}

/// An object that is built is the one that was described, with its payload,
/// once the whole of it is there; what is short or too long is refused.
pub proof fn object_is_built_whole(
    metadata: RetainedObjectMetadata,
    length: usize,
    builder: RetainedObjectBuilder,
    payload: Bytes,
    result: Result<RetainedObject, RetentionError>,
)
    requires
        call_ensures(RetainedObjectBuilder::new, (metadata, length), builder),
        call_ensures(RetainedObjectBuilder::finish, (builder, payload), result),
    ensures
        bytes_contents(payload).len() != length ==> result == Err::<RetainedObject, RetentionError>(
            RetentionError::InvalidRange(RetentionRangeError::IncompleteObject),
        ),
        bytes_contents(payload).len() == length && headers_encoding(metadata.properties@) is Ok
            && headers_encoding(metadata.properties@)->Ok_0.len() <= isize::MAX && length
            + headers_encoding(metadata.properties@)->Ok_0.len() <= usize::MAX ==> {
            &&& result is Ok
            &&& result->Ok_0@.payload == bytes_contents(payload)
            &&& result->Ok_0@.location == metadata.location
            &&& result->Ok_0@.subgroup_id == metadata.subgroup_id
            &&& result->Ok_0@.publisher_priority == metadata.publisher_priority
            &&& result->Ok_0@.properties == metadata.properties@
            &&& result->Ok_0@.size() == length + headers_encoding(
                metadata.properties@,
            )->Ok_0.len()
        },
        headers_encoding(metadata.properties@) is Err ==> result is Err,
{
    assert(builder.builds(bytes_contents(payload)) == metadata.describes(bytes_contents(payload)));
}

/// A range holds its start and what follows it, up to its end, which it leaves
/// out.
pub proof fn range_leaves_out_its_end(range: &RetainedRange, location: Location, inside: bool)
    requires
        call_ensures(RetainedRange::contains, (range, location), inside),
    ensures
        inside == lies_in(location, *range),
{
}

/// What is released is pinned no longer, and nothing else changes.
pub proof fn released_snapshot_lets_go(track: &mut RetainedTrack, snapshot: RetainedSnapshot)
    requires
        old(track)@.owns(snapshot@),
        call_ensures(RetainedTrack::release, (track, snapshot), ()),
    ensures
        final(track)@.pins.len() + 1 == old(track)@.pins.len(),
        final(track)@.groups == old(track)@.groups,
        final(track)@.pending == old(track)@.pending,
        final(track)@.limits == old(track)@.limits,
        forall|pin: (u64, u64)|
            pin != snapshot@.pin() ==> #[trigger] final(track)@.pins.count(pin)
                == old(track)@.pins.count(pin),
{
}

/// What the store counts is what it holds: an object that is committed counts
/// once, with its bytes, and the completed groups stay as they were counted.
pub proof fn committed_object_is_counted(
    before: &RetainedTrack,
    earlier: RetainedTrackStats,
    track: &mut RetainedTrack,
    object: RetainedObject,
    after: &RetainedTrack,
    later: RetainedTrackStats,
)
    requires
        call_ensures(RetainedTrack::stats, (before,), earlier),
        *old(track) == *before,
        call_ensures(RetainedTrack::commit, (track, object), Ok(())),
        before@.pending matches Some(group) ==> !super::model::has_object(
            group.objects,
            object@.location.object_id,
        ),
        *after == *final(track),
        call_ensures(RetainedTrack::stats, (after,), later),
    ensures
        later.pending_objects == earlier.pending_objects + 1,
        later.pending_bytes == earlier.pending_bytes + object@.size(),
        later.store_objects == earlier.store_objects + 1,
        later.store_bytes == earlier.store_bytes + object@.size(),
        later.completed_groups == earlier.completed_groups,
        later.completed_objects == earlier.completed_objects,
        later.completed_bytes == earlier.completed_bytes,
        later.active_snapshots == earlier.active_snapshots,
        later.largest_location == earlier.largest_location,
        later.pending_group == Some(object@.location.group_id),
{
    match before@.pending {
        Some(group) => {
            let objects = group.objects;
            let id = object@.location.object_id;
            if objects.contains(object@) {
                let i = choose|i: int| 0 <= i < objects.len() && objects[i] == object@;
                assert(objects[i].location.object_id == id);
            }
            rank_is_a_place(objects, id);
            super::laws::total_size_insert(
                objects,
                super::model::object_rank(objects, id),
                object@,
            );
        },
        None => {
            reveal_with_fuel(total_size, 2);
            assert(total_size(seq![object@]) == object@.size());
        },
    }
}

/// A snapshot counts what it shows.
pub proof fn snapshot_counts_what_it_shows(
    snapshot: &RetainedSnapshot,
    objects: Vec<&RetainedObject>,
    len: usize,
    empty: bool,
    bytes: usize,
)
    requires
        call_ensures(RetainedSnapshot::iter, (snapshot,), objects),
        call_ensures(RetainedSnapshot::len, (snapshot,), len),
        call_ensures(RetainedSnapshot::is_empty, (snapshot,), empty),
        call_ensures(RetainedSnapshot::retained_bytes, (snapshot,), bytes),
    ensures
        objects@.len() == len,
        empty <==> len == 0,
        bytes == total_size(objects@.map_values(|object: &RetainedObject| object@)),
{
    let views = objects@.map_values(|object: &RetainedObject| object@);
    assert(views.len() == objects@.len());
}

/// The limits that are taken by default are in order, and leave room for a full
/// group beside all that are kept.
pub proof fn default_limits_leave_room(limits: RetentionLimits)
    requires
        call_ensures(RetentionLimits::default, (), limits),
    ensures
        limits.valid(),
        (limits.max_groups + 1) * limits.max_group_bytes <= limits.max_store_bytes,
        (limits.max_groups + 1) * limits.max_objects_per_group <= limits.max_store_objects,
{
}

/// A sum is taken exactly as long as it stays within its bound, and is the sum.
pub proof fn bounded_sum_is_the_sum(
    current: usize,
    additional: usize,
    maximum: usize,
    limit: RetentionLimit,
    result: Result<usize, RetentionError>,
)
    requires
        call_ensures(checked_bound, (current, additional, maximum, limit), result),
    ensures
        result is Ok <==> current + additional <= maximum,
        result matches Ok(sum) ==> sum == current + additional,
        result is Err ==> result->Err_0 == RetentionError::ExcessiveLoad(limit),
{
}

} // verus!
