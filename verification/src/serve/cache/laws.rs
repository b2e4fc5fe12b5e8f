//! What holds of every retention store.

use vstd::multiset::Multiset;
use vstd::prelude::*;

use super::model::{
    covered, first_unpinned, group_bytes, group_objects, group_valid, group_with, has_object,
    object_rank, object_valid, objects_in, pinned, retained, total_size, GroupView, ObjectView,
    RetainedRange, RetentionLimits, SnapshotView, TrackView,
};
use crate::coding::Location;
use crate::data::extension::headers_encoding;
use crate::message::GroupOrder;

verus! {

/// What `object_rank` finds is where an object keeps the IDs ascending.
pub proof fn object_rank_splits(objects: Seq<ObjectView>, object_id: u64)
    requires
        forall|i: int, j: int|
            0 <= i < j < objects.len() ==> (#[trigger] objects[i]).location.object_id < (
            #[trigger] objects[j]).location.object_id,
    ensures
        0 <= object_rank(objects, object_id) <= objects.len(),
        forall|i: int|
            0 <= i < object_rank(objects, object_id) ==> (
            #[trigger] objects[i]).location.object_id < object_id,
        forall|i: int|
            object_rank(objects, object_id) <= i < objects.len() ==> (
            #[trigger] objects[i]).location.object_id >= object_id,
    decreases objects.len(),
{
    if objects.len() > 0 {
        let top = objects.len() - 1;
        if objects.last().location.object_id < object_id {
            assert forall|i: int| 0 <= i < objects.len() implies (
            #[trigger] objects[i]).location.object_id < object_id by {
                if i < top {
                    assert(objects[i].location.object_id < objects[top].location.object_id);
                }
            }
        } else {
            let front = objects.drop_last();
            object_rank_splits(front, object_id);
            assert forall|i: int| 0 <= i < object_rank(objects, object_id) implies (
            #[trigger] objects[i]).location.object_id < object_id by {
                assert(front[i] == objects[i]);
            }
            assert forall|i: int| object_rank(objects, object_id) <= i < objects.len() implies (
            #[trigger] objects[i]).location.object_id >= object_id by {
                if i < top {
                    assert(front[i] == objects[i]);
                }
            }
        }
    }
}

/// The place of an object is known by what stands before and behind it.
pub proof fn object_rank_unique(objects: Seq<ObjectView>, object_id: u64, at: int)
    requires
        0 <= at <= objects.len(),
        at > 0 ==> objects[at - 1].location.object_id < object_id,
        forall|i: int|
            at <= i < objects.len() ==> (#[trigger] objects[i]).location.object_id >= object_id,
    ensures
        object_rank(objects, object_id) == at,
    decreases objects.len(),
{
    if at < objects.len() {
        let front = objects.drop_last();
        assert(objects.last() == objects[objects.len() - 1]);
        assert forall|i: int| at <= i < front.len() implies (
        #[trigger] front[i]).location.object_id >= object_id by {
            assert(front[i] == objects[i]);
        }
        object_rank_unique(front, object_id, at);
    }
}

/// One more object counts for its own size.
pub proof fn total_size_insert(objects: Seq<ObjectView>, at: int, object: ObjectView)
    requires
        0 <= at <= objects.len(),
    ensures
        total_size(objects.insert(at, object)) == total_size(objects) + object.size(),
    decreases objects.len(),
{
    let after = objects.insert(at, object);
    if at == objects.len() {
        assert(after.drop_last() =~= objects);
    } else {
        assert(after.drop_last() =~= objects.drop_last().insert(at, object));
        assert(after.last() == objects.last());
        total_size_insert(objects.drop_last(), at, object);
    }
}

/// A group that goes takes its own objects and bytes with it.
pub proof fn group_sums_remove(groups: Seq<GroupView>, at: int)
    requires
        0 <= at < groups.len(),
    ensures
        group_bytes(groups.remove(at)) + total_size(groups[at].objects) == group_bytes(groups),
        group_objects(groups.remove(at)) + groups[at].objects.len() == group_objects(groups),
    decreases groups.len(),
{
    let after = groups.remove(at);
    if at == groups.len() - 1 {
        assert(after =~= groups.drop_last());
    } else {
        assert(after.drop_last() =~= groups.drop_last().remove(at));
        assert(after.last() == groups.last());
        group_sums_remove(groups.drop_last(), at);
    }
}

/// A group that comes brings its own objects and bytes.
pub proof fn group_sums_push(groups: Seq<GroupView>, group: GroupView)
    ensures
        group_bytes(groups.push(group)) == group_bytes(groups) + total_size(group.objects),
        group_objects(groups.push(group)) == group_objects(groups) + group.objects.len(),
{
    assert(groups.push(group).drop_last() =~= groups);
}

/// What `first_unpinned` finds is the first group that is not pinned.
pub proof fn first_unpinned_is_first(groups: Seq<GroupView>, pins: Multiset<(u64, u64)>)
    ensures
        0 <= first_unpinned(groups, pins) <= groups.len(),
        first_unpinned(groups, pins) < groups.len() ==> !pinned(
            pins,
            groups[first_unpinned(groups, pins)].id,
        ),
        forall|i: int|
            0 <= i < first_unpinned(groups, pins) ==> pinned(pins, (#[trigger] groups[i]).id),
    decreases groups.len(),
{
    if groups.len() > 0 && pinned(pins, groups[0].id) {
        let tail = groups.drop_first();
        first_unpinned_is_first(tail, pins);
        assert forall|i: int| 0 <= i < first_unpinned(groups, pins) implies pinned(
            pins,
            (#[trigger] groups[i]).id,
        ) by {
            if i > 0 {
                assert(tail[i - 1] == groups[i]);
            }
        }
    }
}

/// The first unpinned group is known by its properties.
pub proof fn first_unpinned_unique(groups: Seq<GroupView>, pins: Multiset<(u64, u64)>, at: int)
    requires
        0 <= at <= groups.len(),
        at < groups.len() ==> !pinned(pins, groups[at].id),
        forall|i: int| 0 <= i < at ==> pinned(pins, (#[trigger] groups[i]).id),
    ensures
        first_unpinned(groups, pins) == at,
{
    first_unpinned_is_first(groups, pins);
    let found = first_unpinned(groups, pins);
    if found < at {
        assert(pinned(pins, groups[found].id));
    } else if at < found {
        assert(pinned(pins, groups[at].id));
    }
}

/// A group stays in order when an object takes its place in it.
pub proof fn group_insert_valid(limits: RetentionLimits, group: GroupView, object: ObjectView)
    requires
        group_valid(limits, group),
        object.location.group_id == group.id,
        object.size() <= limits.max_object_bytes,
        headers_encoding(object.properties) is Ok,
        !has_object(group.objects, object.location.object_id),
        group.objects.len() < limits.max_objects_per_group,
        total_size(group.objects) + object.size() <= limits.max_group_bytes,
    ensures
        group_valid(
            limits,
            GroupView {
                id: group.id,
                objects: group.objects.insert(
                    object_rank(group.objects, object.location.object_id),
                    object,
                ),
            },
        ),
{
    let objects = group.objects;
    let id = object.location.object_id;
    let at = object_rank(objects, id);
    let more = objects.insert(at, object);
    let added = GroupView { id: group.id, objects: more };
    object_rank_splits(objects, id);
    total_size_insert(objects, at, object);
    assert forall|i: int, j: int| 0 <= i < j < more.len() implies (
    #[trigger] more[i]).location.object_id < (#[trigger] more[j]).location.object_id by {
        let oi = if i > at {
            i - 1
        } else {
            i
        };
        let oj = if j > at {
            j - 1
        } else {
            j
        };
        assert(i != at ==> more[i] == objects[oi]);
        assert(j != at ==> more[j] == objects[oj]);
        if i == at {
            assert(objects[oj].location.object_id != id);
        }
    }
    assert forall|i: int| 0 <= i < more.len() implies object_valid(
        limits,
        added,
        #[trigger] more[i],
    ) by {
        if i < at {
            assert(object_valid(limits, group, objects[i]));
        } else if i > at {
            assert(object_valid(limits, group, objects[i - 1]));
        }
    }
}

/// Committing an object keeps every bound of the store and its order.
pub proof fn commit_keeps_store(track: TrackView, object: ObjectView)
    requires
        track.well_formed(),
        headers_encoding(object.properties) is Ok,
        track.commit_outcome(object) is Ok,
    ensures
        track.committed(object).well_formed(),
        track.committed(object).groups == track.groups,
        track.committed(object).pins == track.pins,
{
    let after = track.committed(object);
    match track.pending {
        Some(group) => {
            if !group.objects.contains(object) {
                let at = object_rank(group.objects, object.location.object_id);
                group_insert_valid(track.limits, group, object);
                object_rank_splits(group.objects, object.location.object_id);
                total_size_insert(group.objects, at, object);
            }
        },
        None => {
            let objects = seq![object];
            reveal_with_fuel(total_size, 2);
            assert(total_size(objects) == object.size());
            assert(group_valid(track.limits, after.pending->0));
            assert forall|i: int| 0 <= i < track.groups.len() implies (
            #[trigger] track.groups[i]).id < object.location.group_id by {
                let top = track.groups.len() - 1;
                if i < top {
                    assert(track.groups[i].id < track.groups[top].id);
                }
            }
        },
    }
}

/// Committing an object that is pending already changes nothing.
pub proof fn commit_is_idempotent(track: TrackView, object: ObjectView)
    requires
        track.well_formed(),
        headers_encoding(object.properties) is Ok,
        track.commit_outcome(object) is Ok,
    ensures
        track.committed(object).commit_outcome(object) is Ok,
        track.committed(object).committed(object) == track.committed(object),
{
    let after = track.committed(object);
    let objects = after.pending->0.objects;
    commit_keeps_store(track, object);
    match track.pending {
        Some(group) => {
            if !group.objects.contains(object) {
                let at = object_rank(group.objects, object.location.object_id);
                object_rank_splits(group.objects, object.location.object_id);
                assert(objects[at] == object);
            } else {
                let at = choose|i: int| 0 <= i < objects.len() && objects[i] == object;
                assert(objects[at] == object);
            }
        },
        None => {
            assert(objects[0] == object);
        },
    }
    assert(has_object(objects, object.location.object_id));
}

/// Completing the pending group keeps every bound of the store and its order.
/// No pinned group goes, and at most the oldest unpinned one does.
pub proof fn complete_keeps_store(track: TrackView)
    requires
        track.well_formed(),
        track.pending is Some,
        track.complete_outcome(track.pending->0.id) is Ok,
    ensures
        track.completed().well_formed(),
        track.completed().pins == track.pins,
        forall|id: u64| #[trigger]
            pinned(track.pins, id) && retained(track.groups, id) ==> retained(
                track.completed().groups,
                id,
            ),
        retained(track.completed().groups, track.pending->0.id),
{
    let pending = track.pending->0;
    let full = track.groups.len() == track.limits.max_groups;
    let at = track.oldest_unpinned();
    let kept = if full {
        track.groups.remove(at)
    } else {
        track.groups
    };
    let after = track.completed();
    first_unpinned_is_first(track.groups, track.pins);
    if full {
        group_sums_remove(track.groups, at);
    }
    group_sums_push(kept, pending);
    assert(after.groups == kept.push(pending));
    assert forall|i: int| 0 <= i < kept.len() implies kept[i] == track.groups[if full && i >= at {
        i + 1
    } else {
        i
    }] by {}
    assert forall|i: int| 0 <= i < after.groups.len() implies group_valid(
        track.limits,
        #[trigger] after.groups[i],
    ) by {
        if i < kept.len() {
            assert(group_valid(
                track.limits,
                track.groups[if full && i >= at {
                    i + 1
                } else {
                    i
                }],
            ));
        }
    }
    assert forall|i: int, j: int| 0 <= i < j < after.groups.len() implies (
    #[trigger] after.groups[i]).id < (#[trigger] after.groups[j]).id by {
        let oi = if full && i >= at {
            i + 1
        } else {
            i
        };
        assert(after.groups[i] == track.groups[oi]);
        if j < kept.len() {
            let oj = if full && j >= at {
                j + 1
            } else {
                j
            };
            assert(after.groups[j] == track.groups[oj]);
        }
    }
    assert forall|id: u64| retained(track.groups, id) && (full ==> id
        != track.groups[at].id) implies #[trigger] retained(after.groups, id) by {
        let i = choose|i: int| 0 <= i < track.groups.len() && (#[trigger] track.groups[i]).id == id;
        let n = if full && i > at {
            i - 1
        } else {
            i
        };
        assert(after.groups[n] == track.groups[i]);
    }
    assert forall|id: u64| #[trigger]
        pinned(track.pins, id) && retained(track.groups, id) implies retained(after.groups, id) by {
        assert(full ==> id != track.groups[at].id);
    }
    assert forall|pin: (u64, u64), id: u64|
        #[trigger] after.pins.count(pin) > 0 && pin.0 <= id <= pin.1 implies #[trigger] retained(
        after.groups,
        id,
    ) by {
        assert(track.pins.count(pin) > 0);
        assert(retained(track.groups, id));
        assert(pinned(track.pins, id));
    }
    assert(after.groups[kept.len() as int] == pending);
}

/// A group with an ID is found by its ID.
pub proof fn group_with_found(groups: Seq<GroupView>, at: int)
    requires
        0 <= at < groups.len(),
        forall|i: int, j: int|
            0 <= i < j < groups.len() ==> (#[trigger] groups[i]).id < (#[trigger] groups[j]).id,
    ensures
        retained(groups, groups[at].id),
        group_with(groups, groups[at].id) == groups[at],
{
    let id = groups[at].id;
    let i = choose|i: int| 0 <= i < groups.len() && (#[trigger] groups[i]).id == id;
    assert(groups[i].id == id);
}

/// Taking a snapshot keeps the bounds of the store and pins what it shows.
pub proof fn snapshot_keeps_store(track: TrackView, range: RetainedRange, order: GroupOrder)
    requires
        track.well_formed(),
        track.snapshot_outcome(range, order) is Ok,
    ensures
        track.with_pin(track.snapshot_of(range, order).pin()).well_formed(),
        range.start.group_id <= range.last_group() <= u64::MAX,
        forall|id: u64|
            range.start.group_id <= id <= range.last_group() ==> #[trigger] pinned(
                track.with_pin(track.snapshot_of(range, order).pin()).pins,
                id,
            ),
{
    let pin = track.snapshot_of(range, order).pin();
    let after = track.with_pin(pin);
    assert(after.pins.count(pin) > 0);
    assert forall|p: (u64, u64), id: u64|
        #[trigger] after.pins.count(p) > 0 && p.0 <= id <= p.1 implies #[trigger] retained(
        after.groups,
        id,
    ) by {
        if p != pin {
            assert(track.pins.count(p) > 0);
        }
    }
}

/// Releasing a snapshot keeps the bounds of the store.
pub proof fn release_keeps_store(track: TrackView, pin: (u64, u64))
    requires
        track.well_formed(),
        track.pins.count(pin) > 0,
    ensures
        track.without_pin(pin).well_formed(),
        track.without_pin(pin).pins.len() + 1 == track.pins.len(),
{
    let after = track.without_pin(pin);
    assert forall|p: (u64, u64), id: u64|
        #[trigger] after.pins.count(p) > 0 && p.0 <= id <= p.1 implies #[trigger] retained(
        after.groups,
        id,
    ) by {
        assert(track.pins.count(p) > 0);
    }
}

/// Releasing a snapshot undoes taking it.
pub proof fn release_undoes_snapshot(track: TrackView, range: RetainedRange, order: GroupOrder)
    requires
        track.well_formed(),
        track.snapshot_outcome(range, order) is Ok,
    ensures
        track.with_pin(track.snapshot_of(range, order).pin()).without_pin(
            track.snapshot_of(range, order).pin(),
        ) == track,
{
    let pin = track.snapshot_of(range, order).pin();
    assert(track.pins.insert(pin).remove(pin) =~= track.pins);
}

/// A store owns every snapshot that is taken of it.
pub proof fn snapshot_is_owned(track: TrackView, range: RetainedRange, order: GroupOrder)
    requires
        track.well_formed(),
        track.snapshot_outcome(range, order) is Ok,
    ensures
        track.with_pin(track.snapshot_of(range, order).pin()).owns(track.snapshot_of(range, order)),
{
    let snapshot = track.snapshot_of(range, order);
    let after = track.with_pin(snapshot.pin());
    snapshot_keeps_store(track, range, order);
    assert(after.selected(range) =~= track.selected(range));
}

/// A group that stays where it is among others by ascending ID is found there
/// as before.
proof fn kept_group_is_found(before: Seq<GroupView>, after: Seq<GroupView>, id: u64, from: int, to: int)
    requires
        0 <= from < before.len(),
        0 <= to < after.len(),
        before[from] == after[to],
        before[from].id == id,
        forall|i: int, j: int|
            0 <= i < j < before.len() ==> (#[trigger] before[i]).id < (#[trigger] before[j]).id,
        forall|i: int, j: int|
            0 <= i < j < after.len() ==> (#[trigger] after[i]).id < (#[trigger] after[j]).id,
    ensures
        group_with(after, id) == group_with(before, id),
{
    group_with_found(before, from);
    group_with_found(after, to);
}

/// A snapshot is shown as it was taken for as long as it is held, whatever else
/// happens to the store: objects are committed, groups come and go, and other
/// snapshots are taken and released.
pub proof fn snapshot_stays_owned(
    track: TrackView,
    snapshot: SnapshotView,
    object: ObjectView,
    pin: (u64, u64),
)
    requires
        track.well_formed(),
        track.owns(snapshot),
    ensures
        track.committed(object).owns(snapshot),
        track.pending matches Some(group) ==> track.complete_outcome(group.id) is Ok
            ==> track.completed().owns(snapshot),
        track.with_pin(pin).owns(snapshot),
        pin != snapshot.pin() || track.pins.count(pin) > 1 ==> track.without_pin(pin).owns(snapshot),
{
    let range = snapshot.range;
    assert(track.committed(object).selected(range) =~= track.selected(range));
    assert(track.with_pin(pin).selected(range) =~= track.selected(range));
    assert(track.without_pin(pin).selected(range) =~= track.selected(range));
    if track.pending is Some && track.complete_outcome(track.pending->0.id) is Ok {
        let after = track.completed();
        complete_keeps_store(track);
        first_unpinned_is_first(track.groups, track.pins);
        assert forall|id: u64| snapshot.pin().0 <= id <= snapshot.pin().1 implies #[trigger]
            group_with(after.groups, id) == group_with(track.groups, id) by {
            assert(track.pins.count(snapshot.pin()) > 0);
            assert(retained(track.groups, id));
            let i = choose|i: int| 0 <= i < track.groups.len() && (#[trigger] track.groups[i]).id
                == id;
            let gone = track.oldest_unpinned();
            if track.groups.len() < track.limits.max_groups || i < gone {
                assert(after.groups[i] == track.groups[i]);
                kept_group_is_found(track.groups, after.groups, id, i, i);
            } else {
                assert(pinned(track.pins, id));
                assert(i != gone);
                assert(after.groups[i - 1] == track.groups[i]);
                kept_group_is_found(track.groups, after.groups, id, i, i - 1);
            }
        }
        assert(after.selected(range) =~= track.selected(range));
    }
}

/// What is pending is in no snapshot: a snapshot depends on the completed
/// groups alone.
pub proof fn pending_is_invisible(
    track: TrackView,
    pending: Option<GroupView>,
    range: RetainedRange,
    order: GroupOrder,
)
    ensures
        (TrackView { pending, ..track }).snapshot_outcome(range, order) == track.snapshot_outcome(
            range,
            order,
        ),
        (TrackView { pending, ..track }).snapshot_of(range, order) == track.snapshot_of(
            range,
            order,
        ),
{
    let other = TrackView { pending, ..track };
    assert(other.selected(range) =~= track.selected(range));
}

/// A snapshot shows exactly the retained objects that its range covers.
pub proof fn snapshot_shows_range(
    track: TrackView,
    range: RetainedRange,
    order: GroupOrder,
    object: ObjectView,
)
    requires
        track.well_formed(),
        track.snapshot_outcome(range, order) is Ok,
    ensures
        track.snapshot_of(range, order).objects().contains(object) <==> range.covers(
            object.location,
        ) && exists|i: int|
            0 <= i < track.groups.len() && (#[trigger] track.groups[i]).objects.contains(object),
{
    let snapshot = track.snapshot_of(range, order);
    let selected = track.selected(range);
    objects_in_contains(snapshot.groups, range, object);
    snapshot_keeps_store(track, range, order);
    if snapshot.objects().contains(object) {
        let k = choose|k: int|
            0 <= k < snapshot.groups.len() && (#[trigger] snapshot.groups[k]).objects.contains(
                object,
            );
        let s = if order == GroupOrder::Descending {
            selected.len() - 1 - k
        } else {
            k
        };
        assert(selected[s] == snapshot.groups[k]);
        let id = (range.start.group_id + s) as u64;
        assert(retained(track.groups, id));
        let i = choose|i: int| 0 <= i < track.groups.len() && (#[trigger] track.groups[i]).id == id;
        assert(track.groups[i].objects.contains(object));
    }
    if range.covers(object.location) && exists|i: int|
        0 <= i < track.groups.len() && (#[trigger] track.groups[i]).objects.contains(object) {
        let i = choose|i: int|
            0 <= i < track.groups.len() && (#[trigger] track.groups[i]).objects.contains(object);
        let group = track.groups[i];
        let n = choose|n: int| 0 <= n < group.objects.len() && group.objects[n] == object;
        assert(group_valid(track.limits, group));
        assert(object_valid(track.limits, group, group.objects[n]));
        let s = group.id - range.start.group_id;
        group_with_found(track.groups, i);
        assert(selected[s] == group);
        let k = if order == GroupOrder::Descending {
            selected.len() - 1 - s
        } else {
            s
        };
        assert(snapshot.groups[k] == group);
    }
}

/// An object that was committed is shown, once its group is complete, by every
/// snapshot whose range covers it.
pub proof fn committed_object_is_shown(
    track: TrackView,
    object: ObjectView,
    range: RetainedRange,
    order: GroupOrder,
)
    requires
        track.well_formed(),
        headers_encoding(object.properties) is Ok,
        track.commit_outcome(object) is Ok,
        track.committed(object).complete_outcome(object.location.group_id) is Ok,
        range.covers(object.location),
        track.committed(object).completed().snapshot_outcome(range, order) is Ok,
    ensures
        track.committed(object).completed().snapshot_of(range, order).objects().contains(object),
{
    let pending = track.committed(object);
    let complete = pending.completed();
    let objects = pending.pending->0.objects;
    commit_keeps_store(track, object);
    complete_keeps_store(pending);
    match track.pending {
        Some(group) => {
            if !group.objects.contains(object) {
                let at = object_rank(group.objects, object.location.object_id);
                object_rank_splits(group.objects, object.location.object_id);
                assert(objects[at] == object);
            }
        },
        None => {
            assert(objects[0] == object);
        },
    }
    let newest = complete.groups.len() - 1;
    assert(complete.groups[newest] == pending.pending->0);
    assert(complete.groups[newest].objects.contains(object));
    snapshot_shows_range(complete, range, order, object);
}

/// An object shown is an object of one of the groups, within the range.
pub proof fn objects_in_contains(groups: Seq<GroupView>, range: RetainedRange, object: ObjectView)
    ensures
        objects_in(groups, range).contains(object) <==> range.covers(object.location) && exists|k: int|
            0 <= k < groups.len() && (#[trigger] groups[k]).objects.contains(object),
    decreases groups.len(),
{
    if groups.len() > 0 {
        let front = groups.drop_last();
        let last = groups.last().objects;
        let rest = objects_in(front, range);
        let here = covered(last, range);
        objects_in_contains(front, range, object);
        covered_contains(last, range, object);
        if (rest + here).contains(object) {
            let i = choose|i: int| 0 <= i < (rest + here).len() && (rest + here)[i] == object;
            if i < rest.len() {
                assert(rest[i] == object);
                let k = choose|k: int|
                    0 <= k < front.len() && (#[trigger] front[k]).objects.contains(object);
                assert(groups[k] == front[k]);
            } else {
                assert(here[i - rest.len()] == object);
                assert(here.contains(object));
                assert(groups[groups.len() - 1].objects.contains(object));
            }
        }
        if range.covers(object.location) && exists|k: int|
            0 <= k < groups.len() && (#[trigger] groups[k]).objects.contains(object) {
            let k = choose|k: int|
                0 <= k < groups.len() && (#[trigger] groups[k]).objects.contains(object);
            if k < front.len() {
                assert(front[k] == groups[k]);
                let i = choose|i: int| 0 <= i < rest.len() && rest[i] == object;
                assert((rest + here)[i] == object);
            } else {
                let i = choose|i: int| 0 <= i < here.len() && here[i] == object;
                assert((rest + here)[rest.len() + i] == object);
            }
        }
    }
}

/// What a range covers of objects are those of them that it covers.
pub proof fn covered_contains(objects: Seq<ObjectView>, range: RetainedRange, object: ObjectView)
    ensures
        covered(objects, range).contains(object) <==> range.covers(object.location)
            && objects.contains(object),
    decreases objects.len(),
{
    reveal(Seq::filter);
    if objects.len() > 0 {
        let front = objects.drop_last();
        let last = objects.last();
        let rest = covered(front, range);
        let all = covered(objects, range);
        covered_contains(front, range, object);
        if all.contains(object) {
            let i = choose|i: int| 0 <= i < all.len() && all[i] == object;
            if i < rest.len() {
                assert(rest[i] == object);
                let j = choose|j: int| 0 <= j < front.len() && front[j] == object;
                assert(objects[j] == object);
            } else {
                assert(objects[objects.len() - 1] == object);
            }
        }
        if range.covers(object.location) && objects.contains(object) {
            let j = choose|j: int| 0 <= j < objects.len() && objects[j] == object;
            if j < front.len() {
                assert(front[j] == object);
                let i = choose|i: int| 0 <= i < rest.len() && rest[i] == object;
                assert(all[i] == object);
            } else {
                assert(all[rest.len() as int] == object);
            }
        }
    }
}

/// The first objects count for no more than all of them.
pub proof fn total_size_prefix(objects: Seq<ObjectView>, count: int)
    requires
        0 <= count <= objects.len(),
    ensures
        total_size(objects.take(count)) <= total_size(objects),
    decreases objects.len() - count,
{
    if count < objects.len() {
        assert(objects.take(count + 1).drop_last() =~= objects.take(count));
        total_size_prefix(objects, count + 1);
    } else {
        assert(objects.take(count) =~= objects);
    }
}

/// A stretch of groups counts for no more than all of them.
pub proof fn group_bytes_subrange(groups: Seq<GroupView>, start: int, end: int)
    requires
        0 <= start <= end <= groups.len(),
    ensures
        group_bytes(groups.subrange(start, end)) <= group_bytes(groups),
    decreases groups.len(),
{
    if end < groups.len() {
        assert(groups.subrange(start, end) =~= groups.drop_last().subrange(start, end));
        group_bytes_subrange(groups.drop_last(), start, end);
    } else if start > 0 {
        group_sums_remove(groups, 0);
        assert(groups.remove(0) =~= groups.drop_first());
        assert(groups.subrange(start, end) =~= groups.drop_first().subrange(start - 1, end - 1));
        group_bytes_subrange(groups.drop_first(), start - 1, end - 1);
    } else {
        assert(groups.subrange(start, end) =~= groups);
    }
}

/// Groups count for the same in either order.
pub proof fn group_bytes_reverse(groups: Seq<GroupView>)
    ensures
        group_bytes(groups.reverse()) == group_bytes(groups),
    decreases groups.len(),
{
    if groups.len() > 0 {
        group_sums_remove(groups, 0);
        assert(groups.remove(0) =~= groups.drop_first());
        assert(groups.reverse().drop_last() =~= groups.drop_first().reverse());
        group_bytes_reverse(groups.drop_first());
    } else {
        assert(groups.reverse() =~= groups);
    }
}

/// What a range covers of groups counts for no more than the groups.
pub proof fn objects_in_bounded(groups: Seq<GroupView>, range: RetainedRange)
    ensures
        total_size(objects_in(groups, range)) <= group_bytes(groups),
    decreases groups.len(),
{
    if groups.len() > 0 {
        objects_in_bounded(groups.drop_last(), range);
        covered_bounded(groups.last().objects, range);
        total_size_add(
            objects_in(groups.drop_last(), range),
            covered(groups.last().objects, range),
        );
    }
}

/// What a range covers of objects counts for no more than the objects.
proof fn covered_bounded(objects: Seq<ObjectView>, range: RetainedRange)
    ensures
        total_size(covered(objects, range)) <= total_size(objects),
    decreases objects.len(),
{
    reveal(Seq::filter);
    if objects.len() > 0 {
        covered_bounded(objects.drop_last(), range);
        let rest = covered(objects.drop_last(), range);
        assert(rest.push(objects.last()).drop_last() =~= rest);
    }
}

/// Objects behind others count for both.
proof fn total_size_add(first: Seq<ObjectView>, second: Seq<ObjectView>)
    ensures
        total_size(first + second) == total_size(first) + total_size(second),
    decreases second.len(),
{
    if second.len() == 0 {
        assert(first + second =~= first);
    } else {
        assert((first + second).drop_last() =~= first + second.drop_last());
        total_size_add(first, second.drop_last());
    }
}

/// Whether one object is shown before another: groups come by group ID, in
/// one direction or the other, and within a group objects come by object ID.
/// The subgroup plays no part.
pub open spec fn shown_before(left: Location, right: Location, order: GroupOrder) -> bool {
    if left.group_id == right.group_id {
        left.object_id < right.object_id
    } else if order == GroupOrder::Descending {
        left.group_id > right.group_id
    } else {
        left.group_id < right.group_id
    }
}

/// A snapshot shows its objects by group ID and object ID, with the groups
/// turned round in a descending snapshot and the objects of a group ascending
/// in either.
pub proof fn snapshot_is_ordered(track: TrackView, range: RetainedRange, order: GroupOrder)
    requires
        track.well_formed(),
        track.snapshot_outcome(range, order) is Ok,
    ensures
        forall|i: int, j: int|
            0 <= i < j < track.snapshot_of(range, order).objects().len() ==> shown_before(
                (#[trigger] track.snapshot_of(range, order).objects()[i]).location,
                (#[trigger] track.snapshot_of(range, order).objects()[j]).location,
                order,
            ),
{
    let snapshot = track.snapshot_of(range, order);
    let selected = track.selected(range);
    snapshot_keeps_store(track, range, order);
    assert forall|k: int| 0 <= k < selected.len() implies (#[trigger] selected[k]).id
        == range.start.group_id + k && group_valid(track.limits, selected[k]) by {
        let id = (range.start.group_id + k) as u64;
        assert(retained(track.groups, id));
        let i = choose|i: int| 0 <= i < track.groups.len() && (#[trigger] track.groups[i]).id == id;
        assert(group_valid(track.limits, track.groups[i]));
    }
    assert forall|k: int| 0 <= k < snapshot.groups.len() implies group_valid(
        track.limits,
        #[trigger] snapshot.groups[k],
    ) by {
        if order == GroupOrder::Descending {
            assert(snapshot.groups[k] == selected[selected.len() - 1 - k]);
        } else {
            assert(snapshot.groups[k] == selected[k]);
        }
    }
    assert forall|a: int, b: int| 0 <= a < b < snapshot.groups.len() implies shown_before(
        Location { group_id: (#[trigger] snapshot.groups[a]).id, object_id: 0 },
        Location { group_id: (#[trigger] snapshot.groups[b]).id, object_id: 0 },
        order,
    ) by {
        if order == GroupOrder::Descending {
            assert(snapshot.groups[a] == selected[selected.len() - 1 - a]);
            assert(snapshot.groups[b] == selected[selected.len() - 1 - b]);
        } else {
            assert(snapshot.groups[a] == selected[a]);
            assert(snapshot.groups[b] == selected[b]);
        }
    }
    objects_in_ordered(track, snapshot.groups, range, order);
}

proof fn objects_in_ordered(
    track: TrackView,
    groups: Seq<GroupView>,
    range: RetainedRange,
    order: GroupOrder,
)
    requires
        forall|k: int| 0 <= k < groups.len() ==> group_valid(track.limits, #[trigger] groups[k]),
        forall|a: int, b: int|
            0 <= a < b < groups.len() ==> shown_before(
                Location { group_id: (#[trigger] groups[a]).id, object_id: 0 },
                Location { group_id: (#[trigger] groups[b]).id, object_id: 0 },
                order,
            ),
    ensures
        forall|i: int, j: int|
            0 <= i < j < objects_in(groups, range).len() ==> shown_before(
                (#[trigger] objects_in(groups, range)[i]).location,
                (#[trigger] objects_in(groups, range)[j]).location,
                order,
            ),
    decreases groups.len(),
{
    if groups.len() > 0 {
        let front = groups.drop_last();
        let last = groups.last();
        let top = groups.len() - 1;
        assert forall|k: int| 0 <= k < front.len() implies group_valid(
            track.limits,
            #[trigger] front[k],
        ) by {
            assert(front[k] == groups[k]);
        }
        assert forall|a: int, b: int| 0 <= a < b < front.len() implies shown_before(
            Location { group_id: (#[trigger] front[a]).id, object_id: 0 },
            Location { group_id: (#[trigger] front[b]).id, object_id: 0 },
            order,
        ) by {
            assert(front[a] == groups[a] && front[b] == groups[b]);
        }
        objects_in_ordered(track, front, range, order);
        let rest = objects_in(front, range);
        let here = covered(last.objects, range);
        assert(group_valid(track.limits, groups[top]));
        covered_ordered(last.objects, range);
        let all = rest + here;
        assert forall|i: int, j: int| 0 <= i < j < all.len() implies shown_before(
            (#[trigger] all[i]).location,
            (#[trigger] all[j]).location,
            order,
        ) by {
            if j < rest.len() {
                assert(all[i] == rest[i] && all[j] == rest[j]);
            } else {
                let right = here[j - rest.len()];
                covered_contains(last.objects, range, right);
                assert(here.contains(right));
                let n = choose|n: int| 0 <= n < last.objects.len() && last.objects[n] == right;
                assert(object_valid(track.limits, last, last.objects[n]));
                if i < rest.len() {
                    let left = rest[i];
                    assert(rest.contains(left));
                    objects_in_contains(front, range, left);
                    let k = choose|k: int|
                        0 <= k < front.len() && (#[trigger] front[k]).objects.contains(left);
                    assert(front[k] == groups[k]);
                    let m = choose|m: int|
                        0 <= m < groups[k].objects.len() && groups[k].objects[m] == left;
                    assert(object_valid(track.limits, groups[k], groups[k].objects[m]));
                    assert(shown_before(
                        Location { group_id: groups[k].id, object_id: 0 },
                        Location { group_id: groups[top].id, object_id: 0 },
                        order,
                    ));
                } else {
                    let left = here[i - rest.len()];
                    covered_contains(last.objects, range, left);
                    assert(here.contains(left));
                    let m = choose|m: int| 0 <= m < last.objects.len() && last.objects[m] == left;
                    assert(object_valid(track.limits, last, last.objects[m]));
                }
            }
        }
    }
}

proof fn covered_ordered(objects: Seq<ObjectView>, range: RetainedRange)
    requires
        forall|i: int, j: int|
            0 <= i < j < objects.len() ==> (#[trigger] objects[i]).location.object_id < (
            #[trigger] objects[j]).location.object_id,
    ensures
        forall|i: int, j: int|
            0 <= i < j < covered(objects, range).len() ==> (
            #[trigger] covered(objects, range)[i]).location.object_id < (
            #[trigger] covered(objects, range)[j]).location.object_id,
    decreases objects.len(),
{
    reveal(Seq::filter);
    if objects.len() > 0 {
        let front = objects.drop_last();
        let last = objects.last();
        let rest = covered(front, range);
        let all = covered(objects, range);
        assert forall|i: int, j: int| 0 <= i < j < front.len() implies (
        #[trigger] front[i]).location.object_id < (#[trigger] front[j]).location.object_id by {
            assert(front[i] == objects[i] && front[j] == objects[j]);
        }
        covered_ordered(front, range);
        assert forall|i: int, j: int| 0 <= i < j < all.len() implies (
        #[trigger] all[i]).location.object_id < (#[trigger] all[j]).location.object_id by {
            assert(all[i] == rest[i]);
            if j < rest.len() {
                assert(all[j] == rest[j]);
            } else {
                assert(rest.contains(rest[i]));
                covered_contains(front, range, rest[i]);
                let m = choose|m: int| 0 <= m < front.len() && front[m] == rest[i];
                assert(objects[m] == front[m]);
                assert(objects[m].location.object_id
                    < objects[objects.len() - 1].location.object_id);
            }
        }
    }
}

} // verus!
