//! The retention store of a track, and its snapshots.

use std::sync::Arc;
use vstd::prelude::*;

use super::laws::{
    commit_keeps_store, complete_keeps_store, first_unpinned_unique, group_bytes_reverse,
    group_bytes_subrange, group_sums_push, group_sums_remove, group_with_found, object_rank_splits,
    object_rank_unique, objects_in_bounded, release_keeps_store, snapshot_is_owned,
    snapshot_keeps_store,
    total_size_insert, total_size_prefix,
};
use super::model::{
    covered, group_bytes, group_objects, group_valid, has_object, object_rank, objects_in, pinned,
    retained, total_size, GroupView, ObjectView, RetainedRange, RetentionError, RetentionLimit,
    RetentionLimits, RetentionRangeError, SnapshotView, TrackView,
};
use super::object::RetainedObject;
use crate::coding::Location;
use crate::message::GroupOrder;

verus! {

impl Default for RetentionLimits {
    /// Two completed groups plus one full pending group leave enough headroom
    /// for an atomic rotation at every per-group maximum.
    fn default() -> (limits: Self)
        ensures
            limits == (RetentionLimits {
                max_object_bytes: 0x4_0000,
                max_group_bytes: 0x40_0000,
                max_objects_per_group: 1024,
                max_groups: 2,
                max_store_bytes: 0xc0_0000,
                max_store_objects: 3072,
                max_active_snapshots: 32,
            }),
    {
        RetentionLimits {
            max_object_bytes: 256 * 1024,
            max_group_bytes: 4 * 1024 * 1024,
            max_objects_per_group: 1024,
            max_groups: 2,
            max_store_bytes: 12 * 1024 * 1024,
            max_store_objects: 3072,
            max_active_snapshots: 32,
        }
    }
}

impl RetentionLimits {
    /// Hands the limits back if they are positive and consistent.
    pub fn validate(self) -> (result: Result<Self, RetentionError>)
        ensures
            result == (if self.valid() {
                Ok::<RetentionLimits, RetentionError>(self)
            } else {
                Err(RetentionError::InvalidRange(RetentionRangeError::InvalidLimits))
            }),
    {
        let nonzero = self.max_object_bytes > 0 && self.max_group_bytes > 0
            && self.max_objects_per_group > 0 && self.max_groups > 0 && self.max_store_bytes > 0
            && self.max_store_objects > 0 && self.max_active_snapshots > 0;
        let consistent = self.max_object_bytes <= self.max_group_bytes && self.max_group_bytes
            <= self.max_store_bytes && self.max_objects_per_group <= self.max_store_objects;

        if nonzero && consistent {
            Ok(self)
        } else {
            Err(RetentionError::InvalidRange(RetentionRangeError::InvalidLimits))
        }
    }
}

impl RetainedRange {
    pub fn new(start: Location, end: Location) -> (range: Self)
        ensures
            range.start == start,
            range.end == end,
    {
        RetainedRange { start, end }
    }

    /// Whether a location is in the range.
    pub fn contains(&self, location: Location) -> (result: bool)
        ensures
            result == self.covers(location),
    {
        !location.is_before(&self.start) && location.is_before(&self.end)
    }
}

/// A sum, if it stays within a bound.
pub fn checked_bound(
    current: usize,
    additional: usize,
    maximum: usize,
    limit: RetentionLimit,
) -> (result: Result<usize, RetentionError>)
    ensures
        result == (if current + additional <= maximum {
            Ok::<usize, RetentionError>((current + additional) as usize)
        } else {
            Err(RetentionError::ExcessiveLoad(limit))
        }),
{
    match current.checked_add(additional) {
        Some(total) => if total > maximum {
            Err(RetentionError::ExcessiveLoad(limit))
        } else {
            Ok(total)
        },
        None => Err(RetentionError::ExcessiveLoad(limit)),
    }
}

/// Objects of one group by ascending object ID, and the bytes they count for.
#[derive(Debug)]
struct RetainedGroup {
    group_id: u64,
    objects: Vec<RetainedObject>,
    bytes: usize,
}

/// What objects are.
pub closed spec fn object_views(objects: Seq<RetainedObject>) -> Seq<ObjectView> {
    objects.map_values(|object: RetainedObject| object@)
}

impl RetainedGroup {
    spec fn view(&self) -> GroupView {
        GroupView { id: self.group_id, objects: object_views(self.objects@) }
    }

    spec fn measured(&self) -> bool {
        self.bytes == total_size(self@.objects)
    }

    /// Where an object belongs in the group.
    fn rank(&self, object_id: u64) -> (at: usize)
        ensures
            at == object_rank(self@.objects, object_id),
            0 <= at <= self.objects@.len(),
            at > 0 ==> self.objects@[at - 1]@.location.object_id < object_id,
    {
        let mut at: usize = self.objects.len();
        while at > 0 && self.objects[at - 1].object_id() >= object_id
            invariant
                at <= self.objects@.len(),
                forall|i: int|
                    at <= i < self@.objects.len() ==> (
                    #[trigger] self@.objects[i]).location.object_id >= object_id,
            decreases at,
        {
            at = at - 1;
            assert(self@.objects[at as int] == self.objects@[at as int]@);
        }
        proof {
            assert(at > 0 ==> self@.objects[at - 1] == self.objects@[at - 1]@);
            object_rank_unique(self@.objects, object_id, at as int);
        }
        at
    }
}

/// `Arc::clone` makes another handle to the same value.
#[verifier::external_body]
fn share<T>(value: &Arc<T>) -> (handle: Arc<T>)
    ensures
        handle == *value,
{
    Arc::clone(value)
}

/// What groups are.
spec fn group_views(groups: Seq<Arc<RetainedGroup>>) -> Seq<GroupView> {
    groups.map_values(|group: Arc<RetainedGroup>| group@)
}

/// What a [`RetainedTrack`] holds.
#[derive(Debug)]
struct TrackStore {
    limits: RetentionLimits,
    groups: Vec<Arc<RetainedGroup>>,
    pending: Option<RetainedGroup>,
    completed_objects: usize,
    completed_bytes: usize,
    /// The first and last group that each active snapshot pins.
    pins: Vec<(u64, u64)>,
}

/// Retention diagnostics for one track.
#[derive(Clone, Copy, Debug, PartialEq, Eq, Structural)]
pub struct RetainedTrackStats {
    pub completed_groups: usize,
    pub completed_objects: usize,
    pub completed_bytes: usize,
    pub pending_group: Option<u64>,
    pub pending_objects: usize,
    pub pending_bytes: usize,
    pub store_objects: usize,
    pub store_bytes: usize,
    pub active_snapshots: usize,
    pub largest_location: Option<Location>,
}

impl View for TrackStore {
    type V = TrackView;

    closed spec fn view(&self) -> TrackView {
        TrackView {
            limits: self.limits,
            groups: group_views(self.groups@),
            pending: match self.pending {
                Some(group) => Some(group@),
                None => None,
            },
            pins: self.pins@.to_multiset(),
        }
    }
}

impl TrackStore {
    /// The store is in order, and its running totals are right.
    spec fn wf(&self) -> bool {
        &&& self@.well_formed()
        &&& forall|i: int| 0 <= i < self.groups@.len() ==> (#[trigger] self.groups@[i]).measured()
        &&& self.pending matches Some(group) ==> group.measured()
        &&& self.completed_objects == group_objects(self@.groups)
        &&& self.completed_bytes == group_bytes(self@.groups)
    }

    /// A store that holds nothing.
    fn empty(limits: RetentionLimits) -> (store: Self)
        requires
            limits.valid(),
        ensures
            store.wf(),
            store@ == (TrackView {
                limits,
                groups: Seq::empty(),
                pending: None,
                pins: vstd::multiset::Multiset::empty(),
            }),
    {
        let store = TrackStore {
            limits,
            groups: Vec::new(),
            pending: None,
            completed_objects: 0,
            completed_bytes: 0,
            pins: Vec::new(),
        };
        proof {
            assert(store@.groups =~= Seq::<GroupView>::empty());
            store.pins@.to_multiset_ensures();
            assert(store@.pins =~= vstd::multiset::Multiset::empty());
        }
        store
    }

    fn commit(&mut self, object: RetainedObject) -> (result: Result<(), RetentionError>)
        requires
            old(self).wf(),
        ensures
            final(self).wf(),
            result == old(self)@.commit_outcome(object@),
            final(self)@ == (if result is Ok {
                old(self)@.committed(object@)
            } else {
                old(self)@
            }),
    {
        let size: usize = object.retained_bytes();
        let ghost before = self@;
        if size > self.limits.max_object_bytes {
            return Err(RetentionError::ExcessiveLoad(RetentionLimit::ObjectBytes));
        }
        let group_id: u64 = object.group_id();
        let object_id: u64 = object.object_id();
        let mut at: usize = 0;
        let mut pending_objects: usize = 0;
        let mut pending_bytes: usize = 0;
        match &self.pending {
            Some(pending) => {
                let ghost objects = pending@.objects;
                if pending.group_id != group_id {
                    return Err(
                        RetentionError::InvalidRange(RetentionRangeError::PendingGroupMismatch),
                    );
                }
                at = pending.rank(object_id);
                proof {
                    assert(group_valid(before.limits, before.pending->0));
                    object_rank_splits(objects, object_id);
                }
                if at < pending.objects.len() && pending.objects[at].object_id() == object_id {
                    assert(objects[at as int] == pending.objects@[at as int]@);
                    assert(has_object(objects, object_id));
                    if pending.objects[at].same(&object) {
                        assert(objects.contains(object@));
                        return Ok(());
                    }
                    assert(!objects.contains(object@)) by {
                        if objects.contains(object@) {
                            let i = choose|i: int|
                                0 <= i < objects.len() && objects[i] == object@;
                            assert(i == at);
                        }
                    }
                    return Err(
                        RetentionError::InvalidRange(RetentionRangeError::ConflictingObject),
                    );
                }
                assert(!has_object(objects, object_id)) by {
                    if has_object(objects, object_id) {
                        let i = choose|i: int|
                            0 <= i < objects.len() && (
                            #[trigger] objects[i]).location.object_id == object_id;
                        assert(i >= at);
                        assert(objects[at as int] == pending.objects@[at as int]@);
                        assert(i > at ==> objects[at as int].location.object_id
                            < objects[i].location.object_id);
                    }
                }
                assert(!objects.contains(object@)) by {
                    if objects.contains(object@) {
                        let i = choose|i: int| 0 <= i < objects.len() && objects[i] == object@;
                        assert(objects[i].location.object_id == object_id);
                    }
                }
                pending_objects = pending.objects.len();
                pending_bytes = pending.bytes;
            },
            None => {
                if self.groups.len() > 0 {
                    let largest: u64 = self.groups[self.groups.len() - 1].group_id;
                    if group_id <= largest {
                        return Err(
                            RetentionError::InvalidRange(RetentionRangeError::NonIncreasingGroup),
                        );
                    }
                }
            },
        }

        if pending_objects >= self.limits.max_objects_per_group {
            return Err(RetentionError::ExcessiveLoad(RetentionLimit::GroupObjects));
        }
        let group_total: usize = checked_bound(
            pending_bytes,
            size,
            self.limits.max_group_bytes,
            RetentionLimit::GroupBytes,
        )?;
        let _store_objects: usize = checked_bound(
            self.completed_objects,
            pending_objects + 1,
            self.limits.max_store_objects,
            RetentionLimit::StoreObjects,
        )?;
        let _store_bytes: usize = checked_bound(
            self.completed_bytes,
            group_total,
            self.limits.max_store_bytes,
            RetentionLimit::StoreBytes,
        )?;

        proof {
            commit_keeps_store(before, object@);
        }
        let ghost kind = object@;
        match self.pending.take() {
            Some(mut group) => {
                let ghost objects = group@.objects;
                let ghost exec_objects = group.objects@;
                group.bytes = group_total;
                group.objects.insert(at, object);
                proof {
                    total_size_insert(objects, at as int, kind);
                    assert(group@.objects =~= objects.insert(at as int, kind));
                }
                self.pending = Some(group);
            },
            None => {
                let mut objects: Vec<RetainedObject> = Vec::new();
                objects.push(object);
                let group = RetainedGroup { group_id, objects, bytes: group_total };
                proof {
                    assert(group@.objects =~= seq![kind]);
                    reveal_with_fuel(total_size, 2);
                }
                self.pending = Some(group);
            },
        }
        assert(self@ == before.committed(kind));
        Ok(())
    }

    /// Whether an active snapshot pins a group.
    fn is_pinned(&self, id: u64) -> (result: bool)
        ensures
            result == pinned(self@.pins, id),
    {
        proof {
            self.pins@.to_multiset_ensures();
        }
        let mut i: usize = 0;
        while i < self.pins.len()
            invariant
                i <= self.pins@.len(),
                forall|pin: (u64, u64)|
                    self.pins@.contains(pin) <==> #[trigger] self@.pins.count(pin) > 0,
                forall|j: int|
                    0 <= j < i ==> !((#[trigger] self.pins@[j]).0 <= id <= self.pins@[j].1),
            decreases self.pins@.len() - i,
        {
            let pin = self.pins[i];
            if pin.0 <= id && id <= pin.1 {
                assert(self.pins@.contains(pin));
                assert(self@.pins.count(pin) > 0);
                return true;
            }
            i = i + 1;
        }
        assert(!pinned(self@.pins, id)) by {
            if pinned(self@.pins, id) {
                let pin = choose|pin: (u64, u64)| #[trigger]
                    self@.pins.count(pin) > 0 && pin.0 <= id <= pin.1;
                assert(self.pins@.contains(pin));
                let j = choose|j: int| 0 <= j < self.pins@.len() && self.pins@[j] == pin;
                assert(self.pins@[j] == pin);
            }
        }
        false
    }

    /// The place of the oldest group that no snapshot pins.
    fn oldest_unpinned_group(&self) -> (at: usize)
        ensures
            at == self@.oldest_unpinned(),
            0 <= at <= self.groups@.len(),
    {
        let mut at: usize = 0;
        while at < self.groups.len() && self.is_pinned(self.groups[at].group_id)
            invariant
                at <= self.groups@.len(),
                forall|i: int|
                    0 <= i < at ==> pinned(self@.pins, (#[trigger] self@.groups[i]).id),
            decreases self.groups@.len() - at,
        {
            assert(self@.groups[at as int] == self.groups@[at as int]@);
            at = at + 1;
        }
        proof {
            assert(at < self.groups@.len() ==> self@.groups[at as int]
                == self.groups@[at as int]@);
            first_unpinned_unique(self@.groups, self@.pins, at as int);
        }
        at
    }

    fn complete_group(&mut self, group_id: u64) -> (result: Result<(), RetentionError>)
        requires
            old(self).wf(),
        ensures
            final(self).wf(),
            result == old(self)@.complete_outcome(group_id),
            final(self)@ == (if result is Ok {
                old(self)@.completed()
            } else {
                old(self)@
            }),
    {
        let ghost before = self@;
        match &self.pending {
            Some(pending) => {
                if pending.group_id != group_id {
                    return Err(
                        RetentionError::InvalidRange(RetentionRangeError::PendingGroupMismatch),
                    );
                }
            },
            None => {
                return Err(RetentionError::InvalidRange(RetentionRangeError::NoPendingGroup));
            },
        }
        let full = self.groups.len() >= self.limits.max_groups;
        let at: usize = self.oldest_unpinned_group();
        if full && at == self.groups.len() {
            return Err(RetentionError::ExcessiveLoad(RetentionLimit::PinnedGroups));
        }
        // Nothing below can fail: readers see the old or the new groups.
        proof {
            complete_keeps_store(before);
        }
        if full {
            let ghost all = self.groups@;
            let removed = self.groups.remove(at);
            proof {
                group_sums_remove(before.groups, at as int);
                assert(before.groups[at as int] == removed@);
                assert(all[at as int].measured());
                assert(group_views(self.groups@) =~= before.groups.remove(at as int));
                assert forall|i: int| 0 <= i < self.groups@.len() implies (
                #[trigger] self.groups@[i]).measured() by {
                    assert(all[if i < at {
                        i
                    } else {
                        i + 1
                    }].measured());
                }
            }
            self.completed_objects = self.completed_objects - removed.objects.len();
            self.completed_bytes = self.completed_bytes - removed.bytes;
        }
        let ghost kept = group_views(self.groups@);
        match self.pending.take() {
            Some(group) => {
                proof {
                    group_sums_push(kept, group@);
                    assert(before.completed().groups == kept.push(group@));
                }
                self.completed_objects = self.completed_objects + group.objects.len();
                self.completed_bytes = self.completed_bytes + group.bytes;
                let ghost earlier = self.groups@;
                self.groups.push(Arc::new(group));
                assert(group_views(self.groups@) =~= kept.push(group@));
                assert forall|i: int| 0 <= i < self.groups@.len() implies (
                #[trigger] self.groups@[i]).measured() by {
                    if i < earlier.len() {
                        assert(earlier[i].measured());
                    }
                }
            },
            None => {},
        }
        assert(self@ == before.completed());
        Ok(())
    }

    /// The location of the newest completed object.
    fn largest_location(&self) -> (location: Option<Location>)
        requires
            self.wf(),
        ensures
            location == self@.largest(),
    {
        if self.groups.len() == 0 {
            return None;
        }
        let last = &self.groups[self.groups.len() - 1];
        assert(self@.groups.last() == last@);
        assert(group_valid(self@.limits, self@.groups[self@.groups.len() - 1]));
        let object = &last.objects[last.objects.len() - 1];
        assert(last@.objects.last() == object@);
        Some(object.location())
    }

    fn snapshot(&mut self, range: RetainedRange, group_order: GroupOrder) -> (result: Result<
        RetainedSnapshot,
        RetentionError,
    >)
        requires
            old(self).wf(),
        ensures
            final(self).wf(),
            match result {
                Ok(snapshot) => {
                    &&& old(self)@.snapshot_outcome(range, group_order) is Ok
                    &&& snapshot@ == old(self)@.snapshot_of(range, group_order)
                    &&& final(self)@ == old(self)@.with_pin(snapshot@.pin())
                },
                Err(error) => {
                    &&& old(self)@.snapshot_outcome(range, group_order) == Err::<
                        (),
                        RetentionError,
                    >(error)
                    &&& final(self)@ == old(self)@
                },
            },
    {
        let ghost before = self@;
        if group_order == GroupOrder::Publisher {
            return Err(RetentionError::InvalidRange(RetentionRangeError::UnsupportedGroupOrder));
        }
        if !range.start.is_before(&range.end) {
            return Err(RetentionError::InvalidRange(RetentionRangeError::EmptyOrReversed));
        }
        let largest: Location = match self.largest_location() {
            Some(location) => location,
            None => {
                return Err(RetentionError::InvalidRange(RetentionRangeError::NoObjects));
            },
        };
        if largest.is_before(&range.start) {
            return Err(RetentionError::InvalidRange(RetentionRangeError::StartAfterLargest));
        }
        let first: u64 = range.start.group_id;
        let last: u64 = if range.end.object_id == 0 {
            range.end.group_id - 1
        } else {
            range.end.group_id
        };

        let mut selected = match self.select(first, last) {
            Some(selected) => selected,
            None => {
                return Err(RetentionError::InvalidRange(RetentionRangeError::NotRetained));
            },
        };
        if self.pins.len() >= self.limits.max_active_snapshots {
            proof {
                broadcast use vstd::seq_lib::group_to_multiset_ensures;

                assert(self@.pins.len() == self.pins@.len());
            }
            return Err(RetentionError::ExcessiveLoad(RetentionLimit::ActiveSnapshots));
        }
        proof {
            broadcast use vstd::seq_lib::group_to_multiset_ensures;

            assert(self@.pins.len() == self.pins@.len());
        }
        assert(group_views(selected@) =~= before.selected(range));
        let ghost chosen = selected@;
        if group_order == GroupOrder::Descending {
            selected = reversed(selected);
            proof {
                group_bytes_reverse(group_views(chosen));
                assert(group_views(selected@) =~= group_views(chosen).reverse());
            }
        }
        let snapshot = RetainedSnapshot::of(range, group_order, selected);
        proof {
            snapshot_keeps_store(before, range, group_order);
        }
        let ghost pins = self.pins@;
        self.pins.push((first, last));
        proof {
            vstd::seq_lib::to_multiset_build(pins, (first, last));
        }
        assert(self@ == before.with_pin(snapshot@.pin()));
        Ok(snapshot)
    }

    /// The groups from one ID to another, if every one of them is retained.
    fn select(&self, first: u64, last: u64) -> (result: Option<Vec<Arc<RetainedGroup>>>)
        requires
            self.wf(),
            first <= last,
        ensures
            match result {
                Some(selected) => {
                    &&& forall|id: u64| first <= id <= last ==> #[trigger] retained(self@.groups, id)
                    &&& selected@.len() == last - first + 1
                    &&& forall|k: int|
                        0 <= k < selected@.len() ==> (#[trigger] selected@[k])@
                            == super::model::group_with(self@.groups, (first + k) as u64)
                    &&& group_bytes(group_views(selected@)) <= self.completed_bytes
                },
                None => exists|id: u64|
                    first <= id <= last && !#[trigger] retained(self@.groups, id),
            },
    {
        let ghost groups = self@.groups;
        let mut start: usize = 0;
        while start < self.groups.len() && self.groups[start].group_id < first
            invariant
                start <= self.groups@.len(),
                groups == self@.groups,
                forall|i: int| 0 <= i < start ==> (#[trigger] groups[i]).id < first,
            decreases self.groups@.len() - start,
        {
            assert(groups[start as int] == self.groups@[start as int]@);
            start = start + 1;
        }
        let mut selected: Vec<Arc<RetainedGroup>> = Vec::new();
        let mut index: usize = start;
        let mut id: u64 = first;
        assert forall|i: int| 0 <= i < groups.len() implies #[trigger] groups[i]
            == self.groups@[i]@ by {}
        loop
            invariant_except_break
                selected@.len() == index - start == id - first,
            invariant
                start <= index <= self.groups@.len(),
                groups == self@.groups,
                groups.len() == self.groups@.len(),
                forall|i: int|
                    0 <= i < groups.len() ==> #[trigger] groups[i] == self.groups@[i]@,
                forall|i: int, j: int|
                    0 <= i < j < groups.len() ==> (#[trigger] groups[i]).id < (
                    #[trigger] groups[j]).id,
                first <= id <= last,
                forall|i: int| 0 <= i < index ==> (#[trigger] groups[i]).id < id,
                index < groups.len() ==> groups[index as int].id >= id,
                forall|k: int|
                    0 <= k < selected@.len() ==> (#[trigger] selected@[k])@ == groups[start + k],
                forall|k: int|
                    0 <= k < selected@.len() ==> (#[trigger] groups[start + k]).id == first + k,
            ensures
                start <= index < self.groups@.len(),
                selected@.len() == index - start + 1 == last - first + 1,
                forall|k: int|
                    0 <= k < selected@.len() ==> (#[trigger] selected@[k])@ == groups[start + k],
                forall|k: int|
                    0 <= k < selected@.len() ==> (#[trigger] groups[start + k]).id == first + k,
            decreases self.groups@.len() - index,
        {
            if index >= self.groups.len() || self.groups[index].group_id != id {
                assert(!retained(groups, id)) by {
                    if retained(groups, id) {
                        let i = choose|i: int|
                            0 <= i < groups.len() && (#[trigger] groups[i]).id == id;
                        assert(i >= index);
                        assert(groups[index as int] == self.groups@[index as int]@);
                        assert(i > index ==> groups[index as int].id < groups[i].id);
                    }
                }
                return None;
            }
            assert(groups[index as int] == self.groups@[index as int]@);
            selected.push(share(&self.groups[index]));
            assert(groups[start + (index - start)].id == id);
            if id == last {
                break;
            }
            assert(index + 1 < groups.len() ==> groups[index as int].id < groups[index + 1].id);
            id = id + 1;
            index = index + 1;
        }
        proof {
            assert forall|k: int| 0 <= k < selected@.len() implies (#[trigger] selected@[k])@
                == super::model::group_with(groups, (first + k) as u64) by {
                assert(groups[start + k].id == first + k);
                group_with_found(groups, start + k);
            }
            assert forall|id: u64| first <= id <= last implies #[trigger] retained(groups, id) by {
                assert(groups[start + (id - first)].id == first + (id - first));
                group_with_found(groups, start + (id - first));
            }
            assert(group_views(selected@) =~= groups.subrange(start as int, index + 1));
            group_bytes_subrange(groups, start as int, index + 1);
        }
        Some(selected)
    }

    fn release(&mut self, snapshot: RetainedSnapshot)
        requires
            old(self).wf(),
            old(self)@.owns(snapshot@),
        ensures
            final(self).wf(),
            final(self)@ == old(self)@.without_pin(snapshot@.pin()),
    {
        broadcast use vstd::seq_lib::group_to_multiset_ensures;

        let ghost before = self@;
        let ghost pins = self.pins@;
        let pin = snapshot.pin();
        let mut i: usize = 0;
        while i < self.pins.len()
            invariant
                i <= self.pins@.len(),
                self.pins@ == pins,
                *self == *old(self),
                before == old(self)@,
                old(self).wf(),
                before.pins == pins.to_multiset(),
                before.pins.count(pin) > 0,
                pin == snapshot@.pin(),
                forall|j: int| 0 <= j < i ==> #[trigger] pins[j] != pin,
            decreases self.pins@.len() - i,
        {
            if self.pins[i].0 == pin.0 && self.pins[i].1 == pin.1 {
                proof {
                    release_keeps_store(before, pin);
                    vstd::seq_lib::to_multiset_remove(pins, i as int);
                }
                self.pins.remove(i);
                assert(self@ == before.without_pin(pin));
                return;
            }
            i = i + 1;
        }
        // The pin counts, so the loop came upon it.
        assert(pins.contains(pin));
    }

    fn stats(&self) -> (stats: RetainedTrackStats)
        requires
            self.wf(),
        ensures
            stats.completed_groups == self@.groups.len(),
            stats.completed_objects == group_objects(self@.groups),
            stats.completed_bytes == group_bytes(self@.groups),
            stats.pending_group == (match self@.pending {
                Some(group) => Some(group.id),
                None => None,
            }),
            stats.pending_objects == self@.pending_objects(),
            stats.pending_bytes == self@.pending_bytes(),
            stats.store_objects == group_objects(self@.groups) + self@.pending_objects(),
            stats.store_bytes == group_bytes(self@.groups) + self@.pending_bytes(),
            stats.active_snapshots == self@.pins.len(),
            stats.largest_location == self@.largest(),
    {
        broadcast use vstd::seq_lib::group_to_multiset_ensures;

        let mut pending_group: Option<u64> = None;
        let mut pending_objects: usize = 0;
        let mut pending_bytes: usize = 0;
        if let Some(group) = &self.pending {
            pending_group = Some(group.group_id);
            pending_objects = group.objects.len();
            pending_bytes = group.bytes;
        }
        RetainedTrackStats {
            completed_groups: self.groups.len(),
            completed_objects: self.completed_objects,
            completed_bytes: self.completed_bytes,
            pending_group,
            pending_objects,
            pending_bytes,
            store_objects: self.completed_objects + pending_objects,
            store_bytes: self.completed_bytes + pending_bytes,
            active_snapshots: self.pins.len(),
            largest_location: self.largest_location(),
        }
    }
}

/// A bounded retention store for one transport track.
#[derive(Debug)]
pub struct RetainedTrack {
    store: TrackStore,
}

impl View for RetainedTrack {
    type V = TrackView;

    closed spec fn view(&self) -> TrackView {
        self.store@
    }
}

impl RetainedTrack {
    /// The store is in order, and its running totals are right.
    #[verifier::type_invariant]
    closed spec fn in_order(self) -> bool {
        self.store.wf()
    }

    /// Takes the store out for a change. An empty one is left in its place.
    fn take_store(&mut self) -> (store: TrackStore)
        ensures
            store == old(self).store,
            store.wf(),
    {
        proof {
            use_type_invariant(&*self);
        }
        let mut store = TrackStore::empty(self.store.limits);
        std::mem::swap(&mut store, &mut self.store);
        store
    }

    pub fn new(limits: RetentionLimits) -> (result: Result<Self, RetentionError>)
        ensures
            match result {
                Ok(track) => {
                    &&& limits.valid()
                    &&& track@.well_formed()
                    &&& track@ == (TrackView {
                        limits,
                        groups: Seq::empty(),
                        pending: None,
                        pins: vstd::multiset::Multiset::empty(),
                    })
                },
                Err(error) => {
                    &&& !limits.valid()
                    &&& error == RetentionError::InvalidRange(RetentionRangeError::InvalidLimits)
                },
            },
    {
        let limits = limits.validate()?;
        Ok(RetainedTrack { store: TrackStore::empty(limits) })
    }

    /// Commits one complete object to the pending group.
    ///
    /// Objects may arrive out of object-ID order, but only one group may be
    /// pending. An exact duplicate is idempotent.
    pub fn commit(&mut self, object: RetainedObject) -> (result: Result<(), RetentionError>)
        ensures
            final(self)@.well_formed(),
            result == old(self)@.commit_outcome(object@),
            final(self)@ == (if result is Ok {
                old(self)@.committed(object@)
            } else {
                old(self)@
            }),
    {
        let mut store = self.take_store();
        let result = store.commit(object);
        self.store = store;
        result
    }

    /// Atomically promotes the pending group and rotates the oldest unpinned
    /// group out where the store is full.
    pub fn complete_group(&mut self, group_id: u64) -> (result: Result<(), RetentionError>)
        ensures
            final(self)@.well_formed(),
            result == old(self)@.complete_outcome(group_id),
            final(self)@ == (if result is Ok {
                old(self)@.completed()
            } else {
                old(self)@
            }),
    {
        let mut store = self.take_store();
        let result = store.complete_group(group_id);
        self.store = store;
        result
    }

    /// Takes an immutable snapshot of a range and pins every selected group.
    /// The pins last until the snapshot is handed to [`RetainedTrack::release`].
    pub fn snapshot(&mut self, range: RetainedRange, group_order: GroupOrder) -> (result: Result<
        RetainedSnapshot,
        RetentionError,
    >)
        ensures
            final(self)@.well_formed(),
            match result {
                Ok(snapshot) => {
                    &&& old(self)@.snapshot_outcome(range, group_order) is Ok
                    &&& snapshot@ == old(self)@.snapshot_of(range, group_order)
                    &&& final(self)@ == old(self)@.with_pin(snapshot@.pin())
                    &&& final(self)@.owns(snapshot@)
                },
                Err(error) => {
                    &&& old(self)@.snapshot_outcome(range, group_order) == Err::<
                        (),
                        RetentionError,
                    >(error)
                    &&& final(self)@ == old(self)@
                },
            },
    {
        let mut store = self.take_store();
        let result = store.snapshot(range, group_order);
        proof {
            if result is Ok {
                snapshot_is_owned(old(self)@, range, group_order);
            }
        }
        self.store = store;
        result
    }

    /// Ends a snapshot of this track: its groups are no longer pinned by it.
    pub fn release(&mut self, snapshot: RetainedSnapshot)
        requires
            old(self)@.owns(snapshot@),
        ensures
            final(self)@.well_formed(),
            final(self)@ == old(self)@.without_pin(snapshot@.pin()),
    {
        let mut store = self.take_store();
        store.release(snapshot);
        self.store = store;
    }

    /// What the store holds, in numbers.
    pub fn stats(&self) -> (stats: RetainedTrackStats)
        ensures
            stats.completed_groups == self@.groups.len(),
            stats.completed_objects == group_objects(self@.groups),
            stats.completed_bytes == group_bytes(self@.groups),
            stats.pending_group == (match self@.pending {
                Some(group) => Some(group.id),
                None => None,
            }),
            stats.pending_objects == self@.pending_objects(),
            stats.pending_bytes == self@.pending_bytes(),
            stats.store_objects == group_objects(self@.groups) + self@.pending_objects(),
            stats.store_bytes == group_bytes(self@.groups) + self@.pending_bytes(),
            stats.active_snapshots == self@.pins.len(),
            stats.largest_location == self@.largest(),
    {
        proof {
            use_type_invariant(&*self);
        }
        self.store.stats()
    }
}

/// The groups from the last to the first.
fn reversed(groups: Vec<Arc<RetainedGroup>>) -> (reverse: Vec<Arc<RetainedGroup>>)
    ensures
        reverse@ == groups@.reverse(),
{
    let mut reverse: Vec<Arc<RetainedGroup>> = Vec::new();
    let mut left: usize = groups.len();
    while left > 0
        invariant
            left <= groups@.len(),
            reverse@.len() == groups@.len() - left,
            forall|k: int|
                0 <= k < reverse@.len() ==> #[trigger] reverse@[k] == groups@[groups@.len() - 1 - k],
        decreases left,
    {
        left = left - 1;
        reverse.push(share(&groups[left]));
    }
    assert(reverse@ =~= groups@.reverse());
    reverse
}

/// Immutable snapshot of retained groups and the selected objects in them.
///
/// The snapshot pins whole groups until it is released. It keeps what it
/// shows alive even where the track is gone. It is not cloned: one snapshot
/// stands for one pin.
#[derive(Debug)]
pub struct RetainedSnapshot {
    range: RetainedRange,
    group_order: GroupOrder,
    groups: Vec<Arc<RetainedGroup>>,
    objects: usize,
    retained_bytes: usize,
}

impl View for RetainedSnapshot {
    type V = SnapshotView;

    closed spec fn view(&self) -> SnapshotView {
        SnapshotView {
            range: self.range,
            order: self.group_order,
            groups: group_views(self.groups@),
        }
    }
}

/// The objects of groups that a range covers.
fn show(groups: &Vec<Arc<RetainedGroup>>, range: RetainedRange) -> (shown: Vec<&RetainedObject>)
    ensures
        shown@.map_values(|object: &RetainedObject| object@) == objects_in(
            group_views(groups@),
            range,
        ),
{
    let ghost views = group_views(groups@);
    let ghost look = |object: &RetainedObject| object@;
    let mut shown: Vec<&RetainedObject> = Vec::new();
    let mut i: usize = 0;
    assert(shown@.map_values(look) =~= objects_in(views.take(0), range));
    while i < groups.len()
        invariant
            i <= groups@.len(),
            views == group_views(groups@),
            look == |object: &RetainedObject| object@,
            shown@.map_values(look) == objects_in(views.take(i as int), range),
        decreases groups@.len() - i,
    {
        let objects = &groups[i].objects;
        let ghost here = object_views(objects@);
        let ghost done = shown@.map_values(look);
        let mut j: usize = 0;
        assert(done + covered(here.take(0), range) =~= done) by {
            reveal(Seq::filter);
        }
        while j < objects.len()
            invariant
                j <= objects@.len(),
                here == object_views(objects@),
                look == |object: &RetainedObject| object@,
                shown@.map_values(look) == done + covered(here.take(j as int), range),
            decreases objects@.len() - j,
        {
            let object = &objects[j];
            assert(here.take(j + 1).drop_last() =~= here.take(j as int));
            assert(here.take(j + 1).last() == object@);
            proof {
                reveal(Seq::filter);
            }
            if range.contains(object.location()) {
                let ghost so_far = shown@.map_values(look);
                shown.push(object);
                assert(shown@.map_values(look) =~= so_far.push(object@));
                assert(so_far.push(object@) =~= done + covered(here.take(j + 1), range));
            }
            j = j + 1;
        }
        assert(here.take(j as int) =~= here);
        assert(views.take(i + 1).drop_last() =~= views.take(i as int));
        assert(views.take(i + 1).last() == groups@[i as int]@);
        i = i + 1;
    }
    assert(views.take(i as int) =~= views);
    shown
}

impl RetainedSnapshot {
    #[verifier::type_invariant]
    closed spec fn counted(self) -> bool {
        &&& self.objects == self@.objects().len()
        &&& self.retained_bytes == total_size(self@.objects())
        &&& self.range.start.before(self.range.end)
    }

    fn of(range: RetainedRange, group_order: GroupOrder, groups: Vec<Arc<RetainedGroup>>) -> (
    snapshot: Self)
        requires
            group_bytes(group_views(groups@)) <= usize::MAX,
            range.start.before(range.end),
        ensures
            snapshot@ == (SnapshotView { range, order: group_order, groups: group_views(groups@) }),
    {
        let shown = show(&groups, range);
        let ghost views = shown@.map_values(|object: &RetainedObject| object@);
        proof {
            objects_in_bounded(group_views(groups@), range);
        }
        let objects: usize = shown.len();
        let mut retained_bytes: usize = 0;
        let mut i: usize = 0;
        while i < shown.len()
            invariant
                i <= shown@.len(),
                views == shown@.map_values(|object: &RetainedObject| object@),
                retained_bytes == total_size(views.take(i as int)),
                total_size(views) <= usize::MAX,
            decreases shown@.len() - i,
        {
            proof {
                assert(views.take(i + 1).drop_last() =~= views.take(i as int));
                assert(views.take(i + 1).last() == shown@[i as int]@);
                total_size_prefix(views, i + 1);
            }
            retained_bytes = retained_bytes + shown[i].retained_bytes();
            i = i + 1;
        }
        assert(views.take(i as int) =~= views);
        RetainedSnapshot { range, group_order, groups, objects, retained_bytes }
    }

    fn pin(&self) -> (pin: (u64, u64))
        ensures
            pin == self@.pin(),
    {
        proof {
            use_type_invariant(&*self);
        }
        let last: u64 = if self.range.end.object_id == 0 {
            self.range.end.group_id - 1
        } else {
            self.range.end.group_id
        };
        (self.range.start.group_id, last)
    }

    pub fn range(&self) -> (range: RetainedRange)
        ensures
            range == self@.range,
    {
        self.range
    }

    pub fn group_order(&self) -> (order: GroupOrder)
        ensures
            order == self@.order,
    {
        self.group_order
    }

    /// The number of objects shown.
    pub fn len(&self) -> (len: usize)
        ensures
            len == self@.objects().len(),
    {
        proof {
            use_type_invariant(&*self);
        }
        self.objects
    }

    pub fn is_empty(&self) -> (empty: bool)
        ensures
            empty == (self@.objects().len() == 0),
    {
        proof {
            use_type_invariant(&*self);
        }
        self.objects == 0
    }

    /// The bytes that the objects shown count for.
    pub fn retained_bytes(&self) -> (bytes: usize)
        ensures
            bytes == total_size(self@.objects()),
    {
        proof {
            use_type_invariant(&*self);
        }
        self.retained_bytes
    }

    pub fn pinned_group_count(&self) -> (count: usize)
        ensures
            count == self@.groups.len(),
    {
        self.groups.len()
    }

    /// The objects shown, in order.
    pub fn iter(&self) -> (objects: Vec<&RetainedObject>)
        ensures
            objects@.map_values(|object: &RetainedObject| object@) == self@.objects(),
    {
        show(&self.groups, self.range)
    }
}

} // verus!
