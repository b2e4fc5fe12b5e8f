//! What a retention store holds, as mathematics.

use vstd::multiset::Multiset;
use vstd::prelude::*;

use crate::coding::kvp::Pair;
use crate::coding::Location;
use crate::data::extension::headers_encoding;
use crate::message::GroupOrder;

verus! {

/// Hard bounds for retained objects, groups and active snapshots.
///
/// Byte limits include both payload bytes and the encoded extension-header
/// bytes retained with each object.
#[derive(Clone, Copy, Debug, PartialEq, Eq, Structural)]
pub struct RetentionLimits {
    pub max_object_bytes: usize,
    pub max_group_bytes: usize,
    pub max_objects_per_group: usize,
    pub max_groups: usize,
    pub max_store_bytes: usize,
    pub max_store_objects: usize,
    pub max_active_snapshots: usize,
}

/// The bound that rejected an otherwise valid retention operation.
#[derive(Clone, Copy, Debug, PartialEq, Eq, Structural)]
pub enum RetentionLimit {
    ObjectBytes,
    GroupBytes,
    GroupObjects,
    StoreBytes,
    StoreObjects,
    ActiveSnapshots,
    PinnedGroups,
}

/// A deterministic validation error for a retention or range operation.
#[derive(Clone, Copy, Debug, PartialEq, Eq, Structural)]
pub enum RetentionRangeError {
    InvalidLimits,
    IncompleteObject,
    InvalidObjectProperties,
    EmptyOrReversed,
    NoObjects,
    StartAfterLargest,
    NotRetained,
    UnsupportedGroupOrder,
    NonIncreasingGroup,
    PendingGroupMismatch,
    NoPendingGroup,
    ConflictingObject,
}

/// Errors of the retention store.
#[derive(Clone, Copy, Debug, PartialEq, Eq, Structural)]
pub enum RetentionError {
    /// A limit is exceeded.
    ExcessiveLoad(RetentionLimit),
    /// The range or operation is invalid.
    InvalidRange(RetentionRangeError),
}

/// Half-open object range `[start, end)`.
#[derive(Clone, Copy, Debug, PartialEq, Eq, Structural)]
pub struct RetainedRange {
    pub start: Location,
    pub end: Location,
}

impl RetentionLimits {
    /// Every bound is positive, and none exceeds the one that encloses it.
    pub open spec fn valid(self) -> bool {
        &&& self.max_object_bytes > 0
        &&& self.max_group_bytes > 0
        &&& self.max_objects_per_group > 0
        &&& self.max_groups > 0
        &&& self.max_store_bytes > 0
        &&& self.max_store_objects > 0
        &&& self.max_active_snapshots > 0
        &&& self.max_object_bytes <= self.max_group_bytes
        &&& self.max_group_bytes <= self.max_store_bytes
        &&& self.max_objects_per_group <= self.max_store_objects
    }
}

impl RetainedRange {
    /// Whether a location is in the range.
    pub open spec fn covers(self, location: Location) -> bool {
        !location.before(self.start) && location.before(self.end)
    }

    /// The last group that the range reaches into.
    pub open spec fn last_group(self) -> int {
        if self.end.object_id == 0 {
            self.end.group_id - 1
        } else {
            self.end.group_id as int
        }
    }
}

/// A retained object.
pub struct ObjectView {
    pub location: Location,
    pub subgroup_id: Option<u64>,
    pub publisher_priority: u8,
    pub properties: Seq<Pair>,
    pub payload: Seq<u8>,
}

impl ObjectView {
    /// The bytes that an object counts for: its payload and its encoded
    /// properties.
    pub open spec fn size(self) -> nat {
        self.payload.len() + headers_encoding(self.properties)->Ok_0.len()
    }
}

/// A group, with its objects by ascending object ID.
pub struct GroupView {
    pub id: u64,
    pub objects: Seq<ObjectView>,
}

/// The bytes that objects count for.
pub open spec fn total_size(objects: Seq<ObjectView>) -> nat
    decreases objects.len(),
{
    if objects.len() == 0 {
        0
    } else {
        total_size(objects.drop_last()) + objects.last().size()
    }
}

/// The bytes that groups count for.
pub open spec fn group_bytes(groups: Seq<GroupView>) -> nat
    decreases groups.len(),
{
    if groups.len() == 0 {
        0
    } else {
        group_bytes(groups.drop_last()) + total_size(groups.last().objects)
    }
}

/// The number of objects in groups.
pub open spec fn group_objects(groups: Seq<GroupView>) -> nat
    decreases groups.len(),
{
    if groups.len() == 0 {
        0
    } else {
        group_objects(groups.drop_last()) + groups.last().objects.len()
    }
}

/// A bounded retention store for one track.
pub struct TrackView {
    pub limits: RetentionLimits,
    /// The completed groups, by ascending group ID.
    pub groups: Seq<GroupView>,
    /// The group that objects are being committed to.
    pub pending: Option<GroupView>,
    /// For each active snapshot, the first and the last group it pins.
    pub pins: Multiset<(u64, u64)>,
}

/// Whether some snapshot pins a group.
pub open spec fn pinned(pins: Multiset<(u64, u64)>, id: u64) -> bool {
    exists|pin: (u64, u64)| #[trigger] pins.count(pin) > 0 && pin.0 <= id <= pin.1
}

/// Whether a completed group with this ID is retained.
pub open spec fn retained(groups: Seq<GroupView>, id: u64) -> bool {
    exists|i: int| 0 <= i < groups.len() && (#[trigger] groups[i]).id == id
}

/// The completed group with this ID.
pub open spec fn group_with(groups: Seq<GroupView>, id: u64) -> GroupView {
    groups[choose|i: int| 0 <= i < groups.len() && (#[trigger] groups[i]).id == id]
}

/// Whether an object with this ID is among the objects.
pub open spec fn has_object(objects: Seq<ObjectView>, object_id: u64) -> bool {
    exists|i: int| 0 <= i < objects.len() && (#[trigger] objects[i]).location.object_id == object_id
}

/// Where an object belongs among objects with ascending IDs.
pub open spec fn object_rank(objects: Seq<ObjectView>, object_id: u64) -> int
    decreases objects.len(),
{
    if objects.len() == 0 {
        0
    } else if objects.last().location.object_id < object_id {
        objects.len() as int
    } else {
        object_rank(objects.drop_last(), object_id)
    }
}

/// What holds of every group, pending or completed: it has objects, all of
/// them its own, with ascending IDs and within the bounds of a group.
pub open spec fn group_valid(limits: RetentionLimits, group: GroupView) -> bool {
    &&& 0 < group.objects.len() <= limits.max_objects_per_group
    &&& total_size(group.objects) <= limits.max_group_bytes
    &&& forall|i: int| 0 <= i < group.objects.len() ==> object_valid(limits, group, #[trigger] group.objects[i])
    &&& forall|i: int, j: int|
        0 <= i < j < group.objects.len() ==> (#[trigger] group.objects[i]).location.object_id < (
        #[trigger] group.objects[j]).location.object_id
}

/// What holds of every object of a group.
pub open spec fn object_valid(limits: RetentionLimits, group: GroupView, object: ObjectView) -> bool {
    &&& object.location.group_id == group.id
    &&& object.size() <= limits.max_object_bytes
    &&& headers_encoding(object.properties) is Ok
}

impl TrackView {
    pub open spec fn pending_objects(self) -> nat {
        match self.pending {
            Some(group) => group.objects.len(),
            None => 0,
        }
    }

    pub open spec fn pending_bytes(self) -> nat {
        match self.pending {
            Some(group) => total_size(group.objects),
            None => 0,
        }
    }

    /// What holds of the store at all times: every bound is kept, groups and
    /// objects are in order, and what a snapshot pins is still retained.
    pub open spec fn well_formed(self) -> bool {
        &&& self.limits.valid()
        &&& self.groups.len() <= self.limits.max_groups
        &&& forall|i: int| 0 <= i < self.groups.len() ==> group_valid(self.limits, #[trigger] self.groups[i])
        &&& forall|i: int, j: int|
            0 <= i < j < self.groups.len() ==> (#[trigger] self.groups[i]).id < (
            #[trigger] self.groups[j]).id
        &&& self.pending matches Some(group) ==> {
            &&& group_valid(self.limits, group)
            &&& forall|i: int| 0 <= i < self.groups.len() ==> (#[trigger] self.groups[i]).id < group.id
        }
        &&& group_objects(self.groups) + self.pending_objects() <= self.limits.max_store_objects
        &&& group_bytes(self.groups) + self.pending_bytes() <= self.limits.max_store_bytes
        &&& self.pins.len() <= self.limits.max_active_snapshots
        &&& forall|pin: (u64, u64), id: u64|
            #[trigger] self.pins.count(pin) > 0 && pin.0 <= id <= pin.1 ==> #[trigger] retained(
                self.groups,
                id,
            )
    }

    /// The location of the newest completed object.
    pub open spec fn largest(self) -> Option<Location> {
        if self.groups.len() == 0 {
            None
        } else {
            Some(self.groups.last().objects.last().location)
        }
    }

    /// Whether committing an object is refused, and why.
    pub open spec fn commit_outcome(self, object: ObjectView) -> Result<(), RetentionError> {
        if object.size() > self.limits.max_object_bytes {
            Err(RetentionError::ExcessiveLoad(RetentionLimit::ObjectBytes))
        } else if self.pending is Some && self.pending->0.id != object.location.group_id {
            Err(RetentionError::InvalidRange(RetentionRangeError::PendingGroupMismatch))
        } else if self.pending is Some && has_object(
            self.pending->0.objects,
            object.location.object_id,
        ) {
            if self.pending->0.objects.contains(object) {
                Ok(())
            } else {
                Err(RetentionError::InvalidRange(RetentionRangeError::ConflictingObject))
            }
        } else if self.pending is None && self.groups.len() > 0 && object.location.group_id
            <= self.groups.last().id {
            Err(RetentionError::InvalidRange(RetentionRangeError::NonIncreasingGroup))
        } else if self.pending_objects() >= self.limits.max_objects_per_group {
            Err(RetentionError::ExcessiveLoad(RetentionLimit::GroupObjects))
        } else if self.pending_bytes() + object.size() > self.limits.max_group_bytes {
            Err(RetentionError::ExcessiveLoad(RetentionLimit::GroupBytes))
        } else if group_objects(self.groups) + self.pending_objects() + 1
            > self.limits.max_store_objects {
            Err(RetentionError::ExcessiveLoad(RetentionLimit::StoreObjects))
        } else if group_bytes(self.groups) + self.pending_bytes() + object.size()
            > self.limits.max_store_bytes {
            Err(RetentionError::ExcessiveLoad(RetentionLimit::StoreBytes))
        } else {
            Ok(())
        }
    }

    /// The store after an object is committed: the object is in the pending
    /// group once, at its place by object ID.
    pub open spec fn committed(self, object: ObjectView) -> TrackView {
        match self.pending {
            Some(group) => if group.objects.contains(object) {
                self
            } else {
                TrackView {
                    pending: Some(
                        GroupView {
                            id: group.id,
                            objects: group.objects.insert(
                                object_rank(group.objects, object.location.object_id),
                                object,
                            ),
                        },
                    ),
                    ..self
                }
            },
            None => TrackView {
                pending: Some(GroupView { id: object.location.group_id, objects: seq![object] }),
                ..self
            },
        }
    }

    /// The place of the oldest completed group that no snapshot pins, or the
    /// number of groups if all are pinned.
    pub open spec fn oldest_unpinned(self) -> int {
        first_unpinned(self.groups, self.pins)
    }

    /// Whether completing the pending group is refused, and why. A full store
    /// has to let one group go, and no pinned group goes.
    pub open spec fn complete_outcome(self, group_id: u64) -> Result<(), RetentionError> {
        if self.pending is None {
            Err(RetentionError::InvalidRange(RetentionRangeError::NoPendingGroup))
        } else if self.pending->0.id != group_id {
            Err(RetentionError::InvalidRange(RetentionRangeError::PendingGroupMismatch))
        } else if self.groups.len() == self.limits.max_groups && self.oldest_unpinned()
            == self.groups.len() {
            Err(RetentionError::ExcessiveLoad(RetentionLimit::PinnedGroups))
        } else {
            Ok(())
        }
    }

    /// The store after the pending group is completed: it is the newest group,
    /// and where the store was full the oldest unpinned group is gone.
    pub open spec fn completed(self) -> TrackView {
        let kept = if self.groups.len() == self.limits.max_groups {
            self.groups.remove(self.oldest_unpinned())
        } else {
            self.groups
        };
        TrackView { groups: kept.push(self.pending->0), pending: None, ..self }
    }

    /// Whether taking a snapshot is refused, and why.
    pub open spec fn snapshot_outcome(self, range: RetainedRange, order: GroupOrder) -> Result<
        (),
        RetentionError,
    > {
        if order == GroupOrder::Publisher {
            Err(RetentionError::InvalidRange(RetentionRangeError::UnsupportedGroupOrder))
        } else if !range.start.before(range.end) {
            Err(RetentionError::InvalidRange(RetentionRangeError::EmptyOrReversed))
        } else if self.groups.len() == 0 {
            Err(RetentionError::InvalidRange(RetentionRangeError::NoObjects))
        } else if self.largest()->0.before(range.start) {
            Err(RetentionError::InvalidRange(RetentionRangeError::StartAfterLargest))
        } else if exists|id: u64|
            range.start.group_id <= id <= range.last_group() && !#[trigger] retained(
                self.groups,
                id,
            ) {
            Err(RetentionError::InvalidRange(RetentionRangeError::NotRetained))
        } else if self.pins.len() >= self.limits.max_active_snapshots {
            Err(RetentionError::ExcessiveLoad(RetentionLimit::ActiveSnapshots))
        } else {
            Ok(())
        }
    }

    /// The groups that a range selects, by ascending group ID.
    pub open spec fn selected(self, range: RetainedRange) -> Seq<GroupView> {
        Seq::new(
            (range.last_group() - range.start.group_id + 1) as nat,
            |k: int| group_with(self.groups, (range.start.group_id + k) as u64),
        )
    }

    /// The snapshot of a range.
    pub open spec fn snapshot_of(self, range: RetainedRange, order: GroupOrder) -> SnapshotView {
        SnapshotView {
            range,
            order,
            groups: if order == GroupOrder::Descending {
                self.selected(range).reverse()
            } else {
                self.selected(range)
            },
        }
    }

    /// Whether a snapshot is one of this store: its groups are pinned, and it
    /// shows them as they are.
    pub open spec fn owns(self, snapshot: SnapshotView) -> bool {
        &&& self.pins.count(snapshot.pin()) > 0
        &&& snapshot == self.snapshot_of(snapshot.range, snapshot.order)
        &&& snapshot.range.start.group_id <= snapshot.range.last_group() <= u64::MAX
    }

    /// The store while one more snapshot pins the groups of a range.
    pub open spec fn with_pin(self, pin: (u64, u64)) -> TrackView {
        TrackView { pins: self.pins.insert(pin), ..self }
    }

    /// The store after a snapshot is released.
    pub open spec fn without_pin(self, pin: (u64, u64)) -> TrackView {
        TrackView { pins: self.pins.remove(pin), ..self }
    }
}

/// The place of the first group that is not pinned.
pub open spec fn first_unpinned(groups: Seq<GroupView>, pins: Multiset<(u64, u64)>) -> int
    decreases groups.len(),
{
    if groups.len() == 0 {
        0
    } else if !pinned(pins, groups[0].id) {
        0
    } else {
        1 + first_unpinned(groups.drop_first(), pins)
    }
}

/// A snapshot: the groups it pins, in the order in which it shows them.
pub struct SnapshotView {
    pub range: RetainedRange,
    pub order: GroupOrder,
    pub groups: Seq<GroupView>,
}

/// The objects of groups that a range covers, in the order of the groups.
pub open spec fn objects_in(groups: Seq<GroupView>, range: RetainedRange) -> Seq<ObjectView>
    decreases groups.len(),
{
    if groups.len() == 0 {
        Seq::empty()
    } else {
        objects_in(groups.drop_last(), range) + covered(groups.last().objects, range)
    }
}

/// The objects that a range covers.
pub open spec fn covered(objects: Seq<ObjectView>, range: RetainedRange) -> Seq<ObjectView> {
    objects.filter(|object: ObjectView| range.covers(object.location))
}

impl SnapshotView {
    /// The objects that the snapshot shows.
    pub open spec fn objects(self) -> Seq<ObjectView> {
        objects_in(self.groups, self.range)
    }

    /// The pin that the snapshot holds: its first and its last group.
    pub open spec fn pin(self) -> (u64, u64) {
        (self.range.start.group_id, self.range.last_group() as u64)
    }
}

} // verus!
