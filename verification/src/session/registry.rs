//! Tables of namespaces and track names, keyed by name and by request.

use vstd::prelude::*;

use crate::coding::TrackNamespace;
use crate::serve::track::FullName;
use crate::serve::FullTrackName;

verus! {

/// A namespace and the request that it belongs to.
#[derive(Debug)]
pub struct NamespaceEntry {
    pub namespace: TrackNamespace,
    pub request_id: u64,
}

/// The model of a [`NamespaceEntry`].
pub struct NamespaceRow {
    pub namespace: Seq<Seq<u8>>,
    pub request_id: u64,
}

impl View for NamespaceEntry {
    type V = NamespaceRow;

    open spec fn view(&self) -> NamespaceRow {
        NamespaceRow { namespace: self.namespace@, request_id: self.request_id }
    }
}

/// Active namespaces, each once.
#[derive(Debug)]
pub struct NamespaceTable {
    entries: Vec<NamespaceEntry>,
}

impl View for NamespaceTable {
    type V = Seq<NamespaceRow>;

    closed spec fn view(&self) -> Seq<NamespaceRow> {
        self.entries@.map_values(|entry: NamespaceEntry| entry@)
    }
}

/// Whether a namespace is in the table.
pub open spec fn has_namespace(rows: Seq<NamespaceRow>, namespace: Seq<Seq<u8>>) -> bool {
    exists|i: int| 0 <= i < rows.len() && (#[trigger] rows[i]).namespace == namespace
}

/// Where the first row of a request stands, or the number of rows.
pub open spec fn request_row(rows: Seq<NamespaceRow>, request_id: u64) -> int
    decreases rows.len(),
{
    if rows.len() == 0 || rows[0].request_id == request_id {
        0
    } else {
        1 + request_row(rows.drop_first(), request_id)
    }
}

/// The request of a namespace: that of its first row.
pub open spec fn namespace_request(rows: Seq<NamespaceRow>, namespace: Seq<Seq<u8>>) -> Option<u64>
    decreases rows.len(),
{
    if rows.len() == 0 {
        None
    } else if rows[0].namespace == namespace {
        Some(rows[0].request_id)
    } else {
        namespace_request(rows.drop_first(), namespace)
    }
}

proof fn namespace_request_unique(rows: Seq<NamespaceRow>, namespace: Seq<Seq<u8>>, at: int)
    requires
        0 <= at <= rows.len(),
        at < rows.len() ==> rows[at].namespace == namespace,
        forall|i: int| 0 <= i < at ==> (#[trigger] rows[i]).namespace != namespace,
    ensures
        namespace_request(rows, namespace) == (if at < rows.len() {
            Some(rows[at].request_id)
        } else {
            None
        }),
        has_namespace(rows, namespace) == (at < rows.len()),
    decreases rows.len(),
{
    if at < rows.len() {
        assert(rows[at].namespace == namespace);
    }
    if at > 0 {
        let tail = rows.drop_first();
        assert(rows[0].namespace != namespace);
        assert forall|i: int| 0 <= i < at - 1 implies (#[trigger] tail[i]).namespace
            != namespace by {
            assert(tail[i] == rows[i + 1]);
        }
        namespace_request_unique(tail, namespace, at - 1);
    }
}

/// The table without the row of a request.
pub open spec fn without_request(rows: Seq<NamespaceRow>, request_id: u64) -> Seq<NamespaceRow> {
    if request_row(rows, request_id) < rows.len() {
        rows.remove(request_row(rows, request_id))
    } else {
        rows
    }
}

/// No namespace stands in two rows.
pub open spec fn distinct_namespaces(rows: Seq<NamespaceRow>) -> bool {
    forall|i: int, j: int|
        0 <= i < j < rows.len() ==> (#[trigger] rows[i]).namespace != (
        #[trigger] rows[j]).namespace
}

proof fn request_row_unique(rows: Seq<NamespaceRow>, request_id: u64, at: int)
    requires
        0 <= at <= rows.len(),
        at < rows.len() ==> rows[at].request_id == request_id,
        forall|i: int| 0 <= i < at ==> (#[trigger] rows[i]).request_id != request_id,
    ensures
        request_row(rows, request_id) == at,
    decreases rows.len(),
{
    if at > 0 {
        let tail = rows.drop_first();
        assert(rows[0].request_id != request_id);
        assert forall|i: int| 0 <= i < at - 1 implies (#[trigger] tail[i]).request_id
            != request_id by {
            assert(tail[i] == rows[i + 1]);
        }
        request_row_unique(tail, request_id, at - 1);
    }
}

/// Once its request is dropped, a namespace can be offered again; no other
/// namespace is touched.
pub proof fn dropping_frees_the_namespace(
    rows: Seq<NamespaceRow>,
    request_id: u64,
    other: Seq<Seq<u8>>,
)
    requires
        distinct_namespaces(rows),
        0 <= request_row(rows, request_id) < rows.len(),
    ensures
        !has_namespace(
            without_request(rows, request_id),
            rows[request_row(rows, request_id)].namespace,
        ),
        other != rows[request_row(rows, request_id)].namespace ==> has_namespace(
            without_request(rows, request_id),
            other,
        ) == has_namespace(rows, other),
        distinct_namespaces(without_request(rows, request_id)),
{
    let at = request_row(rows, request_id);
    let after = without_request(rows, request_id);
    assert forall|i: int| 0 <= i < after.len() implies #[trigger] after[i] == rows[if i < at {
        i
    } else {
        i + 1
    }] by {}
    if has_namespace(after, rows[at].namespace) {
        let i = choose|i: int|
            0 <= i < after.len() && (#[trigger] after[i]).namespace == rows[at].namespace;
        let j = if i < at {
            i
        } else {
            i + 1
        };
        assert(after[i] == rows[j]);
    }
    if has_namespace(after, other) {
        let i = choose|i: int| 0 <= i < after.len() && (#[trigger] after[i]).namespace == other;
        assert(after[i] == rows[if i < at {
            i
        } else {
            i + 1
        }]);
    }
    if has_namespace(rows, other) && other != rows[at].namespace {
        let i = choose|i: int| 0 <= i < rows.len() && (#[trigger] rows[i]).namespace == other;
        assert(after[if i < at {
            i
        } else {
            i - 1
        }] == rows[i]);
    }
    assert forall|i: int, j: int| 0 <= i < j < after.len() implies (
    #[trigger] after[i]).namespace != (#[trigger] after[j]).namespace by {
        let oi = if i < at {
            i
        } else {
            i + 1
        };
        let oj = if j < at {
            j
        } else {
            j + 1
        };
        assert(after[i] == rows[oi] && after[j] == rows[oj]);
    }
}

/// Dropping the namespace of a request keeps every other one single.
pub proof fn withdrawal_keeps_distinct(rows: Seq<NamespaceRow>, request_id: u64)
    requires
        distinct_namespaces(rows),
    ensures
        distinct_namespaces(without_request(rows, request_id)),
{
    request_row_bounds(rows, request_id);
    if request_row(rows, request_id) < rows.len() {
        dropping_frees_the_namespace(rows, request_id, Seq::empty());
    }
}

proof fn request_row_bounds(rows: Seq<NamespaceRow>, request_id: u64)
    ensures
        0 <= request_row(rows, request_id) <= rows.len(),
    decreases rows.len(),
{
    if rows.len() > 0 {
        request_row_bounds(rows.drop_first(), request_id);
    }
}

impl NamespaceTable {
    pub fn new() -> (table: Self)
        ensures
            table@ == Seq::<NamespaceRow>::empty(),
    {
        let table = NamespaceTable { entries: Vec::new() };
        assert(table@ =~= Seq::<NamespaceRow>::empty());
        table
    }

    /// The request of a namespace, if it is in the table.
    pub fn get(&self, namespace: &TrackNamespace) -> (found: Option<u64>)
        ensures
            found == namespace_request(self@, namespace@),
            found is Some == has_namespace(self@, namespace@),
    {
        let mut i: usize = 0;
        while i < self.entries.len()
            invariant
                i <= self.entries@.len(),
                forall|j: int| 0 <= j < i ==> (#[trigger] self@[j]).namespace != namespace@,
            decreases self.entries@.len() - i,
        {
            assert(self@[i as int] == self.entries@[i as int]@);
            if self.entries[i].namespace.same(namespace) {
                proof {
                    namespace_request_unique(self@, namespace@, i as int);
                }
                return Some(self.entries[i].request_id);
            }
            i = i + 1;
        }
        proof {
            namespace_request_unique(self@, namespace@, i as int);
        }
        None
    }

    pub fn contains_key(&self, namespace: &TrackNamespace) -> (found: bool)
        ensures
            found == has_namespace(self@, namespace@),
    {
        self.get(namespace).is_some()
    }

    /// Adds a namespace that is not in the table.
    pub fn insert(&mut self, namespace: TrackNamespace, request_id: u64)
        requires
            !has_namespace(old(self)@, namespace@),
        ensures
            final(self)@ == old(self)@.push(
                NamespaceRow { namespace: namespace@, request_id },
            ),
            distinct_namespaces(old(self)@) ==> distinct_namespaces(final(self)@),
    {
        let ghost before = self@;
        let ghost row = NamespaceRow { namespace: namespace@, request_id };
        self.entries.push(NamespaceEntry { namespace, request_id });
        assert(self@ =~= before.push(row));
        proof {
            if distinct_namespaces(before) {
                assert forall|i: int, j: int| 0 <= i < j < self@.len() implies (
                #[trigger] self@[i]).namespace != (#[trigger] self@[j]).namespace by {
                    assert(self@[i] == before[i]);
                    if j < before.len() {
                        assert(self@[j] == before[j]);
                    }
                }
            }
        }
    }

    /// Whether a request offered a namespace that is still active.
    pub fn has_request(&self, request_id: u64) -> (found: bool)
        ensures
            found == (request_row(self@, request_id) < self@.len()),
    {
        self.find_request(request_id) < self.entries.len()
    }

    fn find_request(&self, request_id: u64) -> (at: usize)
        ensures
            at == request_row(self@, request_id),
            0 <= at <= self@.len(),
    {
        let mut i: usize = 0;
        while i < self.entries.len()
            invariant
                i <= self.entries@.len(),
                forall|j: int| 0 <= j < i ==> (#[trigger] self@[j]).request_id != request_id,
            decreases self.entries@.len() - i,
        {
            assert(self@[i as int] == self.entries@[i as int]@);
            if self.entries[i].request_id == request_id {
                proof {
                    request_row_unique(self@, request_id, i as int);
                }
                return i;
            }
            i = i + 1;
        }
        proof {
            request_row_unique(self@, request_id, i as int);
        }
        i
    }

    /// Drops the namespace of a request.
    pub fn drop_request(&mut self, request_id: u64) -> (dropped: Option<TrackNamespace>)
        ensures
            final(self)@ == without_request(old(self)@, request_id),
            match dropped {
                Some(namespace) => {
                    &&& request_row(old(self)@, request_id) < old(self)@.len()
                    &&& namespace@ == old(self)@[request_row(old(self)@, request_id)].namespace
                },
                None => request_row(old(self)@, request_id) == old(self)@.len(),
            },
    {
        let at: usize = self.find_request(request_id);
        if at < self.entries.len() {
            let ghost before = self@;
            assert(before[at as int] == self.entries@[at as int]@);
            let entry = self.entries.remove(at);
            assert(self@ =~= before.remove(at as int));
            Some(entry.namespace)
        } else {
            None
        }
    }
}

/// A track name and the subscription that it belongs to.
#[derive(Debug)]
pub struct NameEntry {
    pub name: FullTrackName,
    pub request_id: u64,
}

/// The model of a [`NameEntry`].
pub struct NameRow {
    pub name: FullName,
    pub request_id: u64,
}

impl View for NameEntry {
    type V = NameRow;

    open spec fn view(&self) -> NameRow {
        NameRow { name: self.name@, request_id: self.request_id }
    }
}

/// The tracks that the peer is subscribed to, each once.
#[derive(Debug)]
pub struct SubscribedNames {
    entries: Vec<NameEntry>,
}

impl View for SubscribedNames {
    type V = Seq<NameRow>;

    closed spec fn view(&self) -> Seq<NameRow> {
        self.entries@.map_values(|entry: NameEntry| entry@)
    }
}

/// Whether a track is in the table.
pub open spec fn has_name(rows: Seq<NameRow>, name: FullName) -> bool {
    exists|i: int| 0 <= i < rows.len() && (#[trigger] rows[i]).name == name
}

/// The rows of every request but one.
pub open spec fn without_subscription(rows: Seq<NameRow>, request_id: u64) -> Seq<NameRow> {
    rows.filter(|row: NameRow| row.request_id != request_id)
}

/// Dropping a subscription forgets its names and no others.
pub proof fn only_matching_names_are_dropped(rows: Seq<NameRow>, request_id: u64, row: NameRow)
    ensures
        without_subscription(rows, request_id).contains(row) <==> rows.contains(row)
            && row.request_id != request_id,
    decreases rows.len(),
{
    reveal(Seq::filter);
    if rows.len() > 0 {
        let front = rows.drop_last();
        let kept = without_subscription(front, request_id);
        let all = without_subscription(rows, request_id);
        only_matching_names_are_dropped(front, request_id, row);
        if all.contains(row) {
            let i = choose|i: int| 0 <= i < all.len() && all[i] == row;
            if i < kept.len() {
                assert(kept[i] == row);
                let j = choose|j: int| 0 <= j < front.len() && front[j] == row;
                assert(rows[j] == row);
            } else {
                assert(rows[rows.len() - 1] == row);
            }
        }
        if rows.contains(row) && row.request_id != request_id {
            let j = choose|j: int| 0 <= j < rows.len() && rows[j] == row;
            if j < front.len() {
                assert(front[j] == row);
                let i = choose|i: int| 0 <= i < kept.len() && kept[i] == row;
                assert(all[i] == row);
            } else {
                assert(all[kept.len() as int] == row);
            }
        }
    }
}

/// No track stands in two rows.
pub open spec fn distinct_names(rows: Seq<NameRow>) -> bool {
    forall|i: int, j: int|
        0 <= i < j < rows.len() ==> (#[trigger] rows[i]).name != (#[trigger] rows[j]).name
}

/// Dropping a subscription keeps every other track single.
pub proof fn dropping_keeps_names_distinct(rows: Seq<NameRow>, request_id: u64)
    requires
        distinct_names(rows),
    ensures
        distinct_names(without_subscription(rows, request_id)),
    decreases rows.len(),
{
    reveal(Seq::filter);
    if rows.len() > 0 {
        let front = rows.drop_last();
        let kept = without_subscription(front, request_id);
        let all = without_subscription(rows, request_id);
        assert forall|i: int, j: int| 0 <= i < j < front.len() implies (
        #[trigger] front[i]).name != (#[trigger] front[j]).name by {
            assert(front[i] == rows[i] && front[j] == rows[j]);
        }
        dropping_keeps_names_distinct(front, request_id);
        assert forall|i: int, j: int| 0 <= i < j < all.len() implies (#[trigger] all[i]).name != (
        #[trigger] all[j]).name by {
            assert(all[i] == kept[i]);
            if j < kept.len() {
                assert(all[j] == kept[j]);
            } else {
                assert(kept.contains(kept[i]));
                only_matching_names_are_dropped(front, request_id, kept[i]);
                let k = choose|k: int| 0 <= k < front.len() && front[k] == kept[i];
                assert(rows[k] == kept[i]);
                assert(all[j] == rows[rows.len() - 1]);
            }
        }
    }
}

impl SubscribedNames {
    pub fn new() -> (names: Self)
        ensures
            names@ == Seq::<NameRow>::empty(),
    {
        let names = SubscribedNames { entries: Vec::new() };
        assert(names@ =~= Seq::<NameRow>::empty());
        names
    }

    /// The subscription of a track.
    pub fn get(&self, name: &FullTrackName) -> (found: Option<u64>)
        ensures
            match found {
                Some(id) => exists|i: int|
                    0 <= i < self@.len() && (#[trigger] self@[i]).name == name@
                        && self@[i].request_id == id,
                None => !has_name(self@, name@),
            },
    {
        let mut i: usize = 0;
        while i < self.entries.len()
            invariant
                i <= self.entries@.len(),
                forall|j: int| 0 <= j < i ==> (#[trigger] self@[j]).name != name@,
            decreases self.entries@.len() - i,
        {
            assert(self@[i as int] == self.entries@[i as int]@);
            if self.entries[i].name.same(name) {
                return Some(self.entries[i].request_id);
            }
            i = i + 1;
        }
        None
    }

    pub fn contains_key(&self, name: &FullTrackName) -> (found: bool)
        ensures
            found == has_name(self@, name@),
    {
        self.get(name).is_some()
    }

    /// Adds a track that is not in the table.
    pub fn insert(&mut self, name: FullTrackName, request_id: u64)
        requires
            !has_name(old(self)@, name@),
        ensures
            final(self)@ == old(self)@.push(NameRow { name: name@, request_id }),
    {
        let ghost before = self@;
        let ghost row = NameRow { name: name@, request_id };
        self.entries.push(NameEntry { name, request_id });
        assert(self@ =~= before.push(row));
    }

    /// Forgets the tracks of a subscription.
    pub fn drop_subscribed_name(&mut self, id: u64)
        ensures
            final(self)@ == without_subscription(old(self)@, id),
    {
        let ghost rows = self@;
        let mut entries: Vec<NameEntry> = Vec::new();
        std::mem::swap(&mut entries, &mut self.entries);
        let ghost all = entries@;
        let mut kept: Vec<NameEntry> = Vec::new();
        let ghost mut done: int = 0;
        assert(without_subscription(rows.take(0), id) =~= kept@.map_values(|e: NameEntry| e@)) by {
            reveal(Seq::filter);
        }
        while entries.len() > 0
            invariant
                0 <= done <= all.len(),
                entries@ == all.skip(done),
                rows == all.map_values(|e: NameEntry| e@),
                kept@.map_values(|e: NameEntry| e@) == without_subscription(rows.take(done), id),
            decreases entries@.len(),
        {
            let entry = entries.remove(0);
            assert(entry@ == rows[done]);
            assert(rows.take(done + 1).drop_last() =~= rows.take(done));
            assert(entries@ =~= all.skip(done + 1));
            let ghost before = kept@.map_values(|e: NameEntry| e@);
            proof {
                reveal(Seq::filter);
                done = done + 1;
            }
            if entry.request_id != id {
                let ghost row = entry@;
                kept.push(entry);
                assert(kept@.map_values(|e: NameEntry| e@) =~= before.push(row));
            }
        }
        assert(done == all.len());
        assert(rows.take(done) =~= rows);
        self.entries = kept;
    }
}

} // verus!
