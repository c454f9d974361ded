//! What the diff view has to load and to evict so that it shows exactly the
//! files that the repository reports as changed.

use vstd::prelude::*;
use crate::project_path::{contains_path, path_keys, BufferId, PathKey, ProjectPath};

verus! {

/// A buffer that the diff view currently shows, with the file it was opened
/// from, if it has one.
#[derive(Clone, Debug)]
pub struct LoadedBuffer {
    pub buffer: BufferId,
    pub file: Option<ProjectPath>,
}

impl LoadedBuffer {
    /// The key of the buffer's file, if the buffer has a file.
    pub open spec fn key(self) -> Option<PathKey> {
        match self.file {
            Some(path) => Some(path@),
            None => None,
        }
    }
}

/// One entry of the repository's status: whether the file differs from the
/// index, and where the file lies in the project, if it lies in it at all.
#[derive(Clone, Debug)]
pub struct StatusEntry {
    pub has_changes: bool,
    pub project_path: Option<ProjectPath>,
}

impl StatusEntry {
    /// The file that this entry asks the view to show, if any: an entry
    /// without changes, or outside the project, asks for nothing.
    pub open spec fn load_request(self) -> Option<PathKey> {
        if self.has_changes {
            match self.project_path {
                Some(path) => Some(path@),
                None => None,
            }
        } else {
            None
        }
    }
}

/// The files to show, one for each status entry that asks for one, in the
/// order of the status.
pub open spec fn paths_to_load(status: Seq<StatusEntry>) -> Seq<PathKey> {
    status.filter_map(|entry: StatusEntry| entry.load_request())
}

/// Whether a later shown buffer was opened from the same file as the one at
/// `index`. Of several buffers on one file only the last one is tracked.
pub open spec fn shadowed(loaded: Seq<LoadedBuffer>, index: int) -> bool {
    exists|later: int|
        index < later < loaded.len() && #[trigger] loaded[later].key() == loaded[index].key()
}

/// Whether the shown buffer at `index` leaves the view: it has a file, no
/// status entry asks for that file, and no later buffer shadows it.
pub open spec fn is_stale(loaded: Seq<LoadedBuffer>, wanted: Seq<PathKey>, index: int) -> bool {
    &&& loaded[index].key() matches Some(key)
    &&& !wanted.contains(key)
    &&& !shadowed(loaded, index)
}

/// The buffers that leave the view, in the order in which they are shown.
pub open spec fn buffers_to_evict(loaded: Seq<LoadedBuffer>, wanted: Seq<PathKey>) -> Seq<
    BufferId,
> {
    Seq::new(loaded.len(), |i: int| i).filter_map(
        |i: int|
            if is_stale(loaded, wanted, i) {
                Some(loaded[i].buffer)
            } else {
                None
            },
    )
}

/// An element that `f` maps to a value contributes that value to the result
/// of `filter_map`.
proof fn lemma_filter_map_covers<A, B>(s: Seq<A>, f: spec_fn(A) -> Option<B>, i: int)
    requires
        0 <= i < s.len(),
        f(s[i]) is Some,
    ensures
        s.filter_map(f).contains(f(s[i]).unwrap()),
    decreases s.len(),
{
    let rest = s.drop_last();
    let value = f(s[i]).unwrap();
    if i == s.len() - 1 {
        let out = rest.filter_map(f) + seq![value];
        assert(out[out.len() - 1] == value);
    } else {
        lemma_filter_map_covers(rest, f, i);
        let k = choose|k: int| 0 <= k < rest.filter_map(f).len() && rest.filter_map(f)[k] == value;
        assert(s.filter_map(f)[k] == value);
    }
}

/// A file is requested exactly when a status entry with changes names it.
pub proof fn lemma_requested_iff_changed(status: Seq<StatusEntry>, key: PathKey)
    ensures
        paths_to_load(status).contains(key) <==> exists|i: int|
            0 <= i < status.len() && #[trigger] status[i].load_request() == Some(key),
{
    let f = |entry: StatusEntry| entry.load_request();
    if paths_to_load(status).contains(key) {
        status.lemma_filter_map_contains(f, key);
        let entry = choose|t: StatusEntry| #[trigger] status.contains(t) && f(t) == Some(key);
        let i = choose|i: int| 0 <= i < status.len() && status[i] == entry;
        assert(status[i].load_request() == Some(key));
    }
    if exists|i: int| 0 <= i < status.len() && #[trigger] status[i].load_request() == Some(key) {
        let i = choose|i: int|
            0 <= i < status.len() && #[trigger] status[i].load_request() == Some(key);
        lemma_filter_map_covers(status, f, i);
    }
}

/// A buffer leaves the view exactly when it is shown at a stale position.
pub proof fn lemma_evicted_iff_stale(
    loaded: Seq<LoadedBuffer>,
    wanted: Seq<PathKey>,
    buffer: BufferId,
)
    ensures
        buffers_to_evict(loaded, wanted).contains(buffer) <==> exists|i: int|
            0 <= i < loaded.len() && #[trigger] is_stale(loaded, wanted, i) && loaded[i].buffer
                == buffer,
{
    let indices = Seq::new(loaded.len(), |i: int| i);
    let f = |i: int|
        if is_stale(loaded, wanted, i) {
            Some(loaded[i].buffer)
        } else {
            None
        };
    if buffers_to_evict(loaded, wanted).contains(buffer) {
        indices.lemma_filter_map_contains(f, buffer);
        let i = choose|t: int| #[trigger] indices.contains(t) && f(t) == Some(buffer);
        let k = choose|k: int| 0 <= k < indices.len() && indices[k] == i;
        assert(is_stale(loaded, wanted, i) && loaded[i].buffer == buffer);
    }
    if exists|i: int|
        0 <= i < loaded.len() && #[trigger] is_stale(loaded, wanted, i) && loaded[i].buffer
            == buffer {
        let i = choose|i: int|
            0 <= i < loaded.len() && #[trigger] is_stale(loaded, wanted, i) && loaded[i].buffer
                == buffer;
        assert(indices[i] == i);
        lemma_filter_map_covers(indices, f, i);
    }
}

/// No round both loads a file and evicts a buffer of that file: the file of
/// a stale buffer is named by no status entry with changes.
pub proof fn lemma_stale_file_is_unchanged(
    status: Seq<StatusEntry>,
    loaded: Seq<LoadedBuffer>,
    index: int,
    entry: int,
)
    requires
        0 <= index < loaded.len(),
        0 <= entry < status.len(),
        is_stale(loaded, paths_to_load(status), index),
    ensures
        status[entry].load_request() != loaded[index].key(),
{
    let key = loaded[index].key().unwrap();
    lemma_requested_iff_changed(status, key);
}

/// When nothing is requested, a shown buffer is stale exactly when it has a
/// file and no later buffer shadows it.
pub proof fn lemma_stale_without_requests(loaded: Seq<LoadedBuffer>, index: int)
    requires
        0 <= index < loaded.len(),
    ensures
        is_stale(loaded, Seq::<PathKey>::empty(), index) <==> loaded[index].file is Some
            && !shadowed(loaded, index),
{
}

/// No two shown buffers were opened from the same file.
pub open spec fn files_distinct(loaded: Seq<LoadedBuffer>) -> bool {
    forall|i: int, j: int|
        0 <= i < j < loaded.len() && loaded[i].file is Some ==> #[trigger] loaded[i].key()
            != #[trigger] loaded[j].key()
}

/// The shown buffers that stay in the view, in the order in which they are
/// shown.
pub open spec fn buffers_that_stay(loaded: Seq<LoadedBuffer>, wanted: Seq<PathKey>) -> Seq<
    LoadedBuffer,
> {
    Seq::new(loaded.len(), |i: int| i).filter_map(
        |i: int|
            if is_stale(loaded, wanted, i) {
                None
            } else {
                Some(loaded[i])
            },
    )
}

/// Where no two shown buffers share a file, no buffer of a file without
/// changes stays shown: it is stale and leaves the view. Where two buffers
/// share a file, only the last of them is looked at.
pub proof fn lemma_unchanged_file_leaves(
    loaded: Seq<LoadedBuffer>,
    wanted: Seq<PathKey>,
    index: int,
)
    requires
        files_distinct(loaded),
        0 <= index < loaded.len(),
        loaded[index].key() matches Some(key) && !wanted.contains(key),
    ensures
        is_stale(loaded, wanted, index),
        buffers_to_evict(loaded, wanted).contains(loaded[index].buffer),
{
    assert(is_stale(loaded, wanted, index));
    lemma_evicted_iff_stale(loaded, wanted, loaded[index].buffer);
}

/// A view in which every buffer with a file shows a requested file evicts
/// nothing.
pub proof fn lemma_settled_view_evicts_nothing(loaded: Seq<LoadedBuffer>, wanted: Seq<PathKey>)
    requires
        forall|i: int|
            0 <= i < loaded.len() ==> (#[trigger] loaded[i].key() matches Some(key)
                ==> wanted.contains(key)),
    ensures
        buffers_to_evict(loaded, wanted).len() == 0,
{
    let evicted = buffers_to_evict(loaded, wanted);
    if evicted.len() > 0 {
        assert(evicted.contains(evicted[0]));
        lemma_evicted_iff_stale(loaded, wanted, evicted[0]);
        let i = choose|i: int|
            0 <= i < loaded.len() && #[trigger] is_stale(loaded, wanted, i) && loaded[i].buffer
                == evicted[0];
        assert(loaded[i].key() is Some);
    }
}

/// Where no two shown buffers share a file, a second round on the same
/// status evicts nothing of what the first round left in the view.
pub proof fn lemma_second_round_evicts_nothing(loaded: Seq<LoadedBuffer>, wanted: Seq<PathKey>)
    requires
        files_distinct(loaded),
    ensures
        buffers_to_evict(buffers_that_stay(loaded, wanted), wanted).len() == 0,
{
    let indices = Seq::new(loaded.len(), |i: int| i);
    let f = |i: int|
        if is_stale(loaded, wanted, i) {
            None
        } else {
            Some(loaded[i])
        };
    let stay = buffers_that_stay(loaded, wanted);
    assert forall|j: int| 0 <= j < stay.len() implies (#[trigger] stay[j].key() matches Some(key)
        ==> wanted.contains(key)) by {
        assert(stay.contains(stay[j]));
        indices.lemma_filter_map_contains(f, stay[j]);
        let t = choose|t: int| #[trigger] indices.contains(t) && f(t) == Some(stay[j]);
        let k = choose|k: int| 0 <= k < indices.len() && indices[k] == t;
        assert(!is_stale(loaded, wanted, t) && loaded[t] == stay[j]);
    }
    lemma_settled_view_evicts_nothing(stay, wanted);
}

/// What one synchronisation round does to the view.
#[derive(Clone, Debug)]
pub struct SyncPlan {
    /// Drop everything the view shows.
    pub clear: bool,
    /// The files to open and to diff, in this order.
    pub load: Vec<ProjectPath>,
    /// The shown buffers whose excerpts are removed.
    pub evict: Vec<BufferId>,
}

impl SyncPlan {
    /// The plan for a project without an active repository: the view is
    /// emptied and nothing is loaded.
    pub open spec fn is_clear_all(self) -> bool {
        self.clear && self.load@.len() == 0 && self.evict@.len() == 0
    }

    /// The plan for a repository with the given status, against the buffers
    /// that the view shows.
    pub open spec fn is_update(self, status: Seq<StatusEntry>, loaded: Seq<LoadedBuffer>) -> bool {
        &&& !self.clear
        &&& path_keys(self.load@) == paths_to_load(status)
        &&& self.evict@ == buffers_to_evict(loaded, paths_to_load(status))
    }
}

/// Whether a buffer after position `index` was opened from the same file.
fn has_later_duplicate(loaded: &Vec<LoadedBuffer>, index: usize, file: &ProjectPath) -> (found:
    bool)
    requires
        index < loaded.len(),
        loaded[index as int].key() == Some(file@),
    ensures
        found == shadowed(loaded@, index as int),
{
    let mut j: usize = index + 1;
    while j < loaded.len()
        invariant
            index < j <= loaded.len(),
            loaded[index as int].key() == Some(file@),
            forall|k: int| index < k < j ==> #[trigger] loaded[k].key() != loaded[index as int].key(),
        decreases loaded.len() - j,
    {
        match &loaded[j].file {
            Some(other) => {
                if other.same_file(file) {
                    assert(loaded[j as int].key() == loaded[index as int].key());
                    return true;
                }
            },
            None => {},
        }
        j += 1;
    }
    false
}

/// The files that the status asks the view to show.
pub fn collect_paths_to_load(status: &Vec<StatusEntry>) -> (load: Vec<ProjectPath>)
    ensures
        path_keys(load@) == paths_to_load(status@),
{
    let mut load: Vec<ProjectPath> = Vec::new();
    let mut i: usize = 0;
    assert(status@.take(0) =~= Seq::<StatusEntry>::empty());
    while i < status.len()
        invariant
            i <= status.len(),
            path_keys(load@) == paths_to_load(status@.take(i as int)),
        decreases status.len() - i,
    {
        let ghost before = status@.take(i as int);
        let ghost after = status@.take(i + 1);
        assert(after.drop_last() =~= before);
        assert(after.last() == status[i as int]);
        let entry = &status[i];
        if entry.has_changes {
            match &entry.project_path {
                Some(path) => {
                    let ghost old_load = load@;
                    load.push(path.duplicate());
                    assert(path_keys(load@) =~= path_keys(old_load) + seq![path@]);
                },
                None => {},
            }
        }
        i += 1;
    }
    assert(status@.take(status.len() as int) =~= status@);
    load
}

/// The shown buffers that no entry of `wanted` asks for.
pub fn collect_buffers_to_evict(loaded: &Vec<LoadedBuffer>, wanted: &Vec<ProjectPath>) -> (evict:
    Vec<BufferId>)
    ensures
        evict@ == buffers_to_evict(loaded@, path_keys(wanted@)),
{
    let ghost keys = path_keys(wanted@);
    let ghost pick = |i: int|
        if is_stale(loaded@, keys, i) {
            Some(loaded@[i].buffer)
        } else {
            None
        };
    let mut evict: Vec<BufferId> = Vec::new();
    let mut i: usize = 0;
    while i < loaded.len()
        invariant
            i <= loaded.len(),
            keys == path_keys(wanted@),
            pick == (|i: int|
                if is_stale(loaded@, keys, i) {
                    Some(loaded@[i].buffer)
                } else {
                    None
                }),
            evict@ == Seq::new(i as nat, |k: int| k).filter_map(pick),
        decreases loaded.len() - i,
    {
        let ghost indices = Seq::new((i + 1) as nat, |k: int| k);
        assert(indices.drop_last() =~= Seq::new(i as nat, |k: int| k));
        assert(indices.last() == i as int);
        let stale = match &loaded[i].file {
            Some(file) => !contains_path(wanted, file) && !has_later_duplicate(loaded, i, file),
            None => false,
        };
        assert(stale == is_stale(loaded@, keys, i as int));
        if stale {
            evict.push(loaded[i].buffer);
        }
        i += 1;
    }
    evict
}

} // verus!
