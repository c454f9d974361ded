//! Paths of files inside a project, and the buffers that show them.

use vstd::prelude::*;

verus! {

/// What identifies a file of the project: the worktree it belongs to and its
/// path relative to that worktree's root.
pub struct PathKey {
    pub worktree_id: usize,
    pub path: Seq<char>,
}

/// The location of a file: a worktree and a path relative to its root.
#[derive(Clone, Debug)]
pub struct ProjectPath {
    pub worktree_id: usize,
    pub path: String,
}

impl View for ProjectPath {
    type V = PathKey;

    open spec fn view(&self) -> PathKey {
        PathKey { worktree_id: self.worktree_id, path: self.path@ }
    }
}

impl ProjectPath {
    /// Whether two locations name the same file.
    pub fn same_file(&self, other: &ProjectPath) -> (same: bool)
        ensures
            same == (self@ == other@),
    {
        self.worktree_id == other.worktree_id && self.path == other.path
    }

    /// A second, independent value naming the same file.
    pub fn duplicate(&self) -> (copy: ProjectPath)
        ensures
            copy@ == self@,
    {
        ProjectPath { worktree_id: self.worktree_id, path: self.path.clone() }
    }
}

/// The keys of a list of locations, in the same order.
pub open spec fn path_keys(paths: Seq<ProjectPath>) -> Seq<PathKey> {
    paths.map_values(|p: ProjectPath| p@)
}

/// Whether `needle` names one of the files in `paths`.
pub fn contains_path(paths: &Vec<ProjectPath>, needle: &ProjectPath) -> (found: bool)
    ensures
        found == path_keys(paths@).contains(needle@),
{
    let mut i: usize = 0;
    while i < paths.len()
        invariant
            i <= paths.len(),
            forall|k: int| 0 <= k < i ==> path_keys(paths@)[k] != needle@,
        decreases paths.len() - i,
    {
        if paths[i].same_file(needle) {
            assert(path_keys(paths@)[i as int] == needle@);
            return true;
        }
        i += 1;
    }
    false
}

/// The handle of a text buffer held by the editor.
#[derive(Clone, Copy, Debug, PartialEq, Eq, Hash, Structural)]
pub struct BufferId(pub u64);

} // verus!
