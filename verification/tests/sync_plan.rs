use project_diff::project_diff::ProjectDiff;
use project_diff::project_path::{contains_path, BufferId, ProjectPath};
use project_diff::sync_plan::{
    collect_buffers_to_evict, collect_paths_to_load, LoadedBuffer, StatusEntry,
};

fn path(worktree_id: usize, path: &str) -> ProjectPath {
    ProjectPath { worktree_id, path: path.to_string() }
}

fn entry(has_changes: bool, project_path: Option<ProjectPath>) -> StatusEntry {
    StatusEntry { has_changes, project_path }
}

fn shown(buffer: u64, file: Option<ProjectPath>) -> LoadedBuffer {
    LoadedBuffer { buffer: BufferId(buffer), file }
}

fn keys(paths: &[ProjectPath]) -> Vec<(usize, String)> {
    paths.iter().map(|p| (p.worktree_id, p.path.clone())).collect()
}

#[test]
fn without_repository_the_view_is_cleared() {
    let loaded = vec![shown(1, Some(path(0, "a.rs"))), shown(2, None)];
    let plan = ProjectDiff::buffers_to_load(None, &loaded);
    assert!(plan.clear);
    assert!(plan.load.is_empty());
    assert!(plan.evict.is_empty());
}

#[test]
fn empty_status_loads_nothing_and_evicts_every_file_buffer() {
    let loaded = vec![shown(1, Some(path(0, "a.rs"))), shown(2, None), shown(3, Some(path(0, "b.rs")))];
    let status = vec![];
    let plan = ProjectDiff::buffers_to_load(Some(&status), &loaded);
    assert!(!plan.clear);
    assert!(plan.load.is_empty());
    assert_eq!(plan.evict, vec![BufferId(1), BufferId(3)]);
}

#[test]
fn only_changed_entries_inside_the_project_are_loaded_in_status_order() {
    let status = vec![
        entry(true, Some(path(1, "src/z.rs"))),
        entry(false, Some(path(1, "src/unchanged.rs"))),
        entry(true, None),
        entry(true, Some(path(0, "README.md"))),
        entry(false, None),
        entry(true, Some(path(1, "src/a.rs"))),
    ];
    let plan = ProjectDiff::buffers_to_load(Some(&status), &vec![]);
    assert!(!plan.clear);
    assert_eq!(
        keys(&plan.load),
        vec![
            (1, "src/z.rs".to_string()),
            (0, "README.md".to_string()),
            (1, "src/a.rs".to_string()),
        ]
    );
    assert!(plan.evict.is_empty());
}

#[test]
fn a_path_named_twice_is_loaded_twice() {
    let status = vec![entry(true, Some(path(0, "a.rs"))), entry(true, Some(path(0, "a.rs")))];
    let load = collect_paths_to_load(&status);
    assert_eq!(keys(&load), vec![(0, "a.rs".to_string()), (0, "a.rs".to_string())]);
}

#[test]
fn buffers_of_changed_files_stay_and_the_others_leave() {
    let status = vec![
        entry(true, Some(path(0, "kept.rs"))),
        entry(false, Some(path(0, "reverted.rs"))),
    ];
    let loaded = vec![
        shown(10, Some(path(0, "reverted.rs"))),
        shown(11, Some(path(0, "kept.rs"))),
        shown(12, None),
        shown(13, Some(path(0, "deleted.rs"))),
    ];
    let plan = ProjectDiff::buffers_to_load(Some(&status), &loaded);
    assert_eq!(keys(&plan.load), vec![(0, "kept.rs".to_string())]);
    assert_eq!(plan.evict, vec![BufferId(10), BufferId(13)]);
}

#[test]
fn the_worktree_is_part_of_the_file_identity() {
    let status = vec![entry(true, Some(path(1, "main.rs")))];
    let loaded = vec![shown(1, Some(path(1, "main.rs"))), shown(2, Some(path(2, "main.rs")))];
    let plan = ProjectDiff::buffers_to_load(Some(&status), &loaded);
    assert_eq!(plan.evict, vec![BufferId(2)]);
}

#[test]
fn of_two_buffers_on_one_file_only_the_last_is_evicted() {
    let loaded = vec![
        shown(1, Some(path(0, "a.rs"))),
        shown(2, Some(path(0, "b.rs"))),
        shown(3, Some(path(0, "a.rs"))),
    ];
    let evict = collect_buffers_to_evict(&loaded, &vec![]);
    assert_eq!(evict, vec![BufferId(2), BufferId(3)]);
}

#[test]
fn a_shadowed_buffer_of_a_changed_file_stays_too() {
    let loaded = vec![shown(1, Some(path(0, "a.rs"))), shown(3, Some(path(0, "a.rs")))];
    let evict = collect_buffers_to_evict(&loaded, &vec![path(0, "a.rs")]);
    assert!(evict.is_empty());
}

#[test]
fn an_evicted_file_is_never_among_the_loaded_ones() {
    let status = vec![
        entry(true, Some(path(0, "a.rs"))),
        entry(true, Some(path(0, "c.rs"))),
        entry(false, Some(path(0, "b.rs"))),
    ];
    let loaded = vec![
        shown(1, Some(path(0, "a.rs"))),
        shown(2, Some(path(0, "b.rs"))),
        shown(3, Some(path(0, "c.rs"))),
        shown(4, Some(path(0, "d.rs"))),
    ];
    let plan = ProjectDiff::buffers_to_load(Some(&status), &loaded);
    for evicted in &plan.evict {
        let buffer = loaded.iter().find(|b| b.buffer == *evicted).unwrap();
        let file = buffer.file.as_ref().unwrap();
        assert!(!contains_path(&plan.load, file));
    }
    assert_eq!(plan.evict, vec![BufferId(2), BufferId(4)]);
}

#[test]
fn paths_compare_by_worktree_and_text() {
    assert!(path(3, "a/b").same_file(&path(3, "a/b")));
    assert!(!path(3, "a/b").same_file(&path(4, "a/b")));
    assert!(!path(3, "a/b").same_file(&path(3, "a/c")));
    let copy = path(7, "x").duplicate();
    assert_eq!((copy.worktree_id, copy.path.as_str()), (7, "x"));
    let all = vec![path(0, "a"), path(1, "b")];
    assert!(contains_path(&all, &path(1, "b")));
    assert!(!contains_path(&all, &path(0, "b")));
    assert!(!contains_path(&vec![], &path(0, "a")));
}

#[test]
fn where_no_file_is_shown_twice_no_unchanged_file_stays() {
    let status = vec![entry(true, Some(path(0, "a.rs"))), entry(false, Some(path(0, "b.rs")))];
    let loaded = vec![
        shown(1, Some(path(0, "a.rs"))),
        shown(2, Some(path(0, "b.rs"))),
        shown(3, None),
        shown(4, Some(path(1, "b.rs"))),
    ];
    let plan = ProjectDiff::buffers_to_load(Some(&status), &loaded);
    for buffer in &loaded {
        let unchanged = match &buffer.file {
            Some(file) => !contains_path(&plan.load, file),
            None => false,
        };
        assert_eq!(plan.evict.contains(&buffer.buffer), unchanged);
    }
}

#[test]
fn a_second_round_on_the_same_status_evicts_nothing() {
    let status = vec![entry(true, Some(path(0, "a.rs"))), entry(true, Some(path(0, "n.rs")))];
    let loaded = vec![
        shown(1, Some(path(0, "a.rs"))),
        shown(2, Some(path(0, "b.rs"))),
        shown(3, None),
    ];
    let first = ProjectDiff::buffers_to_load(Some(&status), &loaded);
    assert_eq!(first.evict, vec![BufferId(2)]);
    let mut after: Vec<LoadedBuffer> =
        loaded.into_iter().filter(|b| !first.evict.contains(&b.buffer)).collect();
    after.push(shown(9, Some(path(0, "n.rs"))));
    let second = ProjectDiff::buffers_to_load(Some(&status), &after);
    assert!(second.evict.is_empty());
}

#[test]
fn with_a_file_shown_twice_a_second_round_evicts_the_buffer_that_was_shadowed() {
    let loaded = vec![shown(1, Some(path(0, "old.rs"))), shown(2, Some(path(0, "old.rs")))];
    let first = collect_buffers_to_evict(&loaded, &vec![]);
    assert_eq!(first, vec![BufferId(2)]);
    let after = vec![shown(1, Some(path(0, "old.rs")))];
    let second = collect_buffers_to_evict(&after, &vec![]);
    assert_eq!(second, vec![BufferId(1)]);
}
