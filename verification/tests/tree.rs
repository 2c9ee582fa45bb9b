use rdg::git::{Candidate, ChangeKind};
use rdg::path_order::compare_tree_paths;
use rdg::tree::{
    ancestors, directory_statuses, normalize_path, path_depth, path_name, repo_tree_entries,
    should_skip, status_rank, strongest_status, EntryKind, PathPart, WalkedEntry,
};

#[test]
fn tree_sort_keeps_descendants_under_parent() {
    let mut paths = vec!["a.txt", "a/b.txt", "a", "a/b", "a/b/c.txt", "b"];

    paths.sort_by(|left, right| compare_tree_paths(left, right));

    assert_eq!(
        paths,
        vec!["a", "a/b", "a/b/c.txt", "a/b.txt", "a.txt", "b"]
    );
}

fn candidate(path: &str, kind: ChangeKind, status: &str) -> Candidate {
    Candidate { path: path.to_string(), kind, status: status.to_string() }
}

fn walked(path: &str, is_dir: bool) -> WalkedEntry {
    WalkedEntry {
        path: path.to_string(),
        name: path.rsplit('/').next().unwrap().to_string(),
        is_dir,
    }
}

#[test]
fn paths_have_depth_name_and_ancestors() {
    assert_eq!(path_depth("a/b/c.txt"), 2);
    assert_eq!(path_depth("top"), 0);
    assert_eq!(path_name("a/b/c.txt"), "c.txt");
    assert_eq!(path_name("top"), "top");
    assert_eq!(ancestors("a/b/c.txt"), vec!["a", "a/b"]);
    assert!(ancestors("top").is_empty());
}

#[test]
fn strongest_status_prefers_deleted_then_changed() {
    assert_eq!(strongest_status(ChangeKind::Changed, ChangeKind::Deleted), ChangeKind::Deleted);
    assert_eq!(strongest_status(ChangeKind::Untracked, ChangeKind::Changed), ChangeKind::Changed);
    assert_eq!(strongest_status(ChangeKind::Unchanged, ChangeKind::Untracked), ChangeKind::Untracked);
    assert!(status_rank(ChangeKind::Deleted) > status_rank(ChangeKind::Unchanged));
}

#[test]
fn folders_take_the_strongest_state_below_them() {
    let statuses = directory_statuses(&vec![
        candidate("a/b/c.txt", ChangeKind::Untracked, "??"),
        candidate("a/d.txt", ChangeKind::Changed, " M"),
    ]);
    let find = |p: &str| statuses.iter().find(|s| s.path == p).map(|s| s.kind);
    assert_eq!(find("a"), Some(ChangeKind::Changed));
    assert_eq!(find("a/b"), Some(ChangeKind::Untracked));
    assert_eq!(find("x"), None);
}

#[test]
fn repository_tree_adds_deleted_files_and_sorts() {
    let entries = repo_tree_entries(
        &vec![
            candidate("a/gone.txt", ChangeKind::Deleted, " D"),
            candidate("b.txt", ChangeKind::Changed, " M"),
        ],
        &vec![walked("b.txt", false), walked("a", true), walked("a/keep.txt", false)],
    );
    let paths: Vec<&str> = entries.iter().map(|e| e.path.as_str()).collect();
    assert_eq!(paths, vec!["a", "a/gone.txt", "a/keep.txt", "b.txt"]);
    assert_eq!(entries[0].kind, EntryKind::Directory);
    assert_eq!(entries[0].git_kind, Some(ChangeKind::Deleted));
    assert!(!entries[0].expanded);
    assert_eq!(entries[1].git_kind, Some(ChangeKind::Deleted));
    assert_eq!(entries[1].depth, 1);
    assert_eq!(entries[3].git_kind, Some(ChangeKind::Changed));
    assert!(entries.iter().all(|e| !e.selected));
}

#[test]
fn walk_skips_git_and_target() {
    assert!(should_skip(".git"));
    assert!(should_skip(".git/objects"));
    assert!(should_skip("target/debug"));
    assert!(!should_skip("src/target"));
    assert!(!should_skip("targets"));
}

#[test]
fn normalized_paths_join_named_components() {
    let parts = vec![
        PathPart::Other,
        PathPart::Normal(String::from("src")),
        PathPart::Normal(String::from("main.rs")),
    ];
    assert_eq!(normalize_path(&parts), "src/main.rs");
}

#[test]
fn deleted_files_under_target_stay_out_of_the_tree() {
    let entries = repo_tree_entries(
        &vec![
            candidate("target/x", ChangeKind::Deleted, " D"),
            candidate(".git/y", ChangeKind::Deleted, " D"),
            candidate("targets/z", ChangeKind::Deleted, " D"),
        ],
        &vec![],
    );
    let paths: Vec<&str> = entries.iter().map(|e| e.path.as_str()).collect();
    assert_eq!(paths, vec!["targets", "targets/z"]);
}

#[test]
fn deleted_files_bring_each_missing_folder_once() {
    let entries = repo_tree_entries(
        &vec![
            candidate("x/y/one.txt", ChangeKind::Deleted, " D"),
            candidate("x/y/two.txt", ChangeKind::Deleted, " D"),
            candidate("x/z/three.txt", ChangeKind::Deleted, " D"),
        ],
        &vec![walked("x", true), walked("x/keep.txt", false)],
    );
    let paths: Vec<&str> = entries.iter().map(|e| e.path.as_str()).collect();
    assert_eq!(
        paths,
        vec!["x", "x/keep.txt", "x/y", "x/y/one.txt", "x/y/two.txt", "x/z", "x/z/three.txt"]
    );
    for pair in paths.windows(2) {
        assert_eq!(compare_tree_paths(pair[0], pair[1]), std::cmp::Ordering::Less);
    }
}

#[test]
fn walked_paths_under_git_and_target_stay_out_of_the_tree() {
    let entries = repo_tree_entries(
        &vec![],
        &vec![
            walked(".git", true),
            walked(".git/HEAD", false),
            walked("src", true),
            walked("src/target", false),
            walked("target", true),
            walked("target/debug", true),
        ],
    );
    let paths: Vec<&str> = entries.iter().map(|e| e.path.as_str()).collect();
    assert_eq!(paths, vec!["src", "src/target"]);
}
