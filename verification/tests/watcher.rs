use rdg::watcher::{is_ignored_repo_path, should_refresh, EventKind, PathComponent};

fn path(parts: &[&str]) -> Vec<PathComponent> {
    let mut v = vec![PathComponent::RootDir];
    v.extend(parts.iter().map(|p| PathComponent::Normal(p.to_string())));
    v
}

#[test]
fn git_and_target_changes_are_ignored() {
    let root = path(&["repo"]);
    assert!(is_ignored_repo_path(&root, &path(&["repo", ".git", "index"])));
    assert!(is_ignored_repo_path(&root, &path(&["repo", "target", "debug"])));
    assert!(is_ignored_repo_path(&root, &path(&["elsewhere", "a.txt"])));
    assert!(!is_ignored_repo_path(&root, &path(&["repo", "src", "target"])));
}

#[test]
fn only_changes_that_matter_refresh() {
    let root = path(&["repo"]);
    assert!(should_refresh(&root, EventKind::Modify, &vec![path(&["repo", "a.txt"])]));
    assert!(should_refresh(&root, EventKind::Create, &vec![]));
    assert!(!should_refresh(&root, EventKind::Access, &vec![path(&["repo", "a.txt"])]));
    assert!(!should_refresh(&root, EventKind::Remove, &vec![path(&["repo", ".git", "HEAD"])]));
    assert!(should_refresh(
        &root,
        EventKind::Remove,
        &vec![path(&["repo", ".git", "HEAD"]), path(&["repo", "b.txt"])]
    ));
}
