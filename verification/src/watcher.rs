//! Which file-system events call for reloading the repository.

use vstd::prelude::*;

use crate::text::{chars_of, eq_str};

verus! {

/// One component of a path, as the platform's path parser yields them.
#[derive(Debug)]
pub enum PathComponent {
    Prefix(String),
    RootDir,
    CurDir,
    ParentDir,
    Normal(String),
}

/// The mathematical value of a `PathComponent`.
pub enum ComponentView {
    Prefix(Seq<char>),
    RootDir,
    CurDir,
    ParentDir,
    Normal(Seq<char>),
}

impl View for PathComponent {
    type V = ComponentView;

    open spec fn view(&self) -> ComponentView {
        match self {
            PathComponent::Prefix(s) => ComponentView::Prefix(s@),
            PathComponent::RootDir => ComponentView::RootDir,
            PathComponent::CurDir => ComponentView::CurDir,
            PathComponent::ParentDir => ComponentView::ParentDir,
            PathComponent::Normal(s) => ComponentView::Normal(s@),
        }
    }
}

/// The views of the components of a path.
pub open spec fn components(v: Seq<PathComponent>) -> Seq<ComponentView> {
    v.map_values(|c: PathComponent| c@)
}

/// The views of the components of several paths.
pub open spec fn paths(v: Seq<Vec<PathComponent>>) -> Seq<Seq<ComponentView>> {
    v.map_values(|p: Vec<PathComponent>| components(p@))
}

/// What happened to the paths of an event.
#[derive(Clone, Copy, Debug, PartialEq, Eq, Structural)]
pub enum EventKind {
    Access,
    Create,
    Modify,
    Remove,
    Other,
}

/// A path lies outside the repository, or under its `.git` or `target`
/// folder.
pub open spec fn ignored_path(root: Seq<ComponentView>, path: Seq<ComponentView>) -> bool {
    if !(root.len() <= path.len() && path.take(root.len() as int) == root) {
        true
    } else if path.len() > root.len() {
        path[root.len() as int] == ComponentView::Normal(".git"@)
            || path[root.len() as int] == ComponentView::Normal("target"@)
    } else {
        false
    }
}

/// An event calls for a reload when it creates, changes or removes
/// something and names no path, or names a path that is not ignored.
pub open spec fn should_refresh_spec(
    root: Seq<ComponentView>,
    kind: EventKind,
    event_paths: Seq<Seq<ComponentView>>,
) -> bool {
    &&& (kind == EventKind::Create || kind == EventKind::Modify || kind == EventKind::Remove)
    &&& (event_paths.len() == 0 || exists|i: int|
        0 <= i < event_paths.len() && !ignored_path(root, #[trigger] event_paths[i]))
}

fn same_component(a: &PathComponent, b: &PathComponent) -> (r: bool)
    ensures
        r == (a@ == b@),
{
    match (a, b) {
        (PathComponent::Prefix(x), PathComponent::Prefix(y)) => *x == *y,
        (PathComponent::RootDir, PathComponent::RootDir) => true,
        (PathComponent::CurDir, PathComponent::CurDir) => true,
        (PathComponent::ParentDir, PathComponent::ParentDir) => true,
        (PathComponent::Normal(x), PathComponent::Normal(y)) => *x == *y,
        _ => false,
    }
}

/// Whether `path` lies outside the repository at `root`, or under its
/// `.git` or `target` folder.
pub fn is_ignored_repo_path(root: &Vec<PathComponent>, path: &Vec<PathComponent>) -> (r: bool)
    ensures
        r == ignored_path(components(root@), components(path@)),
{
    if root.len() > path.len() {
        return true;
    }
    let mut i: usize = 0;
    while i < root.len()
        invariant
            root@.len() <= path@.len(),
            i <= root@.len(),
            components(path@).take(i as int) == components(root@).take(i as int),
        decreases root@.len() - i,
    {
        if !same_component(&root[i], &path[i]) {
            assert(components(path@).take(root@.len() as int)[i as int] != components(
                root@,
            )[i as int]);
            return true;
        }
        assert(components(path@).take(i + 1) =~= components(root@).take(i + 1));
        i = i + 1;
    }
    assert(components(root@).take(root@.len() as int) =~= components(root@));
    if path.len() > root.len() {
        match &path[root.len()] {
            PathComponent::Normal(name) => {
                let nv = chars_of(name.as_str());
                eq_str(&nv, ".git") || eq_str(&nv, "target")
            },
            _ => false,
        }
    } else {
        false
    }
}

/// Whether an event of `kind` on `event_paths` calls for reloading the
/// repository at `root`.
pub fn should_refresh(root: &Vec<PathComponent>, kind: EventKind, event_paths: &Vec<Vec<PathComponent>>) -> (r: bool)
    ensures
        r == should_refresh_spec(components(root@), kind, paths(event_paths@)),
{
    match kind {
        EventKind::Create | EventKind::Modify | EventKind::Remove => {},
        _ => {
            return false;
        },
    }
    if event_paths.len() == 0 {
        return true;
    }
    let mut i: usize = 0;
    while i < event_paths.len()
        invariant
            i <= event_paths@.len(),
            kind == EventKind::Create || kind == EventKind::Modify || kind == EventKind::Remove,
            forall|j: int| 0 <= j < i ==> ignored_path(components(root@), #[trigger] paths(event_paths@)[j]),
        decreases event_paths@.len() - i,
    {
        assert(paths(event_paths@)[i as int] == components(event_paths@[i as int]@));
        if !is_ignored_repo_path(root, &event_paths[i]) {
            assert(!ignored_path(components(root@), paths(event_paths@)[i as int]));
            return true;
        }
        i = i + 1;
    }
    false
}

} // verus!
