//! The repository tree: one entry per file or folder under the repository
//! root (and per deleted file that Git still knows), coloured by Git state.

use vstd::prelude::*;

use crate::git::{Candidate, CandidateView, ChangeKind, candidate_views};
use crate::path_order::{
    join_on, tree_order, tree_order_of, Order, lemma_join_concat, lemma_join_split,
    lemma_split_join, lemma_split_nonempty, lemma_split_parts_without, lemma_tree_order_equal,
};
use crate::text::{
    chars_of, eq_str, push_char, split_chars, split_on, string_from_chars, views,
};

verus! {

/// Whether an entry is a folder or a file.
#[derive(Clone, Copy, Debug, PartialEq, Eq, Structural)]
pub enum EntryKind {
    Directory,
    File,
}

/// One row of the repository tree.
#[derive(Debug)]
pub struct TreeEntry {
    pub path: String,
    pub name: String,
    pub kind: EntryKind,
    pub depth: usize,
    pub git_kind: Option<ChangeKind>,
    pub status: String,
    pub selected: bool,
    pub expanded: bool,
}

/// The mathematical value of a `TreeEntry`.
pub struct TreeEntryView {
    pub path: Seq<char>,
    pub name: Seq<char>,
    pub kind: EntryKind,
    pub depth: nat,
    pub git_kind: Option<ChangeKind>,
    pub status: Seq<char>,
    pub selected: bool,
    pub expanded: bool,
}

impl View for TreeEntry {
    type V = TreeEntryView;

    open spec fn view(&self) -> TreeEntryView {
        TreeEntryView {
            path: self.path@,
            name: self.name@,
            kind: self.kind,
            depth: self.depth as nat,
            git_kind: self.git_kind,
            status: self.status@,
            selected: self.selected,
            expanded: self.expanded,
        }
    }
}

/// The views of a sequence of tree entries.
pub open spec fn entry_views(v: Seq<TreeEntry>) -> Seq<TreeEntryView> {
    v.map_values(|e: TreeEntry| e@)
}

impl TreeEntry {
    /// Whether the entry is a folder.
    pub fn is_dir(&self) -> (b: bool)
        ensures
            b == (self.kind == EntryKind::Directory),
    {
        self.kind == EntryKind::Directory
    }

    /// A copy of the entry.
    pub fn duplicate(&self) -> (e: TreeEntry)
        ensures
            e@ == self@,
    {
        TreeEntry {
            path: self.path.clone(),
            name: self.name.clone(),
            kind: self.kind,
            depth: self.depth,
            git_kind: self.git_kind,
            status: self.status.clone(),
            selected: self.selected,
            expanded: self.expanded,
        }
    }

    /// The candidate that deploying this entry sends: none for a folder; a
    /// file without Git state counts as unchanged.
    pub fn deploy_candidate(&self) -> (c: Option<Candidate>)
        ensures
            self.kind == EntryKind::Directory ==> c is None,
            self.kind == EntryKind::File ==> (c matches Some(c) && c@ == deploy_view(self@)),
    {
        if self.is_dir() {
            return None;
        }
        Some(
            Candidate {
                path: self.path.clone(),
                kind: match self.git_kind {
                    Some(k) => k,
                    None => ChangeKind::Unchanged,
                },
                status: self.status.clone(),
            },
        )
    }
}

/// The candidate that a file entry stands for.
pub open spec fn deploy_view(e: TreeEntryView) -> CandidateView {
    CandidateView {
        path: e.path,
        kind: match e.git_kind {
            Some(k) => k,
            None => ChangeKind::Unchanged,
        },
        status: e.status,
    }
}

/// A file is deployed under its own path and Git status line, with the
/// change kind that Git reports for it (a deleted file stays deleted); only a
/// file without Git state is sent as unchanged.
pub proof fn lemma_deploy_keeps_git_state(e: TreeEntryView)
    ensures
        deploy_view(e).path == e.path,
        deploy_view(e).status == e.status,
        forall|k: ChangeKind| e.git_kind == Some(k) ==> deploy_view(e).kind == k,
        e.git_kind is None ==> deploy_view(e).kind == ChangeKind::Unchanged,
{
}

// ---- Git state of folders ----

/// How strongly a change kind colours a folder.
pub open spec fn rank(kind: ChangeKind) -> nat {
    match kind {
        ChangeKind::Unchanged => 0,
        ChangeKind::Untracked => 1,
        ChangeKind::Changed => 2,
        ChangeKind::Deleted => 3,
    }
}

/// The rank of a change kind.
pub fn status_rank(kind: ChangeKind) -> (r: u8)
    ensures
        r == rank(kind),
{
    match kind {
        ChangeKind::Unchanged => 0,
        ChangeKind::Untracked => 1,
        ChangeKind::Changed => 2,
        ChangeKind::Deleted => 3,
    }
}

pub open spec fn strongest(left: ChangeKind, right: ChangeKind) -> ChangeKind {
    if rank(right) > rank(left) {
        right
    } else {
        left
    }
}

/// The stronger of two change kinds (the left one on a tie).
pub fn strongest_status(left: ChangeKind, right: ChangeKind) -> (k: ChangeKind)
    ensures
        k == strongest(left, right),
{
    if status_rank(right) > status_rank(left) {
        right
    } else {
        left
    }
}

/// Only one change kind has each rank.
pub proof fn lemma_rank_injective(a: ChangeKind, b: ChangeKind)
    ensures
        rank(a) == rank(b) ==> a == b,
{
}

/// `strongest` keeps the higher rank: it is commutative and associative, so a
/// folder's state does not depend on the order in which its files are seen.
pub proof fn lemma_strongest_laws(a: ChangeKind, b: ChangeKind, c: ChangeKind)
    ensures
        rank(strongest(a, b)) == if rank(a) >= rank(b) {
            rank(a)
        } else {
            rank(b)
        },
        strongest(a, b) == strongest(b, a),
        strongest(strongest(a, b), c) == strongest(a, strongest(b, c)),
        strongest(a, a) == a,
{
}

/// The number of `c` in `s`.
pub open spec fn count_char(s: Seq<char>, c: char) -> nat
    decreases s.len(),
{
    if s.len() == 0 {
        0
    } else {
        count_char(s.drop_last(), c) + if s.last() == c {
            1nat
        } else {
            0
        }
    }
}

/// A path's depth: the number of `/` in it.
pub fn path_depth(path: &str) -> (d: usize)
    ensures
        d == count_char(path@, '/'),
{
    let cs = chars_of(path);
    let mut d: usize = 0;
    let mut i: usize = 0;
    assert(cs@.take(0) =~= Seq::<char>::empty());
    while i < cs.len()
        invariant
            i <= cs@.len(),
            d <= i,
            d == count_char(cs@.take(i as int), '/'),
        decreases cs@.len() - i,
    {
        assert(cs@.take(i + 1).drop_last() =~= cs@.take(i as int));
        if cs[i] == '/' {
            d = d + 1;
        }
        i = i + 1;
    }
    assert(cs@.take(i as int) =~= cs@);
    d
}

/// The last component of a path.
pub open spec fn last_component(path: Seq<char>) -> Seq<char> {
    split_on(path, '/').last()
}

/// A path's last component (its file or folder name).
pub fn path_name(path: &str) -> (n: String)
    ensures
        n@ == last_component(path@),
{
    let parts = split_chars(&chars_of(path), '/');
    proof {
        lemma_split_nonempty(path@, '/');
    }
    let k = parts.len() - 1;
    assert(views(parts@)[k as int] == parts@[k as int]@);
    string_from_chars(&parts[k])
}

/// The folders that contain `path`, outermost first: the prefixes of `path`
/// that end just before one of its `/`.
pub open spec fn ancestors_of(path: Seq<char>) -> Seq<Seq<char>> {
    let parts = split_on(path, '/');
    Seq::new((parts.len() - 1) as nat, |i: int| join_on(parts.take(i + 1), '/'))
}

fn join_prefix(parts: &Vec<Vec<char>>, n: usize) -> (r: Vec<char>)
    requires
        1 <= n <= parts@.len(),
    ensures
        r@ == join_on(views(parts@).take(n as int), '/'),
{
    let mut acc: Vec<char> = sub_vec_all(&parts[0]);
    let mut k: usize = 1;
    assert(views(parts@).take(1) =~= seq![parts@[0]@]);
    while k < n
        invariant
            1 <= k <= n <= parts@.len(),
            acc@ == join_on(views(parts@).take(k as int), '/'),
        decreases n - k,
    {
        proof {
            let a = views(parts@).take(k as int);
            let b = seq![parts@[k as int]@];
            lemma_join_concat(a, b, '/');
            assert(a + b =~= views(parts@).take(k + 1));
        }
        acc.push('/');
        let mut j: usize = 0;
        let ghost mid = acc@;
        while j < parts[k].len()
            invariant
                k < parts@.len(),
                j <= parts@[k as int]@.len(),
                acc@ == mid + parts@[k as int]@.take(j as int),
            decreases parts@[k as int]@.len() - j,
        {
            acc.push(parts[k][j]);
            j = j + 1;
            assert(acc@ =~= mid + parts@[k as int]@.take(j as int));
        }
        assert(parts@[k as int]@.take(j as int) =~= parts@[k as int]@);
        k = k + 1;
    }
    acc
}

fn sub_vec_all(v: &Vec<char>) -> (r: Vec<char>)
    ensures
        r@ == v@,
{
    crate::text::sub_chars(v, 0, v.len())
}

/// The folders that contain `path`, outermost first.
pub fn ancestors(path: &str) -> (r: Vec<String>)
    ensures
        r@.map_values(|s: String| s@) == ancestors_of(path@),
{
    let parts = split_chars(&chars_of(path), '/');
    proof {
        lemma_split_nonempty(path@, '/');
    }
    let mut out: Vec<String> = Vec::new();
    let mut index: usize = 1;
    while index < parts.len()
        invariant
            1 <= index <= parts@.len(),
            views(parts@) == split_on(path@, '/'),
            out@.len() == index - 1,
            forall|i: int|
                0 <= i < out@.len() ==> #[trigger] out@[i]@ == join_on(
                    views(parts@).take(i + 1),
                    '/',
                ),
        decreases parts@.len() - index,
    {
        let joined = join_prefix(&parts, index);
        out.push(string_from_chars(&joined));
        index = index + 1;
    }
    assert(out@.map_values(|s: String| s@) =~= ancestors_of(path@));
    out
}

/// The Git state of the folder `dir`: the strongest kind among the candidates
/// inside it, or none when no candidate is inside it.
pub open spec fn dir_status(cands: Seq<CandidateView>, dir: Seq<char>) -> Option<ChangeKind>
    decreases cands.len(),
{
    if cands.len() == 0 {
        None
    } else {
        let prev = dir_status(cands.drop_last(), dir);
        if ancestors_of(cands.last().path).contains(dir) {
            Some(combine(prev, cands.last().kind))
        } else {
            prev
        }
    }
}

pub open spec fn combine(prev: Option<ChangeKind>, kind: ChangeKind) -> ChangeKind {
    match prev {
        None => kind,
        Some(k) => strongest(k, kind),
    }
}

/// A folder's state is the highest-ranked kind of the candidates inside it.
pub proof fn lemma_dir_status_is_strongest(cands: Seq<CandidateView>, dir: Seq<char>)
    ensures
        dir_status(cands, dir) is None <==> (forall|i: int|
            0 <= i < cands.len() ==> !ancestors_of(#[trigger] cands[i].path).contains(dir)),
        dir_status(cands, dir) matches Some(k) ==> (exists|i: int|
            0 <= i < cands.len() && ancestors_of(#[trigger] cands[i].path).contains(dir)
                && cands[i].kind == k),
        dir_status(cands, dir) matches Some(k) ==> (forall|i: int|
            0 <= i < cands.len() && ancestors_of(#[trigger] cands[i].path).contains(dir) ==> rank(
                cands[i].kind,
            ) <= rank(k)),
    decreases cands.len(),
{
    if cands.len() > 0 {
        let d = cands.drop_last();
        lemma_dir_status_is_strongest(d, dir);
        assert forall|i: int| 0 <= i < d.len() implies d[i] == cands[i] by {}
        let n = cands.len() - 1;
        assert(cands[n] == cands.last());
        if ancestors_of(cands[n].path).contains(dir) {
            match dir_status(d, dir) {
                Some(k0) => {
                    let j = choose|j: int|
                        0 <= j < d.len() && ancestors_of(#[trigger] d[j].path).contains(dir)
                            && d[j].kind == k0;
                    assert(cands[j] == d[j]);
                },
                None => {},
            }
        }
    }
}

/// The paths of a list of folder states are distinct.
pub open spec fn distinct_dirs(list: Seq<DirStatus>) -> bool {
    forall|i: int, j: int| 0 <= i < j < list.len() ==> list[i].path@ != list[j].path@
}

/// What a list of folder states says of `dir`.
pub open spec fn lookup_dir(list: Seq<DirStatus>, dir: Seq<char>) -> Option<ChangeKind> {
    if exists|i: int| 0 <= i < list.len() && #[trigger] list[i].path@ == dir {
        Some(list[choose|i: int| 0 <= i < list.len() && #[trigger] list[i].path@ == dir].kind)
    } else {
        None
    }
}

/// The Git state of one folder.
#[derive(Debug)]
pub struct DirStatus {
    pub path: String,
    pub kind: ChangeKind,
}

proof fn lemma_lookup_at(list: Seq<DirStatus>, i: int)
    requires
        distinct_dirs(list),
        0 <= i < list.len(),
    ensures
        lookup_dir(list, list[i].path@) == Some(list[i].kind),
{
    let d = list[i].path@;
    assert(list[i].path@ == d);
    let j = choose|j: int| 0 <= j < list.len() && #[trigger] list[j].path@ == d;
    if j < i {
    } else if i < j {
    }
}

proof fn lemma_lookup_push(list: Seq<DirStatus>, x: DirStatus, d: Seq<char>)
    requires
        distinct_dirs(list),
        lookup_dir(list, x.path@) is None,
    ensures
        distinct_dirs(list.push(x)),
        lookup_dir(list.push(x), d) == if d == x.path@ {
            Some(x.kind)
        } else {
            lookup_dir(list, d)
        },
{
    let l2 = list.push(x);
    assert forall|i: int, j: int| 0 <= i < j < l2.len() implies l2[i].path@ != l2[j].path@ by {
        if j == list.len() {
            assert(list[i].path@ == l2[i].path@);
        }
    }
    if d == x.path@ {
        lemma_lookup_at(l2, list.len() as int);
    } else {
        if exists|i: int| 0 <= i < list.len() && #[trigger] list[i].path@ == d {
            let i = choose|i: int| 0 <= i < list.len() && #[trigger] list[i].path@ == d;
            lemma_lookup_at(list, i);
            assert(l2[i] == list[i]);
            lemma_lookup_at(l2, i);
        } else {
            assert forall|i: int| 0 <= i < l2.len() implies #[trigger] l2[i].path@ != d by {
                if i < list.len() {
                    assert(l2[i] == list[i]);
                }
            }
        }
    }
}

proof fn lemma_lookup_update(list: Seq<DirStatus>, i: int, x: DirStatus, d: Seq<char>)
    requires
        distinct_dirs(list),
        0 <= i < list.len(),
        x.path@ == list[i].path@,
    ensures
        distinct_dirs(list.update(i, x)),
        lookup_dir(list.update(i, x), d) == if d == x.path@ {
            Some(x.kind)
        } else {
            lookup_dir(list, d)
        },
{
    let l2 = list.update(i, x);
    assert forall|a: int, b: int| 0 <= a < b < l2.len() implies l2[a].path@ != l2[b].path@ by {
        assert(l2[a].path@ == list[a].path@);
        assert(l2[b].path@ == list[b].path@);
    }
    if d == x.path@ {
        lemma_lookup_at(l2, i);
    } else {
        if exists|j: int| 0 <= j < list.len() && #[trigger] list[j].path@ == d {
            let j = choose|j: int| 0 <= j < list.len() && #[trigger] list[j].path@ == d;
            lemma_lookup_at(list, j);
            assert(j != i);
            assert(l2[j] == list[j]);
            lemma_lookup_at(l2, j);
        } else {
            assert forall|j: int| 0 <= j < l2.len() implies #[trigger] l2[j].path@ != d by {
                assert(l2[j].path@ == list[j].path@);
            }
        }
    }
}

proof fn lemma_push_contains<A>(s: Seq<A>, a: A, d: A)
    ensures
        s.push(a).contains(d) == (s.contains(d) || a == d),
{
    let t = s.push(a);
    if s.contains(d) {
        let w = choose|w: int| 0 <= w < s.len() && s[w] == d;
        assert(t[w] == d);
    }
    if a == d {
        assert(t[s.len() as int] == d);
    }
    if t.contains(d) {
        let w = choose|w: int| 0 <= w < t.len() && t[w] == d;
        if w < s.len() {
            assert(s[w] == d);
        }
    }
}

fn find_dir(list: &Vec<DirStatus>, dir: &String) -> (r: Option<usize>)
    requires
        distinct_dirs(list@),
    ensures
        r matches Some(i) ==> i < list@.len() && list@[i as int].path@ == dir@,
        r is None ==> lookup_dir(list@, dir@) is None,
{
    let mut i: usize = 0;
    while i < list.len()
        invariant
            i <= list@.len(),
            forall|k: int| 0 <= k < i ==> #[trigger] list@[k].path@ != dir@,
        decreases list@.len() - i,
    {
        if list[i].path == *dir {
            return Some(i);
        }
        i = i + 1;
    }
    None
}

/// The Git state of every folder that holds a candidate.
pub fn directory_statuses(candidates: &Vec<Candidate>) -> (r: Vec<DirStatus>)
    ensures
        distinct_dirs(r@),
        forall|d: Seq<char>| lookup_dir(r@, d) == dir_status(candidate_views(candidates@), d),
{
    let ghost cv = candidate_views(candidates@);
    let mut list: Vec<DirStatus> = Vec::new();
    let mut i: usize = 0;
    while i < candidates.len()
        invariant
            i <= candidates@.len(),
            cv == candidate_views(candidates@),
            distinct_dirs(list@),
            forall|d: Seq<char>| lookup_dir(list@, d) == dir_status(cv.take(i as int), d),
        decreases candidates@.len() - i,
    {
        let c = &candidates[i];
        let ancs = ancestors(c.path.as_str());
        let ghost av = ancs@.map_values(|s: String| s@);
        let ghost before = cv.take(i as int);
        let mut j: usize = 0;
        while j < ancs.len()
            invariant
                i < candidates@.len(),
                c.kind == candidates@[i as int].kind,
                j <= ancs@.len(),
                cv == candidate_views(candidates@),
                before == cv.take(i as int),
                av == ancs@.map_values(|s: String| s@),
                av == ancestors_of(candidates@[i as int].path@),
                distinct_dirs(list@),
                forall|d: Seq<char>|
                    lookup_dir(list@, d) == if av.take(j as int).contains(d) {
                        Some(combine(dir_status(before, d), candidates@[i as int].kind))
                    } else {
                        dir_status(before, d)
                    },
            decreases ancs@.len() - j,
        {
            let a = &ancs[j];
            let ghost ad = a@;
            let ghost old_list = list@;
            assert(av[j as int] == ad);
            assert(lookup_dir(old_list, ad) == if av.take(j as int).contains(ad) {
                Some(combine(dir_status(before, ad), candidates@[i as int].kind))
            } else {
                dir_status(before, ad)
            });
            match find_dir(&list, a) {
                Some(idx) => {
                    let k = strongest_status(list[idx].kind, c.kind);
                    let x = DirStatus { path: a.clone(), kind: k };
                    let ghost xg = x;
                    assert(xg.kind == strongest(old_list[idx as int].kind, candidates@[i as int].kind));
                    proof {
                        lemma_lookup_at(old_list, idx as int);
                    }
                    list.set(idx, x);
                    proof {
                        assert forall|d: Seq<char>|
                            lookup_dir(list@, d) == if av.take(j + 1).contains(d) {
                                Some(combine(dir_status(before, d), candidates@[i as int].kind))
                            } else {
                                dir_status(before, d)
                            } by {
                            lemma_lookup_update(old_list, idx as int, xg, d);
                            assert(av.take(j + 1) =~= av.take(j as int).push(ad));
                            lemma_push_contains(av.take(j as int), ad, d);
                            if d == ad {
                                assert(av.take(j + 1).contains(d));
                                assert(lookup_dir(list@, d) == Some(xg.kind));
                                assert(old_list[idx as int].path@ == ad);
                                assert(lookup_dir(old_list, ad) == Some(old_list[idx as int].kind));
                            } else {
                                assert(lookup_dir(list@, d) == lookup_dir(old_list, d));
                            }
                        }
                        lemma_lookup_update(old_list, idx as int, xg, ad);
                    }
                },
                None => {
                    let x = DirStatus { path: a.clone(), kind: c.kind };
                    let ghost xg = x;
                    list.push(x);
                    proof {
                        assert forall|d: Seq<char>|
                            lookup_dir(list@, d) == if av.take(j + 1).contains(d) {
                                Some(combine(dir_status(before, d), candidates@[i as int].kind))
                            } else {
                                dir_status(before, d)
                            } by {
                            lemma_lookup_push(old_list, xg, d);
                            assert(av.take(j + 1) =~= av.take(j as int).push(ad));
                            lemma_push_contains(av.take(j as int), ad, d);
                        }
                        lemma_lookup_push(old_list, xg, ad);
                    }
                },
            }
            j = j + 1;
        }
        proof {
            assert(av.take(j as int) =~= av);
            assert(cv.take(i + 1).drop_last() =~= before);
            assert(cv.take(i + 1).last() == candidates@[i as int]@);
        }
        i = i + 1;
    }
    assert(cv.take(i as int) =~= cv);
    list
}

// ---- building the tree ----

/// A file or folder that the walk of the repository found.
#[derive(Debug)]
pub struct WalkedEntry {
    /// Path relative to the repository root, components joined with `/`.
    pub path: String,
    /// The file or folder name.
    pub name: String,
    pub is_dir: bool,
}

pub struct WalkedView {
    pub path: Seq<char>,
    pub name: Seq<char>,
    pub is_dir: bool,
}

impl View for WalkedEntry {
    type V = WalkedView;

    open spec fn view(&self) -> WalkedView {
        WalkedView { path: self.path@, name: self.name@, is_dir: self.is_dir }
    }
}

pub open spec fn walked_views(v: Seq<WalkedEntry>) -> Seq<WalkedView> {
    v.map_values(|w: WalkedEntry| w@)
}

/// The last candidate for `path` (later status entries win).
pub open spec fn status_of(cands: Seq<CandidateView>, path: Seq<char>) -> Option<CandidateView>
    decreases cands.len(),
{
    if cands.len() == 0 {
        None
    } else if cands.last().path == path {
        Some(cands.last())
    } else {
        status_of(cands.drop_last(), path)
    }
}

/// The tree entry for a path that the walk found.
pub open spec fn walked_entry(cands: Seq<CandidateView>, w: WalkedView) -> TreeEntryView {
    TreeEntryView {
        path: w.path,
        name: w.name,
        kind: if w.is_dir {
            EntryKind::Directory
        } else {
            EntryKind::File
        },
        depth: count_char(w.path, '/'),
        git_kind: match status_of(cands, w.path) {
            Some(c) => Some(c.kind),
            None => dir_status(cands, w.path),
        },
        status: match status_of(cands, w.path) {
            Some(c) => c.status,
            None => Seq::empty(),
        },
        selected: false,
        expanded: !w.is_dir,
    }
}

/// The entry for a folder of a deleted file that is gone from disk.
pub open spec fn missing_dir_entry(cands: Seq<CandidateView>, dir: Seq<char>) -> TreeEntryView {
    TreeEntryView {
        path: dir,
        name: last_component(dir),
        kind: EntryKind::Directory,
        depth: count_char(dir, '/'),
        git_kind: Some(
            match dir_status(cands, dir) {
                Some(k) => k,
                None => ChangeKind::Deleted,
            },
        ),
        status: Seq::empty(),
        selected: false,
        expanded: false,
    }
}

/// The entry for a deleted file.
pub open spec fn deleted_file_entry(c: CandidateView) -> TreeEntryView {
    TreeEntryView {
        path: c.path,
        name: last_component(c.path),
        kind: EntryKind::File,
        depth: count_char(c.path, '/'),
        git_kind: Some(ChangeKind::Deleted),
        status: c.status,
        selected: false,
        expanded: true,
    }
}

/// Entries for the folders among `dirs` not yet in `known`, and `known`
/// with them added.
pub open spec fn missing_dirs(
    cands: Seq<CandidateView>,
    dirs: Seq<Seq<char>>,
    known: Seq<Seq<char>>,
) -> (Seq<Seq<char>>, Seq<TreeEntryView>)
    decreases dirs.len(),
{
    if dirs.len() == 0 {
        (known, Seq::empty())
    } else if known.contains(dirs[0]) {
        missing_dirs(cands, dirs.drop_first(), known)
    } else {
        let rest = missing_dirs(cands, dirs.drop_first(), known.push(dirs[0]));
        (rest.0, seq![missing_dir_entry(cands, dirs[0])] + rest.1)
    }
}

/// No later candidate has the path of candidate `i`.
pub open spec fn is_last_for_path(cands: Seq<CandidateView>, i: int) -> bool {
    forall|j: int| i < j < cands.len() ==> #[trigger] cands[j].path != cands[i].path
}

/// A path under the `.git` or `target` folder at the top of the repository:
/// the tree leaves these out.
pub open spec fn excluded_path(p: Seq<char>) -> bool {
    split_on(p, '/')[0] == ".git"@ || split_on(p, '/')[0] == "target"@
}

/// Entries for the deleted files (from candidate `i` on) that are not in
/// `known` and not under `.git` or `target`, each preceded by entries for its
/// folders that are not known either.
pub open spec fn missing_entries(cands: Seq<CandidateView>, i: int, known: Seq<Seq<char>>) -> Seq<
    TreeEntryView,
>
    decreases cands.len() - i,
{
    if i < 0 || i >= cands.len() {
        Seq::empty()
    } else {
        let c = cands[i];
        if is_last_for_path(cands, i) && c.kind == ChangeKind::Deleted && !known.contains(c.path)
            && !excluded_path(c.path) {
            let dirs = missing_dirs(cands, ancestors_of(c.path), known);
            dirs.1 + seq![deleted_file_entry(c)] + missing_entries(cands, i + 1, dirs.0.push(c.path))
        } else {
            missing_entries(cands, i + 1, known)
        }
    }
}

/// `v` is in tree order.
pub open spec fn sorted_in_tree_order(v: Seq<TreeEntryView>) -> bool {
    forall|i: int, j: int| 0 <= i < j < v.len() ==> tree_order(v[i].path, v[j].path) != Order::Greater
}

/// A fresh entry: not selected, folders collapsed and files expanded.
pub open spec fn is_fresh(e: TreeEntryView) -> bool {
    !e.selected && (e.expanded <==> e.kind == EntryKind::File)
}

fn last_candidate_for(cands: &Vec<Candidate>, path: &String) -> (r: Option<usize>)
    ensures
        r matches Some(i) ==> i < cands@.len() && status_of(candidate_views(cands@), path@) == Some(
            cands@[i as int]@,
        ),
        r is None ==> status_of(candidate_views(cands@), path@) is None,
{
    let ghost cv = candidate_views(cands@);
    let mut i = cands.len();
    assert(cv.take(i as int) =~= cv);
    while i > 0
        invariant
            i <= cands@.len(),
            cv == candidate_views(cands@),
            status_of(cv, path@) == status_of(cv.take(i as int), path@),
        decreases i,
    {
        assert(cv.take(i as int).drop_last() =~= cv.take(i - 1));
        assert(cv.take(i as int).last() == cands@[i - 1]@);
        if cands[i - 1].path == *path {
            return Some(i - 1);
        }
        i = i - 1;
    }
    assert(cv.take(0) =~= Seq::<CandidateView>::empty());
    None
}

fn lookup_dir_kind(list: &Vec<DirStatus>, dir: &String) -> (r: Option<ChangeKind>)
    requires
        distinct_dirs(list@),
    ensures
        r == lookup_dir(list@, dir@),
{
    match find_dir(list, dir) {
        Some(i) => {
            proof {
                lemma_lookup_at(list@, i as int);
            }
            Some(list[i].kind)
        },
        None => None,
    }
}

fn contains_string(v: &Vec<String>, s: &String) -> (b: bool)
    ensures
        b == v@.map_values(|x: String| x@).contains(s@),
{
    let ghost vv = v@.map_values(|x: String| x@);
    let mut i: usize = 0;
    while i < v.len()
        invariant
            i <= v@.len(),
            vv == v@.map_values(|x: String| x@),
            forall|k: int| 0 <= k < i ==> vv[k] != s@,
        decreases v@.len() - i,
    {
        if v[i] == *s {
            assert(vv[i as int] == s@);
            return true;
        }
        i = i + 1;
    }
    false
}

fn walked_tree_entry(cands: &Vec<Candidate>, dirs: &Vec<DirStatus>, w: &WalkedEntry) -> (e: TreeEntry)
    requires
        distinct_dirs(dirs@),
        forall|d: Seq<char>| lookup_dir(dirs@, d) == dir_status(candidate_views(cands@), d),
    ensures
        e@ == walked_entry(candidate_views(cands@), w@),
{
    let found = last_candidate_for(cands, &w.path);
    let git_kind = match found {
        Some(i) => Some(cands[i].kind),
        None => lookup_dir_kind(dirs, &w.path),
    };
    let status = match found {
        Some(i) => cands[i].status.clone(),
        None => String::new(),
    };
    TreeEntry {
        name: w.name.clone(),
        depth: path_depth(w.path.as_str()),
        path: w.path.clone(),
        kind: if w.is_dir {
            EntryKind::Directory
        } else {
            EntryKind::File
        },
        git_kind,
        status,
        selected: false,
        expanded: !w.is_dir,
    }
}

fn is_last_exec(cands: &Vec<Candidate>, i: usize) -> (b: bool)
    requires
        i < cands.len(),
    ensures
        b == is_last_for_path(candidate_views(cands@), i as int),
{
    let ghost cv = candidate_views(cands@);
    let mut j = i + 1;
    while j < cands.len()
        invariant
            i < j <= cands@.len(),
            cv == candidate_views(cands@),
            forall|k: int| i < k < j ==> #[trigger] cv[k].path != cv[i as int].path,
        decreases cands@.len() - j,
    {
        if cands[j].path == cands[i].path {
            assert(cv[j as int].path == cv[i as int].path);
            return false;
        }
        j = j + 1;
    }
    true
}

proof fn lemma_missing_dirs_fresh(cands: Seq<CandidateView>, dirs: Seq<Seq<char>>, known: Seq<Seq<char>>)
    ensures
        forall|k: int|
            0 <= k < missing_dirs(cands, dirs, known).1.len() ==> is_fresh(
                #[trigger] missing_dirs(cands, dirs, known).1[k],
            ),
    decreases dirs.len(),
{
    if dirs.len() > 0 {
        if known.contains(dirs[0]) {
            lemma_missing_dirs_fresh(cands, dirs.drop_first(), known);
            assert(missing_dirs(cands, dirs, known) == missing_dirs(cands, dirs.drop_first(), known));
        } else {
            lemma_missing_dirs_fresh(cands, dirs.drop_first(), known.push(dirs[0]));
            let rest = missing_dirs(cands, dirs.drop_first(), known.push(dirs[0]));
            assert(missing_dirs(cands, dirs, known).1 == seq![missing_dir_entry(cands, dirs[0])]
                + rest.1);
            assert forall|k: int|
                0 <= k < missing_dirs(cands, dirs, known).1.len() implies is_fresh(
                #[trigger] missing_dirs(cands, dirs, known).1[k],
            ) by {
                if k > 0 {
                    assert(missing_dirs(cands, dirs, known).1[k] == rest.1[k - 1]);
                }
            }
        }
    }
}

proof fn lemma_missing_entries_fresh(cands: Seq<CandidateView>, i: int, known: Seq<Seq<char>>)
    ensures
        forall|k: int|
            0 <= k < missing_entries(cands, i, known).len() ==> is_fresh(
                #[trigger] missing_entries(cands, i, known)[k],
            ),
    decreases cands.len() - i,
{
    if 0 <= i < cands.len() {
        let c = cands[i];
        if is_last_for_path(cands, i) && c.kind == ChangeKind::Deleted && !known.contains(c.path)
            && !excluded_path(c.path) {
            let dirs = missing_dirs(cands, ancestors_of(c.path), known);
            lemma_missing_dirs_fresh(cands, ancestors_of(c.path), known);
            lemma_missing_entries_fresh(cands, i + 1, dirs.0.push(c.path));
            let tail = missing_entries(cands, i + 1, dirs.0.push(c.path));
            let all = missing_entries(cands, i, known);
            assert(all == dirs.1 + seq![deleted_file_entry(c)] + tail);
            assert forall|k: int| 0 <= k < all.len() implies is_fresh(#[trigger] all[k]) by {
                if k < dirs.1.len() {
                    assert(all[k] == dirs.1[k]);
                } else if k == dirs.1.len() {
                } else {
                    assert(all[k] == tail[k - dirs.1.len() - 1]);
                }
            }
        } else {
            lemma_missing_entries_fresh(cands, i + 1, known);
            assert(missing_entries(cands, i, known) == missing_entries(cands, i + 1, known));
        }
    }
}

/// The paths of entries, in their order.
pub open spec fn entry_paths(v: Seq<TreeEntryView>) -> Seq<Seq<char>> {
    v.map_values(|e: TreeEntryView| e.path)
}

/// `v` is strictly in tree order, so no path occurs twice.
pub open spec fn strictly_in_tree_order(v: Seq<TreeEntryView>) -> bool {
    forall|i: int, j: int| 0 <= i < j < v.len() ==> tree_order(v[i].path, v[j].path) == Order::Less
}

/// Every folder above a path of `paths` is among `paths` too.
pub open spec fn closed_under_parents(paths: Seq<Seq<char>>) -> bool {
    forall|k: int, m: int|
        0 <= k < paths.len() && 0 <= m < ancestors_of(paths[k]).len() ==> paths.contains(
            #[trigger] ancestors_of(paths[k])[m],
        )
}

/// The folders above the `j`-th folder above `p` are the folders above `p`
/// before it.
proof fn lemma_ancestors_of_ancestor(p: Seq<char>, j: int)
    requires
        0 <= j < ancestors_of(p).len(),
    ensures
        ancestors_of(ancestors_of(p)[j]) == ancestors_of(p).take(j),
{
    let parts = split_on(p, '/');
    lemma_split_parts_without(p, '/');
    let q = parts.take(j + 1);
    assert forall|k: int, i: int| 0 <= k < q.len() && 0 <= i < q[k].len() implies #[trigger] q[k][i]
        != '/' by {
        assert(q[k] == parts[k]);
    }
    lemma_split_join(q, '/');
    let a = ancestors_of(p)[j];
    assert(a == join_on(q, '/'));
    assert forall|i: int| 0 <= i < j implies ancestors_of(a)[i] == ancestors_of(p)[i] by {
        assert(q.take(i + 1) =~= parts.take(i + 1));
    }
    assert(ancestors_of(a) =~= ancestors_of(p).take(j));
}

/// The walked entries outside `.git` and `target`, in their order.
pub open spec fn kept_walk(ws: Seq<WalkedView>) -> Seq<WalkedView>
    decreases ws.len(),
{
    if ws.len() == 0 {
        Seq::empty()
    } else {
        let r = kept_walk(ws.drop_last());
        if excluded_path(ws.last().path) {
            r
        } else {
            r.push(ws.last())
        }
    }
}

/// The paths of walked entries, in their order.
pub open spec fn walked_paths(ws: Seq<WalkedView>) -> Seq<Seq<char>> {
    ws.map_values(|x: WalkedView| x.path)
}

/// An entry is kept exactly when it was walked and lies outside `.git` and
/// `target`.
proof fn lemma_kept_walk_contains(ws: Seq<WalkedView>, x: WalkedView)
    ensures
        kept_walk(ws).contains(x) == (ws.contains(x) && !excluded_path(x.path)),
    decreases ws.len(),
{
    if ws.len() > 0 {
        let init = ws.drop_last();
        lemma_kept_walk_contains(init, x);
        assert(ws =~= init.push(ws.last()));
        let r = kept_walk(init);
        if ws.contains(x) && x != ws.last() {
            let j = choose|j: int| 0 <= j < ws.len() && ws[j] == x;
            assert(init[j] == x);
        }
        if init.contains(x) {
            let j = choose|j: int| 0 <= j < init.len() && init[j] == x;
            assert(ws[j] == x);
        }
        if !excluded_path(ws.last().path) {
            if r.push(ws.last()).contains(x) && x != ws.last() {
                let j = choose|j: int| 0 <= j < r.len() + 1 && r.push(ws.last())[j] == x;
                assert(r[j] == x);
            }
            if r.contains(x) {
                let j = choose|j: int| 0 <= j < r.len() && r[j] == x;
                assert(r.push(ws.last())[j] == x);
            }
            assert(r.push(ws.last())[r.len() as int] == ws.last());
            assert(ws[ws.len() - 1] == ws.last());
        } else {
            assert(ws[ws.len() - 1] == ws.last());
        }
    }
}

/// Keeping part of a walk with distinct paths keeps the paths distinct.
proof fn lemma_kept_walk_distinct(ws: Seq<WalkedView>)
    requires
        walked_paths(ws).no_duplicates(),
    ensures
        walked_paths(kept_walk(ws)).no_duplicates(),
    decreases ws.len(),
{
    if ws.len() > 0 {
        let init = ws.drop_last();
        assert(walked_paths(init) =~= walked_paths(ws).drop_last());
        lemma_kept_walk_distinct(init);
        let r = kept_walk(init);
        if !excluded_path(ws.last().path) {
            let rp = walked_paths(r.push(ws.last()));
            assert(rp =~= walked_paths(r).push(ws.last().path));
            assert forall|a: int, b: int| 0 <= a < rp.len() && 0 <= b < rp.len() && a != b implies rp[a]
                != rp[b] by {
                if a == r.len() || b == r.len() {
                    let o = if a == r.len() { b } else { a };
                    lemma_kept_walk_contains(init, r[o]);
                    assert(r.contains(r[o]));
                    let j = choose|j: int| 0 <= j < init.len() && init[j] == r[o];
                    assert(walked_paths(ws)[j] == init[j].path);
                    assert(walked_paths(ws)[ws.len() - 1] == ws.last().path);
                }
            }
        }
    }
}

/// The first component of a folder above `p` is that of `p`.
proof fn lemma_ancestor_first_part(p: Seq<char>, j: int)
    requires
        0 <= j < ancestors_of(p).len(),
    ensures
        split_on(ancestors_of(p)[j], '/')[0] == split_on(p, '/')[0],
        excluded_path(ancestors_of(p)[j]) == excluded_path(p),
{
    let parts = split_on(p, '/');
    lemma_split_parts_without(p, '/');
    let q = parts.take(j + 1);
    assert forall|k: int, i: int| 0 <= k < q.len() && 0 <= i < q[k].len() implies #[trigger] q[k][i]
        != '/' by {
        assert(q[k] == parts[k]);
    }
    lemma_split_join(q, '/');
    assert(ancestors_of(p)[j] == join_on(q, '/'));
}

/// Keeping part of a walk that holds the folders above each of its paths
/// keeps that closure: the folders above a path lie in the same top folder.
proof fn lemma_kept_walk_closed(ws: Seq<WalkedView>)
    requires
        closed_under_parents(walked_paths(ws)),
    ensures
        closed_under_parents(walked_paths(kept_walk(ws))),
{
    let kw = kept_walk(ws);
    let kp = walked_paths(kw);
    let wp = walked_paths(ws);
    assert forall|k: int, m: int|
        0 <= k < kp.len() && 0 <= m < ancestors_of(kp[k]).len() implies kp.contains(
        #[trigger] ancestors_of(kp[k])[m],
    ) by {
        let x = kw[k];
        assert(kp[k] == x.path);
        assert(kw.contains(x));
        lemma_kept_walk_contains(ws, x);
        let t = choose|t: int| 0 <= t < ws.len() && ws[t] == x;
        assert(wp[t] == x.path);
        assert(wp.contains(ancestors_of(wp[t])[m]));
        let u = choose|u: int| 0 <= u < wp.len() && wp[u] == ancestors_of(x.path)[m];
        lemma_ancestor_first_part(x.path, m);
        assert(ws.contains(ws[u]));
        lemma_kept_walk_contains(ws, ws[u]);
        let v = choose|v: int| 0 <= v < kw.len() && kw[v] == ws[u];
        assert(kp[v] == kw[v].path);
    }
}

/// Adding a path whose folders are all there keeps `known` closed under
/// parents.
proof fn lemma_closed_push(known: Seq<Seq<char>>, x: Seq<char>)
    requires
        closed_under_parents(known),
        forall|m: int| 0 <= m < ancestors_of(x).len() ==> known.contains(#[trigger] ancestors_of(x)[m]),
    ensures
        closed_under_parents(known.push(x)),
{
    let kp = known.push(x);
    assert forall|k: int, m: int|
        0 <= k < kp.len() && 0 <= m < ancestors_of(kp[k]).len() implies kp.contains(
        #[trigger] ancestors_of(kp[k])[m],
    ) by {
        let a = ancestors_of(kp[k])[m];
        if k < known.len() {
            assert(kp[k] == known[k]);
            assert(known.contains(ancestors_of(known[k])[m]));
        } else {
            assert(kp[k] == x);
            assert(known.contains(ancestors_of(x)[m]));
        }
        let w = choose|w: int| 0 <= w < known.len() && known[w] == a;
        assert(kp[w] == known[w]);
    }
}

/// A folder above `p` is shorter than `p`.
proof fn lemma_ancestor_shorter(p: Seq<char>, k: int)
    requires
        0 <= k < ancestors_of(p).len(),
    ensures
        ancestors_of(p)[k].len() < p.len(),
{
    let parts = split_on(p, '/');
    lemma_join_split(p, '/');
    let x = parts.take(k + 1);
    let y = parts.skip(k + 1);
    assert(parts =~= x + y);
    lemma_join_concat(x, y, '/');
}

/// Sorts tree entries into tree order, keeping the order of equal paths.
pub fn sort_tree_entries(v: Vec<TreeEntry>) -> (r: Vec<TreeEntry>)
    ensures
        entry_views(r@).to_multiset() == entry_views(v@).to_multiset(),
        sorted_in_tree_order(entry_views(r@)),
        entry_paths(entry_views(v@)).no_duplicates() ==> entry_paths(
            entry_views(r@),
        ).no_duplicates(),
{
    let ghost distinct = entry_paths(entry_views(v@)).no_duplicates();
    let mut out: Vec<TreeEntry> = Vec::new();
    let mut i: usize = 0;
    assert(entry_views(v@).take(0) =~= Seq::<TreeEntryView>::empty());
    assert(entry_views(out@) =~= Seq::<TreeEntryView>::empty());
    while i < v.len()
        invariant
            i <= v@.len(),
            entry_views(out@).to_multiset() == entry_views(v@).take(i as int).to_multiset(),
            sorted_in_tree_order(entry_views(out@)),
            distinct == entry_paths(entry_views(v@)).no_duplicates(),
            forall|k: int|
                0 <= k < out@.len() ==> exists|j: int|
                    0 <= j < i && #[trigger] entry_views(out@)[k] == entry_views(v@)[j],
            distinct ==> entry_paths(entry_views(out@)).no_duplicates(),
        decreases v@.len() - i,
    {
        let x = v[i].duplicate();
        let mut p: usize = 0;
        while p < out.len() && tree_order_of(out[p].path.as_str(), x.path.as_str())
            != Order::Greater
            invariant
                p <= out@.len(),
                forall|k: int|
                    0 <= k < p ==> tree_order(out@[k].path@, x.path@) != Order::Greater,
            decreases out@.len() - p,
        {
            p = p + 1;
        }
        let ghost before = entry_views(out@);
        out.insert(p, x);
        proof {
            assert(entry_views(out@) =~= before.insert(p as int, x@));
            lemma_seq_insert_multiset(before, p as int, x@);
            let nv = entry_views(out@);
            assert forall|k: int| 0 <= k < out@.len() implies exists|j: int|
                0 <= j < i + 1 && #[trigger] nv[k] == entry_views(v@)[j] by {
                if k < p {
                    assert(nv[k] == before[k]);
                } else if k == p {
                    assert(nv[k] == entry_views(v@)[i as int]);
                } else {
                    assert(nv[k] == before[k - 1]);
                }
            }
            if distinct {
                assert forall|a: int, b: int|
                    0 <= a < nv.len() && 0 <= b < nv.len() && a != b implies entry_paths(nv)[a]
                    != entry_paths(nv)[b] by {
                    assert(entry_paths(nv)[a] == nv[a].path);
                    assert(entry_paths(nv)[b] == nv[b].path);
                    assert(entry_paths(before).no_duplicates());
                    if a != p && b != p {
                        let a0 = if a < p { a } else { a - 1 };
                        let b0 = if b < p { b } else { b - 1 };
                        assert(nv[a] == before[a0]);
                        assert(nv[b] == before[b0]);
                        assert(entry_paths(before)[a0] == before[a0].path);
                        assert(entry_paths(before)[b0] == before[b0].path);
                    } else {
                        let o = if a == p { b } else { a };
                        let o0 = if o < p { o } else { o - 1 };
                        assert(nv[o] == before[o0]);
                        let j = choose|j: int| 0 <= j < i && #[trigger] before[o0] == entry_views(v@)[j];
                        assert(entry_paths(entry_views(v@))[j] == entry_views(v@)[j].path);
                        assert(entry_paths(entry_views(v@))[i as int] == entry_views(v@)[i as int].path);
                        assert(nv[p as int] == entry_views(v@)[i as int]);
                    }
                }
            }
            assert(entry_views(v@).take(i + 1) =~= entry_views(v@).take(i as int).push(
                v@[i as int]@,
            ));
            vstd::seq_lib::to_multiset_build(entry_views(v@).take(i as int), v@[i as int]@);
            let ov = entry_views(out@);
            assert forall|a: int, b: int| 0 <= a < b < ov.len() implies tree_order(
                ov[a].path,
                ov[b].path,
            ) != Order::Greater by {
                if a == p && b > p {
                    crate::path_order::lemma_tree_order_swap(before[p as int].path, x@.path);
                    if b - 1 > p {
                        crate::path_order::lemma_tree_order_transitive(
                            x@.path,
                            before[p as int].path,
                            before[b - 1].path,
                        );
                    }
                }
            }
        }
        i = i + 1;
    }
    assert(entry_views(v@).take(i as int) =~= entry_views(v@));
    out
}

proof fn lemma_seq_insert_multiset<A>(s: Seq<A>, i: int, x: A)
    requires
        0 <= i <= s.len(),
    ensures
        s.insert(i, x).to_multiset() == s.to_multiset().insert(x),
{
    broadcast use vstd::seq_lib::group_to_multiset_ensures;

    let t = s.insert(i, x);
    assert(t.remove(i) =~= s);
    assert(t[i] == x);
    assert(t.contains(x));
    assert(t.to_multiset() =~= s.to_multiset().insert(x));
}

/// The repository tree from what the walk of the repository found and what
/// Git reports: every walked path, then every deleted file that is gone from
/// disk together with its missing folders, all in tree order; nothing under
/// `.git` or `target` is listed. Where the walked paths are distinct and
/// include the folders above each, the result has each path once, strictly
/// in tree order, and includes the folders above each of its paths.
pub fn repo_tree_entries(candidates: &Vec<Candidate>, walked: &Vec<WalkedEntry>) -> (r: Vec<TreeEntry>)
    ensures
        entry_views(r@).to_multiset() == (kept_walk(walked_views(walked@)).map_values(
            |w: WalkedView| walked_entry(candidate_views(candidates@), w),
        ) + missing_entries(
            candidate_views(candidates@),
            0,
            walked_paths(kept_walk(walked_views(walked@))),
        )).to_multiset(),
        sorted_in_tree_order(entry_views(r@)),
        forall|k: int| 0 <= k < r@.len() ==> is_fresh(#[trigger] r@[k]@),
        forall|k: int| 0 <= k < r@.len() ==> !excluded_path(#[trigger] r@[k]@.path),
        walked_views(walked@).map_values(|w: WalkedView| w.path).no_duplicates()
            ==> strictly_in_tree_order(entry_views(r@)),
        closed_under_parents(walked_views(walked@).map_values(|w: WalkedView| w.path))
            ==> closed_under_parents(entry_paths(entry_views(r@))),
{
    let ghost cv = candidate_views(candidates@);
    let dirs = directory_statuses(candidates);
    let mut entries: Vec<TreeEntry> = Vec::new();
    let mut known: Vec<String> = Vec::new();
    let mut w: usize = 0;
    while w < walked.len()
        invariant
            w <= walked@.len(),
            cv == candidate_views(candidates@),
            distinct_dirs(dirs@),
            forall|d: Seq<char>| lookup_dir(dirs@, d) == dir_status(cv, d),
            entry_views(entries@) == kept_walk(walked_views(walked@).take(w as int)).map_values(
                |x: WalkedView| walked_entry(cv, x),
            ),
            known@.map_values(|x: String| x@) == walked_paths(
                kept_walk(walked_views(walked@).take(w as int)),
            ),
        decreases walked@.len() - w,
    {
        let ghost wt = walked_views(walked@).take(w as int);
        let ghost kt = kept_walk(wt);
        proof {
            assert(walked_views(walked@).take(w + 1).drop_last() =~= wt);
            assert(walked_views(walked@).take(w + 1).last() == walked@[w as int]@);
        }
        if !should_skip(walked[w].path.as_str()) {
            let e = walked_tree_entry(candidates, &dirs, &walked[w]);
            let ghost old_e = entry_views(entries@);
            let ghost old_k = known@.map_values(|x: String| x@);
            let ghost eg = e@;
            entries.push(e);
            known.push(walked[w].path.clone());
            proof {
                assert(kept_walk(walked_views(walked@).take(w + 1)) == kt.push(walked@[w as int]@));
                assert(entry_views(entries@) =~= old_e.push(eg));
                assert(kt.push(walked@[w as int]@).map_values(|x: WalkedView| walked_entry(cv, x))
                    =~= kt.map_values(|x: WalkedView| walked_entry(cv, x)).push(
                    walked_entry(cv, walked@[w as int]@),
                ));
                assert(known@.map_values(|x: String| x@) =~= old_k.push(walked@[w as int].path@));
                assert(walked_paths(kt.push(walked@[w as int]@)) =~= walked_paths(kt).push(
                    walked@[w as int]@.path,
                ));
            }
        } else {
            assert(kept_walk(walked_views(walked@).take(w + 1)) == kt);
        }
        w = w + 1;
    }
    let ghost walked_part = entry_views(entries@);
    let ghost k0 = known@.map_values(|x: String| x@);
    assert(walked_views(walked@).take(w as int) =~= walked_views(walked@));
    let ghost distinct = walked_views(walked@).map_values(|x: WalkedView| x.path).no_duplicates();
    let ghost closed = closed_under_parents(walked_views(walked@).map_values(|x: WalkedView| x.path));
    proof {
        let ws = walked_views(walked@);
        assert(walked_paths(ws) =~= ws.map_values(|x: WalkedView| x.path));
        if distinct {
            lemma_kept_walk_distinct(ws);
        }
        if closed {
            lemma_kept_walk_closed(ws);
        }
        assert forall|k: int| 0 <= k < walked_part.len() implies !excluded_path(
            #[trigger] walked_part[k].path,
        ) by {
            let x = kept_walk(ws)[k];
            assert(kept_walk(ws).contains(x));
            lemma_kept_walk_contains(ws, x);
        }
    }
    assert(entry_paths(walked_part) =~= k0);
    let mut i: usize = 0;
    while i < candidates.len()
        invariant
            i <= candidates@.len(),
            cv == candidate_views(candidates@),
            distinct_dirs(dirs@),
            forall|d: Seq<char>| lookup_dir(dirs@, d) == dir_status(cv, d),
            entry_views(entries@) + missing_entries(cv, i as int, known@.map_values(|x: String| x@))
                == walked_part + missing_entries(cv, 0, k0),
            entry_paths(entry_views(entries@)) == known@.map_values(|x: String| x@),
            distinct ==> known@.map_values(|x: String| x@).no_duplicates(),
            closed ==> closed_under_parents(known@.map_values(|x: String| x@)),
            forall|k: int|
                0 <= k < entries@.len() ==> !excluded_path(#[trigger] entry_views(entries@)[k].path),
        decreases candidates@.len() - i,
    {
        let ghost kv = known@.map_values(|x: String| x@);
        let ghost ev = entry_views(entries@);
        let c = &candidates[i];
        let last = is_last_exec(candidates, i);
        if last && c.kind == ChangeKind::Deleted && !contains_string(&known, &c.path)
            && !should_skip(c.path.as_str()) {
            let ancs = ancestors(c.path.as_str());
            let ghost av = ancs@.map_values(|s: String| s@);
            let mut j: usize = 0;
            assert(av.skip(0) =~= av);
            while j < ancs.len()
                invariant
                    j <= ancs@.len(),
                    i < candidates@.len(),
                    cv == candidate_views(candidates@),
                    distinct_dirs(dirs@),
                    forall|d: Seq<char>| lookup_dir(dirs@, d) == dir_status(cv, d),
                    av == ancs@.map_values(|s: String| s@),
                    missing_dirs(cv, av, kv) == (
                        missing_dirs(cv, av.skip(j as int), known@.map_values(|x: String| x@)).0,
                        entry_views(entries@).skip(ev.len() as int) + missing_dirs(
                            cv,
                            av.skip(j as int),
                            known@.map_values(|x: String| x@),
                        ).1,
                    ),
                    entry_views(entries@).take(ev.len() as int) == ev,
                    entry_views(entries@).len() >= ev.len(),
                    av == ancestors_of(cv[i as int].path),
                    entry_paths(entry_views(entries@)) == known@.map_values(|x: String| x@),
                    distinct ==> known@.map_values(|x: String| x@).no_duplicates(),
                    !known@.map_values(|x: String| x@).contains(cv[i as int].path),
                    closed ==> closed_under_parents(known@.map_values(|x: String| x@)),
                    !excluded_path(cv[i as int].path),
                    forall|k: int|
                        0 <= k < entries@.len() ==> !excluded_path(
                            #[trigger] entry_views(entries@)[k].path,
                        ),
                    forall|m: int|
                        0 <= m < j ==> known@.map_values(|x: String| x@).contains(#[trigger] av[m]),
                decreases ancs@.len() - j,
            {
                let ghost kn = known@.map_values(|x: String| x@);
                let ghost en = entry_views(entries@);
                assert(av.skip(j as int)[0] == ancs@[j as int]@);
                assert(av.skip(j as int).drop_first() =~= av.skip(j + 1));
                if !contains_string(&known, &ancs[j]) {
                    let a = &ancs[j];
                    let kind = match lookup_dir_kind(&dirs, a) {
                        Some(k) => k,
                        None => ChangeKind::Deleted,
                    };
                    let e = TreeEntry {
                        name: path_name(a.as_str()),
                        depth: path_depth(a.as_str()),
                        path: a.clone(),
                        kind: EntryKind::Directory,
                        git_kind: Some(kind),
                        status: String::new(),
                        selected: false,
                        expanded: false,
                    };
                    let ghost eg = e@;
                    known.push(a.clone());
                    entries.push(e);
                    proof {
                        assert(eg == missing_dir_entry(cv, av[j as int]));
                        assert(known@.map_values(|x: String| x@) =~= kn.push(av[j as int]));
                        assert(entry_views(entries@) =~= en.push(eg));
                        assert(entry_paths(en.push(eg)) =~= entry_paths(en).push(av[j as int]));
                        lemma_ancestor_shorter(cv[i as int].path, j as int);
                        lemma_ancestors_of_ancestor(cv[i as int].path, j as int);
                        lemma_ancestor_first_part(cv[i as int].path, j as int);
                        assert forall|k: int| 0 <= k < entries@.len() implies !excluded_path(
                            #[trigger] entry_views(entries@)[k].path,
                        ) by {
                            if k < en.len() {
                                assert(entry_views(entries@)[k] == en[k]);
                            }
                        }
                        assert forall|m: int| 0 <= m < ancestors_of(av[j as int]).len() implies kn.contains(
                            #[trigger] ancestors_of(av[j as int])[m],
                        ) by {
                            assert(ancestors_of(av[j as int])[m] == av[m]);
                        }
                        if closed {
                            lemma_closed_push(kn, av[j as int]);
                        }
                        assert forall|m: int| 0 <= m < j + 1 implies kn.push(av[j as int]).contains(
                            #[trigger] av[m],
                        ) by {
                            if m < j {
                                let w = choose|w: int| 0 <= w < kn.len() && kn[w] == av[m];
                                assert(kn.push(av[j as int])[w] == kn[w]);
                            } else {
                                assert(kn.push(av[j as int])[kn.len() as int] == av[m]);
                            }
                        }
                        assert(!kn.push(av[j as int]).contains(cv[i as int].path)) by {
                            if kn.push(av[j as int]).contains(cv[i as int].path) {
                                let m = choose|m: int|
                                    0 <= m < kn.len() + 1 && kn.push(av[j as int])[m]
                                        == cv[i as int].path;
                                if m < kn.len() {
                                    assert(kn[m] == cv[i as int].path);
                                }
                            }
                        }
                        assert(entry_views(entries@).skip(ev.len() as int) =~= en.skip(
                            ev.len() as int,
                        ).push(eg));
                        assert(entry_views(entries@).take(ev.len() as int) =~= en.take(
                            ev.len() as int,
                        ));
                        let rest = missing_dirs(cv, av.skip(j + 1), kn.push(av[j as int]));
                        assert(en.skip(ev.len() as int).push(eg) + rest.1 =~= en.skip(
                            ev.len() as int,
                        ) + (seq![eg] + rest.1));
                    }
                }
                j = j + 1;
            }
            let ghost kd = known@.map_values(|x: String| x@);
            let ghost ed = entry_views(entries@);
            assert(av.skip(j as int) =~= Seq::<Seq<char>>::empty());
            let fe = TreeEntry {
                name: path_name(c.path.as_str()),
                depth: path_depth(c.path.as_str()),
                path: c.path.clone(),
                kind: EntryKind::File,
                git_kind: Some(ChangeKind::Deleted),
                status: c.status.clone(),
                selected: false,
                expanded: true,
            };
            let ghost fg = fe@;
            known.push(c.path.clone());
            entries.push(fe);
            proof {
                assert(fg == deleted_file_entry(cv[i as int]));
                assert(known@.map_values(|x: String| x@) =~= kd.push(cv[i as int].path));
                assert(entry_paths(ed.push(fg)) =~= entry_paths(ed).push(cv[i as int].path));
                assert forall|k: int| 0 <= k < entries@.len() implies !excluded_path(
                    #[trigger] entry_views(entries@)[k].path,
                ) by {
                    if k < ed.len() {
                        assert(entry_views(entries@)[k] == ed[k]);
                    }
                }
                if closed {
                    assert forall|m: int| 0 <= m < ancestors_of(cv[i as int].path).len() implies kd.contains(
                        #[trigger] ancestors_of(cv[i as int].path)[m],
                    ) by {
                        assert(av[m] == ancestors_of(cv[i as int].path)[m]);
                    }
                    lemma_closed_push(kd, cv[i as int].path);
                }
                assert(ed =~= ev + ed.skip(ev.len() as int));
                assert(entry_views(entries@) =~= ed.push(fg));
                let tail = missing_entries(cv, i + 1, kd.push(cv[i as int].path));
                assert(missing_entries(cv, i as int, kv) == missing_dirs(cv, av, kv).1 + seq![fg]
                    + tail);
                assert(entry_views(entries@) + tail =~= ev + (missing_dirs(cv, av, kv).1 + seq![fg]
                    + tail));
            }
        } else {
            assert(missing_entries(cv, i as int, kv) == missing_entries(cv, i + 1, kv));
        }
        i = i + 1;
    }
    assert(missing_entries(cv, i as int, known@.map_values(|x: String| x@)) =~= Seq::<
        TreeEntryView,
    >::empty());
    assert(entry_views(entries@) =~= walked_part + missing_entries(cv, 0, k0));
    proof {
        lemma_missing_entries_fresh(cv, 0, k0);
        let all = walked_part + missing_entries(cv, 0, k0);
        assert forall|k: int| 0 <= k < all.len() implies is_fresh(#[trigger] all[k]) by {
            if k >= walked_part.len() {
                assert(all[k] == missing_entries(cv, 0, k0)[k - walked_part.len()]);
            }
        }
    }
    let ghost ev = entry_views(entries@);
    let sorted = sort_tree_entries(entries);
    proof {
        broadcast use vstd::seq_lib::group_to_multiset_ensures;

        let sv = entry_views(sorted@);
        if closed {
            let sp = entry_paths(sv);
            let ep = entry_paths(ev);
            assert forall|k: int, m: int|
                0 <= k < sp.len() && 0 <= m < ancestors_of(sp[k]).len() implies sp.contains(
                #[trigger] ancestors_of(sp[k])[m],
            ) by {
                assert(sv.contains(sv[k]));
                assert(sv.to_multiset().count(sv[k]) > 0);
                assert(ev.to_multiset().count(sv[k]) > 0);
                assert(ev.contains(sv[k]));
                let t = choose|t: int| 0 <= t < ev.len() && ev[t] == sv[k];
                assert(ep[t] == sp[k]);
                assert(ep.contains(ancestors_of(ep[t])[m]));
                let u = choose|u: int| 0 <= u < ep.len() && ep[u] == ancestors_of(sp[k])[m];
                assert(ev.contains(ev[u]));
                assert(ev.to_multiset().count(ev[u]) > 0);
                assert(sv.contains(ev[u]));
                let v = choose|v: int| 0 <= v < sv.len() && sv[v] == ev[u];
                assert(sp[v] == ep[u]);
            }
        }
        if distinct {
            assert forall|a: int, b: int| 0 <= a < b < sv.len() implies tree_order(
                sv[a].path,
                sv[b].path,
            ) == Order::Less by {
                if tree_order(sv[a].path, sv[b].path) == Order::Equal {
                    lemma_tree_order_equal(sv[a].path, sv[b].path);
                    assert(entry_paths(sv)[a] == entry_paths(sv)[b]);
                }
            }
        }

        let all = walked_part + missing_entries(cv, 0, k0);
        assert forall|k: int| 0 <= k < sorted@.len() implies !excluded_path(
            #[trigger] sorted@[k]@.path,
        ) by {
            let e = entry_views(sorted@)[k];
            assert(entry_views(sorted@).contains(e));
            assert(entry_views(sorted@).to_multiset().count(e) > 0);
            assert(ev.to_multiset().count(e) > 0);
            assert(ev.contains(e));
        }
        assert forall|k: int| 0 <= k < sorted@.len() implies is_fresh(#[trigger] sorted@[k]@) by {
            let e = entry_views(sorted@)[k];
            assert(entry_views(sorted@).contains(e));
            assert(entry_views(sorted@).to_multiset().count(e) > 0);
            assert(all.to_multiset().count(e) > 0);
            assert(all.contains(e));
        }
    }
    sorted
}

/// Whether the walk skips a path: everything under `.git` and `target` at
/// the top of the repository.
pub fn should_skip(relative_path: &str) -> (b: bool)
    ensures
        b == (split_on(relative_path@, '/')[0] == ".git"@ || split_on(relative_path@, '/')[0]
            == "target"@),
{
    let parts = split_chars(&chars_of(relative_path), '/');
    proof {
        lemma_split_nonempty(relative_path@, '/');
    }
    assert(views(parts@)[0] == parts@[0]@);
    eq_str(&parts[0], ".git") || eq_str(&parts[0], "target")
}

/// One component of a filesystem path.
#[derive(Debug)]
pub enum PathPart {
    /// A named component (a file or folder name).
    Normal(String),
    /// A root, prefix, `.` or `..` component.
    Other,
}

/// The named components of a path.
pub open spec fn normal_parts(parts: Seq<PathPart>) -> Seq<Seq<char>>
    decreases parts.len(),
{
    if parts.len() == 0 {
        Seq::empty()
    } else {
        match parts.last() {
            PathPart::Normal(s) => normal_parts(parts.drop_last()).push(s@),
            PathPart::Other => normal_parts(parts.drop_last()),
        }
    }
}

/// A path's named components joined with `/`.
pub fn normalize_path(parts: &Vec<PathPart>) -> (r: String)
    ensures
        r@ == join_on(normal_parts(parts@), '/'),
{
    let mut out = String::new();
    let mut any = false;
    let mut i: usize = 0;
    while i < parts.len()
        invariant
            i <= parts@.len(),
            any == (normal_parts(parts@.take(i as int)).len() > 0),
            out@ == join_on(normal_parts(parts@.take(i as int)), '/'),
        decreases parts@.len() - i,
    {
        assert(parts@.take(i + 1).drop_last() =~= parts@.take(i as int));
        match &parts[i] {
            PathPart::Normal(name) => {
                let ghost before = normal_parts(parts@.take(i as int));
                if any {
                    push_char(&mut out, '/');
                    proof {
                        lemma_join_concat(before, seq![name@], '/');
                        assert(before + seq![name@] =~= before.push(name@));
                    }
                } else {
                    assert(before.push(name@) =~= seq![name@]);
                }
                out.append(name.as_str());
                any = true;
            },
            PathPart::Other => {},
        }
        i = i + 1;
    }
    assert(parts@.take(i as int) =~= parts@);
    out
}

} // verus!
