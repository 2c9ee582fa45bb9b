//! Application state: the repository tree, the cursor and scroll positions,
//! the command line and the preview panes.
//!
//! What needs the outside world (running Git or rsync, reading the
//! repository) is not done here: the state records it as a pending request,
//! and the program that drives the state performs it and hands the outcome
//! back to one of the `apply_*` methods.

use vstd::prelude::*;

use crate::command::{parse, parse_spec, Command, CommandView, ThemeCommand};
use crate::git::{Candidate, CandidateView, ChangeKind, candidate_views, preview_candidate, preview_header};
use crate::keymap::Keymap;
use crate::rsync::{content_diff_text, focus_renders, status_text, RsyncRunReport};
use crate::text::{
    chars_of, decimal, eq_str, push_char, push_decimal, starts_with, string_from_chars, trim,
    trimmed, truncated, utf8_len,
};
use crate::theme::ThemeKind;
use crate::tree::{EntryKind, TreeEntry, TreeEntryView, deploy_view, entry_views};

verus! {

/// The panes that can hold the scroll focus.
#[derive(Clone, Copy, Debug, PartialEq, Eq, Structural)]
pub enum PreviewPane {
    Repository,
    Content,
    Git,
    Rsync,
}

impl PreviewPane {
    /// The pane's name as commands and the status line spell it.
    pub open spec fn label_spec(self) -> &'static str {
        match self {
            PreviewPane::Repository => "repository",
            PreviewPane::Content => "content",
            PreviewPane::Git => "git",
            PreviewPane::Rsync => "rsync",
        }
    }

    /// The pane's name.
    pub fn label(self) -> (s: &'static str)
        ensures
            s@ == self.label_spec()@,
    {
        match self {
            PreviewPane::Repository => "repository",
            PreviewPane::Content => "content",
            PreviewPane::Git => "git",
            PreviewPane::Rsync => "rsync",
        }
    }
}

/// How many rows one step of repository scrolling moves.
pub const REPOSITORY_SCROLL_STEP: usize = 5;

/// What to do once a requested rsync run has reported.
#[derive(Clone, Copy, Debug, PartialEq, Eq, Structural)]
pub enum RsyncFollowUp {
    /// Nothing more.
    Nothing,
    /// A deploy found the dry run out of date and asked for a new one first.
    ReviewBeforeDeploy,
    /// The repository was reloaded; the status line reports the reload.
    Reloaded { entries: usize, selected: usize },
}

/// An rsync run that the state asks for.
#[derive(Debug)]
pub struct RsyncRequest {
    pub selected: Vec<Candidate>,
    pub dry_run: bool,
    pub focus: bool,
    pub follow_up: RsyncFollowUp,
}

/// What asked for the repository to be reloaded.
#[derive(Clone, Copy, Debug, PartialEq, Eq, Structural)]
pub enum RefreshTrigger {
    /// The user (a key or `:refresh`).
    User,
    /// A change on disk.
    FileChange,
}

/// The whole state of the interface.
pub struct App {
    pub repo_root: String,
    pub target: String,
    pub entries: Vec<TreeEntry>,
    pub cursor: usize,
    pub repository_offset: usize,
    pub selected_only: bool,
    pub git_preview: String,
    pub rsync_preview: String,
    pub content_diff_preview: String,
    pub git_scroll: u16,
    pub rsync_scroll: u16,
    pub content_diff_scroll: u16,
    pub rsync_dry_run_ready: bool,
    pub rsync_preview_stale: bool,
    pub rsync_report: Option<RsyncRunReport>,
    pub message: String,
    pub command_input: String,
    pub command_mode: bool,
    pub command_history: Vec<String>,
    pub command_history_cursor: Option<usize>,
    pub show_help: bool,
    pub theme_kind: ThemeKind,
    pub active_pane: PreviewPane,
    pub keymap: Keymap,
    pub should_quit: bool,
    /// A reload of the repository tree that waits to be done.
    pub pending_refresh: Option<RefreshTrigger>,
    /// The candidate whose Git preview waits to be made.
    pub pending_git_preview: Option<Candidate>,
    /// The rsync run that waits to be done.
    pub pending_rsync: Option<RsyncRequest>,
}

// ---- Which rows of the tree are visible ----

/// A folder that is shown collapsed.
pub open spec fn collapsed_dir(e: TreeEntryView) -> bool {
    e.kind == EntryKind::Directory && !e.expanded
}

/// Entry `j` is a collapsed folder and every entry after it, up to and
/// including `i`, lies deeper than it.
pub open spec fn covers(e: Seq<TreeEntryView>, j: int, i: int) -> bool {
    &&& 0 <= j <= i < e.len()
    &&& collapsed_dir(e[j])
    &&& forall|k: int| j < k <= i ==> #[trigger] e[k].depth > e[j].depth
}

/// Entry `i` lies inside a collapsed folder.
pub open spec fn hidden(e: Seq<TreeEntryView>, i: int) -> bool {
    exists|j: int| j < i && #[trigger] covers(e, j, i)
}

/// Whether row `i` is shown: in the selected-files view, the selected files;
/// in the tree view, every entry that no collapsed folder hides.
pub open spec fn shown(e: Seq<TreeEntryView>, selected_only: bool, i: int) -> bool {
    if selected_only {
        e[i].selected && e[i].kind == EntryKind::File
    } else {
        !hidden(e, i)
    }
}

/// The shown indices among the first `n` entries, in order.
pub open spec fn visible_upto(e: Seq<TreeEntryView>, selected_only: bool, n: int) -> Seq<usize>
    decreases n,
{
    if n <= 0 {
        Seq::empty()
    } else if shown(e, selected_only, n - 1) {
        visible_upto(e, selected_only, n - 1).push((n - 1) as usize)
    } else {
        visible_upto(e, selected_only, n - 1)
    }
}

/// The shown indices, in order.
pub open spec fn visible(e: Seq<TreeEntryView>, selected_only: bool) -> Seq<usize> {
    visible_upto(e, selected_only, e.len() as int)
}

/// The shown indices among the first `n` entries are increasing and below `n`.
pub proof fn lemma_visible_upto_bounds(e: Seq<TreeEntryView>, selected_only: bool, n: int)
    requires
        0 <= n <= e.len(),
        e.len() <= usize::MAX,
    ensures
        visible_upto(e, selected_only, n).len() <= n,
        forall|k: int|
            0 <= k < visible_upto(e, selected_only, n).len() ==> #[trigger] visible_upto(
                e,
                selected_only,
                n,
            )[k] < n,
        forall|k: int, l: int|
            0 <= k < l < visible_upto(e, selected_only, n).len() ==> #[trigger] visible_upto(
                e,
                selected_only,
                n,
            )[k] < #[trigger] visible_upto(e, selected_only, n)[l],
        forall|i: int|
            0 <= i < n ==> (shown(e, selected_only, i) <==> visible_upto(
                e,
                selected_only,
                n,
            ).contains(i as usize)),
    decreases n,
{
    if n > 0 {
        lemma_visible_upto_bounds(e, selected_only, n - 1);
        let prev = visible_upto(e, selected_only, n - 1);
        assert forall|i: int| 0 <= i < n implies (shown(e, selected_only, i) <==> visible_upto(
            e,
            selected_only,
            n,
        ).contains(i as usize)) by {
            if shown(e, selected_only, n - 1) {
                let cur = prev.push((n - 1) as usize);
                if i < n - 1 {
                    if prev.contains(i as usize) {
                        let k = choose|k: int| 0 <= k < prev.len() && prev[k] == i as usize;
                        assert(cur[k] == i as usize);
                    }
                    if cur.contains(i as usize) {
                        let k = choose|k: int| 0 <= k < cur.len() && cur[k] == i as usize;
                        assert(k < prev.len());
                        assert(prev[k] == i as usize);
                    }
                } else {
                    assert(cur[prev.len() as int] == i as usize);
                }
            } else {
                if i == n - 1 {
                    if prev.contains(i as usize) {
                        let k = choose|k: int| 0 <= k < prev.len() && prev[k] == i as usize;
                        assert(prev[k] < n - 1);
                    }
                }
            }
        }
    }
}

/// The facts about the visible rows that the methods rely on.
pub proof fn lemma_visible_bounds(e: Seq<TreeEntryView>, selected_only: bool)
    requires
        e.len() <= usize::MAX,
    ensures
        visible(e, selected_only).len() <= e.len(),
        forall|k: int|
            0 <= k < visible(e, selected_only).len() ==> #[trigger] visible(e, selected_only)[k]
                < e.len(),
        forall|i: int|
            0 <= i < e.len() ==> (shown(e, selected_only, i) <==> visible(
                e,
                selected_only,
            ).contains(i as usize)),
{
    lemma_visible_upto_bounds(e, selected_only, e.len() as int);
}

/// The rows shown with the entries `entries`, only the selected files if
/// `selected_only`, as entry indices in order.
fn visible_rows(entries: &Vec<TreeEntry>, selected_only: bool) -> (r: Vec<usize>)
    requires
        entries@.len() < usize::MAX,
    ensures
        r@ == visible(entry_views(entries@), selected_only),
{
    let n = entries.len();
    let ghost e = entry_views(entries@);
    let mut visible: Vec<usize> = Vec::new();
    if selected_only {
        let mut i: usize = 0;
        while i < n
            invariant
                n == entries@.len(),
                e == entry_views(entries@),
                selected_only,
                i <= n,
                visible@ == visible_upto(e, true, i as int),
            decreases n - i,
        {
            if entries[i].selected && !entries[i].is_dir() {
                visible.push(i);
            }
            i = i + 1;
        }
        return visible;
    }
    let mut collapsed: Option<usize> = None;
    let mut i: usize = 0;
    while i < n
        invariant
            n == entries@.len(),
            e == entry_views(entries@),
            !selected_only,
            i <= n,
            visible@ == visible_upto(e, false, i as int),
            match collapsed {
                None => forall|j: int| !#[trigger] covers(e, j, i - 1),
                Some(d) => i > 0 && (exists|j: int| #[trigger] covers(e, j, i - 1) && e[j].depth == d)
                    && (forall|j: int| #[trigger] covers(e, j, i - 1) ==> e[j].depth >= d),
            },
        decreases n - i,
    {
        let depth = entries[i].depth;
        let ghost ii = i as int;
        assert(e[ii].depth == depth);
        let mut closes = false;
        match collapsed {
            Some(d) => {
                if depth <= d {
                    closes = true;
                }
            },
            None => {},
        }
        if closes {
            collapsed = None;
        }
        proof {
            assert forall|j: int| j < ii && #[trigger] covers(e, j, ii) implies covers(e, j, ii - 1) by {
                assert forall|k: int| j < k <= ii - 1 implies #[trigger] e[k].depth
                    > e[j].depth by {
                    assert(e[k].depth > e[j].depth);
                }
            }
        }
        if collapsed.is_none() {
            proof {
                assert(!hidden(e, ii));
            }
            visible.push(i);
            if entries[i].is_dir() && !entries[i].expanded {
                collapsed = Some(depth);
                proof {
                    assert(covers(e, ii, ii));
                    assert forall|j: int| #[trigger] covers(e, j, ii) implies e[j].depth >= depth by {
                        if j < ii {
                            assert(hidden(e, ii));
                        }
                    }
                }
            } else {
                proof {
                    assert forall|j: int| !#[trigger] covers(e, j, ii) by {
                        if covers(e, j, ii) && j < ii {
                            assert(hidden(e, ii));
                        }
                    }
                }
            }
        } else {
            proof {
                let d = collapsed->0;
                let j0 = choose|j: int| #[trigger] covers(e, j, ii - 1) && e[j].depth == d;
                assert(covers(e, j0, ii));
                assert(hidden(e, ii));
                assert forall|j: int| #[trigger] covers(e, j, ii) implies e[j].depth >= d by {
                    if j < ii {
                        assert(covers(e, j, ii - 1));
                    }
                }
            }
        }
        i = i + 1;
    }
    visible
}

// ---- The spec of the state ----

impl App {
    /// The tree entries as values.
    pub open spec fn views(&self) -> Seq<TreeEntryView> {
        entry_views(self.entries@)
    }

    /// The rows shown in the repository pane, as entry indices.
    pub open spec fn visible_spec(&self) -> Seq<usize> {
        visible(self.views(), self.selected_only)
    }

    /// The entry under the cursor.
    pub open spec fn current_index_spec(&self) -> Option<usize> {
        if self.cursor < self.visible_spec().len() {
            Some(self.visible_spec()[self.cursor as int])
        } else {
            None
        }
    }

    /// The path of the file under the cursor (none for a folder).
    pub open spec fn current_file_spec(&self) -> Option<Seq<char>> {
        match self.current_index_spec() {
            Some(i) => if self.views()[i as int].kind == EntryKind::File {
                Some(self.views()[i as int].path)
            } else {
                None
            },
            None => None,
        }
    }

    /// The state is well formed: the entries can be counted and the history
    /// cursor points into the history.
    pub open spec fn wf(&self) -> bool {
        &&& self.entries@.len() < usize::MAX
        &&& (self.command_history_cursor matches Some(c) ==> c < self.command_history@.len())
    }

    /// The rows shown in the repository pane, as entry indices in order.
    pub fn visible_indices(&self) -> (r: Vec<usize>)
        requires
            self.entries@.len() < usize::MAX,
        ensures
            r@ == self.visible_spec(),
    {
        visible_rows(&self.entries, self.selected_only)
    }

    /// The index of the entry under the cursor.
    pub fn current_entry_index(&self) -> (r: Option<usize>)
        requires
            self.entries@.len() < usize::MAX,
        ensures
            r == self.current_index_spec(),
            r matches Some(i) ==> i < self.entries@.len(),
    {
        let visible = self.visible_indices();
        proof {
            lemma_visible_bounds(self.views(), self.selected_only);
        }
        if self.cursor < visible.len() {
            Some(visible[self.cursor])
        } else {
            None
        }
    }

    /// The entry under the cursor.
    pub fn current_entry(&self) -> (r: Option<&TreeEntry>)
        requires
            self.entries@.len() < usize::MAX,
        ensures
            match self.current_index_spec() {
                Some(i) => r matches Some(e) && e@ == self.views()[i as int],
                None => r is None,
            },
    {
        match self.current_entry_index() {
            Some(i) => Some(&self.entries[i]),
            None => None,
        }
    }

    /// The path of the file under the cursor; none for a folder.
    pub fn current_file_path(&self) -> (r: Option<String>)
        requires
            self.entries@.len() < usize::MAX,
        ensures
            match self.current_file_spec() {
                Some(p) => r matches Some(s) && s@ == p,
                None => r is None,
            },
    {
        match self.current_entry() {
            Some(e) => if e.is_dir() {
                None
            } else {
                Some(e.path.clone())
            },
            None => None,
        }
    }
}



// ---- Where the rsync panes get rendered ----

/// The rsync panes of `a` can be rendered for the file under its cursor (the
/// kept report's itemized lines are read when that file is selected).
pub open spec fn renders(a: App) -> bool {
    a.rsync_report matches Some(r) ==> focus_renders(r, a.current_file_spec())
}

/// The rsync panes can be rendered with the view and cursor row of `point`,
/// if an action renders them there.
pub open spec fn renders_at(a: App, point: Option<(bool, int)>) -> bool {
    match point {
        Some((selected_only, cursor)) => renders(
            App { selected_only, cursor: cursor as usize, ..a },
        ),
        None => true,
    }
}

/// Where moving the cursor a row down (`down`) or up renders the panes.
pub open spec fn move_target(a: App, down: bool) -> Option<(bool, int)> {
    let len = a.visible_spec().len() as int;
    if len == 0 {
        None
    } else {
        Some(
            (
                a.selected_only,
                if down {
                    (a.cursor + 1) % len
                } else if a.cursor == 0 {
                    len - 1
                } else {
                    a.cursor - 1
                },
            ),
        )
    }
}

/// Where keeping the cursor among `rows` rows on screen renders the panes:
/// only where it moves the cursor.
pub open spec fn clamp_target(a: App, rows: int) -> Option<(bool, int)> {
    let len = a.visible_spec().len() as int;
    let o = min_int(a.repository_offset as int, max_offset(len, rows));
    let c = clamp_into_view(a.cursor as int, o, rows, len);
    if len == 0 || rows == 0 || c == a.cursor {
        None
    } else {
        Some((a.selected_only, c))
    }
}

/// The first row shown after scrolling the tree a step down (`down`) or up.
pub open spec fn scrolled_offset(a: App, rows: int, down: bool) -> int {
    let len = a.visible_spec().len() as int;
    let v = min_int(a.repository_offset as int, max_offset(len, rows));
    if down {
        min_int(v + 5, max_offset(len, rows))
    } else if v < 5 {
        0
    } else {
        v - 5
    }
}

/// Where scrolling the tree renders the panes.
pub open spec fn scroll_target(a: App, rows: int, down: bool) -> Option<(bool, int)> {
    if rows == 0 {
        None
    } else {
        clamp_target(App { repository_offset: scrolled_offset(a, rows, down) as usize, ..a }, rows)
    }
}

/// Where switching between the tree and the selected files renders the
/// panes.
pub open spec fn selected_only_target(a: App) -> Option<(bool, int)> {
    Some(
        (
            !a.selected_only,
            clamped(a.cursor as int, visible(a.views(), !a.selected_only).len() as int),
        ),
    )
}

/// Where running the command `c` renders the panes.
pub open spec fn run_target(a: App, c: CommandView) -> Option<(bool, int)> {
    match c {
        CommandView::SelectedOnly => if !a.selected_only {
            selected_only_target(a)
        } else {
            None
        },
        CommandView::Tree => if a.selected_only {
            selected_only_target(a)
        } else {
            None
        },
        _ => None,
    }
}

/// Where submitting the command line renders the panes.
pub open spec fn submit_target(a: App) -> Option<(bool, int)> {
    let t = trim(a.command_input@);
    if t.len() == 0 || t == ":"@ {
        None
    } else {
        run_target(a, parse_spec(t))
    }
}

/// A row to render at, with its cursor as an integer.
pub open spec fn point_view(p: Option<(bool, usize)>) -> Option<(bool, int)> {
    match p {
        Some((selected_only, cursor)) => Some((selected_only, cursor as int)),
        None => None,
    }
}

impl App {
    /// Whether the rsync panes can be rendered with the view and cursor row
    /// of `point`.
    pub fn renders_at_point(&self, point: Option<(bool, usize)>) -> (b: bool)
        requires
            self.entries@.len() < usize::MAX,
        ensures
            b == renders_at(*self, point_view(point)),
    {
        let report = match &self.rsync_report {
            Some(r) => r,
            None => return true,
        };
        let (selected_only, cursor) = match point {
            Some(p) => p,
            None => return true,
        };
        let rows = visible_rows(&self.entries, selected_only);
        proof {
            lemma_visible_bounds(self.views(), selected_only);
        }
        if cursor >= rows.len() {
            return report.renders_for(None);
        }
        let i = rows[cursor];
        if self.entries[i].is_dir() {
            report.renders_for(None)
        } else {
            report.renders_for(Some(self.entries[i].path.as_str()))
        }
    }

    /// Where moving the cursor a row down (`down`) or up renders the panes.
    pub fn move_point(&self, down: bool) -> (r: Option<(bool, usize)>)
        requires
            self.entries@.len() < usize::MAX,
        ensures
            point_view(r) == move_target(*self, down),
    {
        let len = self.visible_len();
        if len == 0 {
            return None;
        }
        let next = if down {
            ((self.cursor as u128 + 1) % (len as u128)) as usize
        } else if self.cursor == 0 {
            len - 1
        } else {
            self.cursor - 1
        };
        Some((self.selected_only, next))
    }

    /// Where keeping the cursor among `rows` rows from the first row
    /// `offset` renders the panes.
    fn clamp_point(&self, offset: usize, rows: usize) -> (r: Option<(bool, usize)>)
        requires
            self.entries@.len() < usize::MAX,
        ensures
            point_view(r) == clamp_target(App { repository_offset: offset, ..*self }, rows as int),
    {
        let len = self.visible_len();
        if len == 0 || rows == 0 {
            return None;
        }
        let max = len - if rows <= len {
            rows
        } else {
            len
        };
        let o = if offset <= max {
            offset
        } else {
            max
        };
        let end = o.saturating_add(rows - 1);
        let last = if end <= len - 1 {
            end
        } else {
            len - 1
        };
        let c = if self.cursor < o {
            o
        } else if self.cursor > last {
            last
        } else {
            self.cursor
        };
        if c == self.cursor {
            None
        } else {
            Some((self.selected_only, c))
        }
    }

    /// Where scrolling the tree a step down (`down`) or up in a view of
    /// `rows` rows renders the panes.
    pub fn scroll_point(&self, rows: usize, down: bool) -> (r: Option<(bool, usize)>)
        requires
            self.entries@.len() < usize::MAX,
        ensures
            point_view(r) == scroll_target(*self, rows as int, down),
    {
        if rows == 0 {
            return None;
        }
        let max = self.max_repository_offset(rows);
        let v = self.repository_view_offset(rows);
        let o = if down {
            let next = v.saturating_add(REPOSITORY_SCROLL_STEP);
            if next <= max {
                next
            } else {
                max
            }
        } else {
            v.saturating_sub(REPOSITORY_SCROLL_STEP)
        };
        self.clamp_point(o, rows)
    }

    /// Where switching between the tree and the selected files renders the
    /// panes.
    pub fn selected_only_point(&self) -> (r: Option<(bool, usize)>)
        requires
            self.entries@.len() < usize::MAX,
        ensures
            point_view(r) == selected_only_target(*self),
    {
        let len = visible_rows(&self.entries, !self.selected_only).len();
        let c = if len == 0 {
            0
        } else if self.cursor <= len - 1 {
            self.cursor
        } else {
            len - 1
        };
        Some((!self.selected_only, c))
    }

    /// Where running `command` renders the panes.
    fn run_point(&self, command: &Command) -> (r: Option<(bool, usize)>)
        requires
            self.entries@.len() < usize::MAX,
        ensures
            point_view(r) == run_target(*self, command@),
    {
        match command {
            Command::SelectedOnly => if !self.selected_only {
                self.selected_only_point()
            } else {
                None
            },
            Command::Tree => if self.selected_only {
                self.selected_only_point()
            } else {
                None
            },
            _ => None,
        }
    }

    /// Where submitting the command line renders the panes.
    pub fn submit_point(&self) -> (r: Option<(bool, usize)>)
        requires
            self.entries@.len() < usize::MAX,
        ensures
            point_view(r) == submit_target(*self),
    {
        let command = trimmed(self.command_input.as_str());
        let cv = chars_of(command.as_str());
        if cv.len() == 0 || eq_str(&cv, ":") {
            return None;
        }
        self.run_point(&parse(command.as_str()))
    }
}

// ---- What stays the same ----

/// The tree and the target are the same in `a` and `b`.
pub open spec fn tree_same(a: App, b: App) -> bool {
    &&& a.repo_root@ == b.repo_root@
    &&& a.target@ == b.target@
    &&& a.entries@ == b.entries@
    &&& a.selected_only == b.selected_only
}

/// The cursor and the scroll position of the tree are the same.
pub open spec fn nav_same(a: App, b: App) -> bool {
    &&& a.cursor == b.cursor
    &&& a.repository_offset == b.repository_offset
}

/// The command line is the same.
pub open spec fn command_same(a: App, b: App) -> bool {
    &&& a.command_input@ == b.command_input@
    &&& a.command_mode == b.command_mode
    &&& a.command_history@ == b.command_history@
    &&& a.command_history_cursor == b.command_history_cursor
}

/// The focus, help, theme, keymap, status line and quit flag are the same.
pub open spec fn ui_same(a: App, b: App) -> bool {
    &&& a.show_help == b.show_help
    &&& a.theme_kind == b.theme_kind
    &&& a.active_pane == b.active_pane
    &&& a.keymap.bindings@ == b.keymap.bindings@
    &&& a.should_quit == b.should_quit
    &&& a.message@ == b.message@
    &&& a.pending_refresh == b.pending_refresh
}

/// The Git pane is the same.
pub open spec fn git_same(a: App, b: App) -> bool {
    &&& a.git_preview@ == b.git_preview@
    &&& a.git_scroll == b.git_scroll
    &&& a.pending_git_preview == b.pending_git_preview
}

/// The rsync panes and the rsync state are the same.
pub open spec fn rsync_same(a: App, b: App) -> bool {
    &&& a.rsync_preview@ == b.rsync_preview@
    &&& a.content_diff_preview@ == b.content_diff_preview@
    &&& a.rsync_scroll == b.rsync_scroll
    &&& a.content_diff_scroll == b.content_diff_scroll
    &&& a.rsync_dry_run_ready == b.rsync_dry_run_ready
    &&& a.rsync_preview_stale == b.rsync_preview_stale
    &&& a.rsync_report == b.rsync_report
    &&& a.pending_rsync == b.pending_rsync
}

// ---- The preview panes for the entry under the cursor ----

/// The number of files below the folder `path`.
pub open spec fn child_count(e: Seq<TreeEntryView>, path: Seq<char>) -> nat {
    e.filter(|x: TreeEntryView| starts_with(x.path, path.push('/')) && x.kind == EntryKind::File).len()
}

/// The Git pane's text for a folder with `file_count` files below it.
pub open spec fn folder_preview_spec(e: TreeEntryView, file_count: nat) -> Seq<char> {
    "path:   "@ + e.path + "\n"@ + "kind:   folder\n"@ + "git:    "@ + (match e.git_kind {
        Some(k) => k.label_spec()@,
        None => "clean"@,
    }) + "\n"@ + "files:  "@ + decimal(file_count) + "\n\n"@
        + "Folder selection includes all descendant files in the rsync preview and deploy.\n"@
        + "Use Enter/e or Left/Right to collapse and expand folders.\n"@
}

/// The Git pane of `b` shows the entry under its cursor: a folder's summary,
/// a note when there is none, or, for a file, a request for its preview
/// (the text shown meanwhile stays `prior`).
pub open spec fn git_pane_for(b: App, prior: Seq<char>) -> bool {
    &&& b.git_scroll == 0
    &&& match b.current_index_spec() {
        None => b.git_preview@ == "No files found."@ && b.pending_git_preview is None,
        Some(i) => {
            let e = b.views()[i as int];
            if e.kind == EntryKind::Directory {
                &&& b.git_preview@ == folder_preview_spec(e, child_count(b.views(), e.path))
                &&& b.pending_git_preview is None
            } else {
                &&& b.git_preview@ == prior
                &&& b.pending_git_preview matches Some(c) && c@ == deploy_view(e)
            }
        },
    }
}

/// The rsync panes of `b` show what its kept report says of the file under
/// its cursor; without a report they are those of `a`.
pub open spec fn rsync_panes_for(a: App, b: App) -> bool {
    &&& a.rsync_report == b.rsync_report
    &&& a.rsync_dry_run_ready == b.rsync_dry_run_ready
    &&& a.rsync_preview_stale == b.rsync_preview_stale
    &&& a.pending_rsync == b.pending_rsync
    &&& match b.rsync_report {
        Some(r) => {
            &&& b.rsync_preview@ == truncated(status_text(r, b.current_file_spec()), 200000)
            &&& b.content_diff_preview@ == content_diff_text(r, b.current_file_spec())
            &&& b.rsync_scroll == 0
            &&& b.content_diff_scroll == 0
        },
        None => {
            &&& b.rsync_preview@ == a.rsync_preview@
            &&& b.content_diff_preview@ == a.content_diff_preview@
            &&& b.rsync_scroll == a.rsync_scroll
            &&& b.content_diff_scroll == a.content_diff_scroll
        },
    }
}

/// `b` is `a` with the cursor on row `c` and the panes following it.
pub open spec fn cursor_moved(a: App, b: App, c: usize) -> bool {
    &&& b.cursor == c
    &&& tree_same(a, b)
    &&& command_same(a, b)
    &&& ui_same(a, b)
    &&& git_pane_for(b, a.git_preview@)
    &&& rsync_panes_for(a, b)
}

/// The Git pane's text for a folder with `file_count` files below it.
pub fn folder_preview(entry: &TreeEntry, file_count: usize) -> (r: String)
    ensures
        r@ == folder_preview_spec(entry@, file_count as nat),
{
    let mut preview = String::new();
    preview.append("path:   ");
    preview.append(entry.path.as_str());
    preview.append("\n");
    preview.append("kind:   folder\n");
    preview.append("git:    ");
    match entry.git_kind {
        Some(k) => preview.append(k.label()),
        None => preview.append("clean"),
    }
    preview.append("\n");
    preview.append("files:  ");
    push_decimal(&mut preview, file_count);
    preview.append("\n\n");
    preview.append(
        "Folder selection includes all descendant files in the rsync preview and deploy.\n",
    );
    preview.append("Use Enter/e or Left/Right to collapse and expand folders.\n");
    assert(preview@ =~= folder_preview_spec(entry@, file_count as nat));
    preview
}

impl App {
    /// The number of files below the folder `path`.
    fn folder_child_count(&self, path: &str) -> (r: usize)
        ensures
            r == child_count(self.views(), path@),
    {
        let mut prefix = String::from_str(path);
        prefix.append("/");
        proof {
            reveal_strlit("/");
            assert(prefix@ =~= path@.push('/'));
        }
        let pv = chars_of(prefix.as_str());
        let ghost f = |x: TreeEntryView| starts_with(x.path, path@.push('/')) && x.kind
            == EntryKind::File;
        let mut count: usize = 0;
        let mut i: usize = 0;
        while i < self.entries.len()
            invariant
                i <= self.entries@.len(),
                pv@ == path@.push('/'),
                f == (|x: TreeEntryView| starts_with(x.path, path@.push('/')) && x.kind
                    == EntryKind::File),
                count == self.views().take(i as int).filter(f).len(),
            decreases self.entries@.len() - i,
        {
            proof {
                let v = self.views();
                assert(v.take(i + 1) =~= v.take(i as int).push(v[i as int]));
                v.take(i as int).lemma_filter_push(v[i as int], f);
                v.take(i as int).filter(f).lemma_filter_len(f);
                v.take(i as int).lemma_filter_len(f);
            }
            let ev = chars_of(self.entries[i].path.as_str());
            if crate::text::has_prefix(&ev, &pv) && !self.entries[i].is_dir() {
                count = count + 1;
            }
            i = i + 1;
        }
        assert(self.views().take(i as int) =~= self.views());
        count
    }

    /// Brings the Git pane up to date for the entry under the cursor.
    pub fn refresh_git_preview(&mut self)
        requires
            old(self).wf(),
        ensures
            final(self).wf(),
            git_pane_for(*final(self), old(self).git_preview@),
            tree_same(*old(self), *final(self)),
            nav_same(*old(self), *final(self)),
            command_same(*old(self), *final(self)),
            ui_same(*old(self), *final(self)),
            rsync_same(*old(self), *final(self)),
    {
        self.git_scroll = 0;
        let index = self.current_entry_index();
        match index {
            None => {
                self.git_preview = String::from_str("No files found.");
                self.pending_git_preview = None;
            },
            Some(i) => {
                if self.entries[i].is_dir() {
                    let count = self.folder_child_count(self.entries[i].path.as_str());
                    self.git_preview = folder_preview(&self.entries[i], count);
                    self.pending_git_preview = None;
                } else {
                    match self.entries[i].deploy_candidate() {
                        Some(c) => {
                            self.pending_git_preview = Some(c);
                        },
                        None => {
                            self.git_preview = String::from_str("No file preview available.");
                            self.pending_git_preview = None;
                        },
                    }
                }
            },
        }
    }

    /// Renders the rsync panes anew from the kept report, for the file under
    /// the cursor.
    fn render_rsync_preview_for_cursor(&mut self)
        requires
            renders(*old(self)),
            old(self).wf(),
        ensures
            final(self).wf(),
            rsync_panes_for(*old(self), *final(self)),
            tree_same(*old(self), *final(self)),
            nav_same(*old(self), *final(self)),
            command_same(*old(self), *final(self)),
            ui_same(*old(self), *final(self)),
            git_same(*old(self), *final(self)),
    {
        let focus = self.current_file_path();
        let rendered = match &self.rsync_report {
            Some(report) => {
                let focus_str: Option<&str> = match &focus {
                    Some(p) => Some(p.as_str()),
                    None => None,
                };
                Some((report.render_status(focus_str), report.render_content_diff(focus_str)))
            },
            None => None,
        };
        match rendered {
            Some((status, diff)) => {
                self.rsync_preview = status;
                self.content_diff_preview = diff;
                self.rsync_scroll = 0;
                self.content_diff_scroll = 0;
            },
            None => {},
        }
    }

    /// The length of the visible rows.
    fn visible_len(&self) -> (r: usize)
        requires
            self.entries@.len() < usize::MAX,
        ensures
            r == self.visible_spec().len(),
            r <= self.entries@.len(),
    {
        proof {
            lemma_visible_bounds(self.views(), self.selected_only);
        }
        self.visible_indices().len()
    }

    /// Puts the cursor on row `cursor`, if there is such a row.
    pub fn set_cursor(&mut self, cursor: usize)
        requires
            cursor < old(self).visible_spec().len() ==> renders(App { cursor, ..*old(self) }),
            old(self).wf(),
        ensures
            final(self).wf(),
            final(self).repository_offset == old(self).repository_offset,
            cursor < old(self).visible_spec().len() ==> cursor_moved(
                *old(self),
                *final(self),
                cursor,
            ),
            cursor >= old(self).visible_spec().len() ==> (nav_same(*old(self), *final(self))
                && tree_same(*old(self), *final(self)) && command_same(*old(self), *final(self))
                && ui_same(*old(self), *final(self)) && git_same(*old(self), *final(self))
                && rsync_same(*old(self), *final(self))),
    {
        if cursor >= self.visible_len() {
            return;
        }
        self.cursor = cursor;
        self.refresh_git_preview();
        self.render_rsync_preview_for_cursor();
    }

    /// Moves the cursor one row down, from the last row to the first.
    pub fn move_down(&mut self)
        requires
            renders_at(*old(self), move_target(*old(self), true)),
            old(self).wf(),
        ensures
            final(self).wf(),
            move_post(*old(self), *final(self), true),
    {
        let len = self.visible_len();
        if len == 0 {
            return;
        }
        let next = ((self.cursor as u128 + 1) % (len as u128)) as usize;
        self.cursor = next;
        self.refresh_git_preview();
        self.render_rsync_preview_for_cursor();
    }

    /// Moves the cursor one row up, from the first row to the last.
    pub fn move_up(&mut self)
        requires
            renders_at(*old(self), move_target(*old(self), false)),
            old(self).wf(),
        ensures
            final(self).wf(),
            move_post(*old(self), *final(self), false),
    {
        let len = self.visible_len();
        if len == 0 {
            return;
        }
        if self.cursor == 0 {
            self.cursor = len - 1;
        } else {
            self.cursor = self.cursor - 1;
        }
        self.refresh_git_preview();
        self.render_rsync_preview_for_cursor();
    }
}


// ---- Scrolling ----

/// The smaller of two integers.
pub open spec fn min_int(a: int, b: int) -> int {
    if a <= b {
        a
    } else {
        b
    }
}

/// The largest first row that still fills a view of `rows` rows.
pub open spec fn max_offset(len: int, rows: int) -> int {
    if rows == 0 || len <= rows {
        0
    } else {
        len - rows
    }
}

/// `cursor` moved into the rows `o ..= o + rows - 1` (and below `len`).
pub open spec fn clamp_into_view(cursor: int, o: int, rows: int, len: int) -> int {
    let last = min_int(o + rows - 1, len - 1);
    if cursor < o {
        o
    } else if cursor > last {
        last
    } else {
        cursor
    }
}

/// The first shown row after making the cursor visible.
pub open spec fn offset_showing_cursor(offset: int, cursor: int, len: int, rows: int) -> int {
    let max = max_offset(len, rows);
    let o = min_int(offset, max);
    if len == 0 || rows == 0 {
        0
    } else if cursor < o {
        min_int(cursor, max)
    } else if cursor > o + rows - 1 {
        min_int(cursor - (rows - 1), max)
    } else {
        o
    }
}

/// The same with the one pane's scroll position moved by `down`.
pub open spec fn scrolled(v: u16, down: bool) -> u16 {
    if down {
        if v > 65525 {
            65535
        } else {
            (v + 10) as u16
        }
    } else {
        if v < 10 {
            0
        } else {
            (v - 10) as u16
        }
    }
}

fn showing_offset(offset: usize, cursor: usize, len: usize, rows: usize) -> (r: usize)
    ensures
        r == offset_showing_cursor(offset as int, cursor as int, len as int, rows as int),
{
    if len == 0 || rows == 0 {
        return 0;
    }
    let max_offset = len.saturating_sub(rows);
    let o = if offset > max_offset {
        max_offset
    } else {
        offset
    };
    if cursor < o {
        return if cursor <= max_offset {
            cursor
        } else {
            max_offset
        };
    }
    let last_visible = o.saturating_add(rows - 1);
    if cursor > last_visible {
        let first = cursor - (rows - 1);
        if first <= max_offset {
            first
        } else {
            max_offset
        }
    } else {
        o
    }
}

fn scroll_value(v: u16, down: bool) -> (r: u16)
    ensures
        r == scrolled(v, down),
{
    if down {
        v.saturating_add(10)
    } else {
        v.saturating_sub(10)
    }
}

/// The pane after `p` in focus order.
pub open spec fn next_pane(p: PreviewPane) -> PreviewPane {
    match p {
        PreviewPane::Repository => PreviewPane::Content,
        PreviewPane::Content => PreviewPane::Git,
        PreviewPane::Git => PreviewPane::Rsync,
        PreviewPane::Rsync => PreviewPane::Repository,
    }
}

/// The pane before `p` in focus order.
pub open spec fn previous_pane(p: PreviewPane) -> PreviewPane {
    match p {
        PreviewPane::Repository => PreviewPane::Rsync,
        PreviewPane::Content => PreviewPane::Repository,
        PreviewPane::Git => PreviewPane::Content,
        PreviewPane::Rsync => PreviewPane::Git,
    }
}

/// Moving the focus back undoes moving it forward, and the other way round;
/// four moves in one direction come back to the start.
pub proof fn lemma_pane_cycle(p: PreviewPane)
    ensures
        previous_pane(next_pane(p)) == p,
        next_pane(previous_pane(p)) == p,
        next_pane(next_pane(next_pane(next_pane(p)))) == p,
{
}

/// Making the cursor visible leaves it among the shown rows, and the view
/// as full as the rows allow.
pub proof fn lemma_offset_shows_cursor(offset: int, cursor: int, len: int, rows: int)
    requires
        0 <= offset,
        0 <= cursor < len,
        rows > 0,
    ensures
        offset_showing_cursor(offset, cursor, len, rows) <= cursor < offset_showing_cursor(
            offset,
            cursor,
            len,
            rows,
        ) + rows,
        0 <= offset_showing_cursor(offset, cursor, len, rows) <= max_offset(len, rows),
{
}

/// Every frame predicate at once: `a` and `b` agree but for the cursor and
/// the scroll positions.
pub open spec fn same_but_scrolling(a: App, b: App) -> bool {
    &&& tree_same(a, b)
    &&& command_same(a, b)
    &&& ui_same(a, b)
    &&& git_same(a, b)
    &&& rsync_same(a, b)
}

impl App {
    /// The largest first row for a view of `viewport_rows` rows.
    fn max_repository_offset(&self, viewport_rows: usize) -> (r: usize)
        requires
            self.entries@.len() < usize::MAX,
        ensures
            r == max_offset(self.visible_spec().len() as int, viewport_rows as int),
    {
        if viewport_rows == 0 {
            return 0;
        }
        self.visible_len().saturating_sub(viewport_rows)
    }

    /// The first row the repository pane shows in a view of `viewport_rows`
    /// rows: the scroll position, kept within the rows there are.
    pub fn repository_view_offset(&self, viewport_rows: usize) -> (r: usize)
        requires
            self.entries@.len() < usize::MAX,
        ensures
            r == min_int(
                self.repository_offset as int,
                max_offset(self.visible_spec().len() as int, viewport_rows as int),
            ),
    {
        let max = self.max_repository_offset(viewport_rows);
        if self.repository_offset <= max {
            self.repository_offset
        } else {
            max
        }
    }

    /// Scrolls the repository pane so that the cursor is on screen.
    pub fn ensure_repository_cursor_visible(&mut self, viewport_rows: usize)
        requires
            old(self).wf(),
        ensures
            final(self).wf(),
            final(self).cursor == old(self).cursor,
            final(self).repository_offset == offset_showing_cursor(
                old(self).repository_offset as int,
                old(self).cursor as int,
                old(self).visible_spec().len() as int,
                viewport_rows as int,
            ),
            same_but_scrolling(*old(self), *final(self)),
    {
        let visible_len = self.visible_len();
        self.repository_offset = showing_offset(
            self.repository_offset,
            self.cursor,
            visible_len,
            viewport_rows,
        );
    }

    /// Moves the cursor into the rows on screen.
    fn clamp_cursor_to_repository_view(&mut self, viewport_rows: usize)
        requires
            renders_at(*old(self), clamp_target(*old(self), viewport_rows as int)),
            old(self).wf(),
        ensures
            final(self).wf(),
            ({
                let len = old(self).visible_spec().len() as int;
                let o = min_int(old(self).repository_offset as int, max_offset(len, viewport_rows as int));
                let c = clamp_into_view(old(self).cursor as int, o, viewport_rows as int, len);
                if len == 0 || viewport_rows == 0 {
                    &&& final(self).repository_offset == 0
                    &&& final(self).cursor == 0
                    &&& same_but_scrolling(*old(self), *final(self))
                } else if c == old(self).cursor {
                    &&& final(self).repository_offset == o
                    &&& final(self).cursor == old(self).cursor
                    &&& same_but_scrolling(*old(self), *final(self))
                } else {
                    &&& final(self).repository_offset == o
                    &&& cursor_moved(*old(self), *final(self), c as usize)
                }
            }),
    {
        let visible_len = self.visible_len();
        if visible_len == 0 || viewport_rows == 0 {
            self.repository_offset = 0;
            self.cursor = 0;
            return;
        }
        let offset = self.repository_view_offset(viewport_rows);
        self.repository_offset = offset;
        let end = offset.saturating_add(viewport_rows - 1);
        let last_visible = if end <= visible_len - 1 {
            end
        } else {
            visible_len - 1
        };
        let cursor = if self.cursor < offset {
            offset
        } else if self.cursor > last_visible {
            last_visible
        } else {
            self.cursor
        };
        if cursor != self.cursor {
            self.set_cursor(cursor);
        }
    }

    /// Scrolls the repository pane down a step and keeps the cursor on
    /// screen.
    pub fn scroll_repository_down(&mut self, viewport_rows: usize)
        requires
            renders_at(*old(self), scroll_target(*old(self), viewport_rows as int, true)),
            old(self).wf(),
        ensures
            final(self).wf(),
            scroll_repository_post(*old(self), *final(self), viewport_rows as int, true),
    {
        let max_offset = self.max_repository_offset(viewport_rows);
        if viewport_rows == 0 {
            return;
        }
        let next = self.repository_view_offset(viewport_rows).saturating_add(REPOSITORY_SCROLL_STEP);
        self.repository_offset = if next <= max_offset {
            next
        } else {
            max_offset
        };
        self.clamp_cursor_to_repository_view(viewport_rows);
    }

    /// Scrolls the repository pane up a step and keeps the cursor on screen.
    pub fn scroll_repository_up(&mut self, viewport_rows: usize)
        requires
            renders_at(*old(self), scroll_target(*old(self), viewport_rows as int, false)),
            old(self).wf(),
        ensures
            final(self).wf(),
            scroll_repository_post(*old(self), *final(self), viewport_rows as int, false),
    {
        if viewport_rows == 0 {
            return;
        }
        self.repository_offset = self.repository_view_offset(viewport_rows).saturating_sub(
            REPOSITORY_SCROLL_STEP,
        );
        self.clamp_cursor_to_repository_view(viewport_rows);
    }

    /// Keeps the cursor and the scroll position within the shown rows.
    fn clamp_cursor(&mut self)
        requires
            old(self).wf(),
        ensures
            final(self).wf(),
            ({
                let len = old(self).visible_spec().len() as int;
                if len == 0 {
                    final(self).cursor == 0 && final(self).repository_offset == 0
                } else {
                    &&& final(self).cursor == min_int(old(self).cursor as int, len - 1)
                    &&& final(self).repository_offset == min_int(
                        old(self).repository_offset as int,
                        len - 1,
                    )
                }
            }),
            *final(self) == (App {
                cursor: final(self).cursor,
                repository_offset: final(self).repository_offset,
                ..*old(self)
            }),
    {
        let visible_len = self.visible_len();
        if visible_len == 0 {
            self.cursor = 0;
            self.repository_offset = 0;
        } else {
            if self.cursor > visible_len - 1 {
                self.cursor = visible_len - 1;
            }
            if self.repository_offset > visible_len - 1 {
                self.repository_offset = visible_len - 1;
            }
        }
    }

    /// Scrolls the focused preview pane down ten lines.
    pub fn scroll_preview_down(&mut self)
        ensures
            scroll_preview_post(*old(self), *final(self), true),
    {
        self.scroll_preview(true);
    }

    /// Scrolls the focused preview pane up ten lines.
    pub fn scroll_preview_up(&mut self)
        ensures
            scroll_preview_post(*old(self), *final(self), false),
    {
        self.scroll_preview(false);
    }

    fn scroll_preview(&mut self, down: bool)
        ensures
            scroll_preview_post(*old(self), *final(self), down),
    {
        match self.active_pane {
            PreviewPane::Repository => {},
            PreviewPane::Content => {
                self.content_diff_scroll = scroll_value(self.content_diff_scroll, down);
            },
            PreviewPane::Git => {
                self.git_scroll = scroll_value(self.git_scroll, down);
            },
            PreviewPane::Rsync => {
                self.rsync_scroll = scroll_value(self.rsync_scroll, down);
            },
        }
    }
}




// ---- What the navigation and command-line actions do ----

/// The effect of scrolling the tree pane a step down (`down`) or up in a
/// view of `rows` rows.
pub open spec fn scroll_repository_post(a: App, b: App, rows: int, down: bool) -> bool {
    let len = a.visible_spec().len() as int;
    let v = min_int(a.repository_offset as int, max_offset(len, rows));
    let o = if down {
        min_int(v + 5, max_offset(len, rows))
    } else if v < 5 {
        0
    } else {
        v - 5
    };
    let c = clamp_into_view(a.cursor as int, o, rows, len);
    if rows == 0 {
        nav_same(a, b) && same_but_scrolling(a, b)
    } else if len == 0 {
        &&& b.repository_offset == 0
        &&& b.cursor == 0
        &&& same_but_scrolling(a, b)
    } else {
        &&& b.repository_offset == o
        &&& b.cursor == c
        &&& (c == a.cursor ==> same_but_scrolling(a, b))
        &&& (c != a.cursor ==> cursor_moved(a, b, c as usize))
    }
}

/// The effect of scrolling the focused preview pane ten lines down
/// (`down`) or up.
pub open spec fn scroll_preview_post(a: App, b: App, down: bool) -> bool {
    &&& b.git_scroll == (if a.active_pane == PreviewPane::Git {
        scrolled(a.git_scroll, down)
    } else {
        a.git_scroll
    })
    &&& b.rsync_scroll == (if a.active_pane == PreviewPane::Rsync {
        scrolled(a.rsync_scroll, down)
    } else {
        a.rsync_scroll
    })
    &&& b.content_diff_scroll == (if a.active_pane == PreviewPane::Content {
        scrolled(a.content_diff_scroll, down)
    } else {
        a.content_diff_scroll
    })
    &&& b == (App {
        git_scroll: b.git_scroll,
        rsync_scroll: b.rsync_scroll,
        content_diff_scroll: b.content_diff_scroll,
        ..a
    })
}

/// The effect of moving the cursor a row down (`down`) or up, wrapping
/// around; nothing without rows.
pub open spec fn move_post(a: App, b: App, down: bool) -> bool {
    let len = a.visible_spec().len() as int;
    &&& b.repository_offset == a.repository_offset
    &&& if len == 0 {
        nav_same(a, b) && same_but_scrolling(a, b)
    } else {
        cursor_moved(
            a,
            b,
            if down {
                ((a.cursor + 1) % len) as usize
            } else if a.cursor == 0 {
                (len - 1) as usize
            } else {
                (a.cursor - 1) as usize
            },
        )
    }
}

/// The effect of opening the command line.
pub open spec fn enter_command_post(a: App, b: App) -> bool {
    &&& b.command_input@ == ":"@
    &&& b.message@ == "command mode"@
    &&& b == (App {
        command_mode: true,
        command_input: b.command_input,
        command_history_cursor: None,
        message: b.message,
        ..a
    })
}

/// The effect of cancelling: the help closes if it is open, else the
/// command line if it is open; nothing quits.
pub open spec fn cancel_post(a: App, b: App) -> bool {
    if a.show_help {
        says(App { show_help: false, ..a }, b, "help closed"@)
    } else if a.command_mode {
        &&& b.command_input@ == Seq::<char>::empty()
        &&& says(
            App {
                command_mode: false,
                command_input: b.command_input,
                command_history_cursor: None,
                ..a
            },
            b,
            "command canceled"@,
        )
    } else {
        says(a, b, "nothing to cancel"@)
    }
}

/// The effect of typing `ch` on the command line.
pub open spec fn push_char_post(a: App, b: App, ch: char) -> bool {
    if a.command_mode {
        &&& b.command_input@ == a.command_input@.push(ch)
        &&& b == (App { command_input: b.command_input, command_history_cursor: None, ..a })
    } else {
        b == a
    }
}

/// The effect of deleting on the command line.
pub open spec fn pop_char_post(a: App, b: App) -> bool {
    if a.command_mode && utf8_len(a.command_input@) > 1 {
        &&& b.command_input@ == a.command_input@.drop_last()
        &&& b == (App { command_input: b.command_input, command_history_cursor: None, ..a })
    } else {
        b == a
    }
}

/// The effect of going back in the command history.
pub open spec fn previous_command_post(a: App, b: App) -> bool {
    if !a.command_mode || a.command_history@.len() == 0 {
        b == a
    } else {
        let index = match a.command_history_cursor {
            None => a.command_history@.len() - 1,
            Some(c) => if c == 0 {
                0
            } else {
                c - 1
            },
        };
        &&& b.command_input@ == a.command_history@[index]@
        &&& b == (App {
            command_input: b.command_input,
            command_history_cursor: Some(index as usize),
            ..a
        })
    }
}

/// The effect of going forward in the command history.
pub open spec fn next_command_post(a: App, b: App) -> bool {
    if !a.command_mode {
        b == a
    } else {
        match a.command_history_cursor {
            None => b == a,
            Some(c) => if c + 1 < a.command_history@.len() {
                &&& b.command_input@ == a.command_history@[c + 1]@
                &&& b == (App {
                    command_input: b.command_input,
                    command_history_cursor: Some((c + 1) as usize),
                    ..a
                })
            } else {
                &&& b.command_input@ == ":"@
                &&& b == (App { command_input: b.command_input, command_history_cursor: None, ..a })
            },
        }
    }
}

// ---- What each action does ----

/// The effect of toggling the selection under the cursor.
pub open spec fn toggle_current_post(a: App, b: App) -> bool {
    match a.current_index_spec() {
        None => b == a,
        Some(i) => after_selection_change(
            a,
            b,
            toggled(a.views(), i as int),
            a.cursor as int,
            a.selected_only,
        ),
    }
}

/// Every entry is selected.
pub open spec fn all_selected(e: Seq<TreeEntryView>) -> bool {
    forall|k: int| 0 <= k < e.len() ==> #[trigger] e[k].selected
}

/// The effect of selecting or clearing everything.
pub open spec fn toggle_all_post(a: App, b: App) -> bool {
    after_selection_change(
        a,
        b,
        all_set(a.views(), !all_selected(a.views())),
        a.cursor as int,
        a.selected_only,
    )
}

/// The effect of switching between the tree and the selected files.
pub open spec fn selected_only_post(a: App, b: App) -> bool {
    &&& b.selected_only == !a.selected_only
    &&& b.views() == a.views()
    &&& b.entries@ == a.entries@
    &&& b.repository_offset == 0
    &&& b.cursor == clamped(a.cursor as int, visible(a.views(), !a.selected_only).len() as int)
    &&& git_pane_for(b, a.git_preview@)
    &&& rsync_panes_for(a, b)
    &&& b.message@ == selected_only_message(!a.selected_only)
    &&& b.active_pane == a.active_pane
    &&& b.repo_root@ == a.repo_root@
    &&& b.target@ == a.target@
    &&& command_same(a, b)
    &&& settings_same(a, b)
}

/// The effect of expanding (`value`) or collapsing the folder under the
/// cursor, the cursor kept within the rows when `clamp`.
pub open spec fn expansion_post(a: App, b: App, value: bool, clamp: bool) -> bool {
    match a.current_index_spec() {
        Some(i) => if a.views()[i as int].kind == EntryKind::Directory {
            let now = with_expanded(a.views(), i as int, value);
            let len = visible(now, a.selected_only).len() as int;
            &&& b.views() == now
            &&& b.cursor == (if clamp {
                clamped(a.cursor as int, len)
            } else {
                a.cursor as int
            })
            &&& b.repository_offset == (if clamp {
                clamped(a.repository_offset as int, len)
            } else {
                a.repository_offset as int
            })
            &&& b == (App {
                entries: b.entries,
                cursor: b.cursor,
                repository_offset: b.repository_offset,
                ..a
            })
        } else {
            b == a
        },
        None => b == a,
    }
}

/// The effect of expanding or collapsing the folder under the cursor.
pub open spec fn toggle_expanded_post(a: App, b: App) -> bool {
    match a.current_index_spec() {
        Some(i) => expansion_post(a, b, !a.views()[i as int].expanded, true),
        None => b == a,
    }
}

/// The effect of expanding the folder under the cursor.
pub open spec fn expand_post(a: App, b: App) -> bool {
    expansion_post(a, b, true, false)
}

/// The effect of collapsing the folder under the cursor.
pub open spec fn collapse_post(a: App, b: App) -> bool {
    expansion_post(a, b, false, true)
}

/// The effect of asking to deploy.
pub open spec fn deploy_post(a: App, b: App) -> bool {
    &&& tree_same(a, b)
    &&& nav_same(a, b)
    &&& command_same(a, b)
    &&& git_same(a, b)
    &&& settings_same(a, b)
    &&& ({
        let sel = selected_spec(a.views());
        if sel.len() == 0 {
            &&& b.message@ == "No selected files."@
            &&& b.active_pane == PreviewPane::Content
            &&& rsync_same(a, b)
        } else if a.rsync_preview_stale || !a.rsync_dry_run_ready {
            rsync_request_effect(
                a,
                b,
                true,
                RsyncFollowUp::ReviewBeforeDeploy,
            )
        } else {
            &&& b.pending_rsync matches Some(r) && candidate_views(r.selected@)
                == sel && !r.dry_run && r.focus && r.follow_up == RsyncFollowUp::Nothing
            &&& b.rsync_preview@ == a.rsync_preview@
            &&& b.content_diff_preview@ == a.content_diff_preview@
            &&& b.rsync_scroll == a.rsync_scroll
            &&& b.content_diff_scroll == a.content_diff_scroll
            &&& b.rsync_dry_run_ready == a.rsync_dry_run_ready
            &&& b.rsync_preview_stale == a.rsync_preview_stale
            &&& b.rsync_report == a.rsync_report
            &&& b.message@ == a.message@
            &&& b.active_pane == a.active_pane
        }
    })
}

/// The effect of opening the help.
pub open spec fn show_help_post(a: App, b: App) -> bool {
    &&& b.show_help
    &&& b.message@ == "help opened"@
    &&& b == (App {
        show_help: true,
        message: b.message,
        ..a
    })
}

/// The effect of choosing a theme.
pub open spec fn theme_post(a: App, b: App, theme: ThemeCommand) -> bool {
    &&& b.theme_kind == theme_of(theme)
    &&& b.message@ == "theme: "@ + theme_of(theme).name_spec()@
    &&& b == (App {
        theme_kind: theme_of(theme),
        message: b.message,
        ..a
    })
}

// ---- Focus, help, theme and the command line ----

/// The theme that a `:theme` command names.
pub open spec fn theme_of(t: ThemeCommand) -> ThemeKind {
    match t {
        ThemeCommand::Neutral => ThemeKind::Neutral,
        ThemeCommand::Safe => ThemeKind::Safe,
        ThemeCommand::Danger => ThemeKind::Danger,
    }
}

impl App {
    /// Whether the user asked to quit.
    pub fn should_quit(&self) -> (b: bool)
        ensures
            b == self.should_quit,
    {
        self.should_quit
    }

    /// Gives the focus to `pane`.
    pub fn set_active_pane(&mut self, pane: PreviewPane)
        ensures
            *final(self) == (App { active_pane: pane, ..*old(self) }),
    {
        self.active_pane = pane;
    }

    /// Gives the focus to the next pane.
    pub fn toggle_active_pane(&mut self)
        ensures
            *final(self) == (App { active_pane: next_pane(old(self).active_pane), ..*old(self) }),
    {
        self.active_pane = match self.active_pane {
            PreviewPane::Repository => PreviewPane::Content,
            PreviewPane::Content => PreviewPane::Git,
            PreviewPane::Git => PreviewPane::Rsync,
            PreviewPane::Rsync => PreviewPane::Repository,
        };
    }

    /// Gives the focus to the previous pane.
    pub fn toggle_active_pane_reverse(&mut self)
        ensures
            *final(self) == (App {
                active_pane: previous_pane(old(self).active_pane),
                ..*old(self)
            }),
    {
        self.active_pane = match self.active_pane {
            PreviewPane::Repository => PreviewPane::Rsync,
            PreviewPane::Content => PreviewPane::Repository,
            PreviewPane::Git => PreviewPane::Content,
            PreviewPane::Rsync => PreviewPane::Git,
        };
    }

    /// Opens the help.
    pub fn show_help(&mut self)
        ensures
            show_help_post(*old(self), *final(self)),
    {
        self.show_help = true;
        self.message = String::from_str("help opened");
    }

    /// Switches to the theme that `theme` names and says so.
    pub fn set_theme(&mut self, theme: ThemeCommand)
        ensures
            theme_post(*old(self), *final(self), theme),
    {
        self.theme_kind = match theme {
            ThemeCommand::Neutral => ThemeKind::Neutral,
            ThemeCommand::Safe => ThemeKind::Safe,
            ThemeCommand::Danger => ThemeKind::Danger,
        };
        let mut message = String::from_str("theme: ");
        message.append(self.theme_kind.name());
        self.message = message;
    }

    /// Replaces the status line.
    pub fn set_message(&mut self, message: String)
        ensures
            final(self).message@ == message@,
            *final(self) == (App { message: final(self).message, ..*old(self) }),
    {
        self.message = message;
    }

    /// Opens the command line with `:` in it.
    pub fn enter_command_mode(&mut self)
        ensures
            enter_command_post(*old(self), *final(self)),
    {
        self.command_mode = true;
        self.command_input = String::from_str(":");
        self.command_history_cursor = None;
        self.message = String::from_str("command mode");
    }

    /// Closes the help if it is open, else the command line if it is open;
    /// never quits.
    pub fn cancel_transient_state(&mut self)
        ensures
            cancel_post(*old(self), *final(self)),
    {
        if self.show_help {
            self.show_help = false;
            self.message = String::from_str("help closed");
        } else if self.command_mode {
            self.command_mode = false;
            self.command_input = String::new();
            self.command_history_cursor = None;
            self.message = String::from_str("command canceled");
        } else {
            self.message = String::from_str("nothing to cancel");
        }
    }

    /// Types `ch` on the command line.
    pub fn push_command_char(&mut self, ch: char)
        ensures
            push_char_post(*old(self), *final(self), ch),
    {
        if self.command_mode {
            push_char(&mut self.command_input, ch);
            self.command_history_cursor = None;
        }
    }

    /// Deletes the last character of the command line, keeping at least one
    /// byte.
    pub fn pop_command_char(&mut self)
        ensures
            pop_char_post(*old(self), *final(self)),
    {
        if !self.command_mode {
            return;
        }
        let cs = chars_of(self.command_input.as_str());
        let n = cs.len();
        let longer = n >= 2 || (n == 1 && crate::text::char_width_of(cs[0]) > 1);
        proof {
            let v = cs@;
            if v.len() >= 2 {
                assert(utf8_len(v) == crate::text::char_width(v[0]) + utf8_len(v.drop_first()));
                assert(utf8_len(v.drop_first()) == crate::text::char_width(v.drop_first()[0])
                    + utf8_len(v.drop_first().drop_first()));
            } else if v.len() == 1 {
                assert(utf8_len(v.drop_first()) == 0);
            } else {
                assert(utf8_len(v) == 0);
            }
        }
        if longer {
            let mut kept = Vec::new();
            let mut i: usize = 0;
            while i < n - 1
                invariant
                    n == cs@.len(),
                    n >= 1,
                    i <= n - 1,
                    kept@ == cs@.take(i as int),
                decreases n - 1 - i,
            {
                kept.push(cs[i]);
                assert(cs@.take(i + 1) =~= cs@.take(i as int).push(cs@[i as int]));
                i = i + 1;
            }
            assert(kept@ =~= cs@.drop_last());
            self.command_input = string_from_chars(&kept);
            self.command_history_cursor = None;
        }
    }

    /// Shows the previous command of the history on the command line.
    pub fn previous_command(&mut self)
        requires
            old(self).wf(),
        ensures
            final(self).wf(),
            previous_command_post(*old(self), *final(self)),
    {
        if !self.command_mode || self.command_history.len() == 0 {
            return;
        }
        let index = match self.command_history_cursor {
            None => self.command_history.len() - 1,
            Some(c) => c.saturating_sub(1),
        };
        self.command_history_cursor = Some(index);
        self.command_input = self.command_history[index].clone();
    }

    /// Shows the next command of the history on the command line, or an
    /// empty command after the last one.
    pub fn next_command(&mut self)
        requires
            old(self).wf(),
        ensures
            final(self).wf(),
            next_command_post(*old(self), *final(self)),
    {
        if !self.command_mode {
            return;
        }
        let cursor = match self.command_history_cursor {
            Some(c) => c,
            None => {
                return;
            },
        };
        let len = self.command_history.len();
        assert(cursor < len);
        if cursor < len - 1 {
            self.command_history_cursor = Some(cursor + 1);
            self.command_input = self.command_history[cursor + 1].clone();
        } else {
            self.command_history_cursor = None;
            self.command_input = String::from_str(":");
        }
    }
}


// ---- Selection ----

/// The paths of candidates.
pub open spec fn paths_of(s: Seq<CandidateView>) -> Seq<Seq<char>> {
    s.map_values(|c: CandidateView| c.path)
}

/// The candidates to deploy from the first `n` entries: each selected file
/// once, the first time its path occurs.
pub open spec fn selected_upto(e: Seq<TreeEntryView>, n: int) -> Seq<CandidateView>
    decreases n,
{
    if n <= 0 {
        Seq::empty()
    } else {
        let prev = selected_upto(e, n - 1);
        let x = e[n - 1];
        if x.selected && x.kind == EntryKind::File && !paths_of(prev).contains(x.path) {
            prev.push(deploy_view(x))
        } else {
            prev
        }
    }
}

/// The candidates to deploy.
pub open spec fn selected_spec(e: Seq<TreeEntryView>) -> Seq<CandidateView> {
    selected_upto(e, e.len() as int)
}

/// Every selected file is deployed, under its own path, and no path twice.
pub proof fn lemma_selected_spec(e: Seq<TreeEntryView>, n: int)
    requires
        0 <= n <= e.len(),
    ensures
        forall|i: int|
            0 <= i < n && e[i].selected && e[i].kind == EntryKind::File ==> paths_of(
                selected_upto(e, n),
            ).contains(#[trigger] e[i].path),
        forall|k: int, l: int|
            0 <= k < l < selected_upto(e, n).len() ==> #[trigger] selected_upto(e, n)[k].path
                != #[trigger] selected_upto(e, n)[l].path,
        forall|k: int|
            0 <= k < selected_upto(e, n).len() ==> exists|i: int|
                0 <= i < n && e[i].selected && e[i].kind == EntryKind::File
                    && #[trigger] selected_upto(e, n)[k] == deploy_view(e[i]),
    decreases n,
{
    if n > 0 {
        lemma_selected_spec(e, n - 1);
        let prev = selected_upto(e, n - 1);
        let cur = selected_upto(e, n);
        let x = e[n - 1];
        if x.selected && x.kind == EntryKind::File && !paths_of(prev).contains(x.path) {
            assert forall|i: int|
                0 <= i < n && e[i].selected && e[i].kind == EntryKind::File implies paths_of(
                cur,
            ).contains(#[trigger] e[i].path) by {
                if i < n - 1 {
                    let k = choose|k: int| 0 <= k < paths_of(prev).len() && paths_of(prev)[k]
                        == e[i].path;
                    assert(paths_of(cur)[k] == e[i].path);
                } else {
                    assert(paths_of(cur)[prev.len() as int] == e[i].path);
                }
            }
            assert forall|k: int, l: int|
                0 <= k < l < cur.len() implies #[trigger] cur[k].path != #[trigger] cur[l].path by {
                if l == prev.len() {
                    assert(paths_of(prev)[k] == cur[k].path);
                }
            }
            assert forall|k: int| 0 <= k < cur.len() implies exists|i: int|
                0 <= i < n && e[i].selected && e[i].kind == EntryKind::File
                    && #[trigger] cur[k] == deploy_view(e[i]) by {
                if k == prev.len() {
                    assert(cur[k] == deploy_view(e[n - 1]));
                } else {
                    assert(cur[k] == prev[k]);
                }
            }
        } else {
            assert forall|i: int|
                0 <= i < n && e[i].selected && e[i].kind == EntryKind::File implies paths_of(
                cur,
            ).contains(#[trigger] e[i].path) by {
                if i == n - 1 {
                    assert(paths_of(prev).contains(x.path));
                }
            }
        }
    }
}

/// Entry `k` lies in the block of entries that follows entry `index` and is
/// deeper than it.
pub open spec fn below(e: Seq<TreeEntryView>, index: int, k: int) -> bool {
    &&& 0 <= index < k < e.len()
    &&& forall|m: int| index < m <= k ==> #[trigger] e[m].depth > e[index].depth
}

/// Whether entry `k` is selected after toggling entry `index`: the entry
/// flips, and a folder takes the files and folders below it along.
pub open spec fn toggled_selection(e: Seq<TreeEntryView>, index: int, k: int) -> bool {
    let now = !e[index].selected;
    if k == index {
        now
    } else if e[index].kind == EntryKind::Directory && below(e, index, k) && starts_with(
        e[k].path,
        e[index].path.push('/'),
    ) {
        now
    } else {
        e[k].selected
    }
}

/// The entries after toggling entry `index`.
pub open spec fn toggled(e: Seq<TreeEntryView>, index: int) -> Seq<TreeEntryView> {
    Seq::new(
        e.len(),
        |k: int| TreeEntryView { selected: toggled_selection(e, index, k), ..e[k] },
    )
}

/// The entries with every selection set to `value`.
pub open spec fn all_set(e: Seq<TreeEntryView>, value: bool) -> Seq<TreeEntryView> {
    Seq::new(e.len(), |k: int| TreeEntryView { selected: value, ..e[k] })
}

/// The entries with entry `index` expanded or collapsed.
pub open spec fn with_expanded(e: Seq<TreeEntryView>, index: int, value: bool) -> Seq<
    TreeEntryView,
> {
    e.update(index, TreeEntryView { expanded: value, ..e[index] })
}

/// The status line's text when nothing is selected.
pub open spec fn no_selection_text() -> Seq<char> {
    "No selected files.\n\nSelect files to see the expected rsync changes against the destination."@
}

/// The destination-diff pane's text when nothing is selected.
pub open spec fn no_content_text() -> Seq<char> {
    "No selected file content diff.\n\nSelect a file to compare source content against the destination."@
}

/// `b`'s rsync state after asking for a dry run of what `b` selects, from
/// `a`'s: with nothing selected the panes say so at once; else the dry run
/// is requested and the panes wait for it.
pub open spec fn rsync_request_effect(a: App, b: App, focus: bool, follow_up: RsyncFollowUp) -> bool {
    let sel = selected_spec(b.views());
    if sel.len() == 0 {
        &&& b.rsync_preview@ == no_selection_text()
        &&& b.content_diff_preview@ == no_content_text()
        &&& b.rsync_scroll == 0
        &&& b.content_diff_scroll == 0
        &&& !b.rsync_dry_run_ready
        &&& !b.rsync_preview_stale
        &&& b.rsync_report is None
        &&& b.pending_rsync is None
        &&& if focus {
            b.message@ == "No selected files."@ && b.active_pane == PreviewPane::Content
        } else {
            b.message@ == a.message@ && b.active_pane == a.active_pane
        }
    } else {
        &&& b.rsync_preview@ == a.rsync_preview@
        &&& b.content_diff_preview@ == a.content_diff_preview@
        &&& b.rsync_scroll == a.rsync_scroll
        &&& b.content_diff_scroll == a.content_diff_scroll
        &&& !b.rsync_dry_run_ready
        &&& b.rsync_preview_stale
        &&& b.rsync_report == a.rsync_report
        &&& b.pending_rsync matches Some(r) && candidate_views(r.selected@) == sel && r.dry_run
            && r.focus == focus && r.follow_up == follow_up
        &&& b.message@ == a.message@
        &&& b.active_pane == a.active_pane
    }
}

/// The parts of the interface other than the tree, the status line, the
/// focus and the panes are the same.
pub open spec fn settings_same(a: App, b: App) -> bool {
    &&& a.show_help == b.show_help
    &&& a.theme_kind == b.theme_kind
    &&& a.keymap.bindings@ == b.keymap.bindings@
    &&& a.should_quit == b.should_quit
    &&& a.pending_refresh == b.pending_refresh
}

impl App {
    /// The candidates to deploy: each selected file once, in tree order.
    fn selected_candidates(&self) -> (r: Vec<Candidate>)
        ensures
            candidate_views(r@) == selected_spec(self.views()),
    {
        let ghost e = self.views();
        let mut selected: Vec<Candidate> = Vec::new();
        let mut i: usize = 0;
        while i < self.entries.len()
            invariant
                i <= self.entries@.len(),
                e == self.views(),
                candidate_views(selected@) == selected_upto(e, i as int),
            decreases self.entries@.len() - i,
        {
            let entry = &self.entries[i];
            if entry.selected && !entry.is_dir() {
                let mut seen = false;
                let mut k: usize = 0;
                while k < selected.len()
                    invariant
                        k <= selected@.len(),
                        seen <==> paths_of(candidate_views(selected@).take(k as int)).contains(
                            entry.path@,
                        ),
                    decreases selected@.len() - k,
                {
                    proof {
                        let cv = candidate_views(selected@);
                        let before = paths_of(cv.take(k as int));
                        let after = paths_of(cv.take(k + 1));
                        assert(after =~= before.push(selected@[k as int].path@));
                        if before.contains(entry.path@) {
                            let j = choose|j: int| 0 <= j < before.len() && before[j] == entry.path@;
                            assert(after[j] == entry.path@);
                        }
                        if after.contains(entry.path@) {
                            let j = choose|j: int| 0 <= j < after.len() && after[j] == entry.path@;
                            if j < before.len() {
                                assert(before[j] == entry.path@);
                            }
                        }
                    }
                    let same = selected[k].path == entry.path;
                    proof {
                        let cv = candidate_views(selected@);
                        assert(cv[k as int].path == selected@[k as int].path@);
                        assert(same == (selected@[k as int].path@ == entry.path@));
                        let after = paths_of(cv.take(k + 1));
                        assert(after[k as int] == selected@[k as int].path@);
                    }
                    if same {
                        seen = true;
                    }
                    k = k + 1;
                }
                assert(candidate_views(selected@).take(k as int) =~= candidate_views(selected@));
                if !seen {
                    match entry.deploy_candidate() {
                        Some(c) => {
                            selected.push(c);
                            assert(candidate_views(selected@) =~= selected_upto(e, i + 1));
                        },
                        None => {},
                    }
                }
            }
            i = i + 1;
        }
        selected
    }

    /// How many files are to be deployed.
    pub fn selected_count(&self) -> (r: usize)
        ensures
            r == selected_spec(self.views()).len(),
    {
        self.selected_candidates().len()
    }

    /// Sets entry `index` to `entry`, which differs from it in the flags
    /// only.
    fn set_entry_flags(&mut self, index: usize, selected: bool, expanded: bool)
        requires
            index < old(self).entries@.len(),
        ensures
            final(self).views() == old(self).views().update(
                index as int,
                TreeEntryView { selected, expanded, ..old(self).views()[index as int] },
            ),
            final(self).entries@.len() == old(self).entries@.len(),
            *final(self) == (App { entries: final(self).entries, ..*old(self) }),
    {
        let mut e = self.entries[index].duplicate();
        e.selected = selected;
        e.expanded = expanded;
        self.entries.set(index, e);
        assert(self.views() =~= old(self).views().update(
            index as int,
            TreeEntryView { selected, expanded, ..old(self).views()[index as int] },
        ));
    }

    /// Toggles the selection of entry `index`; a folder takes the entries
    /// below it whose path lies under it along.
    fn toggle_entry_selection(&mut self, index: usize)
        requires
            index < old(self).entries@.len(),
        ensures
            final(self).views() == toggled(old(self).views(), index as int),
            final(self).entries@.len() == old(self).entries@.len(),
            *final(self) == (App { entries: final(self).entries, ..*old(self) }),
    {
        let ghost e = self.views();
        let n = self.entries.len();
        let selected = !self.entries[index].selected;
        let path = self.entries[index].path.clone();
        let depth = self.entries[index].depth;
        let is_dir = self.entries[index].is_dir();
        let expanded = self.entries[index].expanded;
        self.set_entry_flags(index, selected, expanded);
        let mut prefix = String::from_str(path.as_str());
        prefix.append("/");
        proof {
            reveal_strlit("/");
            assert(prefix@ =~= e[index as int].path.push('/'));
        }
        let pv = chars_of(prefix.as_str());
        if is_dir {
            let mut k = index + 1;
            while k < n && self.entries[k].depth > depth
                invariant
                    n == self.entries@.len(),
                    n == e.len(),
                    index < k <= n,
                    e[index as int].kind == EntryKind::Directory,
                    depth == e[index as int].depth,
                    selected == !e[index as int].selected,
                    pv@ == e[index as int].path.push('/'),
                    forall|m: int| index < m < k ==> #[trigger] e[m].depth > depth,
                    forall|m: int|
                        0 <= m < n ==> #[trigger] self.views()[m] == (if m < k {
                            toggled(e, index as int)[m]
                        } else {
                            e[m]
                        }),
                    *self == (App { entries: self.entries, ..*old(self) }),
                decreases n - k,
            {
                let ghost kk = k as int;
                assert(self.views()[kk] == e[kk]);
                assert(below(e, index as int, kk));
                let ev = chars_of(self.entries[k].path.as_str());
                if crate::text::has_prefix(&ev, &pv) {
                    let keep = self.entries[k].expanded;
                    self.set_entry_flags(k, selected, keep);
                }
                k = k + 1;
            }
            proof {
                if k < n {
                    assert(self.views()[k as int] == e[k as int]);
                    assert(!(e[k as int].depth > depth));
                }
                assert forall|m: int| k <= m < n implies !below(e, index as int, m) by {
                    assert(!(e[k as int].depth > depth));
                }
            }
        }
        proof {
            assert forall|m: int| 0 <= m < n implies #[trigger] self.views()[m] == toggled(
                e,
                index as int,
            )[m] by {
                if is_dir {
                } else {
                }
            }
        }
        assert(self.views() =~= toggled(e, index as int));
    }
}


// ---- Selection changes and rsync runs ----

/// A cursor or scroll position kept below `len`.
pub open spec fn clamped(c: int, len: int) -> int {
    if len == 0 {
        0
    } else {
        min_int(c, len - 1)
    }
}

/// The status line after a reload of the repository.
pub open spec fn reload_message(entries: nat, selected: nat) -> Seq<char> {
    "Auto-refreshed: "@ + decimal(entries) + " change(s), "@ + decimal(selected) + " selected."@
}

/// `b` is `a` after the selection changed to `now`, with the cursor first at
/// `cursor`: the cursor and scroll position kept within the rows, the Git
/// pane brought up to date when `refresh_git`, and a new dry run requested.
pub open spec fn after_selection_change(
    a: App,
    b: App,
    now: Seq<TreeEntryView>,
    cursor: int,
    refresh_git: bool,
) -> bool {
    let len = visible(now, a.selected_only).len() as int;
    &&& b.views() == now
    &&& b.repo_root@ == a.repo_root@
    &&& b.target@ == a.target@
    &&& b.selected_only == a.selected_only
    &&& b.cursor == clamped(cursor, len)
    &&& b.repository_offset == clamped(a.repository_offset as int, len)
    &&& if refresh_git {
        git_pane_for(b, a.git_preview@)
    } else {
        git_same(a, b)
    }
    &&& rsync_request_effect(a, b, false, RsyncFollowUp::Nothing)
    &&& command_same(a, b)
    &&& settings_same(a, b)
}

/// The status line after toggling the selected-files view.
pub open spec fn selected_only_message(selected_only: bool) -> Seq<char> {
    if selected_only {
        "Showing selected files only. Press s to return to the repository tree."@
    } else {
        "Showing the repository tree."@
    }
}

/// What taking in the outcome of the rsync run that `a` asked for gives:
/// the panes show the report (or the error), and the status line says how
/// it went.
pub open spec fn rsync_outcome_post(a: App, b: App, outcome: Result<RsyncRunReport, String>) -> bool {
    &&& b.pending_rsync is None
    &&& tree_same(a, b)
    &&& nav_same(a, b)
    &&& command_same(a, b)
    &&& git_same(a, b)
    &&& settings_same(a, b)
    &&& b.rsync_scroll == 0
    &&& b.content_diff_scroll == 0
    &&& ({
        let req = a.pending_rsync->0;
        let n = req.selected@.len();
        let focus = a.current_file_spec();
        match outcome {
            Ok(r) => {
                &&& b.rsync_preview@ == truncated(status_text(r, focus), 200000)
                &&& b.content_diff_preview@ == content_diff_text(r, focus)
                &&& b.rsync_report == Some(r)
                &&& if req.dry_run {
                    &&& b.rsync_dry_run_ready
                    &&& !b.rsync_preview_stale
                    &&& b.active_pane == (if req.focus {
                        PreviewPane::Content
                    } else {
                        a.active_pane
                    })
                    &&& b.message@ == match req.follow_up {
                        RsyncFollowUp::Nothing => "Rsync diff refreshed for "@ + decimal(n)
                            + " file(s). Review it before running."@,
                        RsyncFollowUp::ReviewBeforeDeploy =>
                            "Review the rsync diff, then press r again to deploy."@,
                        RsyncFollowUp::Reloaded { entries, selected } => reload_message(
                            entries as nat,
                            selected as nat,
                        ),
                    }
                } else {
                    &&& !b.rsync_dry_run_ready
                    &&& b.rsync_preview_stale
                    &&& b.active_pane == PreviewPane::Content
                    &&& b.message@ == "Rsync completed for "@ + decimal(n)
                        + " file(s)."@
                }
            },
            Err(e) => {
                &&& b.rsync_report is None
                &&& !b.rsync_dry_run_ready
                &&& b.rsync_preview_stale
                &&& if req.dry_run {
                    &&& b.rsync_preview@ == "Rsync diff failed:\n\n"@ + e@
                    &&& b.content_diff_preview@ == "Rsync diff failed."@
                    &&& b.active_pane == (if req.focus {
                        PreviewPane::Content
                    } else {
                        a.active_pane
                    })
                    &&& b.message@ == match req.follow_up {
                        RsyncFollowUp::Reloaded { entries, selected } => reload_message(
                            entries as nat,
                            selected as nat,
                        ) + " Rsync diff failed."@,
                        _ => "Rsync diff failed. Deploy is blocked."@,
                    }
                } else {
                    &&& b.rsync_preview@ == "Rsync failed:\n\n"@ + e@
                    &&& b.content_diff_preview@ == "Rsync failed."@
                    &&& b.active_pane == PreviewPane::Content
                    &&& b.message@ == "Rsync failed."@
                }
            },
        }
    })
}

impl App {
    /// Asks for a dry run of what is selected (or, with nothing selected,
    /// says so in the rsync panes at once).
    fn request_rsync_preview(&mut self, focus: bool, follow_up: RsyncFollowUp)
        requires
            old(self).wf(),
        ensures
            final(self).wf(),
            rsync_request_effect(*old(self), *final(self), focus, follow_up),
            tree_same(*old(self), *final(self)),
            nav_same(*old(self), *final(self)),
            command_same(*old(self), *final(self)),
            git_same(*old(self), *final(self)),
            settings_same(*old(self), *final(self)),
    {
        let selected = self.selected_candidates();
        if selected.len() == 0 {
            self.rsync_preview = String::from_str(
                "No selected files.\n\nSelect files to see the expected rsync changes against the destination.",
            );
            self.rsync_scroll = 0;
            self.content_diff_preview = String::from_str(
                "No selected file content diff.\n\nSelect a file to compare source content against the destination.",
            );
            self.content_diff_scroll = 0;
            self.rsync_dry_run_ready = false;
            self.rsync_preview_stale = false;
            self.rsync_report = None;
            self.pending_rsync = None;
            if focus {
                self.message = String::from_str("No selected files.");
                self.active_pane = PreviewPane::Content;
            }
            return;
        }
        self.rsync_preview_stale = true;
        self.rsync_dry_run_ready = false;
        self.pending_rsync = Some(RsyncRequest { selected, dry_run: true, focus, follow_up });
    }

    /// Asks for a new dry run of what is selected, the rsync panes taking the
    /// focus when `focus`.
    pub fn refresh_rsync_preview(&mut self, focus: bool)
        requires
            old(self).wf(),
        ensures
            final(self).wf(),
            rsync_request_effect(*old(self), *final(self), focus, RsyncFollowUp::Nothing),
            tree_same(*old(self), *final(self)),
            nav_same(*old(self), *final(self)),
            command_same(*old(self), *final(self)),
            git_same(*old(self), *final(self)),
            settings_same(*old(self), *final(self)),
    {
        self.request_rsync_preview(focus, RsyncFollowUp::Nothing);
    }

    /// Deploys what is selected, but only after a dry run that is still up
    /// to date: without one, a dry run is requested to be reviewed first.
    pub fn deploy_rsync(&mut self)
        requires
            old(self).wf(),
        ensures
            final(self).wf(),
            deploy_post(*old(self), *final(self)),
    {
        let selected = self.selected_candidates();
        if selected.len() == 0 {
            self.message = String::from_str("No selected files.");
            self.active_pane = PreviewPane::Content;
            return;
        }
        if self.rsync_preview_stale || !self.rsync_dry_run_ready {
            self.request_rsync_preview(true, RsyncFollowUp::ReviewBeforeDeploy);
            return;
        }
        self.pending_rsync = Some(
            RsyncRequest { selected, dry_run: false, focus: true, follow_up: RsyncFollowUp::Nothing },
        );
    }

    /// Takes in what the requested rsync run reported (its report, or the
    /// error that stopped it): the panes show it, and the status line says
    /// how it went.
    pub fn apply_rsync_outcome(&mut self, outcome: Result<RsyncRunReport, String>)
        requires
            old(self).wf(),
            old(self).pending_rsync is Some,
            outcome matches Ok(r) ==> focus_renders(r, old(self).current_file_spec()),
        ensures
            final(self).wf(),
            rsync_outcome_post(*old(self), *final(self), outcome),
    {
        let request = match self.pending_rsync.take() {
            Some(r) => r,
            None => {
                return;
            },
        };
        let n = request.selected.len();
        match outcome {
            Ok(report) => {
                let focus_path = self.current_file_path();
                let focus_str: Option<&str> = match &focus_path {
                    Some(p) => Some(p.as_str()),
                    None => None,
                };
                self.rsync_preview = report.render_status(focus_str);
                self.content_diff_preview = report.render_content_diff(focus_str);
                self.rsync_report = Some(report);
                self.rsync_scroll = 0;
                self.content_diff_scroll = 0;
                if request.dry_run {
                    self.rsync_dry_run_ready = true;
                    self.rsync_preview_stale = false;
                    if request.focus {
                        self.active_pane = PreviewPane::Content;
                    }
                    self.message = match request.follow_up {
                        RsyncFollowUp::Nothing => {
                            let mut m = String::from_str("Rsync diff refreshed for ");
                            push_decimal(&mut m, n);
                            m.append(" file(s). Review it before running.");
                            m
                        },
                        RsyncFollowUp::ReviewBeforeDeploy => String::from_str(
                            "Review the rsync diff, then press r again to deploy.",
                        ),
                        RsyncFollowUp::Reloaded { entries, selected } => reload_text(
                            entries,
                            selected,
                        ),
                    };
                } else {
                    self.rsync_dry_run_ready = false;
                    self.rsync_preview_stale = true;
                    self.active_pane = PreviewPane::Content;
                    let mut m = String::from_str("Rsync completed for ");
                    push_decimal(&mut m, n);
                    m.append(" file(s).");
                    self.message = m;
                }
            },
            Err(err) => {
                self.rsync_scroll = 0;
                self.content_diff_scroll = 0;
                self.rsync_dry_run_ready = false;
                self.rsync_preview_stale = true;
                self.rsync_report = None;
                if request.dry_run {
                    let mut text = String::from_str("Rsync diff failed:\n\n");
                    text.append(err.as_str());
                    self.rsync_preview = text;
                    self.content_diff_preview = String::from_str("Rsync diff failed.");
                    if request.focus {
                        self.active_pane = PreviewPane::Content;
                    }
                    self.message = match request.follow_up {
                        RsyncFollowUp::Reloaded { entries, selected } => {
                            let mut m = reload_text(entries, selected);
                            m.append(" Rsync diff failed.");
                            m
                        },
                        _ => String::from_str("Rsync diff failed. Deploy is blocked."),
                    };
                } else {
                    let mut text = String::from_str("Rsync failed:\n\n");
                    text.append(err.as_str());
                    self.rsync_preview = text;
                    self.content_diff_preview = String::from_str("Rsync failed.");
                    self.active_pane = PreviewPane::Content;
                    self.message = String::from_str("Rsync failed.");
                }
            },
        }
    }
}

fn reload_text(entries: usize, selected: usize) -> (r: String)
    ensures
        r@ == reload_message(entries as nat, selected as nat),
{
    let mut m = String::from_str("Auto-refreshed: ");
    push_decimal(&mut m, entries);
    m.append(" change(s), ");
    push_decimal(&mut m, selected);
    m.append(" selected.");
    m
}


impl App {
    /// Takes in the body of the requested Git preview (a diff or a file
    /// preview), or the error that stopped it.
    pub fn apply_git_preview(&mut self, body: Result<String, String>)
        requires
            old(self).pending_git_preview is Some,
        ensures
            final(self).pending_git_preview is None,
            final(self).git_preview@ == match body {
                Ok(b) => truncated(preview_header(old(self).pending_git_preview->0@) + b@, 200000),
                Err(e) => "Failed to create git preview:\n"@ + e@,
            },
            *final(self) == (App {
                git_preview: final(self).git_preview,
                pending_git_preview: None,
                ..*old(self)
            }),
    {
        let candidate = match self.pending_git_preview.take() {
            Some(c) => c,
            None => {
                return;
            },
        };
        self.git_preview = match body {
            Ok(b) => preview_candidate(&candidate, b.as_str()),
            Err(e) => {
                let mut text = String::from_str("Failed to create git preview:\n");
                text.append(e.as_str());
                text
            },
        };
    }

    /// Toggles the selection of the entry under the cursor (a folder with
    /// what lies below it), then asks for a new dry run.
    pub fn toggle_current(&mut self)
        requires
            old(self).wf(),
        ensures
            final(self).wf(),
            toggle_current_post(*old(self), *final(self)),
    {
        let index = match self.current_entry_index() {
            Some(i) => i,
            None => {
                return;
            },
        };
        self.toggle_entry_selection(index);
        self.clamp_cursor();
        if self.selected_only {
            self.refresh_git_preview();
        }
        self.refresh_rsync_preview(false);
    }

    /// Toggles the selection of the entry on row `visible_index` and puts the
    /// cursor there.
    pub fn toggle_candidate_at(&mut self, visible_index: usize)
        requires
            old(self).wf(),
        ensures
            final(self).wf(),
            visible_index >= old(self).visible_spec().len() ==> *final(self) == *old(self),
            visible_index < old(self).visible_spec().len() ==> after_selection_change(
                *old(self),
                *final(self),
                toggled(old(self).views(), old(self).visible_spec()[visible_index as int] as int),
                visible_index as int,
                true,
            ),
    {
        let visible = self.visible_indices();
        if visible_index >= visible.len() {
            return;
        }
        let entry_index = visible[visible_index];
        proof {
            lemma_visible_bounds(self.views(), self.selected_only);
        }
        self.cursor = visible_index;
        self.toggle_entry_selection(entry_index);
        self.clamp_cursor();
        self.refresh_git_preview();
        self.refresh_rsync_preview(false);
    }

    /// Selects every entry, or clears every selection when all are selected.
    pub fn toggle_all(&mut self)
        requires
            old(self).wf(),
        ensures
            final(self).wf(),
            toggle_all_post(*old(self), *final(self)),
    {
        let ghost e = self.views();
        let mut all_selected = true;
        let mut i: usize = 0;
        while i < self.entries.len()
            invariant
                i <= self.entries@.len(),
                e == self.views(),
                all_selected <==> (forall|k: int| 0 <= k < i ==> #[trigger] e[k].selected),
            decreases self.entries@.len() - i,
        {
            assert(e[i as int].selected == self.entries@[i as int].selected);
            if !self.entries[i].selected {
                all_selected = false;
            }
            i = i + 1;
        }
        let value = !all_selected;
        let n = self.entries.len();
        let mut k: usize = 0;
        while k < n
            invariant
                n == self.entries@.len(),
                n == e.len(),
                k <= n,
                forall|m: int|
                    0 <= m < n ==> #[trigger] self.views()[m] == (if m < k {
                        all_set(e, value)[m]
                    } else {
                        e[m]
                    }),
                *self == (App { entries: self.entries, ..*old(self) }),
            decreases n - k,
        {
            let keep = self.entries[k].expanded;
            self.set_entry_flags(k, value, keep);
            k = k + 1;
        }
        assert(self.views() =~= all_set(e, value));
        self.clamp_cursor();
        if self.selected_only {
            self.refresh_git_preview();
        }
        self.refresh_rsync_preview(false);
    }

    /// Switches between the tree and the selected files, from the top.
    pub fn toggle_selected_only(&mut self)
        requires
            renders_at(*old(self), selected_only_target(*old(self))),
            old(self).wf(),
        ensures
            final(self).wf(),
            selected_only_post(*old(self), *final(self)),
    {
        self.selected_only = !self.selected_only;
        self.repository_offset = 0;
        self.clamp_cursor();
        self.refresh_git_preview();
        self.render_rsync_preview_for_cursor();
        self.message = if self.selected_only {
            String::from_str("Showing selected files only. Press s to return to the repository tree.")
        } else {
            String::from_str("Showing the repository tree.")
        };
    }

    /// Expands or collapses the folder under the cursor.
    pub fn toggle_current_expanded(&mut self)
        requires
            old(self).wf(),
        ensures
            final(self).wf(),
            toggle_expanded_post(*old(self), *final(self)),
    {
        let index = match self.current_entry_index() {
            Some(i) => i,
            None => {
                return;
            },
        };
        if self.entries[index].is_dir() {
            let selected = self.entries[index].selected;
            let expanded = !self.entries[index].expanded;
            self.set_entry_flags(index, selected, expanded);
            assert(self.views() =~= with_expanded(old(self).views(), index as int, expanded));
            self.clamp_cursor();
        }
    }

    /// Expands the folder under the cursor.
    pub fn expand_current(&mut self)
        requires
            old(self).wf(),
        ensures
            final(self).wf(),
            expand_post(*old(self), *final(self)),
    {
        let index = match self.current_entry_index() {
            Some(i) => i,
            None => {
                return;
            },
        };
        if self.entries[index].is_dir() {
            let selected = self.entries[index].selected;
            self.set_entry_flags(index, selected, true);
            assert(self.views() =~= with_expanded(old(self).views(), index as int, true));
        }
    }

    /// Collapses the folder under the cursor.
    pub fn collapse_current(&mut self)
        requires
            old(self).wf(),
        ensures
            final(self).wf(),
            collapse_post(*old(self), *final(self)),
    {
        let index = match self.current_entry_index() {
            Some(i) => i,
            None => {
                return;
            },
        };
        if self.entries[index].is_dir() {
            let selected = self.entries[index].selected;
            self.set_entry_flags(index, selected, false);
            assert(self.views() =~= with_expanded(old(self).views(), index as int, false));
            self.clamp_cursor();
        }
    }
}


// ---- Reloading the repository ----

/// A reloaded entry at `path` stays selected when an entry at that path was
/// selected, or when it lies under a selected folder.
pub open spec fn kept_selected(old: Seq<TreeEntryView>, path: Seq<char>) -> bool {
    ||| exists|i: int| 0 <= i < old.len() && #[trigger] old[i].selected && old[i].path == path
    ||| exists|i: int|
        0 <= i < old.len() && #[trigger] old[i].selected && old[i].kind == EntryKind::Directory
            && starts_with(path, old[i].path.push('/'))
}

/// A reloaded folder stays expanded when a folder at its path was expanded;
/// files always count as expanded.
pub open spec fn kept_expanded(old: Seq<TreeEntryView>, e: TreeEntryView) -> bool {
    ||| exists|i: int| 0 <= i < old.len() && #[trigger] old[i].expanded && old[i].path == e.path
    ||| e.kind != EntryKind::Directory
}

/// The reloaded entries with the selection and the expanded folders carried
/// over from `old`.
pub open spec fn merged(old: Seq<TreeEntryView>, new: Seq<TreeEntryView>) -> Seq<TreeEntryView> {
    Seq::new(
        new.len(),
        |k: int|
            TreeEntryView {
                selected: kept_selected(old, new[k].path),
                expanded: kept_expanded(old, new[k]),
                ..new[k]
            },
    )
}

/// The first row among `vis` whose entry has path `path`.
pub open spec fn first_row_of(e: Seq<TreeEntryView>, vis: Seq<usize>, path: Seq<char>) -> Option<int> {
    if exists|k: int|
        0 <= k < vis.len() && #[trigger] e[vis[k] as int].path == path && forall|j: int|
            0 <= j < k ==> e[vis[j] as int].path != path {
        Some(
            choose|k: int|
                0 <= k < vis.len() && #[trigger] e[vis[k] as int].path == path && forall|j: int|
                    0 <= j < k ==> e[vis[j] as int].path != path,
        )
    } else {
        None
    }
}

/// The row of the cursor after a reload: the row of the entry that was under
/// the cursor, else the old row kept within the rows.
pub open spec fn reload_cursor(a: App, now: Seq<TreeEntryView>) -> int {
    let vis = visible(now, a.selected_only);
    let fallback = min_int(a.cursor as int, if vis.len() == 0 { 0 } else { vis.len() - 1 });
    match a.current_index_spec() {
        Some(i) => match first_row_of(now, vis, a.views()[i as int].path) {
            Some(k) => k,
            None => fallback,
        },
        None => fallback,
    }
}

/// The effect of reloading the repository with `fresh` as the new entries.
pub open spec fn reload_post(a: App, b: App, fresh: Seq<TreeEntryView>) -> bool {
    let now = merged(a.views(), fresh);
    let len = visible(now, a.selected_only).len() as int;
    let count = selected_spec(now).len();
    &&& b.views() == now
    &&& b.repo_root@ == a.repo_root@
    &&& b.target@ == a.target@
    &&& b.selected_only == a.selected_only
    &&& b.cursor == clamped(reload_cursor(a, now), len)
    &&& b.repository_offset == min_int(clamped(a.repository_offset as int, len), len)
    &&& b.pending_refresh is None
    &&& git_pane_for(b, a.git_preview@)
    &&& rsync_request_effect(
        a,
        App { message: a.message, ..b },
        false,
        RsyncFollowUp::Reloaded { entries: fresh.len() as usize, selected: count as usize },
    )
    &&& b.message@ == (if count == 0 {
        reload_message(fresh.len(), 0)
    } else {
        a.message@
    })
    &&& command_same(a, b)
    &&& b.show_help == a.show_help
    &&& b.theme_kind == a.theme_kind
    &&& b.keymap.bindings@ == a.keymap.bindings@
    &&& b.should_quit == a.should_quit
}

/// Whether a reloaded entry at `path` stays selected.
fn selection_kept(old: &Vec<TreeEntry>, path: &str) -> (b: bool)
    ensures
        b == kept_selected(entry_views(old@), path@),
{
    let ghost e = entry_views(old@);
    let pv = chars_of(path);
    let mut i: usize = 0;
    while i < old.len()
        invariant
            i <= old@.len(),
            e == entry_views(old@),
            pv@ == path@,
            forall|j: int| 0 <= j < i ==> !(#[trigger] e[j].selected && e[j].path == path@),
            forall|j: int|
                0 <= j < i ==> !(#[trigger] e[j].selected && e[j].kind == EntryKind::Directory
                    && starts_with(path@, e[j].path.push('/'))),
        decreases old@.len() - i,
    {
        assert(e[i as int] == old@[i as int]@);
        if old[i].selected {
            let ov = chars_of(old[i].path.as_str());
            if crate::text::eq_str(&ov, path) {
                assert(e[i as int].selected && e[i as int].path == path@);
                return true;
            }
            if old[i].is_dir() {
                let mut prefix = String::from_str(old[i].path.as_str());
                prefix.append("/");
                proof {
                    reveal_strlit("/");
                    assert(prefix@ =~= e[i as int].path.push('/'));
                }
                let fv = chars_of(prefix.as_str());
                if crate::text::has_prefix(&pv, &fv) {
                    assert(e[i as int].selected && e[i as int].kind == EntryKind::Directory
                        && starts_with(path@, e[i as int].path.push('/')));
                    return true;
                }
            }
        }
        i = i + 1;
    }
    false
}

/// Whether a reloaded entry stays expanded.
fn expansion_kept(old: &Vec<TreeEntry>, entry: &TreeEntry) -> (b: bool)
    ensures
        b == kept_expanded(entry_views(old@), entry@),
{
    if !entry.is_dir() {
        return true;
    }
    let ghost e = entry_views(old@);
    let mut i: usize = 0;
    while i < old.len()
        invariant
            i <= old@.len(),
            e == entry_views(old@),
            entry.kind == EntryKind::Directory,
            forall|j: int| 0 <= j < i ==> !(#[trigger] e[j].expanded && e[j].path == entry.path@),
        decreases old@.len() - i,
    {
        assert(e[i as int] == old@[i as int]@);
        if old[i].expanded && old[i].path == entry.path {
            assert(e[i as int].expanded && e[i as int].path == entry.path@);
            return true;
        }
        i = i + 1;
    }
    false
}

/// The reloaded entries with the selection and the expanded folders of
/// `old` carried over.
fn merge_entries(old: &Vec<TreeEntry>, entries: Vec<TreeEntry>) -> (r: Vec<TreeEntry>)
    ensures
        entry_views(r@) == merged(entry_views(old@), entry_views(entries@)),
        r@.len() == entries@.len(),
{
    let ghost fresh = entry_views(entries@);
    let ghost before = entry_views(old@);
    let mut entries = entries;
    let n = entries.len();
    let mut k: usize = 0;
    while k < n
        invariant
            n == entries@.len(),
            n == fresh.len(),
            k <= n,
            before == entry_views(old@),
            forall|m: int|
                0 <= m < n ==> #[trigger] entry_views(entries@)[m] == (if m < k {
                    merged(before, fresh)[m]
                } else {
                    fresh[m]
                }),
        decreases n - k,
    {
        assert(entry_views(entries@)[k as int] == fresh[k as int]);
        let selected = selection_kept(old, entries[k].path.as_str());
        let expanded = expansion_kept(old, &entries[k]);
        let mut e = entries[k].duplicate();
        e.selected = selected;
        e.expanded = expanded;
        let ghost ev = e@;
        assert(ev == merged(before, fresh)[k as int]);
        let ghost prev = entries@;
        entries.set(k, e);
        assert(entries@ == prev.update(k as int, entries@[k as int]));
        assert forall|m: int| 0 <= m < n implies #[trigger] entry_views(entries@)[m] == (if m < k + 1 {
            merged(before, fresh)[m]
        } else {
            fresh[m]
        }) by {
            if m != k {
                assert(entries@[m] == prev[m]);
                assert(entry_views(prev)[m] == prev[m]@);
            }
        }
        k = k + 1;
    }
    assert(entry_views(entries@) =~= merged(before, fresh));
    entries
}

impl App {
    /// The row for the cursor after a reload: that of the first shown entry
    /// at `current_path`, else the cursor kept within the rows.
    fn reload_row(&self, current_path: &Option<String>) -> (r: usize)
        requires
            self.entries@.len() < usize::MAX,
        ensures
            ({
                let vis = self.visible_spec();
                let fallback = min_int(
                    self.cursor as int,
                    if vis.len() == 0 {
                        0
                    } else {
                        vis.len() - 1
                    },
                );
                r == match current_path {
                    Some(p) => match first_row_of(self.views(), vis, p@) {
                        Some(k) => k,
                        None => fallback,
                    },
                    None => fallback,
                }
            }),
    {
        let len = self.visible_len();
        let last = if len == 0 {
            0
        } else {
            len - 1
        };
        let fallback = if self.cursor <= last {
            self.cursor
        } else {
            last
        };
        match current_path {
            Some(p) => {
                let ps = p.as_str();
                assert(ps@ == p@);
                match self.row_of_path(ps) {
                    Some(row) => row,
                    None => fallback,
                }
            },
            None => fallback,
        }
    }

    /// Asks for the repository to be reloaded.
    pub fn refresh_candidates(&mut self, trigger: RefreshTrigger)
        ensures
            *final(self) == (App { pending_refresh: Some(trigger), ..*old(self) }),
    {
        self.pending_refresh = Some(trigger);
    }

    /// Takes in the error that stopped the requested reload.
    pub fn apply_refresh_failure(&mut self, err: &str)
        ensures
            final(self).message@ == (match old(self).pending_refresh {
                Some(RefreshTrigger::FileChange) => "Auto-refresh failed: "@,
                _ => "Refresh failed: "@,
            }) + err@,
            *final(self) == (App {
                message: final(self).message,
                pending_refresh: None,
                ..*old(self)
            }),
    {
        let mut m = match self.pending_refresh {
            Some(RefreshTrigger::FileChange) => String::from_str("Auto-refresh failed: "),
            _ => String::from_str("Refresh failed: "),
        };
        m.append(err);
        self.message = m;
        self.pending_refresh = None;
    }

    /// The row of the first visible entry whose path is `path`.
    fn row_of_path(&self, path: &str) -> (r: Option<usize>)
        requires
            self.entries@.len() < usize::MAX,
        ensures
            match first_row_of(self.views(), self.visible_spec(), path@) {
                Some(k) => r == Some(k as usize),
                None => r is None,
            },
    {
        let visible = self.visible_indices();
        proof {
            lemma_visible_bounds(self.views(), self.selected_only);
        }
        let ghost e = self.views();
        let ghost vis = visible@;
        let mut k: usize = 0;
        while k < visible.len()
            invariant
                k <= vis.len(),
                vis == visible@,
                vis == self.visible_spec(),
                e == self.views(),
                forall|m: int| 0 <= m < vis.len() ==> #[trigger] vis[m] < e.len(),
                forall|j: int| 0 <= j < k ==> e[vis[j] as int].path != path@,
            decreases vis.len() - k,
        {
            let index = visible[k];
            assert(e[index as int] == self.entries@[index as int]@);
            let ev = chars_of(self.entries[index].path.as_str());
            if crate::text::eq_str(&ev, path) {
                proof {
                    assert(e[vis[k as int] as int].path == path@);
                    let c = choose|c: int|
                        0 <= c < vis.len() && #[trigger] e[vis[c] as int].path == path@ && forall|j: int|
                            0 <= j < c ==> e[vis[j] as int].path != path@;
                    if c < k {
                    } else if c > k {
                        assert(e[vis[k as int] as int].path != path@);
                    }
                }
                return Some(k);
            }
            k = k + 1;
        }
        None
    }

    /// Takes in the reloaded entries: the selection, the expanded folders and
    /// the entry under the cursor carry over, the Git pane follows the cursor,
    /// and a new dry run is requested.
    pub fn apply_refreshed_entries(&mut self, entries: Vec<TreeEntry>)
        requires
            old(self).wf(),
            entries@.len() < usize::MAX,
        ensures
            final(self).wf(),
            reload_post(*old(self), *final(self), entry_views(entries@)),
    {
        let current_path: Option<String> = match self.current_entry() {
            Some(e) => Some(e.path.clone()),
            None => None,
        };
        let ghost fresh = entry_views(entries@);
        let entries = merge_entries(&self.entries, entries);
        self.entries = entries;
        let ghost now = self.views();
        let len = self.visible_len();
        self.cursor = self.reload_row(&current_path);
        proof {
            match old(self).current_index_spec() {
                Some(i) => {
                    assert(current_path matches Some(p) && p@ == old(self).views()[i as int].path);
                },
                None => {},
            }
        }
        assert(self.cursor == reload_cursor(*old(self), now));
        self.clamp_cursor();
        if self.repository_offset > len {
            self.repository_offset = len;
        }
        self.refresh_git_preview();
        let selected_count = self.selected_count();
        self.request_rsync_preview(
            false,
            RsyncFollowUp::Reloaded { entries: self.entries.len(), selected: selected_count },
        );
        if selected_count == 0 {
            self.message = reload_text(self.entries.len(), 0);
        }
        self.pending_refresh = None;
    }
}


// ---- Commands ----

/// The status line after an unknown command `name`.
pub open spec fn unknown_message(name: Seq<char>) -> Seq<char> {
    if name == "focus"@ {
        "usage: :focus repository|content|git|rsync"@
    } else {
        "unknown rdg command: :"@ + name
    }
}

/// `b` is `a` with only the status line changed, to `m`.
pub open spec fn says(a: App, b: App, m: Seq<char>) -> bool {
    &&& b.message@ == m
    &&& b == (App { message: b.message, ..a })
}

/// The effect of running the command `c`.
pub open spec fn run_post(a: App, b: App, c: CommandView) -> bool {
    match c {
        CommandView::Quit { .. } => b == (App { should_quit: true, ..a }),
        CommandView::Help => show_help_post(a, b),
        CommandView::Theme(t) => theme_post(a, b, t),
        CommandView::Refresh => b == (App { pending_refresh: Some(RefreshTrigger::User), ..a }),
        CommandView::Diff => {
            &&& rsync_request_effect(a, b, true, RsyncFollowUp::Nothing)
            &&& tree_same(a, b)
            &&& nav_same(a, b)
            &&& command_same(a, b)
            &&& git_same(a, b)
            &&& settings_same(a, b)
        },
        CommandView::Deploy => deploy_post(a, b),
        CommandView::Select => toggle_current_post(a, b),
        CommandView::SelectAll => toggle_all_post(a, b),
        CommandView::SelectedOnly => if !a.selected_only {
            selected_only_post(a, b)
        } else {
            says(a, b, "Already showing selected files only."@)
        },
        CommandView::Tree => if a.selected_only {
            selected_only_post(a, b)
        } else {
            says(a, b, "Already showing the repository tree."@)
        },
        CommandView::Focus(p) => {
            &&& b.message@ == "Focused "@ + p.label_spec()@ + " pane."@
            &&& b == (App { active_pane: p, message: b.message, ..a })
        },
        CommandView::Expand => expand_post(a, b),
        CommandView::Collapse => collapse_post(a, b),
        CommandView::Unknown(name) => says(a, b, unknown_message(name)),
        CommandView::Empty => says(a, b, "empty command"@),
    }
}

/// The effect of submitting the command line.
pub open spec fn submit_post(a: App, b: App) -> bool {
    let t = trim(a.command_input@);
    &&& !b.command_mode
    &&& b.command_input@ == Seq::<char>::empty()
    &&& b.command_history_cursor is None
    &&& if t.len() == 0 || t == ":"@ {
        &&& b.command_history@ == a.command_history@
        &&& says(
            App {
                command_mode: false,
                command_input: b.command_input,
                command_history_cursor: None,
                ..a
            },
            b,
            "empty command"@,
        )
    } else {
        &&& b.command_history@.len() == a.command_history@.len() + 1
        &&& b.command_history@.drop_last() == a.command_history@
        &&& b.command_history@.last()@ == t
        &&& run_post(
            App {
                command_mode: false,
                command_input: b.command_input,
                command_history: b.command_history,
                command_history_cursor: None,
                ..a
            },
            b,
            parse_spec(t),
        )
    }
}

impl App {
    /// Runs the command typed as `input`.
    pub fn run_command(&mut self, input: &str)
        requires
            renders_at(*old(self), run_target(*old(self), parse_spec(input@))),
            old(self).wf(),
        ensures
            final(self).wf(),
            run_post(*old(self), *final(self), parse_spec(input@)),
    {
        match parse(input) {
            Command::Quit { force: _ } => {
                self.should_quit = true;
            },
            Command::Help => self.show_help(),
            Command::Theme(theme) => self.set_theme(theme),
            Command::Refresh => self.refresh_candidates(RefreshTrigger::User),
            Command::Diff => self.refresh_rsync_preview(true),
            Command::Deploy => self.deploy_rsync(),
            Command::Select => self.toggle_current(),
            Command::SelectAll => self.toggle_all(),
            Command::SelectedOnly => {
                if !self.selected_only {
                    self.toggle_selected_only();
                } else {
                    self.message = String::from_str("Already showing selected files only.");
                }
            },
            Command::Tree => {
                if self.selected_only {
                    self.toggle_selected_only();
                } else {
                    self.message = String::from_str("Already showing the repository tree.");
                }
            },
            Command::Focus(pane) => {
                self.active_pane = pane;
                let mut m = String::from_str("Focused ");
                m.append(pane.label());
                m.append(" pane.");
                self.message = m;
            },
            Command::Expand => self.expand_current(),
            Command::Collapse => self.collapse_current(),
            Command::Unknown(name) => {
                let nv = chars_of(name.as_str());
                self.message = if eq_str(&nv, "focus") {
                    String::from_str("usage: :focus repository|content|git|rsync")
                } else {
                    let mut m = String::from_str("unknown rdg command: :");
                    m.append(name.as_str());
                    m
                };
            },
            Command::Empty => {
                self.message = String::from_str("empty command");
            },
        }
    }

    /// Closes the command line and runs what it holds, keeping it in the
    /// history.
    pub fn submit_command(&mut self)
        requires
            renders_at(*old(self), submit_target(*old(self))),
            old(self).wf(),
        ensures
            final(self).wf(),
            submit_post(*old(self), *final(self)),
    {
        let command = trimmed(self.command_input.as_str());
        self.command_mode = false;
        self.command_input = String::new();
        self.command_history_cursor = None;
        let cv = chars_of(command.as_str());
        if cv.len() == 0 || eq_str(&cv, ":") {
            self.message = String::from_str("empty command");
            return;
        }
        let kept = command.clone();
        self.command_history.push(kept);
        assert(self.command_history@.drop_last() =~= old(self).command_history@);
        self.run_command(command.as_str());
    }

    /// The state for the repository at `repo_root` with `entries`, deploying
    /// to `target`; the Git pane asks for the preview of the first row.
    pub fn with_entries(repo_root: String, target: String, entries: Vec<TreeEntry>) -> (app: App)
        requires
            entries@.len() < usize::MAX,
        ensures
            app.wf(),
            app.repo_root@ == repo_root@,
            app.target@ == target@,
            app.entries@ == entries@,
            app.cursor == 0,
            app.repository_offset == 0,
            !app.selected_only,
            app.rsync_preview@ == no_selection_text(),
            app.content_diff_preview@ == no_content_text(),
            app.rsync_scroll == 0,
            app.content_diff_scroll == 0,
            !app.rsync_dry_run_ready,
            !app.rsync_preview_stale,
            app.rsync_report is None,
            app.message@ == "Press : for commands, ? for help, or Tab to change focus."@,
            app.command_input@ == Seq::<char>::empty(),
            !app.command_mode,
            app.command_history@.len() == 0,
            app.command_history_cursor is None,
            !app.show_help,
            app.theme_kind == ThemeKind::Neutral,
            app.active_pane == PreviewPane::Repository,
            app.keymap.bindings@ == crate::keymap::common_bindings(),
            !app.should_quit,
            app.pending_refresh is None,
            app.pending_rsync is None,
            git_pane_for(app, Seq::<char>::empty()),
    {
        let mut app = App {
            repo_root,
            target,
            entries,
            cursor: 0,
            repository_offset: 0,
            selected_only: false,
            git_preview: String::new(),
            rsync_preview: String::from_str(
                "No selected files.\n\nSelect files to see the expected rsync changes against the destination.",
            ),
            content_diff_preview: String::from_str(
                "No selected file content diff.\n\nSelect a file to compare source content against the destination.",
            ),
            git_scroll: 0,
            rsync_scroll: 0,
            content_diff_scroll: 0,
            rsync_dry_run_ready: false,
            rsync_preview_stale: false,
            rsync_report: None,
            message: String::from_str("Press : for commands, ? for help, or Tab to change focus."),
            command_input: String::new(),
            command_mode: false,
            command_history: Vec::new(),
            command_history_cursor: None,
            show_help: false,
            theme_kind: ThemeKind::Neutral,
            active_pane: PreviewPane::Repository,
            keymap: Keymap::common(),
            should_quit: false,
            pending_refresh: None,
            pending_git_preview: None,
            pending_rsync: None,
        };
        app.refresh_git_preview();
        app
    }
}

// ---- Laws ----

/// A deploy is handed to rsync only after a dry run that is up to date; in
/// every other case at most a dry run is asked for (from a state with no
/// rsync run still waiting).
pub proof fn lemma_deploy_needs_reviewed_dry_run(a: App, b: App)
    requires
        a.pending_rsync is None,
        deploy_post(a, b),
        b.pending_rsync matches Some(r) && !r.dry_run,
    ensures
        a.rsync_dry_run_ready,
        !a.rsync_preview_stale,
        selected_spec(a.views()).len() > 0,
{
}

/// Every file that a deploy sends is a selected file of the tree, under its
/// path and status line and with the change kind Git reports for it (a
/// deleted file is sent as deleted); a file without Git state is sent as
/// unchanged.
pub proof fn lemma_deployed_files_keep_git_state(e: Seq<TreeEntryView>)
    ensures
        forall|k: int|
            0 <= k < selected_spec(e).len() ==> exists|i: int|
                0 <= i < e.len() && e[i].selected && e[i].kind == EntryKind::File
                    && #[trigger] selected_spec(e)[k].path == e[i].path && selected_spec(e)[k].status
                    == e[i].status && (forall|g: ChangeKind|
                    e[i].git_kind == Some(g) ==> selected_spec(e)[k].kind == g) && (e[i].git_kind is None
                    ==> selected_spec(e)[k].kind == ChangeKind::Unchanged),
{
    lemma_selected_spec(e, e.len() as int);
    assert forall|k: int| 0 <= k < selected_spec(e).len() implies exists|i: int|
        0 <= i < e.len() && e[i].selected && e[i].kind == EntryKind::File
            && #[trigger] selected_spec(e)[k].path == e[i].path && selected_spec(e)[k].status
            == e[i].status && (forall|g: ChangeKind|
            e[i].git_kind == Some(g) ==> selected_spec(e)[k].kind == g) && (e[i].git_kind is None
            ==> selected_spec(e)[k].kind == ChangeKind::Unchanged) by {
        let i = choose|i: int|
            0 <= i < e.len() && e[i].selected && e[i].kind == EntryKind::File
                && #[trigger] selected_upto(e, e.len() as int)[k] == deploy_view(e[i]);
        crate::tree::lemma_deploy_keeps_git_state(e[i]);
    }
}

/// A deploy after an up-to-date dry run hands rsync a real run; whatever
/// that run reports, the dry run then counts as stale, the content pane has
/// the focus, and the next deploy asks for a new dry run first. A failed run
/// also drops the report and says "Rsync failed.".
pub proof fn lemma_deploy_leaves_dry_run_stale(
    a: App,
    b: App,
    c: App,
    d: App,
    outcome: Result<RsyncRunReport, String>,
)
    requires
        selected_spec(a.views()).len() > 0,
        a.rsync_dry_run_ready,
        !a.rsync_preview_stale,
        deploy_post(a, b),
        rsync_outcome_post(b, c, outcome),
        deploy_post(c, d),
    ensures
        b.pending_rsync matches Some(r) && !r.dry_run,
        !c.rsync_dry_run_ready,
        c.rsync_preview_stale,
        c.active_pane == PreviewPane::Content,
        outcome is Err ==> c.rsync_report is None && c.message@ == "Rsync failed."@,
        d.pending_rsync matches Some(r) && r.dry_run,
{
    assert(c.views() == a.views());
}

/// After the selection changes, the dry run no longer counts as reviewed, so
/// the next deploy asks for a new one.
pub proof fn lemma_selection_change_needs_new_dry_run(
    a: App,
    b: App,
    now: Seq<TreeEntryView>,
    cursor: int,
    refresh_git: bool,
)
    requires
        after_selection_change(a, b, now, cursor, refresh_git),
    ensures
        !b.rsync_dry_run_ready,
{
}

/// A reload keeps every path that was selected selected, and selects every
/// entry under a folder that was selected.
pub proof fn lemma_reload_keeps_selection(old: Seq<TreeEntryView>, fresh: Seq<TreeEntryView>, i: int, k: int)
    requires
        0 <= i < old.len(),
        0 <= k < fresh.len(),
        old[i].selected,
        old[i].path == fresh[k].path || (old[i].kind == EntryKind::Directory && starts_with(
            fresh[k].path,
            old[i].path.push('/'),
        )),
    ensures
        merged(old, fresh)[k].selected,
{
}

/// A reload keeps every path that was expanded expanded.
pub proof fn lemma_reload_keeps_expansion(old: Seq<TreeEntryView>, fresh: Seq<TreeEntryView>, i: int, k: int)
    requires
        0 <= i < old.len(),
        0 <= k < fresh.len(),
        old[i].expanded,
        old[i].path == fresh[k].path,
    ensures
        merged(old, fresh)[k].expanded,
{
}

/// Selecting a folder puts every file below it whose path lies under it
/// among the files to deploy.
pub proof fn lemma_folder_selection_deploys_descendants(e: Seq<TreeEntryView>, index: int, k: int)
    requires
        0 <= index < e.len(),
        e[index].kind == EntryKind::Directory,
        !e[index].selected,
        below(e, index, k),
        e[k].kind == EntryKind::File,
        starts_with(e[k].path, e[index].path.push('/')),
    ensures
        paths_of(selected_spec(toggled(e, index))).contains(e[k].path),
{
    let t = toggled(e, index);
    assert(t[k].selected && t[k].kind == EntryKind::File && t[k].path == e[k].path);
    lemma_selected_spec(t, t.len() as int);
}

/// A reload changes nothing of an entry but whether it is selected and
/// expanded, and keeps every file expanded.
pub proof fn lemma_reload_keeps_entries(old: Seq<TreeEntryView>, fresh: Seq<TreeEntryView>, k: int)
    requires
        0 <= k < fresh.len(),
    ensures
        merged(old, fresh).len() == fresh.len(),
        merged(old, fresh)[k].path == fresh[k].path,
        merged(old, fresh)[k].kind == fresh[k].kind,
        merged(old, fresh)[k].depth == fresh[k].depth,
        merged(old, fresh)[k].git_kind == fresh[k].git_kind,
        fresh[k].kind == EntryKind::File ==> merged(old, fresh)[k].expanded,
{
}

/// Selecting a folder selects every entry below it whose path lies under
/// it, and toggling a file changes that file alone.
pub proof fn lemma_toggle_folder_takes_descendants(e: Seq<TreeEntryView>, index: int, k: int)
    requires
        0 <= index < e.len(),
        0 <= k < e.len(),
    ensures
        toggled(e, index)[index].selected == !e[index].selected,
        e[index].kind == EntryKind::Directory && below(e, index, k) && starts_with(
            e[k].path,
            e[index].path.push('/'),
        ) ==> toggled(e, index)[k].selected == !e[index].selected,
        e[index].kind == EntryKind::File && k != index ==> toggled(e, index)[k] == e[k],
{
}

/// Selecting everything twice over, from a state where some entry is not
/// selected, ends with everything selected; and the second press clears
/// everything again.
pub proof fn lemma_toggle_all_twice(e: Seq<TreeEntryView>)
    requires
        e.len() > 0,
    ensures
        all_selected(all_set(e, !all_selected(e))) == !all_selected(e),
        all_set(all_set(e, !all_selected(e)), all_selected(e)) == all_set(e, all_selected(e)),
{
    let once = all_set(e, !all_selected(e));
    if all_selected(e) {
        assert(!once[0].selected);
    }
    assert(all_set(once, all_selected(e)) =~= all_set(e, all_selected(e)));
}

/// Toggling a file twice gives back the entries it started from.
pub proof fn lemma_toggle_file_twice(e: Seq<TreeEntryView>, index: int)
    requires
        0 <= index < e.len(),
        e[index].kind == EntryKind::File,
    ensures
        toggled(toggled(e, index), index) == e,
{
    assert(toggled(toggled(e, index), index) =~= e);
}

/// Every character takes at least a byte.
proof fn lemma_utf8_len_at_least_len(s: Seq<char>)
    ensures
        utf8_len(s) >= s.len(),
    decreases s.len(),
{
    if s.len() > 0 {
        lemma_utf8_len_at_least_len(s.drop_first());
    }
}

/// Deleting right after typing on an open command line takes the typed
/// character back off.
pub proof fn lemma_type_then_delete(a: App, m: App, b: App, ch: char)
    requires
        a.command_mode,
        a.command_input@.len() > 0,
        push_char_post(a, m, ch),
        pop_char_post(m, b),
    ensures
        b.command_input@ == a.command_input@,
        b.command_mode,
{
    lemma_utf8_len_at_least_len(a.command_input@.push(ch));
    assert(a.command_input@.push(ch).drop_last() =~= a.command_input@);
}

} // verus!
