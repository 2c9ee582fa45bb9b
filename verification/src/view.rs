//! What the screen shows: the styles of preview lines, the rows of the
//! tree, the help, and the titles of the panes.

use vstd::prelude::*;

use crate::app::{App, PreviewPane};
use crate::git::ChangeKind;
use crate::keymap::{KeyBinding, Keymap};
use crate::text::{
    chars_of, contains_chars, contains_seq, eq_str, has_prefix, lines, pad_right,
    push_decimal, push_padded, spaces, split_lines, starts_with, string_from_chars, views, decimal,
};
use crate::theme::{Role, ThemeKind};
use crate::tree::{EntryKind, TreeEntry, TreeEntryView};

verus! {

/// The named styles of the design.
#[derive(Clone, Copy, Debug, PartialEq, Eq, Structural)]
pub enum Selector {
    RepositoryBorder,
    ContentBorder,
    GitBorder,
    RsyncBorder,
    FileCheckbox,
    HeaderSelectedCount,
    GitClean,
    GitHeader,
    GitChanged,
    GitUntracked,
    GitDeleted,
    DiffHunk,
    DiffHeader,
    DiffAdd,
    DiffRemove,
    DiffEmphasis,
    DiffBinary,
    RsyncHeader,
    RsyncCommand,
    RsyncAdd,
    RsyncRemove,
    RsyncDelete,
    RsyncUnchanged,
    RsyncError,
}

impl Selector {
    /// The selector's name in the design.
    pub open spec fn name_spec(self) -> &'static str {
        match self {
            Selector::RepositoryBorder => "rdg.repository.border",
            Selector::ContentBorder => "rdg.content.border",
            Selector::GitBorder => "rdg.git.border",
            Selector::RsyncBorder => "rdg.rsync.border",
            Selector::FileCheckbox => "rdg.file.checkbox",
            Selector::HeaderSelectedCount => "rdg.header.selected_count",
            Selector::GitClean => "git.clean",
            Selector::GitHeader => "git.header",
            Selector::GitChanged => "git.changed",
            Selector::GitUntracked => "git.untracked",
            Selector::GitDeleted => "git.deleted",
            Selector::DiffHunk => "diff.hunk",
            Selector::DiffHeader => "diff.header",
            Selector::DiffAdd => "diff.add",
            Selector::DiffRemove => "diff.remove",
            Selector::DiffEmphasis => "diff.emphasis",
            Selector::DiffBinary => "diff.binary",
            Selector::RsyncHeader => "rsync.header",
            Selector::RsyncCommand => "rsync.command",
            Selector::RsyncAdd => "rsync.add",
            Selector::RsyncRemove => "rsync.remove",
            Selector::RsyncDelete => "rsync.delete",
            Selector::RsyncUnchanged => "rsync.unchanged",
            Selector::RsyncError => "rsync.error",
        }
    }

    /// The selector's name in the design.
    pub fn name(self) -> (s: &'static str)
        ensures
            s@ == self.name_spec()@,
    {
        match self {
            Selector::RepositoryBorder => "rdg.repository.border",
            Selector::ContentBorder => "rdg.content.border",
            Selector::GitBorder => "rdg.git.border",
            Selector::RsyncBorder => "rdg.rsync.border",
            Selector::FileCheckbox => "rdg.file.checkbox",
            Selector::HeaderSelectedCount => "rdg.header.selected_count",
            Selector::GitClean => "git.clean",
            Selector::GitHeader => "git.header",
            Selector::GitChanged => "git.changed",
            Selector::GitUntracked => "git.untracked",
            Selector::GitDeleted => "git.deleted",
            Selector::DiffHunk => "diff.hunk",
            Selector::DiffHeader => "diff.header",
            Selector::DiffAdd => "diff.add",
            Selector::DiffRemove => "diff.remove",
            Selector::DiffEmphasis => "diff.emphasis",
            Selector::DiffBinary => "diff.binary",
            Selector::RsyncHeader => "rsync.header",
            Selector::RsyncCommand => "rsync.command",
            Selector::RsyncAdd => "rsync.add",
            Selector::RsyncRemove => "rsync.remove",
            Selector::RsyncDelete => "rsync.delete",
            Selector::RsyncUnchanged => "rsync.unchanged",
            Selector::RsyncError => "rsync.error",
        }
    }
}

/// A style, by role or by selector.
#[derive(Clone, Copy, Debug, PartialEq, Eq, Structural)]
pub enum StyleRef {
    Role(Role),
    Selector(Selector),
}

/// Which pane a text is shown in.
#[derive(Clone, Copy, Debug, PartialEq, Eq, Structural)]
pub enum PaneText {
    Git,
    ContentDiff,
    Rsync,
}

/// The style of a line of the Git pane.
pub open spec fn git_line_style(l: Seq<char>) -> StyleRef {
    if starts_with(l, "diff --git"@) {
        StyleRef::Selector(Selector::GitHeader)
    } else if starts_with(l, "@@"@) {
        StyleRef::Selector(Selector::DiffHunk)
    } else if starts_with(l, "+"@) {
        StyleRef::Selector(Selector::DiffAdd)
    } else if starts_with(l, "-"@) {
        StyleRef::Selector(Selector::DiffRemove)
    } else if starts_with(l, "NEW FILE"@) || starts_with(l, "NEW DIRECTORY"@) {
        StyleRef::Selector(Selector::DiffEmphasis)
    } else if starts_with(l, "NEW BINARY"@) {
        StyleRef::Selector(Selector::DiffBinary)
    } else {
        StyleRef::Role(Role::Text)
    }
}

/// The style of a line of the destination-diff pane.
pub open spec fn content_diff_line_style(l: Seq<char>) -> StyleRef {
    if starts_with(l, "@@"@) {
        StyleRef::Selector(Selector::DiffHunk)
    } else if starts_with(l, "--- "@) || starts_with(l, "+++ "@) {
        StyleRef::Selector(Selector::DiffHeader)
    } else if starts_with(l, "+"@) {
        StyleRef::Selector(Selector::DiffAdd)
    } else if starts_with(l, "-"@) {
        StyleRef::Selector(Selector::DiffRemove)
    } else {
        StyleRef::Role(Role::Text)
    }
}

/// The section titles of the rsync pane.
pub open spec fn rsync_section_title(l: Seq<char>) -> bool {
    ||| l == "CURRENT FILE RSYNC DIFF"@
    ||| l == "TOTAL RSYNC DIFF"@
    ||| l == "RSYNC STDERR"@
    ||| l == "SELECTED FILES"@
    ||| l == "Content diff:"@
    ||| l == "Decoded:"@
    ||| l == "Itemized rsync change:"@
}

/// The style of a line of the rsync pane.
pub open spec fn rsync_line_style(l: Seq<char>) -> StyleRef {
    if l == "DRY RUN"@ || l == "RUN"@ || rsync_section_title(l) {
        StyleRef::Selector(Selector::RsyncHeader)
    } else if starts_with(l, "$ rsync"@) || starts_with(l, "@@"@) {
        StyleRef::Selector(Selector::RsyncCommand)
    } else if starts_with(l, "+++"@) || starts_with(l, "---"@) {
        StyleRef::Selector(Selector::DiffHeader)
    } else if starts_with(l, "+"@) {
        StyleRef::Selector(Selector::RsyncAdd)
    } else if starts_with(l, "-"@) {
        StyleRef::Selector(Selector::RsyncRemove)
    } else if starts_with(l, "*deleting"@) || contains_seq(l, " *deleting"@) {
        StyleRef::Selector(Selector::RsyncDelete)
    } else if starts_with(l, ">f"@) || starts_with(l, "cd"@) || starts_with(l, "cL"@) {
        StyleRef::Selector(Selector::RsyncAdd)
    } else if starts_with(l, ".d"@) || starts_with(l, ".f"@) {
        StyleRef::Selector(Selector::RsyncUnchanged)
    } else if starts_with(l, "rsync error"@) || starts_with(l, "Rsync failed"@) {
        StyleRef::Selector(Selector::RsyncError)
    } else {
        StyleRef::Role(Role::Text)
    }
}

/// The style of a line of a pane.
pub open spec fn line_style(pane: PaneText, l: Seq<char>) -> StyleRef {
    match pane {
        PaneText::Git => git_line_style(l),
        PaneText::ContentDiff => content_diff_line_style(l),
        PaneText::Rsync => rsync_line_style(l),
    }
}

fn begins(l: &Vec<char>, p: &str) -> (b: bool)
    ensures
        b == starts_with(l@, p@),
{
    has_prefix(l, &chars_of(p))
}

fn git_style(l: &Vec<char>) -> (s: StyleRef)
    ensures
        s == git_line_style(l@),
{
    if begins(l, "diff --git") {
        StyleRef::Selector(Selector::GitHeader)
    } else if begins(l, "@@") {
        StyleRef::Selector(Selector::DiffHunk)
    } else if begins(l, "+") {
        StyleRef::Selector(Selector::DiffAdd)
    } else if begins(l, "-") {
        StyleRef::Selector(Selector::DiffRemove)
    } else if begins(l, "NEW FILE") || begins(l, "NEW DIRECTORY") {
        StyleRef::Selector(Selector::DiffEmphasis)
    } else if begins(l, "NEW BINARY") {
        StyleRef::Selector(Selector::DiffBinary)
    } else {
        StyleRef::Role(Role::Text)
    }
}

fn content_diff_style(l: &Vec<char>) -> (s: StyleRef)
    ensures
        s == content_diff_line_style(l@),
{
    if begins(l, "@@") {
        StyleRef::Selector(Selector::DiffHunk)
    } else if begins(l, "--- ") || begins(l, "+++ ") {
        StyleRef::Selector(Selector::DiffHeader)
    } else if begins(l, "+") {
        StyleRef::Selector(Selector::DiffAdd)
    } else if begins(l, "-") {
        StyleRef::Selector(Selector::DiffRemove)
    } else {
        StyleRef::Role(Role::Text)
    }
}

fn rsync_style(l: &Vec<char>) -> (s: StyleRef)
    ensures
        s == rsync_line_style(l@),
{
    let title = eq_str(l, "CURRENT FILE RSYNC DIFF") || eq_str(l, "TOTAL RSYNC DIFF") || eq_str(
        l,
        "RSYNC STDERR",
    ) || eq_str(l, "SELECTED FILES") || eq_str(l, "Content diff:") || eq_str(l, "Decoded:")
        || eq_str(l, "Itemized rsync change:");
    if eq_str(l, "DRY RUN") || eq_str(l, "RUN") || title {
        StyleRef::Selector(Selector::RsyncHeader)
    } else if begins(l, "$ rsync") || begins(l, "@@") {
        StyleRef::Selector(Selector::RsyncCommand)
    } else if begins(l, "+++") || begins(l, "---") {
        StyleRef::Selector(Selector::DiffHeader)
    } else if begins(l, "+") {
        StyleRef::Selector(Selector::RsyncAdd)
    } else if begins(l, "-") {
        StyleRef::Selector(Selector::RsyncRemove)
    } else if begins(l, "*deleting") || contains_chars(l, &chars_of(" *deleting")) {
        StyleRef::Selector(Selector::RsyncDelete)
    } else if begins(l, ">f") || begins(l, "cd") || begins(l, "cL") {
        StyleRef::Selector(Selector::RsyncAdd)
    } else if begins(l, ".d") || begins(l, ".f") {
        StyleRef::Selector(Selector::RsyncUnchanged)
    } else if begins(l, "rsync error") || begins(l, "Rsync failed") {
        StyleRef::Selector(Selector::RsyncError)
    } else {
        StyleRef::Role(Role::Text)
    }
}

/// One line of a pane, with its style.
pub struct StyledLine {
    pub text: String,
    pub style: StyleRef,
}

/// The lines of `input` as `pane` shows them, each with its style.
pub fn styled_lines(input: &str, pane: PaneText) -> (r: Vec<StyledLine>)
    ensures
        r@.len() == lines(input@).len(),
        forall|i: int|
            0 <= i < r@.len() ==> #[trigger] r@[i].text@ == lines(input@)[i] && r@[i].style
                == line_style(pane, lines(input@)[i]),
{
    let ls = split_lines(&chars_of(input));
    let mut out: Vec<StyledLine> = Vec::new();
    let mut i: usize = 0;
    while i < ls.len()
        invariant
            i <= ls@.len(),
            views(ls@) == lines(input@),
            out@.len() == i,
            forall|j: int|
                0 <= j < i ==> #[trigger] out@[j].text@ == lines(input@)[j] && out@[j].style
                    == line_style(pane, lines(input@)[j]),
        decreases ls@.len() - i,
    {
        assert(ls@[i as int]@ == lines(input@)[i as int]);
        let style = match pane {
            PaneText::Git => git_style(&ls[i]),
            PaneText::ContentDiff => content_diff_style(&ls[i]),
            PaneText::Rsync => rsync_style(&ls[i]),
        };
        out.push(StyledLine { text: string_from_chars(&ls[i]), style });
        i = i + 1;
    }
    out
}

// ---- The tree pane ----

/// The style of a Git state in the tree.
pub open spec fn change_kind_selector(kind: ChangeKind) -> Selector {
    match kind {
        ChangeKind::Unchanged => Selector::GitClean,
        ChangeKind::Changed => Selector::GitChanged,
        ChangeKind::Untracked => Selector::GitUntracked,
        ChangeKind::Deleted => Selector::GitDeleted,
    }
}

/// The style of a Git state in the tree.
pub fn change_kind_style(kind: ChangeKind) -> (s: Selector)
    ensures
        s == change_kind_selector(kind),
{
    match kind {
        ChangeKind::Unchanged => Selector::GitClean,
        ChangeKind::Changed => Selector::GitChanged,
        ChangeKind::Untracked => Selector::GitUntracked,
        ChangeKind::Deleted => Selector::GitDeleted,
    }
}

/// The parts of a row of the tree: the check box, the indentation, the Git
/// state and the name, and the style of the last two.
pub struct TreeRow {
    pub checkbox: String,
    pub indent: String,
    pub state: String,
    pub label: String,
    pub style: Selector,
}

/// The Git state an entry shows: its own, or unchanged.
pub open spec fn shown_kind(e: TreeEntryView) -> ChangeKind {
    match e.git_kind {
        Some(k) => k,
        None => ChangeKind::Unchanged,
    }
}

/// The check box of a row.
pub open spec fn checkbox_text(e: TreeEntryView) -> Seq<char> {
    if e.selected {
        "[x] "@
    } else {
        "[ ] "@
    }
}

/// The indentation of a row: two spaces a level in the tree, none in the
/// selected-files view.
pub open spec fn indent_text(e: TreeEntryView, selected_only: bool) -> Seq<char> {
    if selected_only {
        Seq::empty()
    } else {
        spaces(2 * e.depth)
    }
}

/// The marker and Git state of a row.
pub open spec fn state_text(e: TreeEntryView) -> Seq<char> {
    let marker = if e.kind == EntryKind::Directory {
        if e.expanded {
            "v"@
        } else {
            ">"@
        }
    } else {
        " "@
    };
    marker + " "@ + pad_right(shown_kind(e).short_spec()@, 1) + " "@ + pad_right(
        shown_kind(e).label_spec()@,
        8,
    )
}

/// The name of a row: a folder icon, the name (the path in the
/// selected-files view) and a slash after a folder.
pub open spec fn label_text(e: TreeEntryView, selected_only: bool) -> Seq<char> {
    let prefix = if e.kind == EntryKind::Directory {
        if e.expanded {
            "📂 "@
        } else {
            "📁 "@
        }
    } else {
        ""@
    };
    let suffix = if e.kind == EntryKind::Directory {
        "/"@
    } else {
        ""@
    };
    prefix + (if selected_only {
        e.path
    } else {
        e.name
    }) + suffix
}

/// The row that shows `entry`.
pub fn tree_row(entry: &TreeEntry, selected_only: bool) -> (r: TreeRow)
    requires
        entry.depth <= usize::MAX / 2,
    ensures
        r.checkbox@ == checkbox_text(entry@),
        r.indent@ == indent_text(entry@, selected_only),
        r.state@ == state_text(entry@),
        r.label@ == label_text(entry@, selected_only),
        r.style == change_kind_selector(shown_kind(entry@)),
{
    let checkbox = if entry.selected {
        String::from_str("[x] ")
    } else {
        String::from_str("[ ] ")
    };
    let mut indent = String::new();
    if !selected_only {
        let width = 2 * entry.depth;
        push_padded(&mut indent, "", width);
        proof {
            reveal_strlit("");
            assert(indent@ =~= spaces(2 * entry@.depth));
        }
    }
    let kind = match entry.git_kind {
        Some(k) => k,
        None => ChangeKind::Unchanged,
    };
    let mut state = String::new();
    if entry.is_dir() {
        if entry.expanded {
            state.append("v");
        } else {
            state.append(">");
        }
    } else {
        state.append(" ");
    }
    state.append(" ");
    push_padded(&mut state, kind.short(), 1);
    state.append(" ");
    push_padded(&mut state, kind.label(), 8);
    let mut label = String::new();
    if entry.is_dir() {
        if entry.expanded {
            label.append("📂 ");
        } else {
            label.append("📁 ");
        }
    }
    if selected_only {
        label.append(entry.path.as_str());
    } else {
        label.append(entry.name.as_str());
    }
    if entry.is_dir() {
        label.append("/");
    }
    proof {
        reveal_strlit("");
        assert(state@ =~= state_text(entry@));
        assert(label@ =~= label_text(entry@, selected_only));
    }
    TreeRow { checkbox, indent, state, label, style: change_kind_style(kind) }
}

// ---- Help and footer ----

/// A help line for a binding: its label padded to ten characters, then its
/// description.
pub open spec fn binding_line(b: KeyBinding) -> Seq<char> {
    "  "@ + pad_right(b.label@, 10) + " "@ + b.description@
}

/// The name of a theme as the help shows it.
pub open spec fn theme_debug_name(kind: ThemeKind) -> Seq<char> {
    match kind {
        ThemeKind::Neutral => "Neutral"@,
        ThemeKind::Safe => "Safe"@,
        ThemeKind::Danger => "Danger"@,
    }
}

/// The lines of the help above the key list.
pub open spec fn help_head() -> Seq<Seq<char>> {
    seq![
        "Common Interface"@,
        ""@,
        "Quit is command-mode only: :q, :quit, :exit, :q!"@,
        "Esc cancels transient state; it never quits."@,
        ""@,
        "Keys"@,
    ]
}

/// The lines of the help below the key list, before the theme line.
pub open spec fn help_tail() -> Seq<Seq<char>> {
    seq![
        ""@,
        "rdg local keys"@,
        "  j/k        move through files"@,
        "  Space      select or unselect current row"@,
        "  e          expand or collapse current folder"@,
        "  a          select all or clear all"@,
        "  s          show selected files only"@,
        "  d          refresh destination diff"@,
        "  r          run rsync after reviewing diff"@,
        "  F5         refresh repository candidates"@,
        "  PgUp/PgDn  scroll focused pane"@,
        ""@,
        "Commands"@,
        "  :help              open help"@,
        "  :theme neutral     neutral theme"@,
        "  :theme safe        green safe theme"@,
        "  :theme danger      red danger theme"@,
        "  :refresh           reload repository candidates"@,
        "  :diff              refresh destination diff"@,
        "  :run, :deploy      run rsync"@,
        "  :select            select or unselect current row"@,
        "  :all               select all or clear all"@,
        "  :selected          show selected files only"@,
        "  :tree              show repository tree"@,
        "  :focus <pane>      repository, content, git, rsync"@,
        "  :expand            expand current folder"@,
        "  :collapse          collapse current folder"@,
        "  :q, :quit, :exit   quit"@,
        "  :q!                force quit"@,
        ""@,
    ]
}

/// The help: what quits and cancels, a line per binding, the local keys and
/// the commands, and the current theme.
pub open spec fn help_spec(bindings: Seq<KeyBinding>, kind: ThemeKind) -> Seq<Seq<char>> {
    help_head() + bindings.map_values(|b: KeyBinding| binding_line(b)) + help_tail() + seq![
        "Current theme: "@ + theme_debug_name(kind),
    ]
}

fn push_line(out: &mut Vec<String>, line: &str)
    ensures
        final(out)@.len() == old(out)@.len() + 1,
        forall|i: int| 0 <= i < old(out)@.len() ==> #[trigger] final(out)@[i] == old(out)@[i],
        final(out)@[old(out)@.len() as int]@ == line@,
{
    out.push(String::from_str(line));
}

/// The views of strings.
pub open spec fn string_views(v: Seq<String>) -> Seq<Seq<char>> {
    v.map_values(|s: String| s@)
}

/// The lines of the help.
pub fn help_lines(keymap: &Keymap, theme_kind: ThemeKind) -> (r: Vec<String>)
    ensures
        string_views(r@) == help_spec(keymap.bindings@, theme_kind),
{
    let mut out: Vec<String> = Vec::new();
    push_line(&mut out, "Common Interface");
    push_line(&mut out, "");
    push_line(&mut out, "Quit is command-mode only: :q, :quit, :exit, :q!");
    push_line(&mut out, "Esc cancels transient state; it never quits.");
    push_line(&mut out, "");
    push_line(&mut out, "Keys");
    assert(string_views(out@) =~= help_head());
    let bs = keymap.bindings();
    let mut i: usize = 0;
    while i < bs.len()
        invariant
            i <= bs@.len(),
            bs@ == keymap.bindings@,
            string_views(out@) == help_head() + bs@.take(i as int).map_values(
                |b: KeyBinding| binding_line(b),
            ),
        decreases bs@.len() - i,
    {
        let mut line = String::from_str("  ");
        push_padded(&mut line, bs[i].label, 10);
        line.append(" ");
        line.append(bs[i].description);
        let ghost before = out@;
        out.push(line);
        assert(bs@.take(i + 1).map_values(|b: KeyBinding| binding_line(b)) =~= bs@.take(
            i as int,
        ).map_values(|b: KeyBinding| binding_line(b)).push(binding_line(bs@[i as int])));
        assert(string_views(out@) =~= string_views(before).push(out@[before.len() as int]@));
        i = i + 1;
    }
    assert(bs@.take(i as int) =~= bs@);
    let ghost middle = string_views(out@);
    push_line(&mut out, "");
    push_line(&mut out, "rdg local keys");
    push_line(&mut out, "  j/k        move through files");
    push_line(&mut out, "  Space      select or unselect current row");
    push_line(&mut out, "  e          expand or collapse current folder");
    push_line(&mut out, "  a          select all or clear all");
    push_line(&mut out, "  s          show selected files only");
    push_line(&mut out, "  d          refresh destination diff");
    push_line(&mut out, "  r          run rsync after reviewing diff");
    push_line(&mut out, "  F5         refresh repository candidates");
    push_line(&mut out, "  PgUp/PgDn  scroll focused pane");
    push_line(&mut out, "");
    push_line(&mut out, "Commands");
    push_line(&mut out, "  :help              open help");
    push_line(&mut out, "  :theme neutral     neutral theme");
    push_line(&mut out, "  :theme safe        green safe theme");
    push_line(&mut out, "  :theme danger      red danger theme");
    push_line(&mut out, "  :refresh           reload repository candidates");
    push_line(&mut out, "  :diff              refresh destination diff");
    push_line(&mut out, "  :run, :deploy      run rsync");
    push_line(&mut out, "  :select            select or unselect current row");
    push_line(&mut out, "  :all               select all or clear all");
    push_line(&mut out, "  :selected          show selected files only");
    push_line(&mut out, "  :tree              show repository tree");
    push_line(&mut out, "  :focus <pane>      repository, content, git, rsync");
    push_line(&mut out, "  :expand            expand current folder");
    push_line(&mut out, "  :collapse          collapse current folder");
    push_line(&mut out, "  :q, :quit, :exit   quit");
    push_line(&mut out, "  :q!                force quit");
    push_line(&mut out, "");
    let mut last = String::from_str("Current theme: ");
    last.append(
        match theme_kind {
            ThemeKind::Neutral => "Neutral",
            ThemeKind::Safe => "Safe",
            ThemeKind::Danger => "Danger",
        },
    );
    out.push(last);
    assert(string_views(out@) =~= help_spec(keymap.bindings@, theme_kind));
    out
}

/// The key hints of the footer: the first six bindings, then `:q` to quit.
pub open spec fn footer_spec(bindings: Seq<KeyBinding>) -> Seq<(Seq<char>, Seq<char>)> {
    let shown = if bindings.len() < 6 {
        bindings
    } else {
        bindings.take(6)
    };
    shown.map_values(|b: KeyBinding| (b.label@, b.description@)).push((":q"@, "quit"@))
}

/// The key hints of the footer, as label and description.
pub fn footer(keymap: &Keymap) -> (r: Vec<(&'static str, &'static str)>)
    ensures
        r@.map_values(|h: (&'static str, &'static str)| (h.0@, h.1@)) == footer_spec(keymap.bindings@),
{
    let bs = keymap.bindings();
    let n = if bs.len() < 6 {
        bs.len()
    } else {
        6
    };
    let ghost shown = if bs@.len() < 6 {
        bs@
    } else {
        bs@.take(6)
    };
    let mut out: Vec<(&'static str, &'static str)> = Vec::new();
    let mut i: usize = 0;
    while i < n
        invariant
            i <= n <= bs@.len(),
            n == shown.len(),
            shown == (if bs@.len() < 6 {
                bs@
            } else {
                bs@.take(6)
            }),
            bs@ == keymap.bindings@,
            out@.map_values(|h: (&'static str, &'static str)| (h.0@, h.1@)) == shown.take(
                i as int,
            ).map_values(|b: KeyBinding| (b.label@, b.description@)),
        decreases n - i,
    {
        let ghost before = out@;
        out.push((bs[i].label, bs[i].description));
        assert(shown[i as int] == bs@[i as int]);
        assert(out@.map_values(|h: (&'static str, &'static str)| (h.0@, h.1@)) =~= before.map_values(
            |h: (&'static str, &'static str)| (h.0@, h.1@),
        ).push((bs@[i as int].label@, bs@[i as int].description@)));
        assert(shown.take(i + 1) =~= shown.take(i as int).push(shown[i as int]));
        assert(out@.map_values(|h: (&'static str, &'static str)| (h.0@, h.1@)) =~= shown.take(
            i + 1,
        ).map_values(|b: KeyBinding| (b.label@, b.description@)));
        i = i + 1;
    }
    assert(shown.take(n as int) =~= shown);
    let ghost before = out@;
    out.push((":q", "quit"));
    assert(out@.map_values(|h: (&'static str, &'static str)| (h.0@, h.1@)) =~= before.map_values(
        |h: (&'static str, &'static str)| (h.0@, h.1@),
    ).push((":q"@, "quit"@)));
    out
}

// ---- Titles and the status line ----

/// Whether the status line reports a failure.
pub open spec fn status_is_danger_spec(message: Seq<char>) -> bool {
    contains_seq(message, "failed"@) || contains_seq(message, "blocked"@)
}

/// Whether the status line reports a failure (and shows in the danger
/// style).
pub fn status_is_danger(message: &str) -> (b: bool)
    ensures
        b == status_is_danger_spec(message@),
{
    let m = chars_of(message);
    contains_chars(&m, &chars_of("failed")) || contains_chars(&m, &chars_of("blocked"))
}

/// The title of the tree pane.
pub open spec fn candidates_title_spec(selected_only: bool, count: nat) -> Seq<char> {
    if selected_only {
        "Repository: selected files ("@ + decimal(count) + ")"@
    } else {
        "Repository"@
    }
}

/// The title of the tree pane, with the number of rows in the selected-files
/// view.
pub fn candidates_title(selected_only: bool, count: usize) -> (r: String)
    ensures
        r@ == candidates_title_spec(selected_only, count as nat),
{
    if selected_only {
        let mut t = String::from_str("Repository: selected files (");
        push_decimal(&mut t, count);
        t.append(")");
        t
    } else {
        String::from_str("Repository")
    }
}

/// A pane title, with the path of the entry under the cursor when there is
/// one.
pub open spec fn titled(base: Seq<char>, path: Option<Seq<char>>) -> Seq<char> {
    match path {
        Some(p) => base + ": "@ + p,
        None => base,
    }
}

/// The title of a pane about the entry under the cursor.
pub fn entry_title(base: &str, path: Option<&str>) -> (r: String)
    ensures
        r@ == titled(base@, match path {
            Some(p) => Some(p@),
            None => None,
        }),
{
    let mut t = String::from_str(base);
    match path {
        Some(p) => {
            t.append(": ");
            t.append(p);
        },
        None => {},
    }
    t
}

/// The style of a pane's border: its own colour when focused, muted else.
pub open spec fn border_style_spec(active: bool, selector: Selector) -> StyleRef {
    if active {
        StyleRef::Selector(selector)
    } else {
        StyleRef::Role(Role::TextMuted)
    }
}

/// The style of a pane's border.
pub fn border_style(active: bool, selector: Selector) -> (r: StyleRef)
    ensures
        r == border_style_spec(active, selector),
{
    if active {
        StyleRef::Selector(selector)
    } else {
        StyleRef::Role(Role::TextMuted)
    }
}

/// The mode shown in the header.
pub fn mode_label(command_mode: bool) -> (r: &'static str)
    ensures
        r@ == (if command_mode {
            "COMMAND"@
        } else {
            "NORMAL"@
        }),
{
    if command_mode {
        "COMMAND"
    } else {
        "NORMAL"
    }
}

/// The focus badge of the status line.
pub fn focus_badge(pane: PreviewPane) -> (r: String)
    ensures
        r@ == "focus: "@ + pane.label_spec()@,
{
    let mut t = String::from_str("focus: ");
    t.append(pane.label());
    t
}

// ---- Header and command line ----

/// A piece of a line, with its style (none for the surrounding style).
pub struct Span {
    pub text: String,
    pub style: Option<StyleRef>,
}

/// The views of spans.
pub open spec fn span_views(v: Seq<Span>) -> Seq<(Seq<char>, Option<StyleRef>)> {
    v.map_values(|s: Span| (s.text@, s.style))
}

/// The header: the brand, the theme, the mode, the target and the counts.
pub open spec fn header_spec(
    theme_name: Seq<char>,
    command_mode: bool,
    target: Seq<char>,
    selected: nat,
    entries: nat,
) -> Seq<(Seq<char>, Option<StyleRef>)> {
    seq![
        (" rdg "@, Some(StyleRef::Role(Role::HeaderBrand))),
        (" "@, None),
        (theme_name, Some(StyleRef::Role(Role::HeaderMode))),
        (" "@, None),
        (if command_mode {
            "COMMAND"@
        } else {
            "NORMAL"@
        }, Some(StyleRef::Role(Role::HeaderMode))),
        (" | target: "@, None),
        (target, Some(StyleRef::Role(Role::Text))),
        (" | selected: "@, None),
        (decimal(selected), Some(StyleRef::Selector(Selector::HeaderSelectedCount))),
        (" | entries: "@ + decimal(entries), None),
    ]
}

fn span(text: String, style: Option<StyleRef>) -> (s: Span)
    ensures
        s.text@ == text@,
        s.style == style,
{
    Span { text, style }
}

/// The pieces of the header line.
pub fn header_spans(app: &App) -> (r: Vec<Span>)
    ensures
        span_views(r@) == header_spec(
            app.theme_kind.name_spec()@,
            app.command_mode,
            app.target@,
            crate::app::selected_spec(app.views()).len(),
            app.entries@.len(),
        ),
{
    let mut count = String::new();
    push_decimal(&mut count, app.selected_count());
    let mut entries = String::from_str(" | entries: ");
    push_decimal(&mut entries, app.entries.len());
    let r = vec![
        span(String::from_str(" rdg "), Some(StyleRef::Role(Role::HeaderBrand))),
        span(String::from_str(" "), None),
        span(String::from_str(app.theme_kind.name()), Some(StyleRef::Role(Role::HeaderMode))),
        span(String::from_str(" "), None),
        span(String::from_str(mode_label(app.command_mode)), Some(StyleRef::Role(Role::HeaderMode))),
        span(String::from_str(" | target: "), None),
        span(app.target.clone(), Some(StyleRef::Role(Role::Text))),
        span(String::from_str(" | selected: "), None),
        span(count, Some(StyleRef::Selector(Selector::HeaderSelectedCount))),
        span(entries, None),
    ];
    assert(span_views(r@) =~= header_spec(
        app.theme_kind.name_spec()@,
        app.command_mode,
        app.target@,
        crate::app::selected_spec(app.views()).len(),
        app.entries@.len(),
    ));
    r
}

/// The first line of the footer: the command line while it is open, else
/// the status line (in the danger style when it reports a failure) and the
/// focused pane.
pub open spec fn prompt_spec(
    command_mode: bool,
    command_input: Seq<char>,
    message: Seq<char>,
    pane: PreviewPane,
) -> Seq<(Seq<char>, Option<StyleRef>)> {
    if command_mode {
        seq![
            ("cmd "@, Some(StyleRef::Role(Role::PromptPrefix))),
            (command_input, Some(StyleRef::Role(Role::PromptInput))),
        ]
    } else {
        seq![
            ("status "@, Some(StyleRef::Role(Role::TextMuted))),
            (message, Some(
                StyleRef::Role(
                    if status_is_danger_spec(message) {
                        Role::StatusDanger
                    } else {
                        Role::Status
                    },
                ),
            )),
            ("  "@, None),
            ("focus: "@ + pane.label_spec()@, Some(StyleRef::Role(Role::Badge))),
        ]
    }
}

/// The pieces of the footer's first line.
pub fn prompt_spans(app: &App) -> (r: Vec<Span>)
    ensures
        span_views(r@) == prompt_spec(
            app.command_mode,
            app.command_input@,
            app.message@,
            app.active_pane,
        ),
{
    if app.command_mode {
        let r = vec![
            span(String::from_str("cmd "), Some(StyleRef::Role(Role::PromptPrefix))),
            span(app.command_input.clone(), Some(StyleRef::Role(Role::PromptInput))),
        ];
        assert(span_views(r@) =~= prompt_spec(
            app.command_mode,
            app.command_input@,
            app.message@,
            app.active_pane,
        ));
        r
    } else {
        let danger = status_is_danger(app.message.as_str());
        let r = vec![
            span(String::from_str("status "), Some(StyleRef::Role(Role::TextMuted))),
            span(
                app.message.clone(),
                Some(
                    StyleRef::Role(
                        if danger {
                            Role::StatusDanger
                        } else {
                            Role::Status
                        },
                    ),
                ),
            ),
            span(String::from_str("  "), None),
            span(focus_badge(app.active_pane), Some(StyleRef::Role(Role::Badge))),
        ];
        assert(span_views(r@) =~= prompt_spec(
            app.command_mode,
            app.command_input@,
            app.message@,
            app.active_pane,
        ));
        r
    }
}

/// The title of the command box.
pub fn command_title(command_mode: bool) -> (r: &'static str)
    ensures
        r@ == (if command_mode {
            "Command [focus]"@
        } else {
            "Command"@
        }),
{
    if command_mode {
        "Command [focus]"
    } else {
        "Command"
    }
}

} // verus!
