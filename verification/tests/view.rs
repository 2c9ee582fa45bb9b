use rdg::git::ChangeKind;
use rdg::keymap::Keymap;
use rdg::theme::{Role, ThemeKind};
use rdg::tree::{EntryKind, TreeEntry};
use rdg::view::{
    candidates_title, entry_title, footer, help_lines, status_is_danger, styled_lines,
    tree_row, PaneText, Selector, StyleRef,
};

#[test]
fn git_lines_are_styled_by_prefix() {
    let lines = styled_lines("diff --git a b\n@@ -1 +1 @@\n+new\n-old\nNEW FILE\nplain", PaneText::Git);
    let styles: Vec<StyleRef> = lines.iter().map(|l| l.style).collect();
    assert_eq!(
        styles,
        vec![
            StyleRef::Selector(Selector::GitHeader),
            StyleRef::Selector(Selector::DiffHunk),
            StyleRef::Selector(Selector::DiffAdd),
            StyleRef::Selector(Selector::DiffRemove),
            StyleRef::Selector(Selector::DiffEmphasis),
            StyleRef::Role(Role::Text),
        ]
    );
    assert_eq!(lines[5].text, "plain");
}

#[test]
fn rsync_lines_are_styled_by_meaning() {
    let lines = styled_lines(
        "DRY RUN\nTOTAL RSYNC DIFF\n$ rsync -a\n*deleting old.txt\n>f+++++++++ new.txt\n.f          same.txt\nrsync error: x\n+++ b\nother",
        PaneText::Rsync,
    );
    let styles: Vec<StyleRef> = lines.iter().map(|l| l.style).collect();
    assert_eq!(
        styles,
        vec![
            StyleRef::Selector(Selector::RsyncHeader),
            StyleRef::Selector(Selector::RsyncHeader),
            StyleRef::Selector(Selector::RsyncCommand),
            StyleRef::Selector(Selector::RsyncDelete),
            StyleRef::Selector(Selector::RsyncAdd),
            StyleRef::Selector(Selector::RsyncUnchanged),
            StyleRef::Selector(Selector::RsyncError),
            StyleRef::Selector(Selector::DiffHeader),
            StyleRef::Role(Role::Text),
        ]
    );
    assert_eq!(Selector::RsyncDelete.name(), "rsync.delete");
}

#[test]
fn content_diff_headers_need_a_space() {
    let lines = styled_lines("--- a\n---x\n+++ b", PaneText::ContentDiff);
    assert_eq!(lines[0].style, StyleRef::Selector(Selector::DiffHeader));
    assert_eq!(lines[1].style, StyleRef::Selector(Selector::DiffRemove));
    assert_eq!(lines[2].style, StyleRef::Selector(Selector::DiffHeader));
}

#[test]
fn tree_rows_show_state_and_name() {
    let entry = TreeEntry {
        path: String::from("src/lib"),
        name: String::from("lib"),
        kind: EntryKind::Directory,
        depth: 1,
        git_kind: Some(ChangeKind::Changed),
        status: String::new(),
        selected: true,
        expanded: false,
    };
    let row = tree_row(&entry, false);
    assert_eq!(row.checkbox, "[x] ");
    assert_eq!(row.indent, "  ");
    assert_eq!(row.state, "> M changed ");
    assert_eq!(row.label, "📁 lib/");
    assert_eq!(row.style, Selector::GitChanged);
    let row = tree_row(&entry, true);
    assert_eq!(row.indent, "");
    assert_eq!(row.label, "📁 src/lib/");
}

#[test]
fn help_lists_every_binding_and_the_theme() {
    let lines = help_lines(&Keymap::common(), ThemeKind::Safe);
    assert_eq!(lines[0], "Common Interface");
    assert_eq!(lines[6], "  :          command mode");
    assert!(lines.contains(&String::from("  Shift-Tab  previous pane")));
    assert_eq!(lines.last().unwrap(), "Current theme: Safe");
    assert_eq!(lines.len(), 6 + 11 + 30 + 1);
}

#[test]
fn footer_shows_six_bindings_and_quit() {
    let hints = footer(&Keymap::common());
    assert_eq!(hints.len(), 7);
    assert_eq!(hints[0], (":", "command mode"));
    assert_eq!(hints[6], (":q", "quit"));
}

#[test]
fn failures_are_shown_as_danger() {
    assert!(status_is_danger("Rsync diff failed. Deploy is blocked."));
    assert!(status_is_danger("Deploy is blocked"));
    assert!(!status_is_danger("Rsync completed for 1 file(s)."));
}

#[test]
fn titles_name_what_they_show() {
    assert_eq!(candidates_title(true, 3), "Repository: selected files (3)");
    assert_eq!(candidates_title(false, 3), "Repository");
    assert_eq!(entry_title("Git diff", Some("a.txt")), "Git diff: a.txt");
    assert_eq!(entry_title("Git diff", None), "Git diff");
}
