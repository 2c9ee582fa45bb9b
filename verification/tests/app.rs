use rdg::app::{folder_preview, App, PreviewPane, RefreshTrigger, RsyncFollowUp};
use rdg::git::{Candidate, ChangeKind};
use rdg::keymap::Keymap;
use rdg::rsync::RsyncRunReport;
use rdg::theme::ThemeKind;
use rdg::tree::{EntryKind, TreeEntry};

fn file(path: &str, depth: usize) -> TreeEntry {
    TreeEntry {
        path: path.to_string(),
        name: path.rsplit('/').next().unwrap().to_string(),
        kind: EntryKind::File,
        depth,
        git_kind: None,
        status: String::new(),
        selected: false,
        expanded: true,
    }
}

fn folder(path: &str, depth: usize, expanded: bool) -> TreeEntry {
    TreeEntry {
        path: path.to_string(),
        name: path.rsplit('/').next().unwrap().to_string(),
        kind: EntryKind::Directory,
        depth,
        git_kind: None,
        status: String::new(),
        selected: false,
        expanded,
    }
}

fn app_with_entries(entries: Vec<TreeEntry>) -> App {
    App {
        repo_root: String::new(),
        target: String::new(),
        entries,
        cursor: 0,
        repository_offset: 0,
        selected_only: false,
        git_preview: String::new(),
        rsync_preview: String::new(),
        content_diff_preview: String::new(),
        git_scroll: 0,
        rsync_scroll: 0,
        content_diff_scroll: 0,
        rsync_dry_run_ready: false,
        rsync_preview_stale: false,
        rsync_report: None,
        message: String::new(),
        command_input: String::new(),
        command_mode: false,
        command_history: Vec::new(),
        command_history_cursor: None,
        show_help: false,
        theme_kind: ThemeKind::Neutral,
        active_pane: PreviewPane::Repository,
        keymap: Keymap::default(),
        should_quit: false,
        pending_refresh: None,
        pending_git_preview: None,
        pending_rsync: None,
    }
}

fn app_with_file_count(file_count: usize) -> App {
    app_with_entries(
        (0..file_count)
            .map(|index| TreeEntry {
                path: format!("file-{index}.txt"),
                name: format!("file-{index}.txt"),
                kind: EntryKind::File,
                depth: 0,
                git_kind: None,
                status: String::new(),
                selected: false,
                expanded: true,
            })
            .collect(),
    )
}

#[test]
fn repository_view_offset_uses_scroll_state() {
    let mut app = app_with_file_count(20);

    app.repository_offset = 0;
    assert_eq!(app.repository_view_offset(5), 0);

    app.repository_offset = 7;
    assert_eq!(app.repository_view_offset(5), 7);

    app.repository_offset = 30;
    assert_eq!(app.repository_view_offset(5), 15);
    assert_eq!(app.repository_view_offset(30), 0);
    assert_eq!(app.repository_view_offset(0), 0);
}

#[test]
fn repository_cursor_visibility_updates_scroll_state_only_when_needed() {
    let mut app = app_with_file_count(20);

    app.cursor = 2;
    app.repository_offset = 5;
    app.ensure_repository_cursor_visible(5);
    assert_eq!(app.repository_offset, 2);

    app.cursor = 12;
    app.repository_offset = 5;
    app.ensure_repository_cursor_visible(5);
    assert_eq!(app.repository_offset, 8);

    app.cursor = 7;
    app.repository_offset = 5;
    app.ensure_repository_cursor_visible(5);
    assert_eq!(app.repository_offset, 5);
}

#[test]
fn repository_scroll_keeps_cursor_inside_visible_rows() {
    let mut app = app_with_file_count(20);

    app.scroll_repository_down(5);
    assert_eq!(app.repository_offset, 5);
    assert_eq!(app.cursor, 5);

    app.scroll_repository_down(5);
    assert_eq!(app.repository_offset, 10);
    assert_eq!(app.cursor, 10);

    app.scroll_repository_up(5);
    assert_eq!(app.repository_offset, 5);
    assert_eq!(app.cursor, 9);
}

#[test]
fn selected_only_visible_indices_show_selected_files_only() {
    let mut app = app_with_file_count(4);
    app.entries.insert(
        1,
        TreeEntry {
            path: String::from("folder"),
            name: String::from("folder"),
            kind: EntryKind::Directory,
            depth: 0,
            git_kind: None,
            status: String::new(),
            selected: true,
            expanded: false,
        },
    );
    app.entries[0].selected = true;
    app.entries[2].selected = true;
    app.entries[4].selected = true;
    app.selected_only = true;

    assert_eq!(app.visible_indices(), vec![0, 2, 4]);
}

#[test]
fn toggle_selected_only_clamps_cursor_and_resets_repository_scroll() {
    let mut app = app_with_file_count(8);
    app.entries[1].selected = true;
    app.entries[6].selected = true;
    app.cursor = 7;
    app.repository_offset = 5;

    app.toggle_selected_only();

    assert!(app.selected_only);
    assert_eq!(app.visible_indices(), vec![1, 6]);
    assert_eq!(app.cursor, 1);
    assert_eq!(app.repository_offset, 0);
}

#[test]
fn command_mode_submits_quit_command() {
    let mut app = app_with_file_count(1);

    app.enter_command_mode();
    app.push_command_char('q');
    app.submit_command();

    assert!(app.should_quit);
    assert!(!app.command_mode);
    assert_eq!(app.command_history, vec![":q"]);
}

#[test]
fn command_history_moves_between_prior_commands() {
    let mut app = app_with_file_count(1);
    app.command_history = vec![":help".to_string(), ":tree".to_string()];

    app.enter_command_mode();
    app.previous_command();
    assert_eq!(app.command_input, ":tree");

    app.previous_command();
    assert_eq!(app.command_input, ":help");

    app.next_command();
    assert_eq!(app.command_input, ":tree");

    app.next_command();
    assert_eq!(app.command_input, ":");
}

fn nested_tree() -> Vec<TreeEntry> {
    vec![
        folder("a", 0, true),
        folder("a/b", 1, false),
        file("a/b/c.txt", 2),
        file("a/d.txt", 1),
        file("e.txt", 0),
    ]
}

#[test]
fn collapsed_folder_hides_what_lies_below_it() {
    let app = app_with_entries(nested_tree());
    assert_eq!(app.visible_indices(), vec![0, 1, 3, 4]);
}

#[test]
fn collapsing_the_top_folder_hides_the_whole_subtree() {
    let mut entries = nested_tree();
    entries[0].expanded = false;
    let app = app_with_entries(entries);
    assert_eq!(app.visible_indices(), vec![0, 4]);
}

#[test]
fn toggling_a_folder_selects_its_descendants_only() {
    let mut app = app_with_entries(nested_tree());
    app.toggle_current();
    let selected: Vec<bool> = app.entries.iter().map(|e| e.selected).collect();
    assert_eq!(selected, vec![true, true, true, true, false]);
    assert_eq!(app.selected_count(), 2);
    assert!(app.rsync_preview_stale);
    assert!(!app.rsync_dry_run_ready);
    let request = app.pending_rsync.as_ref().unwrap();
    assert!(request.dry_run);
    let paths: Vec<&str> = request.selected.iter().map(|c| c.path.as_str()).collect();
    assert_eq!(paths, vec!["a/b/c.txt", "a/d.txt"]);

    app.toggle_current();
    assert!(app.entries.iter().all(|e| !e.selected));
    assert!(app.pending_rsync.is_none());
    assert_eq!(
        app.rsync_preview,
        "No selected files.\n\nSelect files to see the expected rsync changes against the destination."
    );
}

#[test]
fn toggle_all_selects_everything_then_clears_everything() {
    let mut app = app_with_entries(nested_tree());
    app.toggle_all();
    assert!(app.entries.iter().all(|e| e.selected));
    app.toggle_all();
    assert!(app.entries.iter().all(|e| !e.selected));
}

fn report(stdout: &str) -> RsyncRunReport {
    RsyncRunReport {
        mode: String::from("DRY RUN"),
        repo_root: String::from("/repo"),
        target: String::from("/dest/"),
        selected: vec![Candidate {
            path: String::from("e.txt"),
            kind: ChangeKind::Changed,
            status: String::from(" M"),
        }],
        args: vec![String::from("-a")],
        version: String::from("rsync version test"),
        delete_missing_args: true,
        stdout: stdout.to_string(),
        stderr: String::new(),
        content_diffs: Vec::new(),
    }
}

#[test]
fn deploy_waits_for_a_reviewed_dry_run() {
    let mut app = app_with_entries(nested_tree());
    app.cursor = 3;
    app.toggle_current();
    assert!(app.entries[4].selected);

    app.pending_rsync = None;
    app.deploy_rsync();
    let request = app.pending_rsync.as_ref().unwrap();
    assert!(request.dry_run);
    assert_eq!(request.follow_up, RsyncFollowUp::ReviewBeforeDeploy);

    app.apply_rsync_outcome(Ok(report(">fcsT...... e.txt\n")));
    assert!(app.rsync_dry_run_ready);
    assert!(!app.rsync_preview_stale);
    assert_eq!(app.message, "Review the rsync diff, then press r again to deploy.");
    assert_eq!(app.active_pane, PreviewPane::Content);

    app.deploy_rsync();
    let request = app.pending_rsync.as_ref().unwrap();
    assert!(!request.dry_run);
    app.apply_rsync_outcome(Ok(report(">fcsT...... e.txt\n")));
    assert_eq!(app.message, "Rsync completed for 1 file(s).");
    assert!(app.rsync_preview_stale);
    assert!(!app.rsync_dry_run_ready);
}

#[test]
fn failed_dry_run_blocks_deploy() {
    let mut app = app_with_entries(nested_tree());
    app.cursor = 3;
    app.toggle_current();
    app.apply_rsync_outcome(Err(String::from("rsync missing")));
    assert_eq!(app.rsync_preview, "Rsync diff failed:\n\nrsync missing");
    assert_eq!(app.content_diff_preview, "Rsync diff failed.");
    assert_eq!(app.message, "Rsync diff failed. Deploy is blocked.");
    assert!(app.rsync_report.is_none());
    assert!(app.rsync_preview_stale);
}

#[test]
fn deploy_without_selection_says_so() {
    let mut app = app_with_entries(nested_tree());
    app.deploy_rsync();
    assert_eq!(app.message, "No selected files.");
    assert_eq!(app.active_pane, PreviewPane::Content);
    assert!(app.pending_rsync.is_none());
}

#[test]
fn reload_keeps_selection_expansion_and_cursor_entry() {
    let mut app = app_with_entries(nested_tree());
    app.toggle_current();
    app.pending_rsync = None;
    app.cursor = 2;
    app.set_cursor(2);
    let mut fresh = vec![
        folder("a", 0, false),
        folder("a/b", 1, false),
        file("a/b/c.txt", 2),
        file("a/b/new.txt", 2),
        file("a/d.txt", 1),
        file("e.txt", 0),
    ];
    fresh[5].selected = true;
    app.refresh_candidates(RefreshTrigger::FileChange);
    app.apply_refreshed_entries(fresh);
    let selected: Vec<bool> = app.entries.iter().map(|e| e.selected).collect();
    assert_eq!(selected, vec![true, true, true, true, true, false]);
    let expanded: Vec<bool> = app.entries.iter().map(|e| e.expanded).collect();
    assert_eq!(expanded, vec![true, false, true, true, true, true]);
    assert_eq!(app.current_entry().unwrap().path, "a/d.txt");
    assert!(app.pending_refresh.is_none());
    assert_eq!(app.pending_rsync.as_ref().unwrap().selected.len(), 3);
}

#[test]
fn reload_with_nothing_selected_reports_at_once() {
    let mut app = app_with_entries(nested_tree());
    app.apply_refreshed_entries(vec![file("x.txt", 0)]);
    assert_eq!(app.message, "Auto-refreshed: 1 change(s), 0 selected.");
    assert_eq!(app.cursor, 0);
}

#[test]
fn reload_follow_up_reports_the_reload() {
    let mut app = app_with_entries(nested_tree());
    app.cursor = 3;
    app.toggle_current();
    app.pending_rsync = None;
    app.apply_refreshed_entries(nested_tree_selected_e());
    app.apply_rsync_outcome(Err(String::from("boom")));
    assert_eq!(app.message, "Auto-refreshed: 5 change(s), 1 selected. Rsync diff failed.");
}

fn nested_tree_selected_e() -> Vec<TreeEntry> {
    nested_tree()
}

#[test]
fn refresh_failure_names_its_trigger() {
    let mut app = app_with_file_count(1);
    app.refresh_candidates(RefreshTrigger::FileChange);
    app.apply_refresh_failure("no repo");
    assert_eq!(app.message, "Auto-refresh failed: no repo");
    app.refresh_candidates(RefreshTrigger::User);
    app.apply_refresh_failure("no repo");
    assert_eq!(app.message, "Refresh failed: no repo");
    assert!(app.pending_refresh.is_none());
}

#[test]
fn git_preview_follows_the_cursor() {
    let mut app = app_with_entries(nested_tree());
    app.refresh_git_preview();
    assert!(app.git_preview.starts_with("path:   a\nkind:   folder\ngit:    clean\nfiles:  2\n\n"));
    assert!(app.pending_git_preview.is_none());

    app.set_cursor(2);
    let pending = app.pending_git_preview.as_ref().unwrap();
    assert_eq!(pending.path, "a/d.txt");
    app.apply_git_preview(Ok(String::from("diff body")));
    assert!(app.git_preview.starts_with("path:   a/d.txt\nkind:   clean\n"));
    assert!(app.git_preview.ends_with("diff body"));
    assert!(app.pending_git_preview.is_none());
}

#[test]
fn git_preview_failure_is_shown() {
    let mut app = app_with_entries(nested_tree());
    app.set_cursor(2);
    app.apply_git_preview(Err(String::from("git missing")));
    assert_eq!(app.git_preview, "Failed to create git preview:\ngit missing");
}

#[test]
fn folder_preview_lists_the_folder() {
    let mut entry = folder("src", 0, true);
    entry.git_kind = Some(ChangeKind::Changed);
    assert_eq!(
        folder_preview(&entry, 3),
        "path:   src\nkind:   folder\ngit:    changed\nfiles:  3\n\nFolder selection includes all descendant files in the rsync preview and deploy.\nUse Enter/e or Left/Right to collapse and expand folders.\n"
    );
}

#[test]
fn commands_report_on_the_status_line() {
    let mut app = app_with_file_count(2);
    app.run_command(":focus git");
    assert_eq!(app.active_pane, PreviewPane::Git);
    assert_eq!(app.message, "Focused git pane.");
    app.run_command(":focus");
    assert_eq!(app.message, "usage: :focus repository|content|git|rsync");
    app.run_command(":bogus");
    assert_eq!(app.message, "unknown rdg command: :bogus");
    app.run_command(":theme danger");
    assert_eq!(app.theme_kind, ThemeKind::Danger);
    assert_eq!(app.message, "theme: danger");
    app.run_command(":tree");
    assert_eq!(app.message, "Already showing the repository tree.");
    app.run_command(":refresh");
    assert_eq!(app.pending_refresh, Some(RefreshTrigger::User));
}

#[test]
fn empty_command_line_runs_nothing() {
    let mut app = app_with_file_count(1);
    app.enter_command_mode();
    app.submit_command();
    assert_eq!(app.message, "empty command");
    assert!(app.command_history.is_empty());
}

#[test]
fn cancel_closes_help_then_command_line() {
    let mut app = app_with_file_count(1);
    app.show_help();
    app.enter_command_mode();
    app.cancel_transient_state();
    assert!(!app.show_help);
    assert!(app.command_mode);
    assert_eq!(app.message, "help closed");
    app.cancel_transient_state();
    assert!(!app.command_mode);
    assert_eq!(app.message, "command canceled");
    app.cancel_transient_state();
    assert_eq!(app.message, "nothing to cancel");
    assert!(!app.should_quit);
}

#[test]
fn deleting_keeps_the_colon() {
    let mut app = app_with_file_count(1);
    app.enter_command_mode();
    app.push_command_char('é');
    app.pop_command_char();
    assert_eq!(app.command_input, ":");
    app.pop_command_char();
    assert_eq!(app.command_input, ":");
}

#[test]
fn panes_cycle_in_both_directions() {
    let mut app = app_with_file_count(1);
    app.toggle_active_pane();
    assert_eq!(app.active_pane, PreviewPane::Content);
    app.toggle_active_pane_reverse();
    assert_eq!(app.active_pane, PreviewPane::Repository);
    app.toggle_active_pane_reverse();
    assert_eq!(app.active_pane, PreviewPane::Rsync);
}

#[test]
fn preview_scroll_saturates() {
    let mut app = app_with_file_count(1);
    app.active_pane = PreviewPane::Git;
    app.git_scroll = 65530;
    app.scroll_preview_down();
    assert_eq!(app.git_scroll, u16::MAX);
    app.git_scroll = 4;
    app.scroll_preview_up();
    assert_eq!(app.git_scroll, 0);
}

#[test]
fn moving_wraps_around() {
    let mut app = app_with_file_count(3);
    app.move_up();
    assert_eq!(app.cursor, 2);
    app.move_down();
    assert_eq!(app.cursor, 0);
}

#[test]
fn new_state_starts_on_the_first_row() {
    let app = App::with_entries(String::from("/repo"), String::from("host:/dest"), nested_tree());
    assert_eq!(app.cursor, 0);
    assert_eq!(app.message, "Press : for commands, ? for help, or Tab to change focus.");
    assert!(app.git_preview.starts_with("path:   a\n"));
}

#[test]
fn toggling_a_file_twice_restores_it() {
    let mut app = app_with_entries(nested_tree());
    app.cursor = 3;
    app.toggle_current();
    assert!(app.entries[4].selected);
    app.toggle_current();
    assert!(app.entries.iter().all(|e| !e.selected));
}

#[test]
fn typing_then_deleting_restores_the_command_line() {
    let mut app = app_with_file_count(1);
    app.enter_command_mode();
    app.push_command_char('t');
    app.push_command_char('x');
    app.pop_command_char();
    assert_eq!(app.command_input, ":t");
}
