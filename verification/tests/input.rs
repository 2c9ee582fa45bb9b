use rdg::app::{App, PreviewPane, RefreshTrigger};
use rdg::git::{Candidate, ChangeKind};
use rdg::input::{
    absorb_watch_events, event_renders, UiEvent, handle_key, handle_mouse_click, handle_mouse_scroll, repository_viewport_rows,
    WatchEvent,
};
use rdg::rsync::RsyncRunReport;
use rdg::keymap::{KeyCode, KeyEvent, Keymap, Modifiers};
use rdg::layout::{body_areas, Rect, UiAreas};
use rdg::theme::ThemeKind;
use rdg::tree::{EntryKind, TreeEntry};
use rdg::watcher::{EventKind, PathComponent};

fn app_with_file_count(n: usize) -> App {
    App {
        repo_root: String::new(),
        target: String::new(),
        entries: (0..n)
            .map(|i| TreeEntry {
                path: format!("f{i}.txt"),
                name: format!("f{i}.txt"),
                kind: EntryKind::File,
                depth: 0,
                git_kind: None,
                status: String::new(),
                selected: false,
                expanded: true,
            })
            .collect(),
        cursor: 0,
        repository_offset: 0,
        selected_only: false,
        git_preview: String::new(),
        rsync_preview: String::new(),
        content_diff_preview: String::new(),
        git_scroll: 0,
        rsync_scroll: 0,
        content_diff_scroll: 0,
        rsync_dry_run_ready: false,
        rsync_preview_stale: false,
        rsync_report: None,
        message: String::new(),
        command_input: String::new(),
        command_mode: false,
        command_history: Vec::new(),
        command_history_cursor: None,
        show_help: false,
        theme_kind: ThemeKind::Neutral,
        active_pane: PreviewPane::Repository,
        keymap: Keymap::default(),
        should_quit: false,
        pending_refresh: None,
        pending_git_preview: None,
        pending_rsync: None,
    }
}

fn key(code: KeyCode) -> KeyEvent {
    KeyEvent::new(code, Modifiers::none())
}

const SCREEN: Rect = Rect { x: 0, y: 0, width: 100, height: 40 };

fn areas() -> UiAreas {
    body_areas(SCREEN)
}

#[test]
fn typed_quit_command_quits() {
    let mut app = app_with_file_count(3);
    handle_key(&mut app, key(KeyCode::Char(':')), areas());
    assert!(app.command_mode);
    handle_key(&mut app, key(KeyCode::Char('q')), areas());
    assert_eq!(app.command_input, ":q");
    handle_key(&mut app, key(KeyCode::Enter), areas());
    assert!(app.should_quit);
}

#[test]
fn q_alone_does_not_quit() {
    let mut app = app_with_file_count(3);
    handle_key(&mut app, key(KeyCode::Char('q')), areas());
    handle_key(&mut app, key(KeyCode::Esc), areas());
    assert!(!app.should_quit);
    assert_eq!(app.message, "nothing to cancel");
}

#[test]
fn local_keys_move_select_and_scroll() {
    let mut app = app_with_file_count(3);
    handle_key(&mut app, key(KeyCode::Char('j')), areas());
    assert_eq!(app.cursor, 1);
    handle_key(&mut app, key(KeyCode::Char(' ')), areas());
    assert!(app.entries[1].selected);
    handle_key(&mut app, key(KeyCode::Tab), areas());
    assert_eq!(app.active_pane, PreviewPane::Content);
    app.active_pane = PreviewPane::Git;
    handle_key(&mut app, key(KeyCode::PageDown), areas());
    assert_eq!(app.git_scroll, 10);
    handle_key(&mut app, key(KeyCode::F(5)), areas());
    assert_eq!(app.pending_refresh, Some(RefreshTrigger::User));
    handle_key(&mut app, key(KeyCode::Char('/')), areas());
    assert_eq!(app.message, "Search is not implemented for rdg.");
}

#[test]
fn clicks_select_rows_and_focus_panes() {
    let mut app = app_with_file_count(5);
    assert_eq!(repository_viewport_rows(areas()), 31);
    handle_mouse_click(&mut app, areas(), 2, 6);
    assert!(app.entries[2].selected);
    assert_eq!(app.cursor, 2);
    handle_mouse_click(&mut app, areas(), 60, 5);
    assert_eq!(app.active_pane, PreviewPane::Content);
    handle_mouse_scroll(&mut app, areas(), 60, 5, true);
    assert_eq!(app.content_diff_scroll, 10);
}

#[test]
fn watcher_events_ask_for_a_reload_and_report_failures() {
    let mut app = app_with_file_count(1);
    let root = vec![PathComponent::RootDir, PathComponent::Normal(String::from("repo"))];
    let ignored = WatchEvent::Changed {
        kind: EventKind::Modify,
        paths: vec![vec![
            PathComponent::RootDir,
            PathComponent::Normal(String::from("repo")),
            PathComponent::Normal(String::from(".git")),
        ]],
    };
    absorb_watch_events(&mut app, &root, &vec![ignored]);
    assert!(app.pending_refresh.is_none());
    let changed = WatchEvent::Changed {
        kind: EventKind::Create,
        paths: vec![vec![
            PathComponent::RootDir,
            PathComponent::Normal(String::from("repo")),
            PathComponent::Normal(String::from("a.txt")),
        ]],
    };
    absorb_watch_events(&mut app, &root, &vec![changed, WatchEvent::Failed(String::from("overflow"))]);
    assert_eq!(app.pending_refresh, Some(RefreshTrigger::FileChange));
    assert_eq!(app.message, "File watcher error: overflow");
}

#[test]
fn events_render_the_rsync_panes_only_where_they_can() {
    let mut app = app_with_file_count(3);
    app.rsync_report = Some(RsyncRunReport {
        mode: String::from("DRY RUN"),
        repo_root: String::new(),
        target: String::from("/dest/"),
        selected: vec![Candidate {
            path: String::from("f1.txt"),
            kind: ChangeKind::Changed,
            status: String::from(" M"),
        }],
        args: Vec::new(),
        version: String::new(),
        delete_missing_args: false,
        stdout: String::from(">fcsT....éé f1.txt\n"),
        stderr: String::new(),
        content_diffs: Vec::new(),
    });
    assert!(!event_renders(&app, UiEvent::KeyPress(key(KeyCode::Char('j'))), areas()));
    assert!(event_renders(&app, UiEvent::KeyPress(key(KeyCode::Char('k'))), areas()));
    assert!(event_renders(&app, UiEvent::Ignored, areas()));
    assert_eq!(app.move_point(true), Some((false, 1)));
    assert_eq!(app.move_point(false), Some((false, 2)));
    assert!(!app.renders_at_point(Some((false, 1))));
    assert!(app.renders_at_point(Some((false, 2))));
    assert!(app.renders_at_point(None));
}
