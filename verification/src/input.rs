//! What key presses, mouse clicks and file-system events do to the state.

use vstd::prelude::*;

use crate::app::{
    after_selection_change, cancel_post, move_target, point_view, renders_at, scroll_target,
    selected_only_target, submit_target, collapse_post, command_same, cursor_moved, deploy_post,
    enter_command_post, expand_post, git_same, max_offset, min_int, nav_same, next_command_post,
    next_pane, offset_showing_cursor, pop_char_post, previous_command_post, previous_pane,
    push_char_post, rsync_request_effect, same_but_scrolling, says, scroll_preview_post,
    scroll_repository_post, selected_only_post, settings_same, show_help_post, submit_post,
    toggle_all_post, toggle_current_post, toggle_expanded_post, toggled, tree_same, App,
    PreviewPane, RefreshTrigger, RsyncFollowUp,
};
use crate::keymap::{first_intent, Intent, KeyCode, KeyEvent, text_input_modifiers};
use crate::layout::{
    candidate_hit, candidate_hit_spec, contains, min_u16, Rect, UiAreas,
};
use crate::watcher::{components, paths, should_refresh, should_refresh_spec, EventKind, PathComponent, ComponentView};

verus! {

/// The number of tree rows inside the tree pane's border.
pub open spec fn viewport_rows_of(area: Rect) -> int {
    if area.height < 2 {
        0
    } else {
        area.height - 2
    }
}

/// The number of tree rows inside the tree pane's border.
pub fn repository_viewport_rows(areas: UiAreas) -> (r: usize)
    ensures
        r == viewport_rows_of(areas.candidates),
{
    areas.candidates.height.saturating_sub(2) as usize
}

/// The effect of moving the cursor a row and then scrolling it into a view
/// of `rows` rows.
pub open spec fn move_cursor_post(a: App, b: App, down: bool, rows: int) -> bool {
    let len = a.visible_spec().len() as int;
    if len == 0 {
        &&& b.cursor == a.cursor
        &&& b.repository_offset == 0
        &&& same_but_scrolling(a, b)
    } else {
        let c = if down {
            (a.cursor + 1) % len
        } else if a.cursor == 0 {
            len - 1
        } else {
            a.cursor - 1
        };
        &&& cursor_moved(a, b, c as usize)
        &&& b.repository_offset == offset_showing_cursor(a.repository_offset as int, c, len, rows)
    }
}

/// The effect of scrolling the focused pane.
pub open spec fn scroll_active_post(a: App, b: App, down: bool, rows: int) -> bool {
    if a.active_pane == PreviewPane::Repository {
        scroll_repository_post(a, b, rows, down)
    } else {
        scroll_preview_post(a, b, down)
    }
}

/// The effect of an intent, in a view of `rows` tree rows.
pub open spec fn intent_post(a: App, b: App, intent: Intent, rows: int) -> bool {
    if a.command_mode {
        match intent {
            Intent::Cancel => cancel_post(a, b),
            Intent::Activate => submit_post(a, b),
            Intent::MoveUp => previous_command_post(a, b),
            Intent::MoveDown => next_command_post(a, b),
            Intent::Help => show_help_post(a, b),
            _ => b == a,
        }
    } else {
        match intent {
            Intent::EnterCommandMode => enter_command_post(a, b),
            Intent::Cancel => cancel_post(a, b),
            Intent::Help => show_help_post(a, b),
            Intent::NextPane => b == (App { active_pane: next_pane(a.active_pane), ..a }),
            Intent::PreviousPane => b == (App { active_pane: previous_pane(a.active_pane), ..a }),
            Intent::Activate => toggle_expanded_post(a, b),
            Intent::MoveUp => move_cursor_post(a, b, false, rows),
            Intent::MoveDown => move_cursor_post(a, b, true, rows),
            Intent::MoveLeft => collapse_post(a, b),
            Intent::MoveRight => expand_post(a, b),
            Intent::Search => says(a, b, "Search is not implemented for rdg."@),
        }
    }
}

/// The effect of a key that no binding claims.
pub open spec fn local_key_post(a: App, b: App, key: KeyEvent, rows: int) -> bool {
    if key.modifiers.bits != 0 {
        match key.code {
            KeyCode::Down | KeyCode::PageDown => scroll_active_post(a, b, true, rows),
            KeyCode::Up | KeyCode::PageUp => scroll_active_post(a, b, false, rows),
            _ => b == a,
        }
    } else {
        match key.code {
            KeyCode::Char(c) => if c == 'j' {
                move_cursor_post(a, b, true, rows)
            } else if c == 'k' {
                move_cursor_post(a, b, false, rows)
            } else if c == 'e' {
                toggle_expanded_post(a, b)
            } else if c == ' ' {
                toggle_current_post(a, b)
            } else if c == 'a' {
                toggle_all_post(a, b)
            } else if c == 's' {
                selected_only_post(a, b)
            } else if c == 'd' {
                &&& rsync_request_effect(a, b, true, RsyncFollowUp::Nothing)
                &&& tree_same(a, b)
                &&& nav_same(a, b)
                &&& command_same(a, b)
                &&& git_same(a, b)
                &&& settings_same(a, b)
            } else if c == 'r' {
                deploy_post(a, b)
            } else {
                b == a
            },
            KeyCode::F(n) => if n == 5 {
                b == (App { pending_refresh: Some(RefreshTrigger::User), ..a })
            } else {
                b == a
            },
            KeyCode::PageDown => scroll_active_post(a, b, true, rows),
            KeyCode::PageUp => scroll_active_post(a, b, false, rows),
            _ => b == a,
        }
    }
}

/// Whether a key press goes to the command line as text.
pub open spec fn is_text_key(a: App, key: KeyEvent) -> bool {
    &&& a.command_mode
    &&& key.modifiers.without_shift_spec().bits == 0
    &&& (key.code is Backspace || key.code is Char)
}

/// The effect of a key press with `rows` tree rows on screen: text for an
/// open command line, else the intent of the first binding that matches,
/// else the key's own action.
pub open spec fn key_post(a: App, b: App, key: KeyEvent, rows: int) -> bool {
    if is_text_key(a, key) {
        match key.code {
            KeyCode::Char(ch) => push_char_post(a, b, ch),
            _ => pop_char_post(a, b),
        }
    } else {
        match first_intent(a.keymap.bindings@, key) {
            Some(intent) => intent_post(a, b, intent, rows),
            None => local_key_post(a, b, key, rows),
        }
    }
}

/// The pane under the cell at `column`, `row`.
pub open spec fn pane_at(areas: UiAreas, column: u16, row: u16) -> Option<PreviewPane> {
    if in_area(areas.candidates, column, row) {
        Some(PreviewPane::Repository)
    } else if in_area(areas.content, column, row) {
        Some(PreviewPane::Content)
    } else if in_area(areas.git, column, row) {
        Some(PreviewPane::Git)
    } else if in_area(areas.rsync, column, row) {
        Some(PreviewPane::Rsync)
    } else {
        None
    }
}

/// Whether the cell lies in `area`, as `contains` decides it.
pub open spec fn in_area(area: Rect, column: u16, row: u16) -> bool {
    area.x <= column && column < min_u16(area.x + area.width) && area.y <= row && row < min_u16(
        area.y + area.height,
    )
}

/// `a` with the focus on the pane under the cell, if any.
pub open spec fn focus_at(a: App, areas: UiAreas, column: u16, row: u16) -> App {
    match pane_at(areas, column, row) {
        Some(p) => App { active_pane: p, ..a },
        None => a,
    }
}

/// The effect of a left click at `column`, `row` with the panes at `areas`:
/// a click on a row of the tree toggles its check box, or moves the cursor
/// there and opens or closes it; a click elsewhere focuses the pane.
pub open spec fn click_post(a: App, b: App, areas: UiAreas, column: u16, row: u16) -> bool {
    let f = focus_at(a, areas, column, row);
    if pane_at(areas, column, row) == Some(PreviewPane::Repository) {
        let rows = viewport_rows_of(areas.candidates);
        let offset = min_int(
            f.repository_offset as int,
            max_offset(f.visible_spec().len() as int, rows),
        );
        match candidate_hit_spec(areas.candidates, column, row, f.visible_spec().len(), offset as nat) {
            Some((i, true)) => after_selection_change(
                f,
                b,
                toggled(f.views(), f.visible_spec()[i] as int),
                i,
                true,
            ),
            Some((i, false)) => exists|m: App| cursor_moved(f, m, i as usize) && #[trigger]
                toggle_expanded_post(m, b) && m.repository_offset == f.repository_offset,
            None => b == f,
        }
    } else {
        b == f
    }
}

/// The effect of the wheel at `column`, `row`: the pane under the pointer
/// takes the focus and scrolls.
pub open spec fn wheel_post(a: App, b: App, areas: UiAreas, column: u16, row: u16, down: bool) -> bool {
    scroll_active_post(focus_at(a, areas, column, row), b, down, viewport_rows_of(areas.candidates))
}


// ---- Where an event renders the rsync panes ----

/// Where scrolling the focused pane renders the rsync panes.
pub open spec fn scroll_active_target(a: App, down: bool, rows: int) -> Option<(bool, int)> {
    if a.active_pane == PreviewPane::Repository {
        scroll_target(a, rows, down)
    } else {
        None
    }
}

/// Where an intent renders the rsync panes.
pub open spec fn intent_target(a: App, intent: Intent, rows: int) -> Option<(bool, int)> {
    if a.command_mode {
        match intent {
            Intent::Activate => submit_target(a),
            _ => None,
        }
    } else {
        match intent {
            Intent::MoveUp => move_target(a, false),
            Intent::MoveDown => move_target(a, true),
            _ => None,
        }
    }
}

/// Where a key that no binding claims renders the rsync panes.
pub open spec fn local_key_target(a: App, key: KeyEvent, rows: int) -> Option<(bool, int)> {
    if key.modifiers.bits != 0 {
        match key.code {
            KeyCode::Down | KeyCode::PageDown => scroll_active_target(a, true, rows),
            KeyCode::Up | KeyCode::PageUp => scroll_active_target(a, false, rows),
            _ => None,
        }
    } else {
        match key.code {
            KeyCode::Char(c) => if c == 'j' {
                move_target(a, true)
            } else if c == 'k' {
                move_target(a, false)
            } else if c == 's' {
                selected_only_target(a)
            } else {
                None
            },
            KeyCode::PageDown => scroll_active_target(a, true, rows),
            KeyCode::PageUp => scroll_active_target(a, false, rows),
            _ => None,
        }
    }
}

/// Where a key press renders the rsync panes.
pub open spec fn key_target(a: App, key: KeyEvent, rows: int) -> Option<(bool, int)> {
    if is_text_key(a, key) {
        None
    } else {
        match first_intent(a.keymap.bindings@, key) {
            Some(intent) => intent_target(a, intent, rows),
            None => local_key_target(a, key, rows),
        }
    }
}

/// Where a left click renders the rsync panes: on the row it moves the
/// cursor to.
pub open spec fn click_target(a: App, areas: UiAreas, column: u16, row: u16) -> Option<(bool, int)> {
    let f = focus_at(a, areas, column, row);
    if pane_at(areas, column, row) == Some(PreviewPane::Repository) {
        let rows = viewport_rows_of(areas.candidates);
        let offset = min_int(
            f.repository_offset as int,
            max_offset(f.visible_spec().len() as int, rows),
        );
        match candidate_hit_spec(areas.candidates, column, row, f.visible_spec().len(), offset as nat) {
            Some((i, false)) => Some((f.selected_only, i)),
            _ => None,
        }
    } else {
        None
    }
}

/// Where a turn of the wheel renders the rsync panes.
pub open spec fn wheel_target(a: App, areas: UiAreas, column: u16, row: u16, down: bool) -> Option<
    (bool, int),
> {
    scroll_active_target(focus_at(a, areas, column, row), down, viewport_rows_of(areas.candidates))
}

/// Where a terminal event renders the rsync panes.
pub open spec fn event_target(a: App, event: UiEvent, areas: UiAreas) -> Option<(bool, int)> {
    match event {
        UiEvent::KeyPress(key) => key_target(a, key, viewport_rows_of(areas.candidates)),
        UiEvent::ScrollDown { column, row } => wheel_target(a, areas, column, row, true),
        UiEvent::ScrollUp { column, row } => wheel_target(a, areas, column, row, false),
        UiEvent::LeftClick { column, row } => click_target(a, areas, column, row),
        UiEvent::Ignored => None,
    }
}

/// What the file watcher reports.
#[derive(Debug)]
pub enum WatchEvent {
    Changed { kind: EventKind, paths: Vec<Vec<PathComponent>> },
    Failed(String),
}

/// Whether any of `events` calls for reloading the repository at `root`.
pub open spec fn any_refresh(root: Seq<ComponentView>, events: Seq<WatchEvent>) -> bool {
    exists|i: int|
        0 <= i < events.len() && (#[trigger] events[i] matches WatchEvent::Changed { kind, paths: ps }
            && should_refresh_spec(root, kind, paths(ps@)))
}

/// The error of the last failure among the first `n` events, if any.
pub open spec fn last_failure(events: Seq<WatchEvent>, n: int) -> Option<Seq<char>>
    decreases n,
{
    if n <= 0 {
        None
    } else {
        match events[n - 1] {
            WatchEvent::Failed(e) => Some(e@),
            _ => last_failure(events, n - 1),
        }
    }
}

/// The effect of a batch of watcher events: a failure is reported on the
/// status line (the last one shows), and a change that matters asks for a
/// reload.
pub open spec fn watch_post(a: App, b: App, root: Seq<ComponentView>, events: Seq<WatchEvent>) -> bool {
    &&& b.message@ == match last_failure(events, events.len() as int) {
        Some(e) => "File watcher error: "@ + e,
        None => a.message@,
    }
    &&& b.pending_refresh == (if any_refresh(root, events) {
        Some(RefreshTrigger::FileChange)
    } else {
        a.pending_refresh
    })
    &&& b == (App { message: b.message, pending_refresh: b.pending_refresh, ..a })
}

/// Moves the cursor a row and scrolls it into view.
fn move_repository_cursor(app: &mut App, down: bool, rows: usize)
    requires
        renders_at(*old(app), move_target(*old(app), down)),
        old(app).wf(),
    ensures
        final(app).wf(),
        move_cursor_post(*old(app), *final(app), down, rows as int),
{
    if down {
        app.move_down();
    } else {
        app.move_up();
    }
    let ghost mid = *app;
    app.ensure_repository_cursor_visible(rows);
    proof {
        let a = *old(app);
        let b = *app;
        assert(mid.views() == b.views());
        assert(mid.visible_spec() == b.visible_spec());
        assert(a.visible_spec() == mid.visible_spec());
        assert(mid.current_index_spec() == b.current_index_spec());
        assert(mid.current_file_spec() == b.current_file_spec());
        let len = a.visible_spec().len() as int;
        crate::app::lemma_visible_bounds(a.views(), a.selected_only);
        assert(a.views().len() == a.entries@.len());
        if len > 0 {
            let c = if down {
                (a.cursor + 1) % len
            } else if a.cursor == 0 {
                len - 1
            } else {
                a.cursor - 1
            };
            if down {
                let k = a.cursor + 1;
                assert(0 <= k % len < len) by (nonlinear_arith)
                    requires
                        len > 0,
                        k >= 0,
                ;
            }
            assert(0 <= c <= usize::MAX);
            assert(mid.cursor as int == c);
            assert(cursor_moved(a, mid, c as usize));
            assert(cursor_moved(a, b, c as usize));
            assert(b.repository_offset == offset_showing_cursor(a.repository_offset as int, c, len, rows as int));
        }
    }
}

/// Scrolls the focused pane.
fn scroll_active_pane(app: &mut App, down: bool, rows: usize)
    requires
        renders_at(*old(app), scroll_active_target(*old(app), down, rows as int)),
        old(app).wf(),
    ensures
        final(app).wf(),
        scroll_active_post(*old(app), *final(app), down, rows as int),
{
    match app.active_pane {
        PreviewPane::Repository => {
            if down {
                app.scroll_repository_down(rows);
            } else {
                app.scroll_repository_up(rows);
            }
        },
        _ => {
            if down {
                app.scroll_preview_down();
            } else {
                app.scroll_preview_up();
            }
        },
    }
}

/// Sends a key press to an open command line as text; says whether it did.
pub fn handle_command_text_key(app: &mut App, key: KeyEvent) -> (handled: bool)
    ensures
        handled == is_text_key(*old(app), key),
        handled ==> match key.code {
            KeyCode::Char(ch) => push_char_post(*old(app), *final(app), ch),
            _ => pop_char_post(*old(app), *final(app)),
        },
        !handled ==> *final(app) == *old(app),
{
    if !app.command_mode || !text_input_modifiers(key.modifiers) {
        return false;
    }
    match key.code {
        KeyCode::Backspace => {
            app.pop_command_char();
            true
        },
        KeyCode::Char(ch) => {
            app.push_command_char(ch);
            true
        },
        _ => false,
    }
}

/// Carries out an intent, in a view of `rows` tree rows.
pub fn handle_intent(app: &mut App, intent: Intent, rows: usize)
    requires
        renders_at(*old(app), intent_target(*old(app), intent, rows as int)),
        old(app).wf(),
    ensures
        final(app).wf(),
        intent_post(*old(app), *final(app), intent, rows as int),
{
    if app.command_mode {
        match intent {
            Intent::Cancel => app.cancel_transient_state(),
            Intent::Activate => app.submit_command(),
            Intent::MoveUp => app.previous_command(),
            Intent::MoveDown => app.next_command(),
            Intent::Help => app.show_help(),
            _ => {},
        }
        return;
    }
    match intent {
        Intent::EnterCommandMode => app.enter_command_mode(),
        Intent::Cancel => app.cancel_transient_state(),
        Intent::Help => app.show_help(),
        Intent::NextPane => app.toggle_active_pane(),
        Intent::PreviousPane => app.toggle_active_pane_reverse(),
        Intent::Activate => app.toggle_current_expanded(),
        Intent::MoveUp => move_repository_cursor(app, false, rows),
        Intent::MoveDown => move_repository_cursor(app, true, rows),
        Intent::MoveLeft => app.collapse_current(),
        Intent::MoveRight => app.expand_current(),
        Intent::Search => app.set_message(String::from_str("Search is not implemented for rdg.")),
    }
}

/// Carries out the action of a key that no binding claims.
pub fn handle_local_key(app: &mut App, key: KeyEvent, rows: usize)
    requires
        renders_at(*old(app), local_key_target(*old(app), key, rows as int)),
        old(app).wf(),
    ensures
        final(app).wf(),
        local_key_post(*old(app), *final(app), key, rows as int),
{
    if key.modifiers.bits != 0 {
        match key.code {
            KeyCode::Down | KeyCode::PageDown => scroll_active_pane(app, true, rows),
            KeyCode::Up | KeyCode::PageUp => scroll_active_pane(app, false, rows),
            _ => {},
        }
        return;
    }
    match key.code {
        KeyCode::Char(c) => {
            if c == 'j' {
                move_repository_cursor(app, true, rows);
            } else if c == 'k' {
                move_repository_cursor(app, false, rows);
            } else if c == 'e' {
                app.toggle_current_expanded();
            } else if c == ' ' {
                app.toggle_current();
            } else if c == 'a' {
                app.toggle_all();
            } else if c == 's' {
                app.toggle_selected_only();
            } else if c == 'd' {
                app.refresh_rsync_preview(true);
            } else if c == 'r' {
                app.deploy_rsync();
            }
        },
        KeyCode::F(n) => {
            if n == 5 {
                app.refresh_candidates(RefreshTrigger::User);
            }
        },
        KeyCode::PageDown => scroll_active_pane(app, true, rows),
        KeyCode::PageUp => scroll_active_pane(app, false, rows),
        _ => {},
    }
}

/// Carries out a key press with the panes at `areas`.
pub fn handle_key(app: &mut App, key: KeyEvent, areas: UiAreas)
    requires
        renders_at(*old(app), key_target(*old(app), key, viewport_rows_of(areas.candidates))),
        old(app).wf(),
    ensures
        final(app).wf(),
        key_post(*old(app), *final(app), key, viewport_rows_of(areas.candidates)),
{
    if handle_command_text_key(app, key) {
        return;
    }
    let rows = repository_viewport_rows(areas);
    match app.keymap.intent_for(key) {
        Some(intent) => handle_intent(app, intent, rows),
        None => handle_local_key(app, key, rows),
    }
}

/// Gives the focus to the pane under the cell at `column`, `row`.
fn focus_pane_at(app: &mut App, areas: UiAreas, column: u16, row: u16)
    ensures
        *final(app) == focus_at(*old(app), areas, column, row),
{
    if contains(areas.candidates, column, row) {
        app.set_active_pane(PreviewPane::Repository);
    } else if contains(areas.content, column, row) {
        app.set_active_pane(PreviewPane::Content);
    } else if contains(areas.git, column, row) {
        app.set_active_pane(PreviewPane::Git);
    } else if contains(areas.rsync, column, row) {
        app.set_active_pane(PreviewPane::Rsync);
    }
}

/// Carries out a left click at `column`, `row` with the panes at `areas`.
pub fn handle_mouse_click(app: &mut App, areas: UiAreas, column: u16, row: u16)
    requires
        renders_at(*old(app), click_target(*old(app), areas, column, row)),
        old(app).wf(),
    ensures
        final(app).wf(),
        click_post(*old(app), *final(app), areas, column, row),
{
    let in_tree = contains(areas.candidates, column, row);
    focus_pane_at(app, areas, column, row);
    if !in_tree {
        return;
    }
    let viewport_rows = areas.candidates.height.saturating_sub(2) as usize;
    let view_offset = app.repository_view_offset(viewport_rows);
    let len = app.visible_indices().len();
    match candidate_hit(areas.candidates, column, row, len, view_offset) {
        Some((index, toggles_selection)) => {
            if toggles_selection {
                app.toggle_candidate_at(index);
            } else {
                let ghost before = *app;
                app.set_cursor(index);
                let ghost mid = *app;
                app.toggle_current_expanded();
                proof {
                    assert(cursor_moved(before, mid, index));
                    assert(toggle_expanded_post(mid, *app));
                }
            }
        },
        None => {},
    }
}

/// Carries out a turn of the wheel at `column`, `row` with the panes at
/// `areas`.
pub fn handle_mouse_scroll(app: &mut App, areas: UiAreas, column: u16, row: u16, down: bool)
    requires
        renders_at(*old(app), wheel_target(*old(app), areas, column, row, down)),
        old(app).wf(),
    ensures
        final(app).wf(),
        wheel_post(*old(app), *final(app), areas, column, row, down),
{
    focus_pane_at(app, areas, column, row);
    let rows = repository_viewport_rows(areas);
    scroll_active_pane(app, down, rows);
}

/// Takes in a batch of file-watcher events for the repository at `root`.
pub fn absorb_watch_events(app: &mut App, root: &Vec<PathComponent>, events: &Vec<WatchEvent>)
    ensures
        watch_post(*old(app), *final(app), components(root@), events@),
{
    let mut refresh = false;
    let mut i: usize = 0;
    while i < events.len()
        invariant
            i <= events@.len(),
            refresh <==> exists|j: int|
                0 <= j < i && (#[trigger] events@[j] matches WatchEvent::Changed { kind, paths: ps }
                    && should_refresh_spec(components(root@), kind, paths(ps@))),
            app.message@ == match last_failure(events@, i as int) {
                Some(e) => "File watcher error: "@ + e,
                None => old(app).message@,
            },
            *app == (App { message: app.message, ..*old(app) }),
        decreases events@.len() - i,
    {
        match &events[i] {
            WatchEvent::Changed { kind, paths: ps } => {
                if should_refresh(root, *kind, ps) {
                    refresh = true;
                }
            },
            WatchEvent::Failed(err) => {
                let mut m = String::from_str("File watcher error: ");
                m.append(err.as_str());
                app.set_message(m);
            },
        }
        i = i + 1;
    }
    if refresh {
        app.refresh_candidates(RefreshTrigger::FileChange);
    }
}

/// A terminal event, as far as the interface reacts to it.
#[derive(Clone, Copy, Debug, PartialEq, Eq, Structural)]
pub enum UiEvent {
    /// A key was pressed (releases and repeats are not reported).
    KeyPress(KeyEvent),
    /// The wheel turned down over a cell.
    ScrollDown { column: u16, row: u16 },
    /// The wheel turned up over a cell.
    ScrollUp { column: u16, row: u16 },
    /// The left button went down over a cell.
    LeftClick { column: u16, row: u16 },
    /// Anything else.
    Ignored,
}

/// The effect of a terminal event with the panes at `areas`.
pub open spec fn event_post(a: App, b: App, event: UiEvent, areas: UiAreas) -> bool {
    match event {
        UiEvent::KeyPress(key) => key_post(a, b, key, viewport_rows_of(areas.candidates)),
        UiEvent::ScrollDown { column, row } => wheel_post(a, b, areas, column, row, true),
        UiEvent::ScrollUp { column, row } => wheel_post(a, b, areas, column, row, false),
        UiEvent::LeftClick { column, row } => click_post(a, b, areas, column, row),
        UiEvent::Ignored => b == a,
    }
}

/// Carries out a terminal event with the panes at `areas`.
pub fn handle_event(app: &mut App, event: UiEvent, areas: UiAreas)
    requires
        renders_at(*old(app), event_target(*old(app), event, areas)),
        old(app).wf(),
    ensures
        final(app).wf(),
        event_post(*old(app), *final(app), event, areas),
{
    match event {
        UiEvent::KeyPress(key) => handle_key(app, key, areas),
        UiEvent::ScrollDown { column, row } => handle_mouse_scroll(app, areas, column, row, true),
        UiEvent::ScrollUp { column, row } => handle_mouse_scroll(app, areas, column, row, false),
        UiEvent::LeftClick { column, row } => handle_mouse_click(app, areas, column, row),
        UiEvent::Ignored => {},
    }
}

// ---- Where an event will render the rsync panes, computed ----

fn scroll_active_point(app: &App, down: bool, rows: usize) -> (r: Option<(bool, usize)>)
    requires
        app.entries@.len() < usize::MAX,
    ensures
        point_view(r) == scroll_active_target(*app, down, rows as int),
{
    match app.active_pane {
        PreviewPane::Repository => app.scroll_point(rows, down),
        _ => None,
    }
}

fn intent_point(app: &App, intent: Intent, rows: usize) -> (r: Option<(bool, usize)>)
    requires
        app.entries@.len() < usize::MAX,
    ensures
        point_view(r) == intent_target(*app, intent, rows as int),
{
    if app.command_mode {
        match intent {
            Intent::Activate => app.submit_point(),
            _ => None,
        }
    } else {
        match intent {
            Intent::MoveUp => app.move_point(false),
            Intent::MoveDown => app.move_point(true),
            _ => None,
        }
    }
}

fn local_key_point(app: &App, key: KeyEvent, rows: usize) -> (r: Option<(bool, usize)>)
    requires
        app.entries@.len() < usize::MAX,
    ensures
        point_view(r) == local_key_target(*app, key, rows as int),
{
    if key.modifiers.bits != 0 {
        match key.code {
            KeyCode::Down | KeyCode::PageDown => scroll_active_point(app, true, rows),
            KeyCode::Up | KeyCode::PageUp => scroll_active_point(app, false, rows),
            _ => None,
        }
    } else {
        match key.code {
            KeyCode::Char(c) => if c == 'j' {
                app.move_point(true)
            } else if c == 'k' {
                app.move_point(false)
            } else if c == 's' {
                app.selected_only_point()
            } else {
                None
            },
            KeyCode::PageDown => scroll_active_point(app, true, rows),
            KeyCode::PageUp => scroll_active_point(app, false, rows),
            _ => None,
        }
    }
}

fn key_point(app: &App, key: KeyEvent, areas: UiAreas) -> (r: Option<(bool, usize)>)
    requires
        app.entries@.len() < usize::MAX,
    ensures
        point_view(r) == key_target(*app, key, viewport_rows_of(areas.candidates)),
{
    let text = app.command_mode && text_input_modifiers(key.modifiers) && match key.code {
        KeyCode::Backspace | KeyCode::Char(_) => true,
        _ => false,
    };
    if text {
        return None;
    }
    let rows = repository_viewport_rows(areas);
    match app.keymap.intent_for(key) {
        Some(intent) => intent_point(app, intent, rows),
        None => local_key_point(app, key, rows),
    }
}

fn click_point(app: &App, areas: UiAreas, column: u16, row: u16) -> (r: Option<(bool, usize)>)
    requires
        app.entries@.len() < usize::MAX,
    ensures
        point_view(r) == click_target(*app, areas, column, row),
{
    if !contains(areas.candidates, column, row) {
        return None;
    }
    let ghost f = focus_at(*app, areas, column, row);
    assert(f.visible_spec() == app.visible_spec());
    let rows = repository_viewport_rows(areas);
    let view_offset = app.repository_view_offset(rows);
    let len = app.visible_indices().len();
    match candidate_hit(areas.candidates, column, row, len, view_offset) {
        Some((i, toggles_selection)) => if toggles_selection {
            None
        } else {
            Some((app.selected_only, i))
        },
        None => None,
    }
}

fn wheel_point(app: &App, areas: UiAreas, column: u16, row: u16, down: bool) -> (r: Option<
    (bool, usize),
>)
    requires
        app.entries@.len() < usize::MAX,
    ensures
        point_view(r) == wheel_target(*app, areas, column, row, down),
{
    let ghost f = focus_at(*app, areas, column, row);
    assert(f.visible_spec() == app.visible_spec());
    let rows = repository_viewport_rows(areas);
    let on_tree = if contains(areas.candidates, column, row) {
        true
    } else if contains(areas.content, column, row) || contains(areas.git, column, row)
        || contains(areas.rsync, column, row) {
        false
    } else {
        match app.active_pane {
            PreviewPane::Repository => true,
            _ => false,
        }
    };
    if on_tree {
        app.scroll_point(rows, down)
    } else {
        None
    }
}

/// Whether the rsync panes can be rendered where the event `event`, with the
/// panes at `areas`, renders them; `handle_event` asks this of a
/// well-formed state.
pub fn event_renders(app: &App, event: UiEvent, areas: UiAreas) -> (b: bool)
    requires
        app.wf(),
    ensures
        b == renders_at(*app, event_target(*app, event, areas)),
{
    let point = match event {
        UiEvent::KeyPress(key) => key_point(app, key, areas),
        UiEvent::ScrollDown { column, row } => wheel_point(app, areas, column, row, true),
        UiEvent::ScrollUp { column, row } => wheel_point(app, areas, column, row, false),
        UiEvent::LeftClick { column, row } => click_point(app, areas, column, row),
        UiEvent::Ignored => None,
    };
    app.renders_at_point(point)
}

/// Quitting takes the command line: no key press quits but the one that
/// submits an open command line.
pub proof fn lemma_only_commands_quit(a: App, b: App, key: KeyEvent, rows: int)
    requires
        key_post(a, b, key, rows),
        !a.should_quit,
        b.should_quit,
    ensures
        a.command_mode,
        first_intent(a.keymap.bindings@, key) == Some(Intent::Activate),
{
}

} // verus!
