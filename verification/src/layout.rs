//! Screen geometry: where the panes lie, and which row a mouse position hits.

use vstd::prelude::*;

use ratatui::layout::Constraint as TuiConstraint;
use ratatui::layout::Direction as TuiDirection;
use ratatui::layout::Layout as TuiLayout;
use ratatui::layout::Rect as TuiRect;

verus! {

/// A rectangle of terminal cells.
#[derive(Clone, Copy, Debug, PartialEq, Eq, Structural)]
pub struct Rect {
    pub x: u16,
    pub y: u16,
    pub width: u16,
    pub height: u16,
}

/// The direction in which a layout splits an area.
#[derive(Clone, Copy, Debug, PartialEq, Eq, Structural)]
pub enum Direction {
    Horizontal,
    Vertical,
}

/// How large one part of a split should be.
#[derive(Clone, Copy, Debug, PartialEq, Eq, Structural)]
pub enum Constraint {
    Length(u16),
    Min(u16),
    Percentage(u16),
}

/// The cells that `area` spans along `direction`, as far as the screen's
/// coordinates reach.
pub open spec fn extent(direction: Direction, area: Rect) -> int {
    match direction {
        Direction::Horizontal => min_u16(area.x + area.width) - area.x,
        Direction::Vertical => min_u16(area.y + area.height) - area.y,
    }
}

/// The percentages among `cs`, added up.
pub open spec fn percent_total(cs: Seq<Constraint>) -> int
    decreases cs.len(),
{
    if cs.len() == 0 {
        0
    } else {
        percent_total(cs.drop_last()) + match cs.last() {
            Constraint::Percentage(p) => p as int,
            _ => 0,
        }
    }
}

/// The cells that the lengths and minimums among `cs` ask for, added up.
pub open spec fn cells_total(cs: Seq<Constraint>) -> int
    decreases cs.len(),
{
    if cs.len() == 0 {
        0
    } else {
        cells_total(cs.drop_last()) + match cs.last() {
            Constraint::Length(n) => n as int,
            Constraint::Min(n) => n as int,
            _ => 0,
        }
    }
}

/// How many minimums `cs` holds.
pub open spec fn min_count(cs: Seq<Constraint>) -> int
    decreases cs.len(),
{
    if cs.len() == 0 {
        0
    } else {
        min_count(cs.drop_last()) + if cs.last() is Min {
            1int
        } else {
            0
        }
    }
}

/// The constraints `cs` can all be met at once in `area` along `direction`,
/// with a single best split: percentages that add up to at most 100, or
/// lengths and at most one minimum that fit together.
pub open spec fn split_settled(direction: Direction, cs: Seq<Constraint>, area: Rect) -> bool {
    ||| (forall|i: int| 0 <= i < cs.len() ==> #[trigger] cs[i] is Percentage) && percent_total(cs)
        <= 100
    ||| (forall|i: int| 0 <= i < cs.len() ==> !(#[trigger] cs[i] is Percentage)) && min_count(cs)
        <= 1 && cells_total(cs) <= extent(direction, area)
}

/// The parts that ratatui's `Layout::split` (with the default flex and no
/// margin or spacing) cuts `area` into along `direction` by `constraints`.
pub uninterp spec fn layout_split(direction: Direction, constraints: Seq<Constraint>, area: Rect) -> Seq<
    Rect,
>;

/// Splits `area` along `direction` by `constraints`, with ratatui's
/// `Layout::split`: one part per constraint. Where the constraints are
/// settled (`split_settled`), the solver's optimum is unique, so the parts
/// are a function of the arguments (`layout_split`). Where constraints
/// conflict, ratatui leaves the result open (the solver may settle the
/// conflict differently in each process), and only the number of parts is
/// stated.
#[verifier::external_body]
fn split_area(direction: Direction, constraints: &[Constraint], area: Rect) -> (r: Vec<Rect>)
    ensures
        r@.len() == constraints@.len(),
        split_settled(direction, constraints@, area) ==> r@ == layout_split(
            direction,
            constraints@,
            area,
        ),
{
    let dir = match direction {
        Direction::Horizontal => TuiDirection::Horizontal,
        Direction::Vertical => TuiDirection::Vertical,
    };
    let cs = constraints.iter().map(|c| match *c {
        Constraint::Length(n) => TuiConstraint::Length(n),
        Constraint::Min(n) => TuiConstraint::Min(n),
        Constraint::Percentage(n) => TuiConstraint::Percentage(n),
    });
    let a = TuiRect { x: area.x, y: area.y, width: area.width, height: area.height };
    let parts = TuiLayout::default().direction(dir).constraints(cs).split(a);
    parts.iter().map(|p| Rect { x: p.x, y: p.y, width: p.width, height: p.height }).collect()
}

/// The panes of the body of the screen.
#[derive(Clone, Copy, Debug, PartialEq, Eq, Structural)]
pub struct UiAreas {
    pub candidates: Rect,
    pub content: Rect,
    pub git: Rect,
    pub rsync: Rect,
}

/// The rows of the screen: a header of three rows, the body, and a footer
/// of four.
pub open spec fn screen_rows() -> Seq<Constraint> {
    seq![Constraint::Length(3), Constraint::Min(1), Constraint::Length(4)]
}

/// Splits a screen of `area` into header, body and footer.
pub fn screen_areas(area: Rect) -> (r: Vec<Rect>)
    ensures
        r@.len() == 3,
        extent(Direction::Vertical, area) >= 8 ==> r@ == layout_split(
            Direction::Vertical,
            screen_rows(),
            area,
        ),
{
    let rows = [Constraint::Length(3), Constraint::Min(1), Constraint::Length(4)];
    proof {
        assert(rows@ =~= screen_rows());
        reveal_with_fuel(cells_total, 4);
        reveal_with_fuel(min_count, 4);
        assert(screen_rows().drop_last() =~= seq![Constraint::Length(3), Constraint::Min(1)]);
        assert(screen_rows().drop_last().drop_last() =~= seq![Constraint::Length(3)]);
        assert(screen_rows().drop_last().drop_last().drop_last() =~= Seq::<Constraint>::empty());
        assert(cells_total(screen_rows()) == 8);
        assert(min_count(screen_rows()) == 1);
    }
    split_area(Direction::Vertical, &rows, area)
}

/// Where the panes lie on a screen of `area`: the body (between the header
/// and the footer) is split 38:62 into the tree and the previews, and the
/// previews 48:28:24 into the content diff, Git and rsync panes.
pub open spec fn body_areas_spec(area: Rect) -> UiAreas {
    let body = layout_split(Direction::Vertical, screen_rows(), area)[1];
    let columns = layout_split(
        Direction::Horizontal,
        seq![Constraint::Percentage(38), Constraint::Percentage(62)],
        body,
    );
    let previews = layout_split(
        Direction::Vertical,
        seq![Constraint::Percentage(48), Constraint::Percentage(28), Constraint::Percentage(24)],
        columns[1],
    );
    UiAreas { candidates: columns[0], content: previews[0], git: previews[1], rsync: previews[2] }
}

/// Where the panes lie on a screen of `area`, on a screen tall enough for
/// the header, a row of body and the footer.
pub fn body_areas(area: Rect) -> (r: UiAreas)
    ensures
        extent(Direction::Vertical, area) >= 8 ==> r == body_areas_spec(area),
{
    let root = screen_areas(area);
    let columns = [Constraint::Percentage(38), Constraint::Percentage(62)];
    proof {
        assert(columns@ =~= seq![Constraint::Percentage(38), Constraint::Percentage(62)]);
        reveal_with_fuel(percent_total, 3);
        assert(columns@.drop_last() =~= seq![Constraint::Percentage(38)]);
        assert(columns@.drop_last().drop_last() =~= Seq::<Constraint>::empty());
    }
    let body = split_area(Direction::Horizontal, &columns, root[1]);
    let rows = [Constraint::Percentage(48), Constraint::Percentage(28), Constraint::Percentage(24)];
    proof {
        assert(rows@ =~= seq![
            Constraint::Percentage(48),
            Constraint::Percentage(28),
            Constraint::Percentage(24),
        ]);
        reveal_with_fuel(percent_total, 4);
        assert(rows@.drop_last() =~= seq![Constraint::Percentage(48), Constraint::Percentage(28)]);
        assert(rows@.drop_last().drop_last() =~= seq![Constraint::Percentage(48)]);
        assert(rows@.drop_last().drop_last().drop_last() =~= Seq::<Constraint>::empty());
    }
    let previews = split_area(Direction::Vertical, &rows, body[1]);
    UiAreas { candidates: body[0], content: previews[0], git: previews[1], rsync: previews[2] }
}

/// The constraints that put a part of `percent` per cent in the middle,
/// with equal parts on either side.
pub open spec fn centred_parts(percent: u16) -> Seq<Constraint> {
    let side = ((100 - percent) / 2) as u16;
    seq![Constraint::Percentage(side), Constraint::Percentage(percent), Constraint::Percentage(side)]
}

/// The rectangle of `percent_x` by `percent_y` per cent of `area`, centred.
pub open spec fn centered_rect_spec(area: Rect, percent_x: u16, percent_y: u16) -> Rect {
    let middle_row = layout_split(Direction::Vertical, centred_parts(percent_y), area)[1];
    layout_split(Direction::Horizontal, centred_parts(percent_x), middle_row)[1]
}

proof fn lemma_centred_parts_settled(direction: Direction, percent: u16, area: Rect)
    requires
        percent <= 100,
    ensures
        split_settled(direction, centred_parts(percent), area),
{
    let cs = centred_parts(percent);
    reveal_with_fuel(percent_total, 4);
    assert(cs.drop_last().drop_last().drop_last() =~= Seq::<Constraint>::empty());
    assert(percent_total(cs) == 2 * ((100 - percent) / 2) + percent);
}

/// The rectangle of `percent_x` by `percent_y` per cent of `area`, centred.
pub fn centered_rect(area: Rect, percent_x: u16, percent_y: u16) -> (r: Rect)
    requires
        percent_x <= 100,
        percent_y <= 100,
    ensures
        r == centered_rect_spec(area, percent_x, percent_y),
{
    let side_y = (100 - percent_y) / 2;
    let rows = [
        Constraint::Percentage(side_y),
        Constraint::Percentage(percent_y),
        Constraint::Percentage(side_y),
    ];
    proof {
        assert(rows@ =~= centred_parts(percent_y));
        lemma_centred_parts_settled(Direction::Vertical, percent_y, area);
    }
    let vertical = split_area(Direction::Vertical, &rows, area);
    let side_x = (100 - percent_x) / 2;
    let columns = [
        Constraint::Percentage(side_x),
        Constraint::Percentage(percent_x),
        Constraint::Percentage(side_x),
    ];
    proof {
        assert(columns@ =~= centred_parts(percent_x));
        lemma_centred_parts_settled(Direction::Horizontal, percent_x, vertical[1]);
    }
    let horizontal = split_area(Direction::Horizontal, &columns, vertical[1]);
    horizontal[1]
}

/// Whether the cell at `column`, `row` lies in `area` (an area reaching past
/// the last cell counts up to it).
pub fn contains(area: Rect, column: u16, row: u16) -> (b: bool)
    ensures
        b == (area.x <= column && column < min_u16(area.x + area.width) && area.y <= row && row
            < min_u16(area.y + area.height)),
{
    column >= area.x && column < area.x.saturating_add(area.width) && row >= area.y && row
        < area.y.saturating_add(area.height)
}

/// `v` capped at the largest `u16`.
pub open spec fn min_u16(v: int) -> int {
    if v > 65535 {
        65535
    } else {
        v
    }
}

/// The row of the tree pane that a click at `column`, `row` hits, and
/// whether it hits the check box: rows are counted inside the pane's border
/// from `view_offset`, and only rows below `len` count.
pub open spec fn candidate_hit_spec(area: Rect, column: u16, row: u16, len: nat, view_offset: nat) -> Option<
    (int, bool),
> {
    let inner_x = min_u16(area.x + 1);
    let inner_y = min_u16(area.y + 1);
    let bottom = min_u16(area.y + area.height);
    let inner_bottom = if bottom < 1 {
        0
    } else {
        bottom - 1
    };
    if row < inner_y || row >= inner_bottom {
        None
    } else {
        let index = view_offset + (row - inner_y);
        if index >= len {
            None
        } else {
            Some((index, inner_x <= column && column <= min_u16(inner_x + 6)))
        }
    }
}

/// The row of the tree pane that a click hits, and whether it hits the
/// check box.
pub fn candidate_hit(area: Rect, column: u16, row: u16, len: usize, view_offset: usize) -> (r: Option<
    (usize, bool),
>)
    ensures
        match candidate_hit_spec(area, column, row, len as nat, view_offset as nat) {
            Some((i, t)) => r == Some((i as usize, t)),
            None => r is None,
        },
{
    let inner_x = area.x.saturating_add(1);
    let inner_y = area.y.saturating_add(1);
    let inner_bottom = area.y.saturating_add(area.height).saturating_sub(1);
    if row < inner_y || row >= inner_bottom {
        return None;
    }
    let index = view_offset.saturating_add((row - inner_y) as usize);
    if index >= len {
        return None;
    }
    let toggles_selection = column >= inner_x && column <= inner_x.saturating_add(6);
    Some((index, toggles_selection))
}

} // verus!
