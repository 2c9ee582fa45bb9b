use rdg::layout::{body_areas, candidate_hit, centered_rect, contains, screen_areas, Rect};

#[test]
fn body_areas_split_the_screen() {
    let screen = Rect { x: 0, y: 0, width: 100, height: 40 };
    let rows = screen_areas(screen);
    assert_eq!(rows[0], Rect { x: 0, y: 0, width: 100, height: 3 });
    assert_eq!(rows[2], Rect { x: 0, y: 36, width: 100, height: 4 });
    let areas = body_areas(screen);
    assert_eq!(areas.candidates, Rect { x: 0, y: 3, width: 38, height: 33 });
    assert_eq!(areas.content.x, 38);
    assert_eq!(areas.content.width, 62);
    assert_eq!(areas.content.y, 3);
    assert!(areas.rsync.y + areas.rsync.height <= 36);
    assert!(areas.git.y > areas.content.y);
}

#[test]
fn centred_rect_lies_inside() {
    let area = Rect { x: 0, y: 0, width: 100, height: 50 };
    let r = centered_rect(area, 72, 70);
    assert_eq!(r.width, 72);
    assert!(r.height >= 34 && r.height <= 36);
    assert_eq!(r.x, 14);
}

#[test]
fn clicks_hit_rows_inside_the_border() {
    let area = Rect { x: 0, y: 3, width: 38, height: 10 };
    assert_eq!(candidate_hit(area, 5, 3, 20, 0), None);
    assert_eq!(candidate_hit(area, 5, 4, 20, 0), Some((0, true)));
    assert_eq!(candidate_hit(area, 10, 6, 20, 4), Some((6, false)));
    assert_eq!(candidate_hit(area, 5, 12, 20, 0), None);
    assert_eq!(candidate_hit(area, 5, 8, 3, 0), None);
}

#[test]
fn contains_checks_both_axes() {
    let area = Rect { x: 2, y: 2, width: 3, height: 3 };
    assert!(contains(area, 2, 2));
    assert!(contains(area, 4, 4));
    assert!(!contains(area, 5, 2));
    assert!(!contains(area, 2, 1));
}

#[test]
fn panes_take_their_share_of_the_body() {
    let areas = body_areas(Rect { x: 0, y: 0, width: 100, height: 40 });
    assert_eq!(areas.candidates, Rect { x: 0, y: 3, width: 38, height: 33 });
    assert_eq!(areas.content, Rect { x: 38, y: 3, width: 62, height: 16 });
    assert_eq!(areas.git, Rect { x: 38, y: 19, width: 62, height: 9 });
    assert_eq!(areas.rsync, Rect { x: 38, y: 28, width: 62, height: 8 });
}

#[test]
fn centred_rect_is_the_middle_part_both_ways() {
    let r = centered_rect(Rect { x: 0, y: 0, width: 100, height: 50 }, 72, 70);
    assert_eq!(r, Rect { x: 14, y: 8, width: 72, height: 35 });
}
