use focus_tasks::panel_layout::{
    panel_anchor_move, panel_anchor_x, panel_place_x, panel_placement, window_center,
    PanelPlacement, MIN_PANEL_HEIGHT,
};

#[test]
fn panel_anchor_x_at_right_edge() {
    assert_eq!(panel_anchor_x(100, 1920, 360), 100 + 1920 - 360);
}

#[test]
fn panel_place_x_matches_anchor_for_same_width() {
    assert_eq!(panel_place_x(0, 800, 400), panel_anchor_x(0, 800, 400));
}

#[test]
fn panel_anchor_x_negative_work_area() {
    assert_eq!(panel_anchor_x(-1920, 1920, 360), -360);
}

#[test]
fn panel_anchor_x_wraps_huge_width_like_a_cast() {
    // A width above i32::MAX is reinterpreted as a negative i32.
    assert_eq!(panel_anchor_x(0, 0, u32::MAX), 1);
}

#[test]
fn panel_placement_uses_minimum_height() {
    let p = panel_placement(10, 20, 1000, 150, 300);
    assert_eq!(
        p,
        PanelPlacement {
            x: 710,
            y: 20,
            width: 300,
            height: MIN_PANEL_HEIGHT
        }
    );
    let q = panel_placement(0, 0, 1000, 900, 300);
    assert_eq!(q.height, 900);
    assert_eq!(q.x, 700);
}

#[test]
fn panel_anchor_move_none_when_glued() {
    assert_eq!(panel_anchor_move(0, 0, 1920, 1560, 0, 360), None);
}

#[test]
fn panel_anchor_move_moves_when_off_edge() {
    assert_eq!(panel_anchor_move(0, 40, 1920, 1000, 40, 360), Some((1560, 40)));
    assert_eq!(panel_anchor_move(0, 40, 1920, 1560, 0, 360), Some((1560, 40)));
}

#[test]
fn window_center_halves_size() {
    assert_eq!(window_center(100, 50, 301, 200), (250, 150));
    assert_eq!(window_center(0, 0, u32::MAX, 0), (0, 0));
    assert_eq!(window_center(0, 0, u32::MAX - 2, 0), (-1, 0));
}
