//! Placement of the panel window at the right edge of a monitor's work area.

use vstd::prelude::*;

verus! {

/// Smallest height given to the panel when it is placed.
pub const MIN_PANEL_HEIGHT: u32 = 200;

/// The value a `u32` takes when reinterpreted as an `i32` (two's complement).
pub open spec fn as_signed(w: u32) -> int {
    if w <= i32::MAX {
        w as int
    } else {
        w - 0x1_0000_0000
    }
}

/// Integer division by two rounding toward zero, as signed division does.
pub open spec fn half_toward_zero(v: int) -> int {
    if v >= 0 {
        v / 2
    } else {
        -((-v) / 2)
    }
}

/// Right-edge X of a panel `outer_width` wide inside a work area.
pub open spec fn anchor_x(work_area_x: i32, work_area_width: u32, outer_width: u32) -> int {
    work_area_x + as_signed(work_area_width) - as_signed(outer_width)
}

/// Whether the right-edge X of a panel fits in an `i32`, intermediate sum included.
pub open spec fn anchor_fits(work_area_x: i32, work_area_width: u32, outer_width: u32) -> bool {
    &&& i32::MIN <= work_area_x + as_signed(work_area_width) <= i32::MAX
    &&& i32::MIN <= anchor_x(work_area_x, work_area_width, outer_width) <= i32::MAX
}

/// Reinterprets a `u32` as an `i32`.
fn to_signed(w: u32) -> (r: i32)
    ensures
        r == as_signed(w),
{
    if w <= 0x7FFF_FFFF {
        w as i32
    } else {
        let low = w - 0x8000_0000;
        (low as i32) + i32::MIN
    }
}

/// Right-edge X for a panel of `outer_width` inside a monitor work area.
pub fn panel_anchor_x(work_area_x: i32, work_area_width: u32, outer_width: u32) -> (x: i32)
    requires
        anchor_fits(work_area_x, work_area_width, outer_width),
    ensures
        x == anchor_x(work_area_x, work_area_width, outer_width),
        x + as_signed(outer_width) == work_area_x + as_signed(work_area_width),
{
    work_area_x + to_signed(work_area_width) - to_signed(outer_width)
}

/// Initial place X when opening the panel with a given width.
pub fn panel_place_x(work_area_x: i32, work_area_width: u32, panel_width: u32) -> (x: i32)
    requires
        anchor_fits(work_area_x, work_area_width, panel_width),
    ensures
        x == anchor_x(work_area_x, work_area_width, panel_width),
{
    panel_anchor_x(work_area_x, work_area_width, panel_width)
}

/// Where and how large the panel is made when it is shown.
#[derive(Debug, Clone, Copy, PartialEq, Eq, Structural)]
pub struct PanelPlacement {
    pub x: i32,
    pub y: i32,
    pub width: u32,
    pub height: u32,
}

/// The placement of a panel `panel_width` wide in a work area: glued to the
/// right edge and the top, as tall as the work area but at least
/// `MIN_PANEL_HEIGHT`.
pub fn panel_placement(
    work_area_x: i32,
    work_area_y: i32,
    work_area_width: u32,
    work_area_height: u32,
    panel_width: u32,
) -> (p: PanelPlacement)
    requires
        anchor_fits(work_area_x, work_area_width, panel_width),
    ensures
        p.x == anchor_x(work_area_x, work_area_width, panel_width),
        p.y == work_area_y,
        p.width == panel_width,
        p.height == (if work_area_height >= MIN_PANEL_HEIGHT {
            work_area_height
        } else {
            MIN_PANEL_HEIGHT
        }),
{
    let x = panel_place_x(work_area_x, work_area_width, panel_width);
    let height = if work_area_height >= MIN_PANEL_HEIGHT {
        work_area_height
    } else {
        MIN_PANEL_HEIGHT
    };
    PanelPlacement { x, y: work_area_y, width: panel_width, height }
}

/// Whether a panel at (`pos_x`, `pos_y`) already has its right edge on the work
/// area's right edge and its top on the work area's top.
pub open spec fn is_anchored(
    work_area_x: i32,
    work_area_y: i32,
    work_area_width: u32,
    pos_x: i32,
    pos_y: i32,
    outer_width: u32,
) -> bool {
    pos_x + as_signed(outer_width) == work_area_x + as_signed(work_area_width) && pos_y
        == work_area_y
}

/// Whether the sums compared when re-anchoring fit in an `i32`.
pub open spec fn anchor_move_fits(
    work_area_x: i32,
    work_area_width: u32,
    pos_x: i32,
    outer_width: u32,
) -> bool {
    &&& anchor_fits(work_area_x, work_area_width, outer_width)
    &&& i32::MIN <= pos_x + as_signed(outer_width) <= i32::MAX
}

/// The position the panel must move to so that it stays glued to the right
/// edge without changing its size; `None` when it is already there.
pub fn panel_anchor_move(
    work_area_x: i32,
    work_area_y: i32,
    work_area_width: u32,
    pos_x: i32,
    pos_y: i32,
    outer_width: u32,
) -> (m: Option<(i32, i32)>)
    requires
        anchor_move_fits(work_area_x, work_area_width, pos_x, outer_width),
    ensures
        m is None <==> is_anchored(
            work_area_x,
            work_area_y,
            work_area_width,
            pos_x,
            pos_y,
            outer_width,
        ),
        m matches Some((x, y)) ==> x == anchor_x(work_area_x, work_area_width, outer_width) && y
            == work_area_y,
        m is None ==> pos_x + as_signed(outer_width) == work_area_x + as_signed(work_area_width)
            && pos_y == work_area_y,
        pos_x + as_signed(outer_width) != work_area_x + as_signed(work_area_width) ==> m == Some(
            (anchor_x(work_area_x, work_area_width, outer_width) as i32, work_area_y),
        ),
        pos_y != work_area_y ==> m == Some(
            (anchor_x(work_area_x, work_area_width, outer_width) as i32, work_area_y),
        ),
        m is Some ==> m == Some(
            (anchor_x(work_area_x, work_area_width, outer_width) as i32, work_area_y),
        ),
{
    let target_right = work_area_x + to_signed(work_area_width);
    let current_right = pos_x + to_signed(outer_width);
    let x = panel_anchor_x(work_area_x, work_area_width, outer_width);
    let y = work_area_y;
    if current_right == target_right && pos_y == y {
        None
    } else {
        Some((x, y))
    }
}

/// A panel counts as glued exactly when its right edge lies on the work area's
/// right edge and its top on the work area's top: one pixel too far right,
/// too far left, or off the top is not glued.
pub proof fn lemma_anchored_exactly_at_edge(
    work_area_x: i32,
    work_area_y: i32,
    work_area_width: u32,
    pos_x: i32,
    pos_y: i32,
    outer_width: u32,
)
    ensures
        is_anchored(work_area_x, work_area_y, work_area_width, pos_x, pos_y, outer_width) ==> (
        pos_x + as_signed(outer_width) == work_area_x + as_signed(work_area_width) && pos_y
            == work_area_y),
        pos_x + as_signed(outer_width) > work_area_x + as_signed(work_area_width) ==> !is_anchored(
            work_area_x,
            work_area_y,
            work_area_width,
            pos_x,
            pos_y,
            outer_width,
        ),
        pos_x + as_signed(outer_width) < work_area_x + as_signed(work_area_width) ==> !is_anchored(
            work_area_x,
            work_area_y,
            work_area_width,
            pos_x,
            pos_y,
            outer_width,
        ),
        pos_y != work_area_y ==> !is_anchored(
            work_area_x,
            work_area_y,
            work_area_width,
            pos_x,
            pos_y,
            outer_width,
        ),
{
}

/// Once moved where `panel_anchor_move` says, the panel needs no further move.
pub proof fn lemma_anchor_move_settles(
    work_area_x: i32,
    work_area_y: i32,
    work_area_width: u32,
    outer_width: u32,
)
    requires
        anchor_fits(work_area_x, work_area_width, outer_width),
    ensures
        is_anchored(
            work_area_x,
            work_area_y,
            work_area_width,
            anchor_x(work_area_x, work_area_width, outer_width) as i32,
            work_area_y,
            outer_width,
        ),
{
}

/// The centre of a window, computed as integer halves of its size.
pub fn window_center(pos_x: i32, pos_y: i32, width: u32, height: u32) -> (c: (i32, i32))
    requires
        i32::MIN <= pos_x + half_toward_zero(as_signed(width)) <= i32::MAX,
        i32::MIN <= pos_y + half_toward_zero(as_signed(height)) <= i32::MAX,
    ensures
        c.0 == pos_x + half_toward_zero(as_signed(width)),
        c.1 == pos_y + half_toward_zero(as_signed(height)),
{
    (pos_x + half_signed(width), pos_y + half_signed(height))
}

/// Half of a `u32` reinterpreted as an `i32`, rounded toward zero.
fn half_signed(w: u32) -> (r: i32)
    ensures
        r == half_toward_zero(as_signed(w)),
{
    if w <= 0x7FFF_FFFF {
        (w / 2) as i32
    } else {
        let magnitude: u64 = 0x1_0000_0000u64 - (w as u64);
        let half = (magnitude / 2) as i32;
        -half
    }
}

} // verus!
