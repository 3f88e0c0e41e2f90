//! Fixed-point view/world transform math.
//!
//! The camera's translation and zoom scale are held in milli-units: an
//! `i64` counts thousandths of a world unit, so a scale of `1.0` is
//! `1000` and the zoom floor of `0.05` is `50`. Every constant the
//! editor needs (`0.05`, `0.005`, `1.0`) is exact in this encoding.

use vstd::prelude::*;
use vstd::arithmetic::div_mod::{lemma_fundamental_div_mod, lemma_fundamental_div_mod_converse};
use crate::map::UVec2;

verus! {

/// Number of milli-units in one unit.
pub const MILLI_ONE: i64 = 1000;

/// Default camera zoom scale (`1.0`).
pub const ZOOM_DEFAULT_MILLI: i64 = 1000;

/// Lowest zoom scale the camera may reach (`0.05`).
pub const ZOOM_FLOOR_MILLI: i64 = 50;

/// Zoom change per point of scroll input is `0.005`, i.e. five
/// milli-units of scale per thousand milli-points of scroll.
pub const ZOOM_STEP_NUMERATOR: i64 = 5;

/// Scaling a milli-quantity down by 1000 rounds toward zero, as the
/// narrowing float conversions being modelled do.
pub open spec fn spec_milli_down(a: int) -> int {
    if a >= 0 {
        a / 1000
    } else {
        -((-a) / 1000)
    }
}

/// Divides a milli-of-milli quantity back down to milli-units,
/// truncating toward zero.
pub fn milli_down(a: i64) -> (r: i64)
    requires
        a > i64::MIN,
    ensures
        r == spec_milli_down(a as int),
{
    if a >= 0 {
        ((a as u64) / 1000) as i64
    } else {
        let m: u64 = (-a) as u64;
        -((m / 1000) as i64)
    }
}

/// The zoom scale after one scroll step:
/// `scale -= scroll * 0.005; scale = max(scale, 0.05)`.
pub open spec fn spec_zoom_after(zoom_milli: int, scroll_y_milli: int) -> int {
    let lowered = zoom_milli - spec_milli_down(scroll_y_milli * ZOOM_STEP_NUMERATOR);
    if lowered >= ZOOM_FLOOR_MILLI {
        lowered
    } else {
        ZOOM_FLOOR_MILLI as int
    }
}

/// The zoom scale after a whole sequence of scroll steps, first step
/// first.
pub open spec fn spec_zoom_fold(zoom_milli: int, scrolls: Seq<int>) -> int
    decreases scrolls.len(),
{
    if scrolls.len() == 0 {
        zoom_milli
    } else {
        spec_zoom_fold(spec_zoom_after(zoom_milli, scrolls.first()), scrolls.drop_first())
    }
}

/// Law: whatever scroll input accumulates — any magnitude, any sign —
/// the zoom scale never sits below the floor once a step has run, and
/// never leaves the floored range it started in.
pub proof fn lemma_zoom_never_below_floor(zoom_milli: int, scrolls: Seq<int>)
    ensures
        scrolls.len() > 0 ==> spec_zoom_fold(zoom_milli, scrolls) >= ZOOM_FLOOR_MILLI,
        zoom_milli >= ZOOM_FLOOR_MILLI ==> spec_zoom_fold(zoom_milli, scrolls)
            >= ZOOM_FLOOR_MILLI,
    decreases scrolls.len(),
{
    if scrolls.len() > 0 {
        lemma_zoom_never_below_floor(spec_zoom_after(zoom_milli, scrolls.first()), scrolls.drop_first());
    }
}

/// One scroll step of the camera zoom. Mirrors the per-frame update
/// `scale -= scroll * 0.005; scale = max(scale, 0.05)`, which runs only
/// while the pointer hovers the editing viewport.
pub fn apply_zoom(zoom_milli: i64, scroll_y_milli: i64, hovered: bool) -> (r: i64)
    requires
        i64::MIN < scroll_y_milli * ZOOM_STEP_NUMERATOR <= i64::MAX,
        i64::MIN <= zoom_milli - spec_milli_down(scroll_y_milli * ZOOM_STEP_NUMERATOR)
            <= i64::MAX,
    ensures
        hovered ==> r == spec_zoom_after(zoom_milli as int, scroll_y_milli as int),
        !hovered ==> r == zoom_milli,
        zoom_milli >= ZOOM_FLOOR_MILLI ==> r >= ZOOM_FLOOR_MILLI,
{
    if hovered {
        let step: i64 = milli_down(scroll_y_milli * ZOOM_STEP_NUMERATOR);
        let lowered: i64 = zoom_milli - step;
        if lowered >= ZOOM_FLOOR_MILLI {
            lowered
        } else {
            ZOOM_FLOOR_MILLI
        }
    } else {
        zoom_milli
    }
}

/// The zoom readout of the top bar: `1 / scale * 100`, rounded to the
/// nearest whole percentage as the display formatting rounds it.
/// Adding half a divisor before the floor division is that rounding,
/// exactly: `(200000 + z) / (2 z) == round(100000 / z)`.
pub fn zoom_percent(zoom_milli: i64) -> (r: u64)
    requires
        zoom_milli > 0,
    ensures
        r == (200_000 + zoom_milli as int) / (2 * zoom_milli as int),
{
    (200_000u64 + zoom_milli as u64) / (2 * zoom_milli as u64)
}

/// A milli-quantity rounded to the nearest whole unit, ties away from
/// zero.
pub open spec fn spec_milli_round(a: int) -> int {
    if a >= 0 {
        (a + 500) / 1000
    } else {
        -((-a + 500) / 1000)
    }
}

/// The view-offset readout of the top bar: whole points, rounded to
/// nearest as the display formatting rounds them.
pub fn milli_to_points(a: i64) -> (r: i64)
    requires
        a > i64::MIN,
    ensures
        r == spec_milli_round(a as int),
{
    if a >= 0 {
        ((a as u64 + 500) / 1000) as i64
    } else {
        let m: u64 = (-a) as u64;
        -(((m + 500) / 1000) as i64)
    }
}

/// What a drag moves the camera by: the drag delta scaled by the UI
/// scale factor, then by the zoom scale, each product truncated back
/// to milli-units.
pub open spec fn spec_pan_offset(drag_milli: int, ui_scale_milli: int, zoom_milli: int) -> int {
    spec_milli_down(spec_milli_down(drag_milli * ui_scale_milli) * zoom_milli)
}

/// A rectangle outlining one cell of the grid preview, in world units.
#[derive(Debug, Clone, Copy, PartialEq, Eq, Structural)]
pub struct GridRect {
    pub origin_x: u64,
    pub origin_y: u64,
    pub size_x: u32,
    pub size_y: u32,
}

/// The cell outline at grid position `(x, y)`: a tile-sized rectangle
/// whose origin is the cell's corner.
pub open spec fn spec_cell_rect(tile_size: UVec2, x: int, y: int) -> GridRect {
    GridRect {
        origin_x: (x * tile_size.x as int) as u64,
        origin_y: (y * tile_size.y as int) as u64,
        size_x: tile_size.x,
        size_y: tile_size.y,
    }
}

/// Whether a cell outline covers the point `(px, py)`.
pub open spec fn spec_rect_covers(r: GridRect, px: int, py: int) -> bool {
    &&& r.origin_x <= px < r.origin_x + r.size_x
    &&& r.origin_y <= py < r.origin_y + r.size_y
}

/// Law: the cell outlines tile the map's extent with no gap and no
/// overlap. Every point of `[0, grid.x * tile.x) x [0, grid.y * tile.y)`
/// lies in the one cell whose column and row the point's coordinates
/// name, and in no other; that cell's outline sits at index
/// `column * grid.y + row` of the generated geometry.
pub proof fn lemma_grid_tiles(grid_size: UVec2, tile_size: UVec2, px: int, py: int)
    requires
        tile_size.x > 0,
        tile_size.y > 0,
        0 <= px < grid_size.x as int * tile_size.x as int,
        0 <= py < grid_size.y as int * tile_size.y as int,
    ensures
        ({
            let x = px / tile_size.x as int;
            let y = py / tile_size.y as int;
            let k = x * grid_size.y as int + y;
            &&& 0 <= x < grid_size.x as int
            &&& 0 <= y < grid_size.y as int
            &&& 0 <= k < grid_size.x as int * grid_size.y as int
            &&& k / grid_size.y as int == x && k % grid_size.y as int == y
            &&& spec_rect_covers(spec_cell_rect(tile_size, x, y), px, py)
            &&& (forall|xj: int, yj: int|
                0 <= xj < grid_size.x as int && 0 <= yj < grid_size.y as int && (xj != x || yj
                    != y) ==> !spec_rect_covers(
                    #[trigger] spec_cell_rect(tile_size, xj, yj),
                    px,
                    py,
                ))
        }),
{
    let gx = grid_size.x as int;
    let gy = grid_size.y as int;
    let tx = tile_size.x as int;
    let ty = tile_size.y as int;
    let x = px / tx;
    let y = py / ty;

    lemma_fundamental_div_mod(px, tx);
    lemma_fundamental_div_mod(py, ty);
    assert(0 <= px % tx < tx) by (nonlinear_arith)
        requires
            tx > 0,
    ;
    assert(0 <= py % ty < ty) by (nonlinear_arith)
        requires
            ty > 0,
    ;
    assert(x * tx <= px < x * tx + tx) by (nonlinear_arith)
        requires
            px == tx * x + (px % tx),
            0 <= px % tx < tx,
    ;
    assert(y * ty <= py < y * ty + ty) by (nonlinear_arith)
        requires
            py == ty * y + (py % ty),
            0 <= py % ty < ty,
    ;
    assert(0 <= x < gx) by (nonlinear_arith)
        requires
            x * tx <= px < gx * tx,
            x * tx + tx > px,
            tx > 0,
            px >= 0,
    ;
    assert(0 <= y < gy) by (nonlinear_arith)
        requires
            y * ty <= py < gy * ty,
            y * ty + ty > py,
            ty > 0,
            py >= 0,
    ;
    let k = x * gy + y;
    assert(0 <= k < gx * gy) by (nonlinear_arith)
        requires
            k == x * gy + y,
            0 <= x < gx,
            0 <= y < gy,
    ;
    lemma_fundamental_div_mod_converse(k, gy, x, y);
    assert(x * tx <= u32::MAX as int * u32::MAX as int) by (nonlinear_arith)
        requires
            0 <= x <= u32::MAX as int,
            0 <= tx <= u32::MAX as int,
    ;
    assert(y * ty <= u32::MAX as int * u32::MAX as int) by (nonlinear_arith)
        requires
            0 <= y <= u32::MAX as int,
            0 <= ty <= u32::MAX as int,
    ;
    assert(spec_rect_covers(spec_cell_rect(tile_size, x, y), px, py));

    assert forall|xj: int, yj: int|
        0 <= xj < gx && 0 <= yj < gy && (xj != x || yj != y) implies !spec_rect_covers(
        #[trigger] spec_cell_rect(tile_size, xj, yj),
        px,
        py,
    ) by {
        if spec_rect_covers(spec_cell_rect(tile_size, xj, yj), px, py) {
            assert(xj * tx <= u32::MAX as int * u32::MAX as int) by (nonlinear_arith)
                requires
                    0 <= xj <= u32::MAX as int,
                    0 <= tx <= u32::MAX as int,
            ;
            assert(yj * ty <= u32::MAX as int * u32::MAX as int) by (nonlinear_arith)
                requires
                    0 <= yj <= u32::MAX as int,
                    0 <= ty <= u32::MAX as int,
            ;
            assert(xj * tx <= px < xj * tx + tx);
            assert(yj * ty <= py < yj * ty + ty);
            lemma_fundamental_div_mod_converse(px, tx, xj, px - xj * tx);
            lemma_fundamental_div_mod_converse(py, ty, yj, py - yj * ty);
            assert(xj == x && yj == y);
        }
    }
}

/// The grid-preview shape of a map: one rectangle per cell, column by
/// column. Purely a function of the two sizes; recomputed only when a
/// map is created.
pub struct Grid {
    pub grid_size: UVec2,
    pub tile_size: UVec2,
}

impl Grid {
    /// Every cell's outline, in a consistent winding: rectangle
    /// `x * grid_size.y + y` is the tile-sized cell at `(x, y)`, so
    /// together they tile the map's extent with no gap and no overlap.
    pub fn add_geometry(&self) -> (r: Vec<GridRect>)
        requires
            self.grid_size.x as int * self.grid_size.y as int <= usize::MAX as int,
        ensures
            r@.len() == self.grid_size.x as int * self.grid_size.y as int,
            forall|k: int|
                0 <= k < r@.len() ==> #[trigger] r@[k] == spec_cell_rect(
                    self.tile_size,
                    k / self.grid_size.y as int,
                    k % self.grid_size.y as int,
                ),
    {
        let gx = self.grid_size.x;
        let gy = self.grid_size.y;
        let mut r: Vec<GridRect> = Vec::new();
        let mut x: u32 = 0;
        while x < gx
            invariant
                gx == self.grid_size.x,
                gy == self.grid_size.y,
                gx as int * gy as int <= usize::MAX as int,
                x <= gx,
                r@.len() == x as int * gy as int,
                forall|k: int|
                    0 <= k < r@.len() ==> #[trigger] r@[k] == spec_cell_rect(
                        self.tile_size,
                        k / gy as int,
                        k % gy as int,
                    ),
            decreases gx - x,
        {
            let mut y: u32 = 0;
            proof {
                assert((x as int + 1) * gy as int == x as int * gy as int + gy as int)
                    by (nonlinear_arith);
                assert((x as int + 1) * gy as int <= gx as int * gy as int) by (nonlinear_arith)
                    requires
                        0 <= x as int + 1 <= gx as int,
                        0 <= gy as int,
                ;
            }
            while y < gy
                invariant
                    gx == self.grid_size.x,
                    gy == self.grid_size.y,
                    gx as int * gy as int <= usize::MAX as int,
                    x < gx,
                    y <= gy,
                    x as int * gy as int + gy as int <= gx as int * gy as int,
                    r@.len() == x as int * gy as int + y as int,
                    forall|k: int|
                        0 <= k < r@.len() ==> #[trigger] r@[k] == spec_cell_rect(
                            self.tile_size,
                            k / gy as int,
                            k % gy as int,
                        ),
                decreases gy - y,
            {
                proof {
                    assert(x as u64 as int * self.tile_size.x as u64 as int <= u64::MAX as int)
                        by (nonlinear_arith)
                        requires
                            0 <= x as int <= u32::MAX as int,
                            0 <= self.tile_size.x as int <= u32::MAX as int,
                    ;
                    assert(y as u64 as int * self.tile_size.y as u64 as int <= u64::MAX as int)
                        by (nonlinear_arith)
                        requires
                            0 <= y as int <= u32::MAX as int,
                            0 <= self.tile_size.y as int <= u32::MAX as int,
                    ;
                    lemma_fundamental_div_mod_converse(
                        x as int * gy as int + y as int,
                        gy as int,
                        x as int,
                        y as int,
                    );
                }
                let rect = GridRect {
                    origin_x: x as u64 * self.tile_size.x as u64,
                    origin_y: y as u64 * self.tile_size.y as u64,
                    size_x: self.tile_size.x,
                    size_y: self.tile_size.y,
                };
                r.push(rect);
                y += 1;
            }
            x += 1;
        }
        r
    }
}

} // verus!
