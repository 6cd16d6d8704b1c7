use vstd::arithmetic::div_mod::{
    lemma_fundamental_div_mod, lemma_fundamental_div_mod_converse, lemma_mod_pos_bound,
};
use vstd::prelude::*;

use crate::camera::{Camera, MAX_ZOOM};
use crate::num::max_int;
use crate::point::Point2;
use crate::rect::Rect;
use crate::size::Size;

verus! {

/// The on-screen length of a tile side of `len` pixels at `zoom` percent:
/// rounded down to whole pixels, and never less than one pixel.
pub open spec fn scaled_len(len: int, zoom: int) -> int {
    max_int(1, len * zoom / 100)
}

/// `a / b` rounded up, for a positive `b`.
pub open spec fn ceil_div(a: int, b: int) -> int {
    (a + b - 1) / b
}

/// How many tiles of `tile` pixels reach from the middle of a window side of
/// `window` pixels to its edge, rounded up.
pub open spec fn half_span(window: int, tile: int) -> int {
    ceil_div(window, 2 * tile)
}

/// The window pixel at the centre of tile `t`, along one axis, when tile
/// `focus` is at the middle of a window side of `window` pixels.
pub open spec fn screen_pos(window: int, tile: int, focus: int, t: int) -> int {
    window / 2 + (t - focus) * tile
}

/// The window pixel where the tile in focus begins, along one axis.
pub open spec fn grid_edge(window: int, tile: int) -> int {
    window / 2 - tile / 2
}

/// Where the tile under window pixel `p` begins, along one axis.
pub open spec fn snap(window: int, tile: int, p: int) -> int {
    grid_edge(window, tile) + ((p - grid_edge(window, tile)) / tile) * tile
}

/// The on-screen size of a tile of `tile` pixels at `zoom` percent.
pub fn scale_tile(tile: Size<u32>, zoom: u32) -> (r: Size<u64>)
    requires
        zoom <= MAX_ZOOM,
    ensures
        r.width == scaled_len(tile.width as int, zoom as int),
        r.height == scaled_len(tile.height as int, zoom as int),
        r.width <= u32::MAX as int * MAX_ZOOM as int,
        r.height <= u32::MAX as int * MAX_ZOOM as int,
{
    Size { width: scale_len(tile.width, zoom), height: scale_len(tile.height, zoom) }
}

fn scale_len(len: u32, zoom: u32) -> (r: u64)
    requires
        zoom <= MAX_ZOOM,
    ensures
        r == scaled_len(len as int, zoom as int),
        r <= u32::MAX as int * MAX_ZOOM as int,
{
    assert((len as int) * (zoom as int) <= u32::MAX as int * MAX_ZOOM as int) by (nonlinear_arith)
        requires
            len <= u32::MAX,
            zoom <= MAX_ZOOM,
    ;
    let scaled = len as u64 * zoom as u64 / 100;
    if scaled == 0 {
        1
    } else {
        scaled
    }
}

/// `a / b` rounded down, for a positive `b`.
fn floor_div(a: i128, b: i128) -> (q: i128)
    requires
        b > 0,
        -0x1_0000_0000_0000_0000 <= a <= 0x1_0000_0000_0000_0000,
        b <= 0x1_0000_0000_0000_0000,
    ensures
        q == a / b,
{
    if a >= 0 {
        a / b
    } else {
        let n = -a + b - 1;
        let c = n / b;
        proof {
            let (ai, bi, ni) = (a as int, b as int, n as int);
            lemma_fundamental_div_mod(ni, bi);
            lemma_mod_pos_bound(ni, bi);
            assert(ai == (-c) * bi + (bi - 1 - ni % bi)) by (nonlinear_arith)
                requires
                    ni == bi * (c as int) + ni % bi,
                    ni == -ai + bi - 1,
            ;
            lemma_fundamental_div_mod_converse(ai, bi, -c, bi - 1 - ni % bi);
        }
        -c
    }
}

/// The first tile and the number of tiles that a window side shows, along
/// one axis.
fn visible_axis(window: u32, tile: u64, focus: i32) -> (r: (i64, i64))
    requires
        1 <= tile <= u32::MAX as int * MAX_ZOOM as int,
    ensures
        r.0 == focus - half_span(window as int, tile as int),
        r.1 == 2 * half_span(window as int, tile as int),
{
    let span = 2 * tile;
    let half = (window as u64 + span - 1) / span;
    assert(half <= window as int + 1) by (nonlinear_arith)
        requires
            half as int == (window as int + span as int - 1) / (span as int),
            span >= 2,
    ;
    (focus as i64 - half as i64, 2 * half as i64)
}

/// The range of world tiles that a window of `window` pixels shows, for tiles
/// of `tile` pixels seen through `camera`: from the tile at the top left edge,
/// rounded outward, to the one at the bottom right edge, rounded outward.
pub fn visible_tiles(window: Size<u32>, tile: Size<u32>, camera: &Camera) -> (r: Rect<i64>)
    requires
        tile.width >= 1,
        tile.height >= 1,
    ensures
        r.x == camera.focus_x() - half_span(
            window.width as int,
            scaled_len(tile.width as int, camera.zoom_pct() as int),
        ),
        r.y == camera.focus_y() - half_span(
            window.height as int,
            scaled_len(tile.height as int, camera.zoom_pct() as int),
        ),
        r.width == 2 * half_span(
            window.width as int,
            scaled_len(tile.width as int, camera.zoom_pct() as int),
        ),
        r.height == 2 * half_span(
            window.height as int,
            scaled_len(tile.height as int, camera.zoom_pct() as int),
        ),
{
    let scaled = scale_tile(tile, camera.zoom());
    let (x, width) = visible_axis(window.width, scaled.width, camera.x());
    let (y, height) = visible_axis(window.height, scaled.height, camera.y());
    Rect { x, y, width, height }
}

/// The visible range holds the tile in focus, and is at least as long as the
/// number of whole or partial tiles that fit along the window side.
pub proof fn lemma_visible_covers(window: int, tile: int, focus: int)
    requires
        window >= 1,
        tile >= 1,
    ensures
        focus - half_span(window, tile) <= focus < focus - half_span(window, tile) + 2 * half_span(
            window,
            tile,
        ),
        2 * half_span(window, tile) >= ceil_div(window, tile),
{
    let h = half_span(window, tile);
    let s = 2 * tile;
    lemma_fundamental_div_mod(window + s - 1, s);
    let m = (window + s - 1) % s;
    assert(window + s - 1 == s * h + m);
    assert(0 <= m < s);
    assert(h >= 1) by (nonlinear_arith)
        requires
            window + s - 1 == s * h + m,
            m < s,
            s >= 2,
            window >= 1,
    ;
    assert(2 * h * tile >= window) by (nonlinear_arith)
        requires
            window + s - 1 == s * h + m,
            m < s,
            s == 2 * tile,
    ;
    let c = ceil_div(window, tile);
    lemma_fundamental_div_mod(window + tile - 1, tile);
    let k = (window + tile - 1) % tile;
    assert(c <= 2 * h) by (nonlinear_arith)
        requires
            window + tile - 1 == tile * c + k,
            0 <= k,
            tile >= 1,
            2 * h * tile >= window,
    ;
}

/// Whether `v` fits in an `i64`.
pub open spec fn fits_i64(v: int) -> bool {
    i64::MIN <= v <= i64::MAX
}

/// The window pixel at the centre of tile `t`, along one axis, or `None`
/// where it does not fit in `i64`.
fn screen_axis(window: u32, tile: u64, focus: i32, t: i32) -> (r: Option<i64>)
    requires
        1 <= tile <= u32::MAX as int * MAX_ZOOM as int,
    ensures
        r == (if fits_i64(screen_pos(window as int, tile as int, focus as int, t as int)) {
            Some(screen_pos(window as int, tile as int, focus as int, t as int) as i64)
        } else {
            None
        }),
{
    let offset = t as i128 - focus as i128;
    assert(-0x2_0000_0000 * (u32::MAX as int * MAX_ZOOM as int) <= offset * (tile as int)
        <= 0x2_0000_0000 * (u32::MAX as int * MAX_ZOOM as int)) by (nonlinear_arith)
        requires
            -0x2_0000_0000 <= offset <= 0x2_0000_0000,
            1 <= tile <= u32::MAX as int * MAX_ZOOM as int,
    ;
    let pos = (window / 2) as i128 + offset * tile as i128;
    if i64::MIN as i128 <= pos && pos <= i64::MAX as i128 {
        Some(pos as i64)
    } else {
        None
    }
}

/// The on-screen position of the centre of world tile `t`, for a window of
/// `window` pixels and tiles of `tile` pixels seen through `camera`, or `None`
/// where it does not fit in `i64`.
pub fn tile_to_screen(window: Size<u32>, tile: Size<u32>, camera: &Camera, t: Point2<i32>) -> (r:
    Option<Point2<i64>>)
    requires
        tile.width >= 1,
        tile.height >= 1,
    ensures
        ({
            let sx = screen_pos(
                window.width as int,
                scaled_len(tile.width as int, camera.zoom_pct() as int),
                camera.focus_x() as int,
                t.x as int,
            );
            let sy = screen_pos(
                window.height as int,
                scaled_len(tile.height as int, camera.zoom_pct() as int),
                camera.focus_y() as int,
                t.y as int,
            );
            &&& r is Some <==> fits_i64(sx) && fits_i64(sy)
            &&& r matches Some(p) ==> p.x == sx && p.y == sy
        }),
{
    let scaled = scale_tile(tile, camera.zoom());
    match (
        screen_axis(window.width, scaled.width, camera.x(), t.x),
        screen_axis(window.height, scaled.height, camera.y(), t.y),
    ) {
        (Some(x), Some(y)) => Some(Point2 { x, y }),
        _ => None,
    }
}

/// Where the tile under window pixel `p` begins, along one axis.
fn snap_axis(window: u32, tile: u64, p: i32) -> (r: i64)
    requires
        1 <= tile <= u32::MAX as int * MAX_ZOOM as int,
    ensures
        r == snap(window as int, tile as int, p as int),
        r <= p < r + tile,
{
    let edge = (window / 2) as i128 - (tile / 2) as i128;
    let d = p as i128 - edge;
    let q = floor_div(d, tile as i128);
    proof {
        let (di, ti) = (d as int, tile as int);
        lemma_fundamental_div_mod(di, ti);
        assert(di - ti < (q as int) * ti <= di) by (nonlinear_arith)
            requires
                di == ti * (q as int) + di % ti,
                0 <= di % ti < ti,
        ;
    }
    (edge + q * tile as i128) as i64
}

/// The on-screen rectangle of the tile under window pixel `pos`, for a window
/// of `window` pixels and tiles of `tile` pixels seen through `camera`.
pub fn screen_to_tile(window: Size<u32>, tile: Size<u32>, camera: &Camera, pos: Point2<i32>) -> (r:
    Rect<i64>)
    requires
        tile.width >= 1,
        tile.height >= 1,
    ensures
        r.width == scaled_len(tile.width as int, camera.zoom_pct() as int),
        r.height == scaled_len(tile.height as int, camera.zoom_pct() as int),
        r.x == snap(window.width as int, r.width as int, pos.x as int),
        r.y == snap(window.height as int, r.height as int, pos.y as int),
        r.x <= pos.x < r.x + r.width,
        r.y <= pos.y < r.y + r.height,
{
    let scaled = scale_tile(tile, camera.zoom());
    Rect {
        x: snap_axis(window.width, scaled.width, pos.x),
        y: snap_axis(window.height, scaled.height, pos.y),
        width: scaled.width as i64,
        height: scaled.height as i64,
    }
}

/// Mapping a tile to the window and back gives that tile's own on-screen
/// cell, which begins at the tile's on-screen origin and so holds it.
pub proof fn lemma_screen_round_trip(window: int, tile: int, focus: int, t: int)
    requires
        window >= 0,
        tile >= 1,
    ensures
        snap(window, tile, screen_pos(window, tile, focus, t)) == screen_pos(window, tile, focus, t)
            - tile / 2,
        snap(window, tile, screen_pos(window, tile, focus, t)) <= screen_pos(window, tile, focus, t)
            - tile / 2 < snap(window, tile, screen_pos(window, tile, focus, t)) + tile,
{
    let p = screen_pos(window, tile, focus, t);
    let d = p - grid_edge(window, tile);
    assert(d == (t - focus) * tile + tile / 2);
    lemma_fundamental_div_mod_converse(d, tile, t - focus, tile / 2);
}

} // verus!
