use vstd::prelude::*;

use crate::camera::{zoom_after, Camera};
use crate::point::Point2;
use crate::rect::Rect;
use crate::size::Size;
use crate::viewport::{
    fits_i64, half_span, scale_tile, scaled_len, screen_pos, screen_to_tile, snap, tile_to_screen,
    visible_tiles,
};

verus! {

/// How far a highlight border stands inside the edges of a tile, in pixels.
pub const HIGHLIGHT_INSET: i64 = 2;

/// The rectangles of one frame: for each tile asked for, its background and
/// foreground, and the player's rectangle; `None` for one whose position does
/// not fit in `i64`.
pub struct Frame {
    pub tiles: Vec<Option<(Rect<i64>, Rect<i64>)>>,
    pub player: Option<Rect<i64>>,
}

/// What drawing the world needs besides the world itself: the window size,
/// the pixel size of a tile, and the camera.
pub struct RenderGame {
    window_size: Size<u32>,
    tile_size: Size<u32>,
    camera: Camera,
}

impl RenderGame {
    #[verifier::type_invariant]
    spec fn tile_not_empty(self) -> bool {
        self.tile_size.width >= 1 && self.tile_size.height >= 1
    }

    /// The current size of the window, in pixels.
    pub closed spec fn window(self) -> Size<u32> {
        self.window_size
    }

    /// The size of a tile at zoom 100, in pixels.
    pub closed spec fn tile(self) -> Size<u32> {
        self.tile_size
    }

    /// The camera used for drawing.
    pub closed spec fn cam(self) -> Camera {
        self.camera
    }

    /// The on-screen size of a tile at the current zoom.
    pub open spec fn scaled_tile(self) -> (int, int) {
        (
            scaled_len(self.tile().width as int, self.cam().zoom_pct() as int),
            scaled_len(self.tile().height as int, self.cam().zoom_pct() as int),
        )
    }

    /// The on-screen centre of world tile `t`.
    pub open spec fn centre_of(self, t: Point2<i32>) -> (int, int) {
        (
            screen_pos(
                self.window().width as int,
                self.scaled_tile().0,
                self.cam().focus_x() as int,
                t.x as int,
            ),
            screen_pos(
                self.window().height as int,
                self.scaled_tile().1,
                self.cam().focus_y() as int,
                t.y as int,
            ),
        )
    }

    /// The background and foreground rectangles of tile `t`: the full tile
    /// and half of it, both centred on the tile's on-screen centre; `None`
    /// where a corner does not fit in `i64`.
    pub open spec fn drawn_at(self, t: Point2<i32>) -> Option<(Rect<i64>, Rect<i64>)> {
        let (cx, cy) = self.centre_of(t);
        let (w, h) = self.scaled_tile();
        if fits_i64(cx) && fits_i64(cy) && fits_i64(cx - w) && fits_i64(cy - h) {
            Some(
                (
                    Rect {
                        x: (cx - w / 2) as i64,
                        y: (cy - h / 2) as i64,
                        width: w as i64,
                        height: h as i64,
                    },
                    Rect {
                        x: (cx - w / 4) as i64,
                        y: (cy - h / 4) as i64,
                        width: (w / 2) as i64,
                        height: (h / 2) as i64,
                    },
                ),
            )
        } else {
            None
        }
    }

    /// Render state for a window of `window_size` pixels and tiles of
    /// `tile_size` pixels, with the camera at the middle of a world of
    /// `world_size` tiles.
    pub fn new(window_size: Size<u32>, tile_size: Size<u32>, world_size: Size<u32>) -> (r:
        RenderGame)
        requires
            tile_size.width >= 1,
            tile_size.height >= 1,
        ensures
            r.window() == window_size,
            r.tile() == tile_size,
            r.cam().focus_x() == world_size.width / 2,
            r.cam().focus_y() == world_size.height / 2,
            r.cam().zoom_pct() == crate::camera::DEFAULT_ZOOM,
    {
        RenderGame {
            window_size: Size::new(window_size.width, window_size.height),
            tile_size: Size::new(tile_size.width, tile_size.height),
            camera: Camera::new((world_size.width / 2) as i32, (world_size.height / 2) as i32),
        }
    }

    /// The window now has `w` by `h` pixels.
    pub fn on_resize(&mut self, w: u32, h: u32)
        ensures
            final(self).window() == (Size { width: w, height: h }),
            final(self).tile() == old(self).tile(),
            final(self).cam() == old(self).cam(),
    {
        proof {
            use_type_invariant(&*self);
        }
        *self = RenderGame {
            window_size: Size::new(w, h),
            tile_size: self.tile_size,
            camera: self.camera,
        };
    }

    /// Zooms in one step for a positive scroll, out one step for a negative
    /// one, and does nothing for none.
    pub fn on_mouse_scroll(&mut self, y: i32)
        ensures
            final(self).window() == old(self).window(),
            final(self).tile() == old(self).tile(),
            final(self).cam().focus_x() == old(self).cam().focus_x(),
            final(self).cam().focus_y() == old(self).cam().focus_y(),
            final(self).cam().zoom_pct() == zoom_after(old(self).cam().zoom_pct() as int, y as int),
    {
        proof {
            use_type_invariant(&*self);
        }
        let mut camera = self.camera;
        if y > 0 {
            camera.zoom_in();
        } else if y < 0 {
            camera.zoom_out();
        }
        *self = RenderGame { window_size: self.window_size, tile_size: self.tile_size, camera };
    }

    /// Moves the camera by `x`, `y` tiles; the new position must fit in `i32`.
    pub fn move_camera(&mut self, x: i32, y: i32)
        requires
            i32::MIN <= old(self).cam().focus_x() + x <= i32::MAX,
            i32::MIN <= old(self).cam().focus_y() + y <= i32::MAX,
        ensures
            final(self).window() == old(self).window(),
            final(self).tile() == old(self).tile(),
            final(self).cam().focus_x() == old(self).cam().focus_x() + x,
            final(self).cam().focus_y() == old(self).cam().focus_y() + y,
            final(self).cam().zoom_pct() == old(self).cam().zoom_pct(),
    {
        proof {
            use_type_invariant(&*self);
        }
        let mut camera = self.camera;
        camera.add_xy(x, y);
        *self = RenderGame { window_size: self.window_size, tile_size: self.tile_size, camera };
    }

    /// The range of world tiles that the window shows, with a margin of up to
    /// one tile on each edge.
    pub fn visible_tiles(&self) -> (r: Rect<i64>)
        ensures
            r.x == self.cam().focus_x() - half_span(
                self.window().width as int,
                self.scaled_tile().0,
            ),
            r.y == self.cam().focus_y() - half_span(
                self.window().height as int,
                self.scaled_tile().1,
            ),
            r.width == 2 * half_span(self.window().width as int, self.scaled_tile().0),
            r.height == 2 * half_span(self.window().height as int, self.scaled_tile().1),
    {
        proof {
            use_type_invariant(self);
        }
        visible_tiles(self.window_size, self.tile_size, &self.camera)
    }

    /// The on-screen size of a tile at the current zoom.
    pub fn tile_pixels(&self) -> (r: Size<i64>)
        ensures
            r.width == self.scaled_tile().0,
            r.height == self.scaled_tile().1,
            r.width >= 1,
            r.height >= 1,
    {
        let scaled = scale_tile(self.tile_size, self.camera.zoom());
        Size { width: scaled.width as i64, height: scaled.height as i64 }
    }

    /// The camera used for drawing.
    pub fn camera(&self) -> (r: Camera)
        ensures
            r == self.cam(),
    {
        self.camera
    }

    /// The on-screen centre of world tile `t`, or `None` where it does not
    /// fit in `i64`.
    pub fn tile_position(&self, t: Point2<i32>) -> (r: Option<Point2<i64>>)
        ensures
            ({
                let sx = screen_pos(
                    self.window().width as int,
                    self.scaled_tile().0,
                    self.cam().focus_x() as int,
                    t.x as int,
                );
                let sy = screen_pos(
                    self.window().height as int,
                    self.scaled_tile().1,
                    self.cam().focus_y() as int,
                    t.y as int,
                );
                &&& r is Some <==> fits_i64(sx) && fits_i64(sy)
                &&& r matches Some(p) ==> p.x == sx && p.y == sy
            }),
    {
        proof {
            use_type_invariant(self);
        }
        tile_to_screen(self.window_size, self.tile_size, &self.camera, t)
    }

    /// The rectangle of `size` centred on `pos`, where the player is drawn.
    pub fn player_rect(&self, pos: Point2<i64>, size: Size<i64>) -> (r: Rect<i64>)
        requires
            0 <= size.width,
            0 <= size.height,
            i64::MIN + size.width <= pos.x,
            i64::MIN + size.height <= pos.y,
        ensures
            r.x == pos.x - size.width / 2,
            r.y == pos.y - size.height / 2,
            r.width == size.width,
            r.height == size.height,
    {
        (pos - size / 2).to_rect(size)
    }

    /// The two rectangles drawn for a tile centred on `pos`: the background,
    /// of the full `size`, and the foreground, of half of it, both centred on
    /// `pos`.
    pub fn tile_rects(&self, pos: Point2<i64>, size: Size<i64>) -> (r: (Rect<i64>, Rect<i64>))
        requires
            0 <= size.width,
            0 <= size.height,
            i64::MIN + size.width <= pos.x,
            i64::MIN + size.height <= pos.y,
        ensures
            r.0.x == pos.x - size.width / 2,
            r.0.y == pos.y - size.height / 2,
            r.0.width == size.width,
            r.0.height == size.height,
            r.1.x == pos.x - size.width / 4,
            r.1.y == pos.y - size.height / 4,
            r.1.width == size.width / 2,
            r.1.height == size.height / 2,
    {
        let back = (pos - size / 2).to_rect(size);
        let front = (pos - size / 4).to_rect(size / 2);
        (back, front)
    }

    fn place(&self, t: Point2<i32>, size: Size<i64>) -> (r: Option<(Rect<i64>, Rect<i64>)>)
        requires
            size.width == self.scaled_tile().0,
            size.height == self.scaled_tile().1,
            size.width >= 1,
            size.height >= 1,
        ensures
            r == self.drawn_at(t),
    {
        match self.tile_position(t) {
            Some(pos) => {
                if pos.x >= i64::MIN + size.width && pos.y >= i64::MIN + size.height {
                    Some(self.tile_rects(pos, size))
                } else {
                    None
                }
            },
            None => None,
        }
    }

    /// Places one frame: the rectangles of each tile of `tiles`, in order, and
    /// of the player standing on tile `player`, who is drawn as a tile's
    /// background.
    pub fn render(&self, tiles: &Vec<Point2<i32>>, player: Point2<i32>) -> (r: Frame)
        ensures
            r.tiles@.len() == tiles@.len(),
            forall|i: int| 0 <= i < tiles@.len() ==> r.tiles@[i] == self.drawn_at(#[trigger] tiles@[i]),
            r.player == (match self.drawn_at(player) {
                Some(rects) => Some(rects.0),
                None => None,
            }),
    {
        let size = self.tile_pixels();
        let mut placed: Vec<Option<(Rect<i64>, Rect<i64>)>> = Vec::new();
        let mut i: usize = 0;
        while i < tiles.len()
            invariant
                i <= tiles@.len(),
                size.width == self.scaled_tile().0,
                size.height == self.scaled_tile().1,
                size.width >= 1,
                size.height >= 1,
                placed@.len() == i,
                forall|j: int| 0 <= j < i ==> placed@[j] == self.drawn_at(#[trigger] tiles@[j]),
            decreases tiles@.len() - i,
        {
            placed.push(self.place(tiles[i], size));
            i = i + 1;
        }
        let player = match self.place(player, size) {
            Some(rects) => Some(rects.0),
            None => None,
        };
        Frame { tiles: placed, player }
    }

    /// The on-screen rectangle of the tile under window pixel `pos`.
    pub fn translate_window_to_tile_xy(&self, pos: Point2<i32>) -> (r: Rect<i64>)
        ensures
            r.width == self.scaled_tile().0,
            r.height == self.scaled_tile().1,
            r.x == snap(self.window().width as int, r.width as int, pos.x as int),
            r.y == snap(self.window().height as int, r.height as int, pos.y as int),
            r.x <= pos.x < r.x + r.width,
            r.y <= pos.y < r.y + r.height,
    {
        proof {
            use_type_invariant(self);
        }
        screen_to_tile(self.window_size, self.tile_size, &self.camera, pos)
    }

    /// The tile under window pixel `pos`, shrunk by `HIGHLIGHT_INSET` on each
    /// side, for a border drawn inside the tile's edges.
    pub fn translate_window_to_tile_xy_inner(&self, pos: Point2<i32>) -> (r: Rect<i64>)
        ensures
            r.x == snap(self.window().width as int, self.scaled_tile().0, pos.x as int)
                + HIGHLIGHT_INSET,
            r.y == snap(self.window().height as int, self.scaled_tile().1, pos.y as int)
                + HIGHLIGHT_INSET,
            r.width == self.scaled_tile().0 - 2 * HIGHLIGHT_INSET,
            r.height == self.scaled_tile().1 - 2 * HIGHLIGHT_INSET,
    {
        let rect = self.translate_window_to_tile_xy(pos);
        (rect + Point2::new(HIGHLIGHT_INSET, HIGHLIGHT_INSET)) - Size::new(
            2 * HIGHLIGHT_INSET,
            2 * HIGHLIGHT_INSET,
        )
    }
}

} // verus!
