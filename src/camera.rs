use vstd::prelude::*;

verus! {

/// The smallest zoom, in percent of a tile's own pixel size.
pub const MIN_ZOOM: u32 = 25;

/// The largest zoom, in percent of a tile's own pixel size.
pub const MAX_ZOOM: u32 = 400;

/// The zoom a camera starts with: tiles at their own pixel size.
pub const DEFAULT_ZOOM: u32 = 100;

/// How much one zoom step adds or takes away, in percent.
pub const ZOOM_STEP: u32 = 25;

/// The zoom after one step in the direction of `step`'s sign.
pub open spec fn zoom_after(zoom: int, step: int) -> int {
    if step > 0 {
        if zoom + ZOOM_STEP <= MAX_ZOOM {
            zoom + ZOOM_STEP
        } else {
            MAX_ZOOM as int
        }
    } else if step < 0 {
        if zoom - ZOOM_STEP >= MIN_ZOOM {
            zoom - ZOOM_STEP
        } else {
            MIN_ZOOM as int
        }
    } else {
        zoom
    }
}

/// The focus of the view: a tile position and a zoom factor.
///
/// The zoom is a percentage, and always lies in `[MIN_ZOOM, MAX_ZOOM]`.
#[derive(Copy, Clone)]
pub struct Camera {
    x: i32,
    y: i32,
    zoom: u32,
}

impl Camera {
    #[verifier::type_invariant]
    spec fn zoom_in_bounds(self) -> bool {
        MIN_ZOOM <= self.zoom <= MAX_ZOOM
    }

    /// The x tile position in focus.
    pub closed spec fn focus_x(self) -> i32 {
        self.x
    }

    /// The y tile position in focus.
    pub closed spec fn focus_y(self) -> i32 {
        self.y
    }

    /// The zoom, in percent.
    pub closed spec fn zoom_pct(self) -> u32 {
        self.zoom
    }

    /// A camera focused on tile `x`, `y` at the default zoom.
    pub fn new(x: i32, y: i32) -> (r: Camera)
        ensures
            r.focus_x() == x,
            r.focus_y() == y,
            r.zoom_pct() == DEFAULT_ZOOM,
    {
        Camera { x, y, zoom: DEFAULT_ZOOM }
    }

    /// Zooms in by one step, stopping at `MAX_ZOOM`.
    pub fn zoom_in(&mut self)
        ensures
            final(self).focus_x() == old(self).focus_x(),
            final(self).focus_y() == old(self).focus_y(),
            final(self).zoom_pct() == if old(self).zoom_pct() + ZOOM_STEP <= MAX_ZOOM {
                old(self).zoom_pct() + ZOOM_STEP
            } else {
                MAX_ZOOM as int
            },
            MIN_ZOOM <= final(self).zoom_pct() <= MAX_ZOOM,
    {
        proof {
            use_type_invariant(&*self);
        }
        let zoom = if self.zoom <= MAX_ZOOM - ZOOM_STEP {
            self.zoom + ZOOM_STEP
        } else {
            MAX_ZOOM
        };
        *self = Camera { x: self.x, y: self.y, zoom };
    }

    /// Zooms out by one step, stopping at `MIN_ZOOM`.
    pub fn zoom_out(&mut self)
        ensures
            final(self).focus_x() == old(self).focus_x(),
            final(self).focus_y() == old(self).focus_y(),
            final(self).zoom_pct() == if old(self).zoom_pct() - ZOOM_STEP >= MIN_ZOOM {
                old(self).zoom_pct() - ZOOM_STEP
            } else {
                MIN_ZOOM as int
            },
            MIN_ZOOM <= final(self).zoom_pct() <= MAX_ZOOM,
    {
        proof {
            use_type_invariant(&*self);
        }
        let zoom = if self.zoom >= MIN_ZOOM + ZOOM_STEP {
            self.zoom - ZOOM_STEP
        } else {
            MIN_ZOOM
        };
        *self = Camera { x: self.x, y: self.y, zoom };
    }

    /// Moves the focus by `x`, `y` tiles; the new position must fit in `i32`.
    pub fn add_xy(&mut self, x: i32, y: i32)
        requires
            i32::MIN <= old(self).focus_x() + x <= i32::MAX,
            i32::MIN <= old(self).focus_y() + y <= i32::MAX,
        ensures
            final(self).focus_x() == old(self).focus_x() + x,
            final(self).focus_y() == old(self).focus_y() + y,
            final(self).zoom_pct() == old(self).zoom_pct(),
    {
        proof {
            use_type_invariant(&*self);
        }
        *self = Camera { x: self.x + x, y: self.y + y, zoom: self.zoom };
    }

    /// The x tile position in focus.
    pub fn x(&self) -> (r: i32)
        ensures
            r == self.focus_x(),
    {
        self.x
    }

    /// The y tile position in focus.
    pub fn y(&self) -> (r: i32)
        ensures
            r == self.focus_y(),
    {
        self.y
    }

    /// The zoom, in percent; it lies in `[MIN_ZOOM, MAX_ZOOM]`.
    pub fn zoom(&self) -> (r: u32)
        ensures
            r == self.zoom_pct(),
            MIN_ZOOM <= r <= MAX_ZOOM,
    {
        proof {
            use_type_invariant(self);
        }
        self.zoom
    }
}

} // verus!
