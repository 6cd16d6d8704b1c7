use vstd::prelude::*;

use crate::camera::zoom_after;
use crate::render_game::RenderGame;

verus! {

/// An arrow key, which pans the camera by one tile.
#[derive(Debug, Copy, Clone, PartialEq, Eq, Structural)]
pub enum Direction {
    Left,
    Right,
    Up,
    Down,
}

/// What the window reports, reduced to what drawing the world reacts to.
#[derive(Debug, Copy, Clone, PartialEq, Eq, Structural)]
pub enum InputEvent {
    /// The window is closing.
    Quit,
    /// The window now has this many pixels.
    Resized { width: u32, height: u32 },
    /// An arrow key went down.
    Key(Direction),
    /// The wheel turned by `y`; `flipped` where the system inverts the axis.
    Wheel { y: i32, flipped: bool },
    /// Anything else.
    Other,
}

/// Whether to keep going after an event.
#[derive(Debug, Copy, Clone, PartialEq, Eq, Structural)]
pub enum Flow {
    Continue,
    Stop,
}

/// The pan, in tiles along x and y, that an arrow key asks for.
pub open spec fn pan_of(d: Direction) -> (int, int) {
    match d {
        Direction::Left => (-1, 0),
        Direction::Right => (1, 0),
        Direction::Up => (0, -1),
        Direction::Down => (0, 1),
    }
}

impl RenderGame {
    /// Applies one event: a quit stops; a resize sets the window size; an
    /// arrow key pans by one tile; the wheel zooms one step, the other way
    /// round where the axis is flipped; anything else changes nothing.
    pub fn handle_event(&mut self, event: InputEvent) -> (r: Flow)
        requires
            event matches InputEvent::Key(d) ==> {
                &&& i32::MIN <= old(self).cam().focus_x() + pan_of(d).0 <= i32::MAX
                &&& i32::MIN <= old(self).cam().focus_y() + pan_of(d).1 <= i32::MAX
            },
        ensures
            r == (if event is Quit {
                Flow::Stop
            } else {
                Flow::Continue
            }),
            final(self).tile() == old(self).tile(),
            final(self).window() == (match event {
                InputEvent::Resized { width, height } => crate::size::Size { width, height },
                _ => old(self).window(),
            }),
            final(self).cam().focus_x() == old(self).cam().focus_x() + (match event {
                InputEvent::Key(d) => pan_of(d).0,
                _ => 0,
            }),
            final(self).cam().focus_y() == old(self).cam().focus_y() + (match event {
                InputEvent::Key(d) => pan_of(d).1,
                _ => 0,
            }),
            final(self).cam().zoom_pct() == (match event {
                InputEvent::Wheel { y, flipped } => zoom_after(
                    old(self).cam().zoom_pct() as int,
                    if flipped {
                        -y
                    } else {
                        y as int
                    },
                ),
                _ => old(self).cam().zoom_pct() as int,
            }),
    {
        match event {
            InputEvent::Quit => Flow::Stop,
            InputEvent::Resized { width, height } => {
                self.on_resize(width, height);
                Flow::Continue
            },
            InputEvent::Key(d) => {
                match d {
                    Direction::Left => self.move_camera(-1, 0),
                    Direction::Right => self.move_camera(1, 0),
                    Direction::Up => self.move_camera(0, -1),
                    Direction::Down => self.move_camera(0, 1),
                }
                Flow::Continue
            },
            InputEvent::Wheel { y, flipped } => {
                let step: i32 = if !flipped {
                    y
                } else if y > 0 {
                    -1
                } else if y < 0 {
                    1
                } else {
                    0
                };
                self.on_mouse_scroll(step);
                Flow::Continue
            },
            InputEvent::Other => Flow::Continue,
        }
    }
}

} // verus!
