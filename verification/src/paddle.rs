//! The player- or AI-controlled paddle: vertical movement under external
//! intent, confined to the field.

use vstd::prelude::*;
use crate::rect::Rect;

verus! {

/// Paddle width in pixels.
pub const WIDTH: u32 = 16;
/// Paddle height in pixels.
pub const HEIGHT: u32 = 160;
/// Paddle travel speed in pixels per second. A tick's displacement is the
/// elapsed seconds times this speed, truncated toward zero, times the
/// current directional offset.
pub const SPEED: u32 = 800;

pub struct Paddle {
    /// Desired travel direction: -1 (up), 0 (hold) or +1 (down).
    pub y_offset: i32,
    pub pos_bounds: Rect,
}

impl Paddle {
    /// The directional offset is one of the three allowed values and the
    /// bounds lie in the machine range.
    pub open spec fn wf(self) -> bool {
        &&& -1 <= self.y_offset <= 1
        &&& self.pos_bounds.in_range()
    }

    /// The paddle lies entirely within the vertical extent of a field of the
    /// given height.
    pub open spec fn contained(self, window_y: int) -> bool {
        0 <= self.pos_bounds.y && self.pos_bounds.bottom() <= window_y
    }

    /// The paddle as it stands after a tick with the given per-frame
    /// displacement magnitude: the displacement is applied only when the
    /// whole paddle would stay strictly inside the field; otherwise the
    /// frame's movement is rejected wholesale.
    pub open spec fn tick_spec(self, scaled_speed: int, window_y: int) -> Paddle {
        let dy = self.y_offset * scaled_speed;
        let y = self.pos_bounds.y;
        if 0 < y + dy && y + dy < window_y - self.pos_bounds.height {
            Paddle {
                pos_bounds: Rect { y: (y + dy) as i32, ..self.pos_bounds },
                ..self
            }
        } else {
            self
        }
    }

    /// The paddle with its intent replaced, as `move_offset` leaves it.
    pub open spec fn with_offset(self, offset: int) -> Paddle {
        Paddle { y_offset: offset as i32, ..self }
    }

    /// The paddle after a whole run of control steps, each an intent
    /// followed by a tick with that step's displacement magnitude.
    pub open spec fn run_ticks(self, steps: Seq<(int, int)>, window_y: int) -> Paddle
        decreases steps.len(),
    {
        if steps.len() == 0 {
            self
        } else {
            self.with_offset(steps[0].0).tick_spec(steps[0].1, window_y).run_ticks(
                steps.drop_first(),
                window_y,
            )
        }
    }

    pub fn new(x: i32, y: i32) -> (p: Paddle)
        ensures
            p.y_offset == 0,
            p.pos_bounds == (Rect { x, y, width: WIDTH, height: HEIGHT }),
    {
        Paddle {
            y_offset: 0,
            pos_bounds: Rect::new(x, y, WIDTH, HEIGHT),
        }
    }

    /// Records the desired travel direction for subsequent ticks.
    pub fn move_offset(&mut self, offset: i32)
        requires
            -1 <= offset <= 1,
        ensures
            final(self).y_offset == offset,
            final(self).pos_bounds == old(self).pos_bounds,
    {
        self.y_offset = offset;
    }

    /// Advances the paddle by one frame. `scaled_speed` is the frame's
    /// elapsed seconds times [`SPEED`], truncated toward zero to pixels.
    ///
    /// A paddle that lies within the field stays within it: the displacement
    /// is rejected wholesale when it would cross either boundary.
    pub fn tick(&mut self, scaled_speed: i32, window_y: i32)
        requires
            old(self).wf(),
            0 <= scaled_speed <= 0x1000_0000,
            0 <= window_y <= 0x4000_0000,
        ensures
            *final(self) == old(self).tick_spec(scaled_speed as int, window_y as int),
            final(self).wf(),
            old(self).contained(window_y as int) ==> final(self).contained(window_y as int),
    {
        proof {
            let o = self.y_offset as int;
            let s = scaled_speed as int;
            assert(-s <= o * s <= s) by (nonlinear_arith)
                requires
                    -1 <= o <= 1,
                    0 <= s,
            ;
        }
        let new_y: i32 = self.y_offset * scaled_speed;
        let pos_y: i32 = self.pos_bounds.y;

        if pos_y + new_y > 0 && new_y + pos_y < window_y - self.pos_bounds.height as i32 {
            self.pos_bounds.offset(0, new_y);
        }
    }
}

/// A paddle that lies within the vertical extent of the field stays within
/// it across any sequence of intent changes and ticks: no step ever applies
/// a displacement that would cross a boundary, even transiently.
pub proof fn lemma_paddle_containment(p: Paddle, steps: Seq<(int, int)>, window_y: int)
    requires
        p.contained(window_y),
        0 <= window_y <= 0x7fff_ffff,
    ensures
        p.run_ticks(steps, window_y).contained(window_y),
    decreases steps.len(),
{
    if steps.len() > 0 {
        lemma_paddle_containment(
            p.with_offset(steps[0].0).tick_spec(steps[0].1, window_y),
            steps.drop_first(),
            window_y,
        );
    }
}

} // verus!
