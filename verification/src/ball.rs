//! The ball: position integration from a fixed diagonal direction, wall
//! bounces, scoring detection, and collision resolution against a paddle.

use vstd::prelude::*;
use crate::paddle::Paddle;
use crate::rect::{Point, Rect};

verus! {

/// Ball side length in pixels.
pub const SIZE: u32 = 16;
/// Ball travel speed in pixels per second. A tick's displacement on each
/// axis is the elapsed seconds times this speed, truncated toward zero,
/// times that axis's directional offset.
pub const SPEED: u32 = 500;

/// Which side, if any, scored on a tick.
#[derive(Clone, Copy, PartialEq, Eq, Structural, Debug)]
pub enum Scorer {
    Noone,
    Ai,
    Player,
}

pub struct Ball {
    /// Creation point; the ball returns here after a score.
    pub origin: Point,
    /// Sign of travel on each axis: -1 or +1 once launched, 0 before.
    pub pos_offset: Point,
    pub pos_bounds: Rect,
}

impl Ball {
    /// Each directional offset is one of the three small values.
    pub open spec fn offsets_valid(self) -> bool {
        &&& -1 <= self.pos_offset.x <= 1
        &&& -1 <= self.pos_offset.y <= 1
    }

    pub open spec fn wf(self) -> bool {
        &&& self.offsets_valid()
        &&& self.pos_bounds.in_range()
        &&& -0x4000_0000 <= self.origin.x <= 0x4000_0000
        &&& -0x4000_0000 <= self.origin.y <= 0x4000_0000
    }

    /// The frame's raw horizontal displacement.
    pub open spec fn raw_dx(self, scaled_speed: int) -> int {
        self.pos_offset.x * scaled_speed
    }

    /// The frame's raw vertical displacement, before any bounce correction.
    pub open spec fn raw_dy(self, scaled_speed: int) -> int {
        self.pos_offset.y * scaled_speed
    }

    /// The raw vertical displacement would carry the ball to or past the top
    /// or bottom wall, so the frame bounces: the displacement is negated and
    /// the stored vertical direction flips.
    pub open spec fn bounces(self, scaled_speed: int, window_h: int) -> bool {
        ||| self.pos_bounds.y + self.raw_dy(scaled_speed) <= 0
        ||| self.pos_bounds.y + self.raw_dy(scaled_speed) >= window_h - self.pos_bounds.height
    }

    /// The raw horizontal displacement would carry the ball to or past the
    /// left edge, where the second player's side scores.
    pub open spec fn crosses_left(self, scaled_speed: int) -> bool {
        self.pos_bounds.x + self.raw_dx(scaled_speed) <= 0
    }

    /// The raw horizontal displacement would carry the ball to or past the
    /// right edge, where the player's side scores.
    pub open spec fn crosses_right(self, scaled_speed: int, window_w: int) -> bool {
        self.pos_bounds.x + self.raw_dx(scaled_speed) >= window_w - self.pos_bounds.width
    }

    /// Some side scores this frame. The check uses the pre-tick horizontal
    /// position and the raw displacement, independent of a vertical bounce
    /// in the same frame.
    pub open spec fn scores(self, scaled_speed: int, window_w: int) -> bool {
        self.crosses_left(scaled_speed) || self.crosses_right(scaled_speed, window_w)
    }

    /// Which side the tick reports as scorer.
    pub open spec fn tick_score(self, scaled_speed: int, window_w: int) -> Scorer {
        if self.crosses_left(scaled_speed) {
            Scorer::Ai
        } else if self.crosses_right(scaled_speed, window_w) {
            Scorer::Player
        } else {
            Scorer::Noone
        }
    }

    /// The ball as it stands after a tick: the vertical bounce is resolved
    /// first (negated displacement, flipped stored direction), the corrected
    /// displacement is applied, and then scoring is evaluated against the
    /// pre-tick horizontal position; a score flips both stored directions
    /// and returns the bounds to the origin.
    pub open spec fn tick_spec(self, scaled_speed: int, window_w: int, window_h: int) -> Ball {
        let bounce = self.bounces(scaled_speed, window_h);
        let dy = if bounce { -self.raw_dy(scaled_speed) } else { self.raw_dy(scaled_speed) };
        let oy = if bounce { -self.pos_offset.y } else { self.pos_offset.y as int };
        if self.scores(scaled_speed, window_w) {
            Ball {
                pos_offset: Point { x: (-self.pos_offset.x) as i32, y: (-oy) as i32 },
                pos_bounds: Rect { x: self.origin.x, y: self.origin.y, ..self.pos_bounds },
                ..self
            }
        } else {
            Ball {
                pos_offset: Point { x: self.pos_offset.x, y: oy as i32 },
                pos_bounds: Rect {
                    x: (self.pos_bounds.x + self.raw_dx(scaled_speed)) as i32,
                    y: (self.pos_bounds.y + dy) as i32,
                    ..self.pos_bounds
                },
                ..self
            }
        }
    }

    /// The intersection of ball and paddle starts within 8 pixels of the
    /// paddle's top or bottom edge, where contact also flips the vertical
    /// direction.
    pub open spec fn hits_edge_zone(ball: Rect, pad: Rect) -> bool {
        let iy = ball.intersection_spec(pad).y;
        ||| (iy >= pad.y && iy <= pad.y + 8)
        ||| (iy >= pad.bottom() - 8 && iy <= pad.bottom())
    }

    pub fn new(x: i32, y: i32) -> (b: Ball)
        ensures
            b.origin == (Point { x, y }),
            b.pos_offset == (Point { x: 0, y: 0 }),
            b.pos_bounds == (Rect { x, y, width: SIZE, height: SIZE }),
    {
        Ball {
            origin: Point::new(x, y),
            pos_offset: Point::new(0, 0),
            pos_bounds: Rect::new(x, y, SIZE, SIZE),
        }
    }

    /// Sets the travel direction: the sign of motion on each axis.
    pub fn move_offset(&mut self, x: i32, y: i32)
        requires
            x == -1 || x == 1,
            y == -1 || y == 1,
        ensures
            final(self).pos_offset == (Point { x, y }),
            final(self).pos_bounds == old(self).pos_bounds,
            final(self).origin == old(self).origin,
    {
        self.pos_offset.x = x;
        self.pos_offset.y = y;
    }

    /// Advances the ball by one frame and reports whether a side scored.
    /// `scaled_speed` is the frame's elapsed seconds times [`SPEED`],
    /// truncated toward zero to pixels.
    ///
    /// A frame whose raw vertical displacement would cross the top or
    /// bottom wall applies the negated displacement instead and flips the
    /// stored vertical direction. A frame whose raw horizontal displacement
    /// would cross the left or right edge flips both stored directions,
    /// returns the bounds to the origin, and reports the scoring side; both
    /// corrections may fire in one tick.
    pub fn tick(&mut self, scaled_speed: i32, window_size: (i32, i32)) -> (r: Scorer)
        requires
            old(self).wf(),
            0 <= scaled_speed <= 0x1000_0000,
            0 <= window_size.0 <= 0x4000_0000,
            0 <= window_size.1 <= 0x4000_0000,
        ensures
            *final(self) == old(self).tick_spec(
                scaled_speed as int,
                window_size.0 as int,
                window_size.1 as int,
            ),
            r == old(self).tick_score(scaled_speed as int, window_size.0 as int),
            final(self).offsets_valid(),
            final(self).origin == old(self).origin,
            // A bounce without a score flips the vertical direction and
            // applies the negation of the raw vertical displacement.
            old(self).bounces(scaled_speed as int, window_size.1 as int)
                && !old(self).scores(scaled_speed as int, window_size.0 as int)
                ==> final(self).pos_offset.y == -old(self).pos_offset.y
                    && final(self).pos_bounds.y
                        == old(self).pos_bounds.y - old(self).raw_dy(scaled_speed as int),
            // A score returns the bounds to the origin and flips the
            // horizontal direction.
            old(self).scores(scaled_speed as int, window_size.0 as int)
                ==> final(self).pos_bounds.x == old(self).origin.x
                    && final(self).pos_bounds.y == old(self).origin.y
                    && final(self).pos_offset.x == -old(self).pos_offset.x,
            // Without a simultaneous bounce, a score also flips the
            // vertical direction.
            old(self).scores(scaled_speed as int, window_size.0 as int)
                && !old(self).bounces(scaled_speed as int, window_size.1 as int)
                ==> final(self).pos_offset.y == -old(self).pos_offset.y,
    {
        proof {
            let s = scaled_speed as int;
            let ox = self.pos_offset.x as int;
            let oy = self.pos_offset.y as int;
            assert(-s <= ox * s <= s && -s <= oy * s <= s) by (nonlinear_arith)
                requires
                    -1 <= ox <= 1,
                    -1 <= oy <= 1,
                    0 <= s,
            ;
        }
        let new_x: i32 = self.pos_offset.x * scaled_speed;
        let mut new_y: i32 = self.pos_offset.y * scaled_speed;

        let pos_x: i32 = self.pos_bounds.x;
        let pos_y: i32 = self.pos_bounds.y;

        // The ball may not leave through the top or bottom: it flips its
        // vertical travel to bounce.
        if pos_y + new_y <= 0 || pos_y + new_y >= window_size.1 - self.pos_bounds.height as i32 {
            new_y = -new_y;
            self.pos_offset.y = -self.pos_offset.y;
        }

        self.pos_bounds.offset(new_x, new_y);

        if pos_x + new_x <= 0 || pos_x + new_x >= window_size.0 - self.pos_bounds.width as i32 {
            self.pos_offset.x = -self.pos_offset.x;
            self.pos_offset.y = -self.pos_offset.y;

            // Reset for the next volley.
            self.pos_bounds.set_x(self.origin.x);
            self.pos_bounds.set_y(self.origin.y);

            if pos_x + new_x <= 0 {
                return Scorer::Ai;
            } else {
                return Scorer::Player;
            }
        }

        Scorer::Noone
    }

    /// Resolves a collision with the given paddle. Disjoint bounds leave
    /// the ball untouched. Contact always flips the horizontal direction;
    /// contact within 8 pixels of the paddle's top or bottom edge also
    /// flips the vertical direction, giving the player limited steering.
    pub fn check_collision(&mut self, paddle: &Paddle)
        requires
            old(self).offsets_valid(),
            old(self).pos_bounds.in_range(),
            paddle.pos_bounds.in_range(),
        ensures
            final(self).pos_bounds == old(self).pos_bounds,
            final(self).origin == old(self).origin,
            final(self).offsets_valid(),
            !old(self).pos_bounds.overlaps(paddle.pos_bounds) ==> *final(self) == *old(self),
            old(self).pos_bounds.overlaps(paddle.pos_bounds)
                ==> final(self).pos_offset.x == -old(self).pos_offset.x
                    && final(self).pos_offset.y
                        == (if Self::hits_edge_zone(old(self).pos_bounds, paddle.pos_bounds) {
                            -old(self).pos_offset.y as int
                        } else {
                            old(self).pos_offset.y as int
                        }),
    {
        if let Some(intersection) = self.pos_bounds.intersection(paddle.pos_bounds) {
            self.pos_offset.x = -self.pos_offset.x;

            let iy: i64 = intersection.y as i64;
            let pad_top: i64 = paddle.pos_bounds.y as i64;
            let pad_bottom: i64 = pad_top + paddle.pos_bounds.height as i64;

            // Contact near the paddle's top edge.
            if iy >= pad_top && iy <= pad_top + 8 {
                self.pos_offset.y = -self.pos_offset.y;
            }
            // Contact near the paddle's bottom edge.
            else if iy >= pad_bottom - 8 && iy <= pad_bottom {
                self.pos_offset.y = -self.pos_offset.y;
            }
        }
    }
}

} // verus!
