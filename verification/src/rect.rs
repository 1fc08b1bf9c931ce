//! Axis-aligned rectangles and points on the integer pixel grid.

use vstd::prelude::*;

verus! {

/// A point on the pixel grid.
#[derive(Clone, Copy, PartialEq, Eq, Structural, Debug)]
pub struct Point {
    pub x: i32,
    pub y: i32,
}

/// An axis-aligned rectangle: top-left corner position and size.
#[derive(Clone, Copy, PartialEq, Eq, Structural, Debug)]
pub struct Rect {
    pub x: i32,
    pub y: i32,
    pub width: u32,
    pub height: u32,
}

impl Point {
    pub fn new(x: i32, y: i32) -> (p: Point)
        ensures
            p.x == x,
            p.y == y,
    {
        Point { x, y }
    }
}

impl Rect {
    /// Coordinates and sizes stay well inside the machine range, so that
    /// sums of a coordinate and a size never overflow an `i64`, and a frame's
    /// displacement can be added to a coordinate within `i32`.
    pub open spec fn in_range(self) -> bool {
        &&& -0x4000_0000 <= self.x <= 0x4000_0000
        &&& -0x4000_0000 <= self.y <= 0x4000_0000
        &&& self.width <= 0x4000_0000
        &&& self.height <= 0x4000_0000
    }

    /// The x coordinate just past the right edge.
    pub open spec fn right(self) -> int {
        self.x + self.width
    }

    /// The y coordinate just past the bottom edge.
    pub open spec fn bottom(self) -> int {
        self.y + self.height
    }

    /// Two rectangles overlap when they share at least one pixel.
    pub open spec fn overlaps(self, other: Rect) -> bool {
        &&& self.x < other.right()
        &&& other.x < self.right()
        &&& self.y < other.bottom()
        &&& other.y < self.bottom()
    }

    /// The shared region of two overlapping rectangles.
    pub open spec fn intersection_spec(self, other: Rect) -> Rect {
        let ix = if self.x >= other.x { self.x } else { other.x };
        let iy = if self.y >= other.y { self.y } else { other.y };
        let ir = if self.right() <= other.right() { self.right() } else { other.right() };
        let ib = if self.bottom() <= other.bottom() { self.bottom() } else { other.bottom() };
        Rect { x: ix as i32, y: iy as i32, width: (ir - ix) as u32, height: (ib - iy) as u32 }
    }

    pub fn new(x: i32, y: i32, width: u32, height: u32) -> (r: Rect)
        ensures
            r == (Rect { x, y, width, height }),
    {
        Rect { x, y, width, height }
    }

    /// Moves the rectangle by the given amounts, keeping its size.
    pub fn offset(&mut self, dx: i32, dy: i32)
        requires
            i32::MIN <= old(self).x + dx <= i32::MAX,
            i32::MIN <= old(self).y + dy <= i32::MAX,
        ensures
            *final(self) == (Rect {
                x: (old(self).x + dx) as i32,
                y: (old(self).y + dy) as i32,
                ..*old(self)
            }),
    {
        self.x = self.x + dx;
        self.y = self.y + dy;
    }

    pub fn set_x(&mut self, x: i32)
        ensures
            *final(self) == (Rect { x, ..*old(self) }),
    {
        self.x = x;
    }

    pub fn set_y(&mut self, y: i32)
        ensures
            *final(self) == (Rect { y, ..*old(self) }),
    {
        self.y = y;
    }

    /// The overlap of this rectangle with another, or `None` when they are
    /// disjoint.
    pub fn intersection(&self, other: Rect) -> (r: Option<Rect>)
        requires
            self.in_range(),
            other.in_range(),
        ensures
            r is Some <==> self.overlaps(other),
            self.overlaps(other) ==> r == Some(self.intersection_spec(other)),
    {
        let sx: i64 = self.x as i64;
        let sy: i64 = self.y as i64;
        let sr: i64 = sx + self.width as i64;
        let sb: i64 = sy + self.height as i64;
        let ox: i64 = other.x as i64;
        let oy: i64 = other.y as i64;
        let or_: i64 = ox + other.width as i64;
        let ob: i64 = oy + other.height as i64;
        if sx < or_ && ox < sr && sy < ob && oy < sb {
            let ix: i64 = if sx >= ox { sx } else { ox };
            let iy: i64 = if sy >= oy { sy } else { oy };
            let ir: i64 = if sr <= or_ { sr } else { or_ };
            let ib: i64 = if sb <= ob { sb } else { ob };
            Some(Rect {
                x: ix as i32,
                y: iy as i32,
                width: (ir - ix) as u32,
                height: (ib - iy) as u32,
            })
        } else {
            None
        }
    }
}

} // verus!
