use vstd::prelude::*;

verus! {

/// A position in world space.
#[derive(Clone, Copy, Debug, PartialEq, Eq, Structural)]
pub struct WorldPos {
    pub x: i64,
    pub y: i64,
}

/// An extent in world space.
#[derive(Clone, Copy, Debug, PartialEq, Eq, Structural)]
pub struct WorldSize {
    pub width: u32,
    pub height: u32,
}

/// A position in screen space: a terminal column and row, or an offset
/// relative to a camera's minimum corner.
#[derive(Clone, Copy, Debug, PartialEq, Eq, Structural)]
pub struct ScreenPos {
    pub x: i64,
    pub y: i64,
}

/// An extent in screen space.
#[derive(Clone, Copy, Debug, PartialEq, Eq, Structural)]
pub struct ScreenSize {
    pub width: u32,
    pub height: u32,
}

/// One glyph and the screen position it is drawn at.
#[derive(Clone, Copy, Debug, PartialEq, Eq, Structural)]
pub struct Pixel {
    pub glyph: char,
    pub pos: ScreenPos,
}

/// An axis-aligned box: the cells `x <= px < x + width`, `y <= py < y + height`.
#[derive(Clone, Copy, Debug, PartialEq, Eq, Structural)]
pub struct BoundingBox {
    pub x: i64,
    pub y: i64,
    pub width: u32,
    pub height: u32,
}

impl WorldPos {
    pub fn new(x: i64, y: i64) -> (r: WorldPos)
        ensures
            r.x == x,
            r.y == y,
    {
        WorldPos { x, y }
    }
}

impl WorldSize {
    pub fn new(width: u32, height: u32) -> (r: WorldSize)
        ensures
            r.width == width,
            r.height == height,
    {
        WorldSize { width, height }
    }
}

impl ScreenPos {
    pub fn new(x: i64, y: i64) -> (r: ScreenPos)
        ensures
            r.x == x,
            r.y == y,
    {
        ScreenPos { x, y }
    }

    /// Whether a terminal can address this position (both coordinates in `u16`).
    pub open spec fn addressable(self) -> bool {
        0 <= self.x <= u16::MAX && 0 <= self.y <= u16::MAX
    }

    /// The terminal column and row of this position, or `None` where it lies
    /// off the addressable grid (negative or beyond `u16::MAX`).
    pub fn cell(&self) -> (r: Option<(u16, u16)>)
        ensures
            self.addressable() <==> r.is_some(),
            r matches Some((c, w)) ==> c as i64 == self.x && w as i64 == self.y,
    {
        if 0 <= self.x && self.x <= u16::MAX as i64 && 0 <= self.y && self.y <= u16::MAX as i64 {
            Some((self.x as u16, self.y as u16))
        } else {
            None
        }
    }
}

impl ScreenSize {
    pub fn new(width: u32, height: u32) -> (r: ScreenSize)
        ensures
            r.width == width,
            r.height == height,
    {
        ScreenSize { width, height }
    }
}

impl Pixel {
    pub fn new(glyph: char, pos: ScreenPos) -> (r: Pixel)
        ensures
            r.glyph == glyph,
            r.pos == pos,
    {
        Pixel { glyph, pos }
    }
}

impl BoundingBox {
    /// The far corner of the box fits in `i64`.
    pub open spec fn wf(self) -> bool {
        self.x + self.width <= i64::MAX && self.y + self.height <= i64::MAX
    }

    /// The cell `(px, py)` lies inside the box.
    pub open spec fn contains(self, px: int, py: int) -> bool {
        self.x <= px < self.x + self.width && self.y <= py < self.y + self.height
    }

    pub fn new(x: i64, y: i64, width: u32, height: u32) -> (r: BoundingBox)
        requires
            x + width <= i64::MAX,
            y + height <= i64::MAX,
        ensures
            r == (BoundingBox { x, y, width, height }),
            r.wf(),
    {
        BoundingBox { x, y, width, height }
    }

    pub fn min_x(&self) -> (r: i64)
        ensures
            r == self.x,
    {
        self.x
    }

    pub fn min_y(&self) -> (r: i64)
        ensures
            r == self.y,
    {
        self.y
    }

    /// The first column past the box.
    pub fn max_x(&self) -> (r: i64)
        requires
            self.wf(),
        ensures
            r == self.x + self.width,
    {
        self.x + self.width as i64
    }

    /// The first row past the box.
    pub fn max_y(&self) -> (r: i64)
        requires
            self.wf(),
        ensures
            r == self.y + self.height,
    {
        self.y + self.height as i64
    }
}

} // verus!
