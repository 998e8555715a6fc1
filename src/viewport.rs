use vstd::prelude::*;

use crate::geometry::{BoundingBox, Pixel, ScreenPos, ScreenSize};

verus! {

/// A region of the screen and the pixels drawn into it for the current frame.
///
/// Draws are passed through, not clipped: an offset outside the viewport's
/// size still gives a pixel, at the viewport's origin plus that offset.
pub struct Viewport {
    bounding_box: BoundingBox,
    pixels: Vec<Pixel>,
}

/// The pixel that drawing `glyph` at camera-relative `offset` gives in a
/// viewport whose box is `bb`.
pub open spec fn placed(bb: BoundingBox, glyph: char, offset: ScreenPos) -> Pixel {
    Pixel { glyph, pos: ScreenPos { x: (bb.x + offset.x) as i64, y: (bb.y + offset.y) as i64 } }
}

/// `bb`'s origin plus `offset` fits in `i64`.
pub open spec fn placeable(bb: BoundingBox, offset: ScreenPos) -> bool {
    i64::MIN <= bb.x + offset.x <= i64::MAX && i64::MIN <= bb.y + offset.y <= i64::MAX
}

impl Viewport {
    /// The pixels drawn since the last drain, in the order they were drawn.
    pub closed spec fn pending(&self) -> Seq<Pixel> {
        self.pixels@
    }

    /// The viewport's screen-space box.
    pub closed spec fn area(&self) -> BoundingBox {
        self.bounding_box
    }

    pub fn bounding_box(&self) -> (r: BoundingBox)
        ensures
            r == self.area(),
    {
        self.bounding_box
    }

    /// Draining `before` leaves `after` and hands out `out`: every pending
    /// pixel, in order, with nothing left behind and the box unchanged.
    pub open spec fn drains(before: Viewport, after: Viewport, out: Seq<Pixel>) -> bool {
        out == before.pending() && after.pending() == Seq::<Pixel>::empty()
            && after.area() == before.area()
    }

    /// An empty viewport anchored at screen position `pos`.
    pub fn new(pos: ScreenPos, size: ScreenSize) -> (r: Viewport)
        requires
            pos.x + size.width <= i64::MAX,
            pos.y + size.height <= i64::MAX,
        ensures
            r.area() == (BoundingBox { x: pos.x, y: pos.y, width: size.width, height: size.height }),
            r.area().wf(),
            r.pending() == Seq::<Pixel>::empty(),
    {
        Viewport { bounding_box: BoundingBox::new(pos.x, pos.y, size.width, size.height), pixels: Vec::new() }
    }

    /// Queues `glyph` at the viewport's origin plus the camera-relative offset.
    pub fn draw_pixel(&mut self, pixel: (char, ScreenPos))
        requires
            placeable(old(self).area(), pixel.1),
        ensures
            final(self).area() == old(self).area(),
            final(self).pending() == old(self).pending().push(placed(old(self).area(), pixel.0, pixel.1)),
            final(self).pending().last().pos.x == old(self).area().x + pixel.1.x,
            final(self).pending().last().pos.y == old(self).area().y + pixel.1.y,
    {
        let (glyph, offset) = pixel;
        let pos = ScreenPos::new(self.bounding_box.min_x() + offset.x, self.bounding_box.min_y() + offset.y);
        self.pixels.push(Pixel::new(glyph, pos));
    }

    /// Hands out the pixels of this frame in the order they were drawn and
    /// clears them, so that the next frame starts empty.
    pub fn pixels(&mut self) -> (r: Vec<Pixel>)
        ensures
            Viewport::drains(*old(self), *final(self), r@),
    {
        let mut out: Vec<Pixel> = Vec::new();
        core::mem::swap(&mut out, &mut self.pixels);
        out
    }
}

/// Draining twice with nothing drawn in between hands out nothing the second
/// time; the first drain hands out exactly what was pending.
pub proof fn lemma_frame_isolation(
    v0: Viewport,
    v1: Viewport,
    v2: Viewport,
    first: Seq<Pixel>,
    second: Seq<Pixel>,
)
    requires
        Viewport::drains(v0, v1, first),
        Viewport::drains(v1, v2, second),
    ensures
        first == v0.pending(),
        second == Seq::<Pixel>::empty(),
        v2.area() == v0.area(),
{
}

} // verus!
