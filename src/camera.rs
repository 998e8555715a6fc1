use vstd::prelude::*;

use crate::geometry::{BoundingBox, ScreenPos, WorldPos, WorldSize};

verus! {

/// A movable window onto world space.
pub struct Camera {
    pub bounding_box: BoundingBox,
}

impl Camera {
    /// The offset of `pos` from the minimum corner of the camera's box.
    pub open spec fn offset_of(self, pos: WorldPos) -> ScreenPos {
        ScreenPos { x: (pos.x - self.bounding_box.x) as i64, y: (pos.y - self.bounding_box.y) as i64 }
    }

    /// The offset of `pos` fits in `i64`.
    pub open spec fn projectable(self, pos: WorldPos) -> bool {
        i64::MIN <= pos.x - self.bounding_box.x <= i64::MAX
            && i64::MIN <= pos.y - self.bounding_box.y <= i64::MAX
    }

    /// A camera whose box has its minimum corner at `pos` and extends `size`.
    pub fn new(pos: WorldPos, size: WorldSize) -> (r: Camera)
        requires
            pos.x + size.width <= i64::MAX,
            pos.y + size.height <= i64::MAX,
        ensures
            r.bounding_box == (BoundingBox { x: pos.x, y: pos.y, width: size.width, height: size.height }),
            r.bounding_box.wf(),
    {
        Camera { bounding_box: BoundingBox::new(pos.x, pos.y, size.width, size.height) }
    }

    /// Moves the camera's box so that its minimum corner is `pos`; its size
    /// stays.
    pub fn move_to(&mut self, pos: WorldPos)
        requires
            pos.x + old(self).bounding_box.width <= i64::MAX,
            pos.y + old(self).bounding_box.height <= i64::MAX,
        ensures
            final(self).bounding_box == (BoundingBox {
                x: pos.x,
                y: pos.y,
                width: old(self).bounding_box.width,
                height: old(self).bounding_box.height,
            }),
            final(self).bounding_box.wf(),
    {
        let width = self.bounding_box.width;
        let height = self.bounding_box.height;
        self.bounding_box = BoundingBox::new(pos.x, pos.y, width, height);
    }

    /// The camera-relative offset of a world position. Nothing is clipped: a
    /// position outside the box gives a negative or out-of-range offset.
    pub fn to_screen(&self, pos: WorldPos) -> (r: ScreenPos)
        requires
            self.projectable(pos),
        ensures
            r == self.offset_of(pos),
            r.x == pos.x - self.bounding_box.x,
            r.y == pos.y - self.bounding_box.y,
            pos.x == self.bounding_box.x && pos.y == self.bounding_box.y ==> r.x == 0 && r.y == 0,
            self.bounding_box.contains(pos.x as int, pos.y as int) ==> 0 <= r.x < self.bounding_box.width
                && 0 <= r.y < self.bounding_box.height,
    {
        ScreenPos::new(pos.x - self.bounding_box.min_x(), pos.y - self.bounding_box.min_y())
    }
}

} // verus!
