use vstd::prelude::*;

use crate::geometry::Pixel;
use crate::viewport::Viewport;

verus! {

/// Something that a renderer can render to: it paints each pixel it is given,
/// in order, so that a later pixel at the same position wins.
pub trait RenderTarget {
    fn render(&mut self, pixels: Vec<Pixel>);
}

/// Draws the pixels of a viewport to a render target.
pub struct Renderer<T: RenderTarget> {
    pub target: T,
}

impl<T: RenderTarget> Renderer<T> {
    /// A renderer that draws to `target`.
    pub fn new(target: T) -> (r: Renderer<T>)
        ensures
            r.target == target,
    {
        Renderer { target }
    }

    /// Drains the viewport's pending pixels and hands them, in the order they
    /// were drawn, to the target.
    pub fn render(&mut self, viewport: &mut Viewport)
        ensures
            final(viewport).pending() == Seq::<Pixel>::empty(),
            final(viewport).area() == old(viewport).area(),
    {
        let pixels = viewport.pixels();
        self.target.render(pixels);
    }
}

} // verus!
