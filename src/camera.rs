use vstd::prelude::*;

verus! {

/// The camera's perspective projection, by the part that follows the window: its aspect
/// ratio, kept as the exact ratio `aspect_width / aspect_height` of the surface size.
#[derive(Debug, Clone, Copy, PartialEq, Eq, Structural)]
pub struct Projection {
    pub aspect_width: u32,
    pub aspect_height: u32,
}

impl Projection {
    pub fn new(width: u32, height: u32) -> (r: Projection)
        ensures
            r.aspect_width == width,
            r.aspect_height == height,
    {
        Projection { aspect_width: width, aspect_height: height }
    }

    /// The aspect ratio becomes `width / height`.
    pub fn resize(&mut self, width: u32, height: u32)
        ensures
            final(self).aspect_width == width,
            final(self).aspect_height == height,
    {
        self.aspect_width = width;
        self.aspect_height = height;
    }
}

} // verus!
