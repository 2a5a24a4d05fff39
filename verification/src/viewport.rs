//! The size that the render surface is configured with.

use vstd::prelude::*;

verus! {

/// The configured size of the render surface, in pixels. Neither side is
/// ever zero.
pub struct Viewport {
    width: u32,
    height: u32,
}

/// What became of the attempt to get the next frame's texture.
#[derive(Clone, Copy, Debug, PartialEq, Eq, Structural)]
pub enum SurfaceStatus {
    /// A texture is there to draw into.
    Ready,
    /// The surface no longer matches the window.
    Outdated,
    /// Any other failure.
    Failed,
}

/// What the render loop does about a frame.
#[derive(Clone, Copy, Debug, PartialEq, Eq, Structural)]
pub enum FrameStep {
    /// Draw and present.
    Draw,
    /// Leave this frame out; a later one recovers.
    Skip,
    /// Give up.
    Abort,
}

impl Viewport {
    /// The configured width in pixels.
    pub closed spec fn spec_width(&self) -> u32 {
        self.width
    }

    /// The configured height in pixels.
    pub closed spec fn spec_height(&self) -> u32 {
        self.height
    }

    /// Neither side is zero.
    pub open spec fn wf(&self) -> bool {
        self.spec_width() > 0 && self.spec_height() > 0
    }

    /// A surface configuration of the given size.
    pub fn new(width: u32, height: u32) -> (viewport: Self)
        requires
            width > 0,
            height > 0,
        ensures
            viewport.wf(),
            viewport.spec_width() == width,
            viewport.spec_height() == height,
    {
        Viewport { width, height }
    }

    /// The configured width in pixels.
    #[verifier::when_used_as_spec(spec_width)]
    pub fn width(&self) -> (width: u32)
        ensures
            width == self.spec_width(),
    {
        self.width
    }

    /// The configured height in pixels.
    #[verifier::when_used_as_spec(spec_height)]
    pub fn height(&self) -> (height: u32)
        ensures
            height == self.spec_height(),
    {
        self.height
    }

    /// Takes a new size for the next configuration of the surface.
    pub fn resize(&mut self, width: u32, height: u32)
        requires
            width > 0,
            height > 0,
        ensures
            final(self).wf(),
            final(self).spec_width() == width,
            final(self).spec_height() == height,
    {
        self.width = width;
        self.height = height;
    }

    /// What to do with the frame, given how getting its texture went: an
    /// outdated surface costs only this frame, any other failure is final.
    pub fn frame_step(status: SurfaceStatus) -> (step: FrameStep)
        ensures
            step == match status {
                SurfaceStatus::Ready => FrameStep::Draw,
                SurfaceStatus::Outdated => FrameStep::Skip,
                SurfaceStatus::Failed => FrameStep::Abort,
            },
    {
        match status {
            SurfaceStatus::Ready => FrameStep::Draw,
            SurfaceStatus::Outdated => FrameStep::Skip,
            SurfaceStatus::Failed => FrameStep::Abort,
        }
    }
}

} // verus!
