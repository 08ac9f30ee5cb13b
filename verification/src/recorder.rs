//! Render-pass bracketing for per-frame command recording.
//!
//! A [`CommandRecorder`] tracks whether a render pass is open in the command
//! buffer being recorded, and refuses unbalanced or nested begin/end pairs
//! with a programmer error instead of leaving the buffer invalid for
//! submission. `begin_render_pass` also computes the full-surface dynamic
//! viewport and scissor; the viewport flips the Y axis by a negative height
//! and an offset of the full height, so a right-handed, Y-up model and view
//! convention displays un-mirrored — a deliberate correction, not an
//! accident.

use crate::error::{VkError, VkResult};
use crate::swapchain::Extent2D;
use vstd::prelude::*;

verus! {

/// A full-surface viewport, in integer coordinates; the application shell
/// converts them to the API's floating-point fields as they are.
#[derive(Clone, Copy, Debug, PartialEq, Eq, Structural)]
pub struct Viewport {
    pub x: i64,
    pub y: i64,
    pub width: i64,
    pub height: i64,
}

/// A scissor rectangle at the origin.
#[derive(Clone, Copy, Debug, PartialEq, Eq, Structural)]
pub struct ScissorRect {
    pub x: i64,
    pub y: i64,
    pub extent: Extent2D,
}

/// What a render-pass begin must record: the framebuffer of the acquired
/// image, and the full-surface dynamic state.
#[derive(Clone, Copy, Debug, PartialEq, Eq, Structural)]
pub struct RenderPassBegin {
    /// Index of the framebuffer to bind: the acquired image's.
    pub framebuffer_index: u32,
    /// Y-flipped full-surface viewport.
    pub viewport: Viewport,
    /// Full-surface scissor.
    pub scissor: ScissorRect,
}

/// Tracks the open/closed state of the render pass in one frame's command
/// buffer.
pub struct CommandRecorder {
    pass_open: bool,
}

impl CommandRecorder {
    pub closed spec fn spec_pass_open(self) -> bool {
        self.pass_open
    }

    /// A fresh recorder: no pass is open.
    pub fn new() -> (r: Self)
        ensures
            !r.spec_pass_open(),
    {
        CommandRecorder { pass_open: false }
    }

    /// Opens the render pass for the acquired image and computes the
    /// full-surface viewport (Y-flipped) and scissor. Fails with
    /// `RenderPassAlreadyOpen`, changing nothing, when a pass is already
    /// open.
    pub fn begin_render_pass(&mut self, extent: Extent2D, image_index: u32) -> (r: VkResult<
        RenderPassBegin,
    >)
        ensures
            old(self).spec_pass_open() ==> r == VkResult::<RenderPassBegin>::Err(
                VkError::RenderPassAlreadyOpen,
            ) && *final(self) == *old(self),
            !old(self).spec_pass_open() ==> final(self).spec_pass_open() && (r matches Ok(begin)
                && {
                &&& begin.framebuffer_index == image_index
                &&& begin.viewport.x == 0
                &&& begin.viewport.y == extent.height
                &&& begin.viewport.width == extent.width
                &&& begin.viewport.height == -(extent.height as i64)
                &&& begin.scissor.x == 0
                &&& begin.scissor.y == 0
                &&& begin.scissor.extent == extent
            }),
    {
        if self.pass_open {
            return Err(VkError::RenderPassAlreadyOpen);
        }
        self.pass_open = true;
        Ok(
            RenderPassBegin {
                framebuffer_index: image_index,
                viewport: Viewport {
                    x: 0,
                    y: extent.height as i64,
                    width: extent.width as i64,
                    height: -(extent.height as i64),
                },
                scissor: ScissorRect { x: 0, y: 0, extent },
            },
        )
    }

    /// Closes the render pass. Fails with `RenderPassNotOpen`, changing
    /// nothing, when no pass is open: every begin must be balanced by
    /// exactly one end.
    pub fn end_render_pass(&mut self) -> (r: VkResult<()>)
        ensures
            !old(self).spec_pass_open() ==> r == VkResult::<()>::Err(VkError::RenderPassNotOpen)
                && *final(self) == *old(self),
            old(self).spec_pass_open() ==> r is Ok && !final(self).spec_pass_open(),
    {
        if !self.pass_open {
            return Err(VkError::RenderPassNotOpen);
        }
        self.pass_open = false;
        Ok(())
    }

    /// Whether a render pass is open.
    pub fn is_pass_open(&self) -> (b: bool)
        ensures
            b == self.spec_pass_open(),
    {
        self.pass_open
    }
}

} // verus!
