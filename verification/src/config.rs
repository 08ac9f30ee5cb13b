//! Init-time configuration of the rendering core.
//!
//! The design keeps its tunable constants — how many frames may be in
//! flight, which surface format and present mode to prefer — in an explicit
//! configuration value passed into constructors, rather than process-wide
//! state.

use crate::swapchain::{PresentMode, SurfaceFormat};
use vstd::prelude::*;

verus! {

/// Number of frame slots cycling round-robin in the standard configuration.
pub const MAX_FRAMES_IN_FLIGHT: usize = 2;

/// The canonical 8-bit-per-channel sRGB surface format code.
pub const FORMAT_B8G8R8A8_SRGB: u32 = 50;

/// The sRGB non-linear color space code.
pub const COLOR_SPACE_SRGB_NONLINEAR: u32 = 0;

/// Configuration constants fixed at initialization.
#[derive(Clone, Copy, Debug, PartialEq, Eq, Structural)]
pub struct RenderConfig {
    /// Number of frame slots (N). Each slot owns one command buffer and one
    /// triple of synchronization primitives.
    pub max_frames_in_flight: usize,
    /// Surface format to pick when the platform offers it.
    pub preferred_surface_format: SurfaceFormat,
    /// Present mode to pick when the platform offers it.
    pub preferred_present_mode: PresentMode,
}

impl RenderConfig {
    pub open spec fn wf(self) -> bool {
        self.max_frames_in_flight >= 1
    }

    /// The standard configuration: two frames in flight, 8-bit sRGB,
    /// low-latency triple buffering when available.
    pub fn standard() -> (c: Self)
        ensures
            c.wf(),
            c.max_frames_in_flight == MAX_FRAMES_IN_FLIGHT,
            c.preferred_surface_format == (SurfaceFormat {
                format: FORMAT_B8G8R8A8_SRGB,
                color_space: COLOR_SPACE_SRGB_NONLINEAR,
            }),
            c.preferred_present_mode == PresentMode::Mailbox,
    {
        RenderConfig {
            max_frames_in_flight: MAX_FRAMES_IN_FLIGHT,
            preferred_surface_format: SurfaceFormat {
                format: FORMAT_B8G8R8A8_SRGB,
                color_space: COLOR_SPACE_SRGB_NONLINEAR,
            },
            preferred_present_mode: PresentMode::Mailbox,
        }
    }
}

} // verus!
