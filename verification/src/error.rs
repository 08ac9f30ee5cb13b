//! Error taxonomy of the rendering core.

use vstd::prelude::*;

verus! {

/// Every fallible operation of this crate returns one of these errors.
///
/// The variants fall into the classes the design distinguishes: fatal
/// conditions of device selection and allocation (`NoVulkanGpu`,
/// `NoSuitableGpu`, `NoSuitableMemoryType`, `Vk`), transient presentation
/// staleness (`SwapChainExpired`), programmer misuse of the frame and
/// render-pass protocol (`FrameAlreadyStarted`, `FrameNotStarted`,
/// `RenderPassAlreadyOpen`, `RenderPassNotOpen`), misuse of the buffer and
/// descriptor lifecycle (`NotMapped`, `OutOfBufferBounds`, `UnknownBinding`,
/// `BindingTypeMismatch`, `DuplicateBinding`, `IncompleteBindings`), and
/// descriptor-pool exhaustion (`PoolExhausted`).
#[derive(Clone, Copy, Debug, PartialEq, Eq, Structural)]
pub enum VkError {
    /// A raw error code reported by the graphics API.
    Vk(i32),
    /// The requested validation layers are not installed.
    ValidationLayerUnavailable,
    /// No physical device at all is present.
    NoVulkanGpu,
    /// Devices exist, but none exposes the required queues, extensions and
    /// surface support.
    NoSuitableGpu,
    /// No device memory type satisfies both the type filter and the
    /// requested property flags.
    NoSuitableMemoryType,
    /// The surface reports no format or no present mode.
    InadequateSwapchainSupport,
    /// The presentation surface is stale and must be rebuilt.
    SwapChainExpired,
    /// `begin_frame` was called while a frame was already being recorded.
    FrameAlreadyStarted,
    /// `end_frame` was called while no frame was being recorded.
    FrameNotStarted,
    /// `begin_render_pass` was called while a pass was already open.
    RenderPassAlreadyOpen,
    /// `end_render_pass` was called while no pass was open.
    RenderPassNotOpen,
    /// A buffer write or flush was attempted before mapping the buffer.
    NotMapped,
    /// A mapping or write would reach past the buffer's declared byte length.
    OutOfBufferBounds,
    /// A descriptor write names a binding slot the layout does not declare.
    UnknownBinding,
    /// A descriptor write's resource kind does not match the layout's
    /// declared kind for that slot.
    BindingTypeMismatch,
    /// The same binding slot was written twice into one descriptor writer.
    DuplicateBinding,
    /// A descriptor set was built without supplying every declared binding.
    IncompleteBindings,
    /// The descriptor pool's declared budget is consumed.
    PoolExhausted,
}

pub type VkResult<T> = Result<T, VkError>;

impl VkError {
    /// A short human-readable description of the error.
    pub fn message(&self) -> &'static str {
        match self {
            VkError::Vk(_) => "graphics api error",
            VkError::ValidationLayerUnavailable => {
                "validation layers requested, but not available"
            },
            VkError::NoVulkanGpu => "failed to find any gpu",
            VkError::NoSuitableGpu => "failed to find a suitable gpu",
            VkError::NoSuitableMemoryType => "failed to find suitable memory type",
            VkError::InadequateSwapchainSupport => "surface reports no format or present mode",
            VkError::SwapChainExpired => "presentation surface out of date",
            VkError::FrameAlreadyStarted => "cannot begin a frame while one is in progress",
            VkError::FrameNotStarted => "cannot end a frame before beginning one",
            VkError::RenderPassAlreadyOpen => "render pass is already open",
            VkError::RenderPassNotOpen => "no render pass is open",
            VkError::NotMapped => "buffer is not mapped",
            VkError::OutOfBufferBounds => "write exceeds the buffer's byte length",
            VkError::UnknownBinding => "binding slot not declared by the layout",
            VkError::BindingTypeMismatch => "resource kind does not match the layout",
            VkError::DuplicateBinding => "binding slot written twice",
            VkError::IncompleteBindings => "descriptor set is missing declared bindings",
            VkError::PoolExhausted => "descriptor pool budget exhausted",
        }
    }
}

} // verus!
