//! Frame-lifecycle and resource-synchronization core of a real-time renderer
//! built on a Vulkan-style graphics API.
//!
//! The modules here hold the decision logic of the renderer on plain values:
//! the begin/end-frame protocol and its fence-gated slot reuse
//! ([`scheduler`]), swapchain configuration and rebuild policy
//! ([`swapchain`]), render-pass bracketing ([`recorder`]), device and queue
//! selection ([`device`], [`queue`]), and host-visible buffer and descriptor
//! bookkeeping ([`buffer`], [`descriptor`]). The graphics API calls
//! themselves live in the unverified application shell, which feeds their
//! outcomes into these state machines and carries their plans out.

pub mod buffer;
pub mod config;
pub mod descriptor;
pub mod device;
pub mod error;
pub mod queue;
pub mod recorder;
pub mod scheduler;
pub mod swapchain;
