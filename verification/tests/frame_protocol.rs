use vrt::config::RenderConfig;
use vrt::error::VkError;
use vrt::recorder::CommandRecorder;
use vrt::scheduler::{AcquireOutcome, BeginFrame, FrameScheduler, PresentOutcome};

fn standard_scheduler() -> FrameScheduler {
    FrameScheduler::new(&RenderConfig::standard())
}

fn begin_ok(s: &mut FrameScheduler, image_index: u32) -> (usize, u32) {
    match s.begin_frame(AcquireOutcome::Acquired { image_index }) {
        Ok(BeginFrame::Started { slot, image_index }) => (slot, image_index),
        other => panic!("expected a started frame, got {:?}", other),
    }
}

#[test]
fn begin_frame_twice_reports_already_started() {
    let mut s = standard_scheduler();
    let (slot, image) = begin_ok(&mut s, 0);
    assert_eq!(slot, 0);
    assert_eq!(image, 0);
    let second = s.begin_frame(AcquireOutcome::Acquired { image_index: 1 });
    assert_eq!(second, Err(VkError::FrameAlreadyStarted));
    // The failed call changed nothing: the first frame is still recording.
    assert!(s.is_frame_started());
    assert_eq!(s.get_frame_index(), 0);
}

#[test]
fn end_frame_without_begin_reports_not_started() {
    let mut s = standard_scheduler();
    assert_eq!(s.end_frame(PresentOutcome::Success), Err(VkError::FrameNotStarted));
    assert_eq!(s.get_frame_index(), 0);
    assert!(!s.is_frame_started());
}

#[test]
fn begin_frame_out_of_date_asks_for_rebuild_without_starting() {
    let mut s = standard_scheduler();
    assert_eq!(s.begin_frame(AcquireOutcome::OutOfDate), Ok(BeginFrame::RebuildNeeded));
    assert!(!s.is_frame_started());
    assert_eq!(s.get_frame_index(), 0);
}

#[test]
fn begin_frame_passes_device_error_through() {
    let mut s = standard_scheduler();
    assert_eq!(s.begin_frame(AcquireOutcome::Failed(-4)), Err(VkError::Vk(-4)));
    assert!(!s.is_frame_started());
}

#[test]
fn end_frame_passes_present_error_through() {
    let mut s = standard_scheduler();
    begin_ok(&mut s, 0);
    assert_eq!(s.end_frame(PresentOutcome::Failed(-4)), Err(VkError::Vk(-4)));
    assert!(!s.is_frame_started());
    assert_eq!(s.get_frame_index(), 1);
}

#[test]
fn frame_index_wraps_after_two_frames() {
    let mut s = standard_scheduler();
    assert_eq!(s.get_frame_index(), 0);
    for expected in [1usize, 0, 1] {
        begin_ok(&mut s, 0);
        s.end_frame(PresentOutcome::Success).unwrap();
        // After 1, 2, 3 completed frames the index is 1, 0, 1: modulo N = 2.
        assert_eq!(s.get_frame_index(), expected);
    }
}

#[test]
fn fence_gates_slot_reuse_across_cycles() {
    let mut s = standard_scheduler();

    // Recording on slot 0 after its (initially signaled) fence wait: writable.
    let (slot0, _) = begin_ok(&mut s, 0);
    assert!(s.may_write_slot(slot0));
    s.end_frame(PresentOutcome::Success).unwrap();

    // Slot 0 was submitted: in flight, and no write to it is permitted
    // until a begin_frame on slot 0 completes its fence wait.
    assert!(s.slot_in_flight(0));
    assert!(!s.may_write_slot(0));

    // A frame on slot 1 does not unlock slot 0.
    let (slot1, _) = begin_ok(&mut s, 1);
    assert_eq!(slot1, 1);
    assert!(s.may_write_slot(1));
    assert!(!s.may_write_slot(0));
    assert!(s.slot_in_flight(0));
    s.end_frame(PresentOutcome::Success).unwrap();
    assert!(s.slot_in_flight(0));
    assert!(s.slot_in_flight(1));
    assert!(!s.may_write_slot(0));
    assert!(!s.may_write_slot(1));

    // Beginning on slot 0 again models the wait on its fence: only then
    // does slot 0 become writable.
    let (slot0_again, _) = begin_ok(&mut s, 0);
    assert_eq!(slot0_again, 0);
    assert!(!s.slot_in_flight(0));
    assert!(s.may_write_slot(0));
    assert!(s.slot_in_flight(1));
}

#[test]
fn submit_plan_uses_the_current_slot_everywhere() {
    let mut s = standard_scheduler();
    begin_ok(&mut s, 0);
    s.end_frame(PresentOutcome::Success).unwrap();
    begin_ok(&mut s, 7);
    let plan = s.submit_plan();
    assert_eq!(plan.slot, 1);
    assert_eq!(plan.wait_semaphore_slot, 1);
    assert_eq!(plan.signal_semaphore_slot, 1);
    assert_eq!(plan.fence_slot, 1);
    assert_eq!(plan.image_index, 7);
}

#[test]
fn end_frame_reports_rebuild_on_stale_or_suboptimal_presentation() {
    let mut s = standard_scheduler();
    begin_ok(&mut s, 0);
    assert!(s.end_frame(PresentOutcome::OutOfDate).unwrap().rebuild_needed);
    begin_ok(&mut s, 0);
    assert!(s.end_frame(PresentOutcome::Suboptimal).unwrap().rebuild_needed);
    begin_ok(&mut s, 0);
    assert!(!s.end_frame(PresentOutcome::Success).unwrap().rebuild_needed);
}

#[test]
fn resize_flag_is_consumed_by_exactly_one_end_frame() {
    let mut s = standard_scheduler();
    s.notify_resize();
    begin_ok(&mut s, 0);
    // The pending resize asks for a rebuild even though presentation succeeded.
    assert!(s.end_frame(PresentOutcome::Success).unwrap().rebuild_needed);
    // end_frame cleared the flag: the next frame sees no resize.
    begin_ok(&mut s, 0);
    assert!(!s.end_frame(PresentOutcome::Success).unwrap().rebuild_needed);
}

#[test]
fn render_pass_brackets_strictly() {
    let mut r = CommandRecorder::new();
    assert!(!r.is_pass_open());
    assert_eq!(r.end_render_pass(), Err(VkError::RenderPassNotOpen));
    let extent = vrt::swapchain::Extent2D { width: 800, height: 600 };
    let begin = r.begin_render_pass(extent, 2).unwrap();
    assert_eq!(begin.framebuffer_index, 2);
    assert!(r.is_pass_open());
    assert_eq!(r.begin_render_pass(extent, 2), Err(VkError::RenderPassAlreadyOpen));
    r.end_render_pass().unwrap();
    assert!(!r.is_pass_open());
    assert_eq!(r.end_render_pass(), Err(VkError::RenderPassNotOpen));
}

#[test]
fn viewport_flips_y_over_the_full_surface() {
    let mut r = CommandRecorder::new();
    let extent = vrt::swapchain::Extent2D { width: 800, height: 600 };
    let begin = r.begin_render_pass(extent, 0).unwrap();
    assert_eq!(begin.viewport.x, 0);
    assert_eq!(begin.viewport.y, 600);
    assert_eq!(begin.viewport.width, 800);
    assert_eq!(begin.viewport.height, -600);
    assert_eq!(begin.scissor.x, 0);
    assert_eq!(begin.scissor.y, 0);
    assert_eq!(begin.scissor.extent, extent);
}

#[test]
fn error_messages_name_every_condition() {
    let errors = [
        VkError::Vk(-1),
        VkError::ValidationLayerUnavailable,
        VkError::NoVulkanGpu,
        VkError::NoSuitableGpu,
        VkError::NoSuitableMemoryType,
        VkError::InadequateSwapchainSupport,
        VkError::SwapChainExpired,
        VkError::FrameAlreadyStarted,
        VkError::FrameNotStarted,
        VkError::RenderPassAlreadyOpen,
        VkError::RenderPassNotOpen,
        VkError::NotMapped,
        VkError::OutOfBufferBounds,
        VkError::UnknownBinding,
        VkError::BindingTypeMismatch,
        VkError::DuplicateBinding,
        VkError::IncompleteBindings,
        VkError::PoolExhausted,
    ];
    for e in errors {
        assert!(!e.message().is_empty());
    }
}
