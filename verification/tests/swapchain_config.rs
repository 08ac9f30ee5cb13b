use vrt::config::{RenderConfig, COLOR_SPACE_SRGB_NONLINEAR, FORMAT_B8G8R8A8_SRGB};
use vrt::error::VkError;
use vrt::queue::{QueueFamilyIndices, QueueFamilyInfo};
use vrt::swapchain::{
    choose_swap_extent, choose_swap_present_mode, choose_swap_surface_format, plan_swapchain,
    select_rebuild_extent, select_sharing_mode, swap_image_count, DestroyStep, Extent2D,
    PresentationSurface, PresentMode, SharingMode, SurfaceCapabilities, SurfaceFormat,
    SwapchainSupportDetails,
};

fn srgb() -> SurfaceFormat {
    SurfaceFormat { format: FORMAT_B8G8R8A8_SRGB, color_space: COLOR_SPACE_SRGB_NONLINEAR }
}

fn other_format() -> SurfaceFormat {
    SurfaceFormat { format: 44, color_space: 0 }
}

fn fixed_capabilities() -> SurfaceCapabilities {
    SurfaceCapabilities {
        min_image_count: 2,
        max_image_count: 8,
        current_extent: Extent2D { width: 640, height: 480 },
        min_image_extent: Extent2D { width: 1, height: 1 },
        max_image_extent: Extent2D { width: 4096, height: 4096 },
    }
}

fn complete_indices(
    graphics: (bool, bool),
    present: (bool, bool),
) -> vrt::queue::CompleteQueueFamilyIndices {
    let families = vec![
        QueueFamilyInfo { supports_graphics: graphics.0, supports_present: present.0 },
        QueueFamilyInfo { supports_graphics: graphics.1, supports_present: present.1 },
    ];
    QueueFamilyIndices::new(&families).complete().unwrap()
}

#[test]
fn surface_format_prefers_srgb_when_offered() {
    let formats = vec![other_format(), srgb()];
    assert_eq!(choose_swap_surface_format(&formats, srgb()), srgb());
}

#[test]
fn surface_format_falls_back_to_first_offered() {
    let another = SurfaceFormat { format: 97, color_space: 1 };
    let formats = vec![other_format(), another];
    assert_eq!(choose_swap_surface_format(&formats, srgb()), other_format());
}

#[test]
fn present_mode_prefers_mailbox_when_offered() {
    let modes = vec![PresentMode::Fifo, PresentMode::Mailbox];
    assert_eq!(choose_swap_present_mode(&modes, PresentMode::Mailbox), PresentMode::Mailbox);
}

#[test]
fn present_mode_falls_back_to_fifo() {
    let modes = vec![PresentMode::Immediate, PresentMode::FifoRelaxed];
    assert_eq!(choose_swap_present_mode(&modes, PresentMode::Mailbox), PresentMode::Fifo);
}

#[test]
fn extent_uses_the_surface_extent_when_fixed() {
    let caps = fixed_capabilities();
    let chosen = choose_swap_extent(Extent2D { width: 9999, height: 1 }, &caps);
    assert_eq!(chosen, Extent2D { width: 640, height: 480 });
}

#[test]
fn extent_clamps_when_the_window_decides() {
    let mut caps = fixed_capabilities();
    caps.current_extent = Extent2D { width: u32::MAX, height: 77 };
    let chosen = choose_swap_extent(Extent2D { width: 9999, height: 0 }, &caps);
    assert_eq!(chosen, Extent2D { width: 4096, height: 1 });
    let kept = choose_swap_extent(Extent2D { width: 800, height: 600 }, &caps);
    assert_eq!(kept, Extent2D { width: 800, height: 600 });
}

#[test]
fn image_count_is_min_plus_one_capped_by_max() {
    let mut caps = fixed_capabilities();
    assert_eq!(swap_image_count(&caps), 3);
    caps.max_image_count = 0;
    assert_eq!(swap_image_count(&caps), 3);
    caps.max_image_count = 2;
    assert_eq!(swap_image_count(&caps), 2);
}

#[test]
fn sharing_is_exclusive_for_one_family_and_concurrent_for_two() {
    let same = complete_indices((true, false), (true, false));
    let (mode, families) = select_sharing_mode(same);
    assert_eq!(mode, SharingMode::Exclusive);
    assert!(families.is_empty());

    let split = complete_indices((true, false), (false, true));
    let (mode, families) = select_sharing_mode(split);
    assert_eq!(mode, SharingMode::Concurrent);
    assert_eq!(families, vec![0, 1]);
}

#[test]
fn plan_swapchain_decides_every_parameter() {
    let support = SwapchainSupportDetails::new(
        fixed_capabilities(),
        vec![other_format(), srgb()],
        vec![PresentMode::Fifo, PresentMode::Mailbox],
    );
    let indices = complete_indices((true, false), (true, false));
    let plan = plan_swapchain(
        Extent2D { width: 800, height: 600 },
        &support,
        indices,
        &RenderConfig::standard(),
    )
    .unwrap();
    assert_eq!(plan.surface_format, srgb());
    assert_eq!(plan.present_mode, PresentMode::Mailbox);
    assert_eq!(plan.extent, Extent2D { width: 640, height: 480 });
    assert_eq!(plan.image_count, 3);
    assert_eq!(plan.sharing_mode, SharingMode::Exclusive);
    assert!(plan.queue_family_indices.is_empty());
}

#[test]
fn plan_swapchain_rejects_an_inadequate_surface() {
    let support = SwapchainSupportDetails::new(fixed_capabilities(), vec![], vec![
        PresentMode::Fifo,
    ]);
    assert!(!support.is_adequate());
    let indices = complete_indices((true, false), (true, false));
    let planned = plan_swapchain(
        Extent2D { width: 800, height: 600 },
        &support,
        indices,
        &RenderConfig::standard(),
    );
    assert_eq!(planned.err(), Some(VkError::InadequateSwapchainSupport));
}

#[test]
fn rebuild_constructs_exactly_at_the_first_nondegenerate_extent() {
    let extents = vec![
        Extent2D { width: 0, height: 0 },
        Extent2D { width: 0, height: 5 },
        Extent2D { width: 800, height: 600 },
    ];
    assert_eq!(select_rebuild_extent(&extents), Some(2));
}

#[test]
fn rebuild_keeps_waiting_while_every_extent_is_degenerate() {
    let extents = vec![Extent2D { width: 0, height: 0 }, Extent2D { width: 100, height: 0 }];
    assert_eq!(select_rebuild_extent(&extents), None);
}

#[test]
fn surface_requires_an_image_per_frame_slot() {
    let support = SwapchainSupportDetails::new(fixed_capabilities(), vec![srgb()], vec![
        PresentMode::Fifo,
    ]);
    let indices = complete_indices((true, false), (true, false));
    let config = RenderConfig::standard();
    let plan =
        plan_swapchain(Extent2D { width: 800, height: 600 }, &support, indices, &config).unwrap();

    // One image for two frame slots: fails closed.
    assert!(PresentationSurface::new(&plan, 1, &config).is_err());

    let surface = PresentationSurface::new(&plan, 3, &config).unwrap();
    assert_eq!(surface.image_count(), 3);
    assert_eq!(surface.frames_in_flight(), 2);
    assert_eq!(surface.get_extent(), Extent2D { width: 640, height: 480 });
}

#[test]
fn teardown_follows_the_one_permitted_order() {
    let support = SwapchainSupportDetails::new(fixed_capabilities(), vec![srgb()], vec![
        PresentMode::Fifo,
    ]);
    let indices = complete_indices((true, false), (true, false));
    let config = RenderConfig::standard();
    let plan =
        plan_swapchain(Extent2D { width: 800, height: 600 }, &support, indices, &config).unwrap();
    let surface = PresentationSurface::new(&plan, 3, &config).unwrap();
    let steps = surface.teardown_plan();
    assert_eq!(
        steps,
        vec![
            DestroyStep::ImageView(0),
            DestroyStep::ImageView(1),
            DestroyStep::ImageView(2),
            DestroyStep::SwapchainHandle,
            DestroyStep::Framebuffer(0),
            DestroyStep::Framebuffer(1),
            DestroyStep::Framebuffer(2),
            DestroyStep::RenderTarget,
            DestroyStep::SlotSync(0),
            DestroyStep::SlotSync(1),
        ]
    );
}
