use oxide_renderer::device::QueueFamilyIndices;
use oxide_renderer::error::RenderError;
use oxide_renderer::swapchain::{
    get_swapchain_extent, get_swapchain_present_mode, get_swapchain_surface_format,
    plan_swapchain, sharing_plan, swapchain_image_count, Extent2d, SharingMode,
    SurfaceCapabilities, SurfaceFormat, SwapchainState, SwapchainSupport,
    COLOR_SPACE_SRGB_NONLINEAR, FORMAT_B8G8R8A8_SRGB, PRESENT_MODE_FIFO, PRESENT_MODE_MAILBOX,
};

fn capabilities(current: Extent2d, min_count: u32, max_count: u32) -> SurfaceCapabilities {
    SurfaceCapabilities {
        min_image_count: min_count,
        max_image_count: max_count,
        current_extent: current,
        min_image_extent: Extent2d { width: 100, height: 100 },
        max_image_extent: Extent2d { width: 2000, height: 1500 },
    }
}

#[test]
fn surface_format_prefers_srgb_pair() {
    let formats = vec![
        SurfaceFormat { format: 44, color_space: 0 },
        SurfaceFormat { format: FORMAT_B8G8R8A8_SRGB, color_space: 7 },
        SurfaceFormat { format: FORMAT_B8G8R8A8_SRGB, color_space: COLOR_SPACE_SRGB_NONLINEAR },
        SurfaceFormat { format: 44, color_space: COLOR_SPACE_SRGB_NONLINEAR },
    ];
    let chosen = get_swapchain_surface_format(&formats);
    assert_eq!(chosen.format, FORMAT_B8G8R8A8_SRGB);
    assert_eq!(chosen.color_space, COLOR_SPACE_SRGB_NONLINEAR);
}

#[test]
fn surface_format_falls_back_to_first() {
    let formats = vec![
        SurfaceFormat { format: 44, color_space: 9 },
        SurfaceFormat { format: 45, color_space: 8 },
    ];
    let chosen = get_swapchain_surface_format(&formats);
    assert_eq!(chosen, SurfaceFormat { format: 44, color_space: 9 });
}

#[test]
fn present_mode_prefers_mailbox() {
    let modes = vec![PRESENT_MODE_FIFO, PRESENT_MODE_MAILBOX];
    assert_eq!(get_swapchain_present_mode(&modes), PRESENT_MODE_MAILBOX);
}

#[test]
fn present_mode_falls_back_to_fifo() {
    let modes = vec![PRESENT_MODE_FIFO, 3];
    assert_eq!(get_swapchain_present_mode(&modes), PRESENT_MODE_FIFO);
    let none: Vec<u32> = Vec::new();
    assert_eq!(get_swapchain_present_mode(&none), PRESENT_MODE_FIFO);
}

#[test]
fn extent_uses_concrete_current_extent() {
    let cap = capabilities(Extent2d { width: 640, height: 480 }, 2, 0);
    let extent = get_swapchain_extent(Extent2d { width: 5, height: 5000 }, &cap);
    assert_eq!(extent, Extent2d { width: 640, height: 480 });
}

#[test]
fn extent_clamps_window_size_on_sentinel() {
    let cap = capabilities(Extent2d { width: u32::MAX, height: 77 }, 2, 0);
    let extent = get_swapchain_extent(Extent2d { width: 50, height: 1700 }, &cap);
    assert_eq!(extent, Extent2d { width: 100, height: 1500 });
    let inside = get_swapchain_extent(Extent2d { width: 1024, height: 768 }, &cap);
    assert_eq!(inside, Extent2d { width: 1024, height: 768 });
}

#[test]
fn image_count_uncapped_is_min_plus_one() {
    let cap = capabilities(Extent2d { width: 640, height: 480 }, 2, 0);
    assert_eq!(swapchain_image_count(&cap), 3);
}

#[test]
fn image_count_capped_at_max() {
    let cap = capabilities(Extent2d { width: 640, height: 480 }, 2, 2);
    assert_eq!(swapchain_image_count(&cap), 2);
    let roomy = capabilities(Extent2d { width: 640, height: 480 }, 2, 8);
    assert_eq!(swapchain_image_count(&roomy), 3);
}

#[test]
fn sharing_concurrent_only_when_families_differ() {
    let (mode, families) = sharing_plan(QueueFamilyIndices { graphics: 0, present: 2 });
    assert_eq!(mode, SharingMode::Concurrent);
    assert_eq!(families, vec![0, 2]);

    let (mode, families) = sharing_plan(QueueFamilyIndices { graphics: 1, present: 1 });
    assert_eq!(mode, SharingMode::Exclusive);
    assert!(families.is_empty());
}

#[test]
fn swapchain_plan_combines_all_selections() {
    let support = SwapchainSupport {
        capabilities: capabilities(Extent2d { width: u32::MAX, height: 0 }, 2, 2),
        formats: vec![
            SurfaceFormat { format: 44, color_space: 9 },
            SurfaceFormat { format: FORMAT_B8G8R8A8_SRGB, color_space: COLOR_SPACE_SRGB_NONLINEAR },
        ],
        present_modes: vec![PRESENT_MODE_MAILBOX, PRESENT_MODE_FIFO],
    };
    let plan = plan_swapchain(
        &support,
        Extent2d { width: 1024, height: 768 },
        QueueFamilyIndices { graphics: 0, present: 1 },
    );
    assert_eq!(
        plan.surface_format,
        SurfaceFormat { format: FORMAT_B8G8R8A8_SRGB, color_space: COLOR_SPACE_SRGB_NONLINEAR }
    );
    assert_eq!(plan.present_mode, PRESENT_MODE_MAILBOX);
    assert_eq!(plan.extent, Extent2d { width: 1024, height: 768 });
    assert_eq!(plan.image_count, 2);
    assert_eq!(plan.sharing_mode, SharingMode::Concurrent);
    assert_eq!(plan.queue_family_indices, vec![0, 1]);
}

#[test]
fn swapchain_state_requires_matching_counts() {
    let ok = SwapchainState::assemble(
        FORMAT_B8G8R8A8_SRGB,
        Extent2d { width: 640, height: 480 },
        vec![10, 11, 12],
        vec![20, 21, 22],
        vec![30, 31, 32],
    );
    let state = ok.unwrap();
    assert_eq!(state.image_count(), 3);

    let bad = SwapchainState::assemble(
        FORMAT_B8G8R8A8_SRGB,
        Extent2d { width: 640, height: 480 },
        vec![10, 11, 12],
        vec![20, 21],
        vec![30, 31, 32],
    );
    assert_eq!(bad.unwrap_err(), RenderError::MismatchedSwapchainResources);
}
