use oxide_renderer::device::{
    check_physical_device, check_physical_device_extensions, depth_format_candidates,
    get_depth_format, get_max_msaa_samples, get_memory_type_index, get_supported_format,
    pick_physical_device, swapchain_extension_name, unique_queue_indices, DeviceProfile,
    FormatProperties, ImageTiling, QueueFamily, QueueFamilyIndices,
    FEATURE_DEPTH_STENCIL_ATTACHMENT, FORMAT_D24_UNORM_S8_UINT, FORMAT_D32_SFLOAT,
    FORMAT_D32_SFLOAT_S8_UINT,
};
use oxide_renderer::error::RenderError;
use oxide_renderer::swapchain::{
    Extent2d, SurfaceCapabilities, SurfaceFormat, SwapchainSupport,
};

fn family(graphics: bool, present: bool) -> QueueFamily {
    QueueFamily { supports_graphics: graphics, supports_present: present }
}

fn some_support() -> SwapchainSupport {
    SwapchainSupport {
        capabilities: SurfaceCapabilities {
            min_image_count: 2,
            max_image_count: 0,
            current_extent: Extent2d { width: 640, height: 480 },
            min_image_extent: Extent2d { width: 1, height: 1 },
            max_image_extent: Extent2d { width: 4096, height: 4096 },
        },
        formats: vec![SurfaceFormat { format: 44, color_space: 0 }],
        present_modes: vec![2],
    }
}

fn suitable_profile() -> DeviceProfile {
    DeviceProfile {
        queue_families: vec![family(false, true), family(true, false)],
        extensions: vec![String::from("VK_KHR_swapchain")],
        support: some_support(),
        sampler_anisotropy: true,
    }
}

#[test]
fn queue_families_picks_first_of_each() {
    let families = vec![family(false, true), family(true, true), family(true, false)];
    let indices = QueueFamilyIndices::get(&families).unwrap();
    assert_eq!(indices.graphics, 1);
    assert_eq!(indices.present, 0);
}

#[test]
fn queue_families_missing_is_an_error() {
    let families = vec![family(false, true), family(false, true)];
    let err = QueueFamilyIndices::get(&families).unwrap_err();
    assert_eq!(err.message(), "Missing required queue families.");
}

#[test]
fn extension_check_needs_swapchain() {
    let offered = vec![String::from("VK_KHR_maintenance1"), swapchain_extension_name()];
    assert!(check_physical_device_extensions(&offered).is_ok());

    let missing = vec![String::from("VK_KHR_maintenance1")];
    let err = check_physical_device_extensions(&missing).unwrap_err();
    assert_eq!(err.message(), "Missing required device extensions.");
}

#[test]
fn device_check_reports_first_failing_criterion() {
    assert!(check_physical_device(&suitable_profile()).is_ok());

    let mut no_ext = suitable_profile();
    no_ext.extensions = vec![String::from("VK_KHR_maintenance1")];
    assert_eq!(
        check_physical_device(&no_ext).unwrap_err().message(),
        "Missing required device extensions."
    );

    let mut no_modes = suitable_profile();
    no_modes.support.present_modes = Vec::new();
    assert_eq!(
        check_physical_device(&no_modes).unwrap_err().message(),
        "Insufficient swapchain support."
    );

    let mut no_aniso = suitable_profile();
    no_aniso.sampler_anisotropy = false;
    assert_eq!(
        check_physical_device(&no_aniso).unwrap_err().message(),
        "No sampler anisotropy."
    );
}

#[test]
fn pick_takes_first_suitable_device() {
    let mut unsuitable = suitable_profile();
    unsuitable.sampler_anisotropy = false;
    let profiles = vec![unsuitable, suitable_profile(), suitable_profile()];
    assert_eq!(pick_physical_device(&profiles).unwrap(), 1);
}

#[test]
fn pick_fails_when_no_device_qualifies() {
    let mut unsuitable = suitable_profile();
    unsuitable.support.formats = Vec::new();
    let profiles = vec![unsuitable];
    assert_eq!(pick_physical_device(&profiles).unwrap_err(), RenderError::NoSuitableDevice);
    let none: Vec<DeviceProfile> = Vec::new();
    assert_eq!(pick_physical_device(&none).unwrap_err(), RenderError::NoSuitableDevice);
}

#[test]
fn unified_queue_family_yields_one_request() {
    assert_eq!(unique_queue_indices(QueueFamilyIndices { graphics: 3, present: 3 }), vec![3]);
    assert_eq!(unique_queue_indices(QueueFamilyIndices { graphics: 0, present: 2 }), vec![0, 2]);
}

#[test]
fn memory_type_picks_first_allowed_with_properties() {
    // Types 0 and 1 are allowed by the requirements; only type 1 has both
    // requested property bits.
    let types = vec![0b01, 0b11, 0b11];
    let index = get_memory_type_index(0b011, &types, 0b11).unwrap();
    assert_eq!(index, 1);
}

#[test]
fn memory_type_exhaustion_is_fatal() {
    let types = vec![0b01, 0b01];
    let err = get_memory_type_index(0b11, &types, 0b10).unwrap_err();
    assert_eq!(err, RenderError::NoSuitableMemoryType);
}

#[test]
fn supported_format_respects_tiling() {
    let candidates = vec![7, 8];
    let props = vec![
        FormatProperties { linear_tiling_features: 0x200, optimal_tiling_features: 0 },
        FormatProperties { linear_tiling_features: 0, optimal_tiling_features: 0x200 },
    ];
    assert_eq!(
        get_supported_format(&candidates, &props, ImageTiling::Optimal, 0x200).unwrap(),
        8
    );
    assert_eq!(
        get_supported_format(&candidates, &props, ImageTiling::Linear, 0x200).unwrap(),
        7
    );
    assert_eq!(
        get_supported_format(&candidates, &props, ImageTiling::Linear, 0x201).unwrap_err(),
        RenderError::NoSupportedFormat
    );
}

#[test]
fn depth_format_prefers_candidates_in_order() {
    let candidates = depth_format_candidates();
    assert_eq!(
        candidates,
        vec![FORMAT_D32_SFLOAT, FORMAT_D32_SFLOAT_S8_UINT, FORMAT_D24_UNORM_S8_UINT]
    );

    let none = FormatProperties { linear_tiling_features: 0, optimal_tiling_features: 0 };
    let depth = FormatProperties {
        linear_tiling_features: 0,
        optimal_tiling_features: FEATURE_DEPTH_STENCIL_ATTACHMENT,
    };
    assert_eq!(get_depth_format(&vec![none, depth, depth]).unwrap(), FORMAT_D32_SFLOAT_S8_UINT);
    assert_eq!(
        get_depth_format(&vec![none, none, none]).unwrap_err(),
        RenderError::NoSupportedFormat
    );
}

#[test]
fn msaa_takes_largest_shared_sample_count() {
    assert_eq!(get_max_msaa_samples(0b1111111, 0b0001111), 8);
    assert_eq!(get_max_msaa_samples(64, 64), 64);
    assert_eq!(get_max_msaa_samples(0b10, 0b10), 2);
    assert_eq!(get_max_msaa_samples(0b1, 0b1), 1);
    assert_eq!(get_max_msaa_samples(64, 32), 1);
}
