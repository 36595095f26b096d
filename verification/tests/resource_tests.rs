use oxide_renderer::buffer::{
    staged_upload_plan, MEMORY_DEVICE_LOCAL, MEMORY_HOST_COHERENT, MEMORY_HOST_VISIBLE,
    USAGE_TRANSFER_DST, USAGE_TRANSFER_SRC, USAGE_VERTEX_BUFFER,
};
use oxide_renderer::error::RenderError;
use oxide_renderer::handles::HandleRegistry;
use oxide_renderer::instance::{
    check_validation_layer, classify_debug_severity, instance_plan, LogLevel,
    CREATE_ENUMERATE_PORTABILITY, SEVERITY_ERROR, SEVERITY_INFO, SEVERITY_VERBOSE,
    SEVERITY_WARNING,
};
use oxide_renderer::pipeline::{
    pipeline_plan, render_pass_plan, vertex_layout, PushConstantRange, LAYOUT_PRESENT_SRC,
    LOAD_OP_CLEAR, SHADER_STAGE_FRAGMENT, SHADER_STAGE_VERTEX, STORE_OP_DONT_CARE, STORE_OP_STORE,
    SUBPASS_EXTERNAL,
};
use oxide_renderer::swapchain::Extent2d;
use oxide_renderer::uniform::UniformStore;

#[test]
fn destroy_releases_every_handle_exactly_once() {
    let mut registry = HandleRegistry::new();
    for expected in 0..5 {
        let handle = registry.register();
        assert_eq!(handle, expected);
    }
    // One handle is torn down early, as a staging buffer is.
    registry.release(2);

    registry.release_all();

    // No leaks: nothing is still owned.
    assert!(registry.live.iter().all(|live| !live));
    // Every handle released exactly once: each id appears once in the log.
    let mut seen = vec![0usize; 5];
    for &h in &registry.release_log {
        seen[h] += 1;
    }
    assert_eq!(seen, vec![1, 1, 1, 1, 1]);
    // Teardown ran in the reverse of creation order.
    assert_eq!(registry.release_log, vec![2, 4, 3, 1, 0]);
}

#[test]
fn release_all_on_empty_registry_is_a_no_op() {
    let mut registry = HandleRegistry::new();
    registry.release_all();
    assert!(registry.release_log.is_empty());
}

#[test]
fn uniform_round_trip_is_bit_identical() {
    // A view/projection pair: 32 floats, 128 bytes, as the renderer writes
    // each frame.
    let view: [f32; 16] = [
        1.0, 0.0, 0.0, 0.0, //
        0.0, -1.0, 0.0, 0.0, //
        0.0, 0.0, 0.5, 0.0, //
        -3.25, 7.5, 0.5, 1.0,
    ];
    let projection: [f32; 16] = [
        0.75, 0.0, 0.0, 0.0, //
        0.0, 1.0, 0.0, 0.0, //
        0.0, 0.0, 1.0001, -1.0, //
        0.0, 0.0, 0.10001, 0.0,
    ];
    let mut block: Vec<u8> = Vec::new();
    for value in view.iter().chain(projection.iter()) {
        block.extend_from_slice(&value.to_ne_bytes());
    }

    let mut store = UniformStore::new(3, 128);
    assert_eq!(store.buffer_count(), 3);
    store.write(1, &block);

    let back = store.read(1);
    assert_eq!(back, block);
    for (i, value) in view.iter().chain(projection.iter()).enumerate() {
        let mut bytes = [0u8; 4];
        bytes.copy_from_slice(&back[4 * i..4 * i + 4]);
        let read = f32::from_ne_bytes(bytes);
        assert_eq!(read.to_bits(), value.to_bits());
    }

    // The other slots still hold their zeroed blocks.
    assert_eq!(store.read(0), vec![0u8; 128]);
    assert_eq!(store.read(2), vec![0u8; 128]);
}

#[test]
fn validation_layer_must_be_offered_when_requested() {
    let offered = vec![String::from("VK_LAYER_KHRONOS_validation")];
    assert!(check_validation_layer(true, &offered).is_ok());

    let missing = vec![String::from("VK_LAYER_other")];
    assert_eq!(
        check_validation_layer(true, &missing).unwrap_err(),
        RenderError::ValidationLayerUnavailable
    );
    // Without diagnostics requested, the layer need not exist.
    assert!(check_validation_layer(false, &missing).is_ok());
}

#[test]
fn instance_plan_follows_build_and_platform() {
    let debug = instance_plan(true, false);
    assert!(debug.enable_debug_utils);
    assert!(!debug.enable_portability);
    assert_eq!(debug.create_flags, 0);

    let portable = instance_plan(false, true);
    assert!(!portable.enable_debug_utils);
    assert!(portable.enable_portability);
    assert_eq!(portable.create_flags, CREATE_ENUMERATE_PORTABILITY);
}

#[test]
fn diagnostics_route_by_severity() {
    assert_eq!(classify_debug_severity(SEVERITY_ERROR), LogLevel::Error);
    assert_eq!(classify_debug_severity(SEVERITY_WARNING), LogLevel::Warn);
    assert_eq!(classify_debug_severity(SEVERITY_INFO), LogLevel::Debug);
    assert_eq!(classify_debug_severity(SEVERITY_VERBOSE), LogLevel::Trace);
    assert_eq!(classify_debug_severity(0), LogLevel::Trace);
}

#[test]
fn render_pass_plan_matches_contract() {
    let plan = render_pass_plan(50, 126, 1);
    assert_eq!(plan.color.format, 50);
    assert_eq!(plan.color.load_op, LOAD_OP_CLEAR);
    assert_eq!(plan.color.store_op, STORE_OP_STORE);
    assert_eq!(plan.color.final_layout, LAYOUT_PRESENT_SRC);
    assert_eq!(plan.depth.format, 126);
    assert_eq!(plan.depth.load_op, LOAD_OP_CLEAR);
    assert_eq!(plan.depth.store_op, STORE_OP_DONT_CARE);
    assert_eq!(plan.dependency.src_subpass, SUBPASS_EXTERNAL);
    assert_eq!(plan.dependency.dst_subpass, 0);
    assert_eq!(plan.dependency.src_access_mask, 0);
}

#[test]
fn pipeline_plan_fixes_function_state() {
    let extent = Extent2d { width: 1024, height: 768 };
    let plan = pipeline_plan(extent);
    assert_eq!(plan.viewport_extent, extent);
    assert_eq!(plan.scissor_extent, extent);
    assert!(!plan.blend_enabled);
    assert_eq!(
        plan.model_range,
        PushConstantRange { stage: SHADER_STAGE_VERTEX, offset: 0, size: 64 }
    );
    assert_eq!(
        plan.opacity_range,
        PushConstantRange { stage: SHADER_STAGE_FRAGMENT, offset: 64, size: 4 }
    );
}

#[test]
fn vertex_layout_packs_position_color_texcoord() {
    let layout = vertex_layout();
    assert_eq!(layout.stride, 32);
    assert_eq!(layout.position.offset, 0);
    assert_eq!(layout.color.offset, 12);
    assert_eq!(layout.tex_coord.offset, 24);
}

#[test]
fn static_uploads_always_take_the_staging_path() {
    let plan = staged_upload_plan(4096, USAGE_VERTEX_BUFFER);
    assert_eq!(plan.size, 4096);
    assert_eq!(plan.staging_usage, USAGE_TRANSFER_SRC);
    assert_eq!(plan.staging_properties, MEMORY_HOST_VISIBLE | MEMORY_HOST_COHERENT);
    assert_eq!(plan.destination_usage, USAGE_TRANSFER_DST | USAGE_VERTEX_BUFFER);
    assert_eq!(plan.destination_properties, MEMORY_DEVICE_LOCAL);
}
