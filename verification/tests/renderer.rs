//! Building the full object chain, rendering, resizing and tearing
//! down.

use titan_engine::chain::ResourceKind;
use titan_engine::error::Error;
use titan_engine::events::{handle_event, LoopAction, WindowSignal};
use titan_engine::instance::{plan_instance, resolve_api_version};
use titan_engine::renderer::{recorded_commands, DrawCommand, Renderer};
use titan_engine::resource;
use titan_engine::version::Version;

/// Builds the complete chain with 3 swapchain images and 2 frame slots,
/// using distinct native handles throughout.
fn build_renderer() -> Renderer {
    let mut renderer = Renderer::new();
    renderer
        .attach_instance(resource::Instance {
            handle: 100,
            version: Version::new(1, 2, 0),
            layers: Vec::new(),
            extensions: Vec::new(),
        })
        .unwrap();
    renderer.attach_debug_utils(101).unwrap();
    renderer.attach_surface(102).unwrap();
    let keep = renderer
        .add_physical_device(titan_engine::selection::PhysicalDeviceInfo {
            handle: 103,
            type_rank: 5,
            queue_families: vec![titan_engine::selection::QueueFamilyProperties {
                graphics: true,
                present: true,
            }],
        })
        .unwrap();
    let reject = renderer
        .add_physical_device(titan_engine::selection::PhysicalDeviceInfo {
            handle: 104,
            type_rank: 9,
            queue_families: vec![titan_engine::selection::QueueFamilyProperties {
                graphics: true,
                present: false,
            }],
        })
        .unwrap();
    let selected = renderer.select_device().unwrap();
    assert_eq!(selected, keep);
    assert!(!renderer.physical_devices.contains(reject));
    renderer.attach_device(105).unwrap();
    renderer.attach_queue(106).unwrap();
    renderer.attach_swapchain(107, 44, 800, 600).unwrap();
    for i in 0..3u64 {
        renderer.attach_image(110 + i).unwrap();
    }
    for i in 0..3u64 {
        renderer.attach_image_view(120 + i).unwrap();
    }
    renderer.attach_render_pass(130).unwrap();
    renderer.attach_pipeline_layout(131).unwrap();
    renderer.attach_graphics_pipeline(132).unwrap();
    for i in 0..3u64 {
        renderer.attach_framebuffer(140 + i).unwrap();
    }
    renderer.attach_command_pool(150).unwrap();
    for i in 0..3u64 {
        renderer.attach_command_buffer(160 + i).unwrap();
    }
    for i in 0..2u64 {
        renderer
            .attach_frame_slot(170 + i, 180 + i, 190 + i)
            .unwrap();
    }
    renderer.finish().unwrap();
    renderer
}

#[test]
fn build_then_teardown_reverses_creation_order() {
    let renderer = build_renderer();
    let steps = renderer.teardown();
    // Every constructed object is destroyed exactly once.
    let mut handles: Vec<u64> = steps.iter().map(|s| s.handle).collect();
    let count = handles.len();
    handles.sort();
    handles.dedup();
    assert_eq!(handles.len(), count);
    // Destruction runs in strict reverse dependency order: the fences
    // and semaphores go first, the instance last.
    assert_eq!(steps.first().unwrap().kind, ResourceKind::Fence);
    assert_eq!(steps.last().unwrap().kind, ResourceKind::Instance);
    let kinds: Vec<ResourceKind> = steps.iter().map(|s| s.kind).collect();
    let instance_at = kinds.iter().position(|k| *k == ResourceKind::Instance).unwrap();
    let device_at = kinds.iter().position(|k| *k == ResourceKind::Device).unwrap();
    let swapchain_at = kinds.iter().position(|k| *k == ResourceKind::Swapchain).unwrap();
    let image_at = kinds.iter().position(|k| *k == ResourceKind::Image).unwrap();
    let view_at = kinds.iter().position(|k| *k == ResourceKind::ImageView).unwrap();
    // Children precede their parents in the teardown sequence.
    assert!(view_at < image_at);
    assert!(image_at < swapchain_at);
    assert!(swapchain_at < device_at);
    assert!(device_at < instance_at);
}

#[test]
fn failure_path_tears_down_partial_chain() {
    // Abort after the surface: the partial chain still tears down in
    // reverse order.
    let mut renderer = Renderer::new();
    renderer
        .attach_instance(resource::Instance {
            handle: 1,
            version: Version::new(1, 0, 0),
            layers: Vec::new(),
            extensions: Vec::new(),
        })
        .unwrap();
    renderer.attach_surface(2).unwrap();
    let steps = renderer.teardown();
    assert_eq!(steps.len(), 2);
    assert_eq!(steps[0].kind, ResourceKind::Surface);
    assert_eq!(steps[0].handle, 2);
    assert_eq!(steps[1].kind, ResourceKind::Instance);
    assert_eq!(steps[1].handle, 1);
}

#[test]
fn render_follows_frame_protocol() {
    let mut renderer = build_renderer();
    let first = renderer.render(0).unwrap();
    assert_eq!(first.frame_slot, 0);
    assert_eq!(first.extra_wait_fence, None);
    let second = renderer.render(1).unwrap();
    assert_eq!(second.frame_slot, 1);
    let third = renderer.render(1).unwrap();
    // The third call reacquires image 1, still owned by frame fence 1.
    assert_eq!(third.frame_slot, 0);
    assert_eq!(third.extra_wait_fence, Some(1));
    // An image index outside the swapchain is a steady-state failure.
    assert_eq!(renderer.render(3), Err(Error::RenderFailed));
}

#[test]
fn handle_lookups_resolve() {
    let renderer = build_renderer();
    assert_eq!(renderer.device_handle(), Ok(105));
    assert_eq!(renderer.swapchain_handle(), Ok(107));
    assert_eq!(renderer.queue_handle(0), Ok(106));
    assert_eq!(renderer.command_buffer_handle(2), Ok(162));
    assert_eq!(renderer.image_available_semaphore_handle(1), Ok(171));
    assert_eq!(renderer.render_finished_semaphore_handle(0), Ok(180));
    assert_eq!(renderer.fence_handle(1), Ok(191));
    assert_eq!(renderer.fence_handle(2), Err(Error::KeyNotFound));
}

#[test]
fn wait_is_a_device_idle_barrier() {
    let mut renderer = build_renderer();
    let _ = renderer.render(0).unwrap();
    assert_eq!(renderer.wait(), Ok(()));
}

#[test]
fn attach_requires_parents() {
    let mut renderer = Renderer::new();
    assert_eq!(renderer.attach_surface(1), Err(Error::KeyNotFound));
    assert_eq!(renderer.attach_device(2), Err(Error::KeyNotFound));
    assert_eq!(renderer.attach_render_pass(3), Err(Error::KeyNotFound));
}

#[test]
fn zero_sized_resize_is_a_no_op() {
    let mut renderer = build_renderer();
    assert!(!renderer.resize(0, 600));
    assert!(!renderer.resize(800, 0));
    assert!(renderer.resize(800, 600));
    // The zero-size event is not forwarded as a resize either.
    assert_eq!(
        handle_event(WindowSignal::Resized { width: 0, height: 600 }),
        LoopAction::NotifyMinimized
    );
    assert_eq!(
        handle_event(WindowSignal::Resized { width: 800, height: 600 }),
        LoopAction::RebuildAndNotify { width: 800, height: 600 }
    );
    assert_eq!(
        handle_event(WindowSignal::RedrawReady { width: 0, height: 0 }),
        LoopAction::Skip
    );
    assert_eq!(handle_event(WindowSignal::CloseRequested), LoopAction::Exit);
}

#[test]
fn static_command_recording() {
    let commands = recorded_commands();
    assert_eq!(
        commands,
        vec![
            DrawCommand::Begin,
            DrawCommand::BeginRenderPass {
                clear_red: 0,
                clear_green: 0,
                clear_blue: 0,
                clear_alpha: 255,
            },
            DrawCommand::BindPipeline,
            DrawCommand::Draw {
                vertex_count: 3,
                instance_count: 1,
                first_vertex: 0,
                first_instance: 0,
            },
            DrawCommand::EndRenderPass,
            DrawCommand::End,
        ]
    );
}

#[test]
fn instance_plan_enables_validation_and_surface_extensions() {
    let available = vec!["VK_EXT_debug_utils".to_owned(), "other".to_owned()];
    let surface = vec!["VK_KHR_surface".to_owned(), "VK_KHR_xlib_surface".to_owned()];
    let plan = plan_instance(true, &available, &surface);
    assert_eq!(plan.enabled_layers, vec!["VK_LAYER_KHRONOS_validation".to_owned()]);
    assert_eq!(
        plan.enabled_extensions,
        vec![
            "VK_EXT_debug_utils".to_owned(),
            "VK_KHR_surface".to_owned(),
            "VK_KHR_xlib_surface".to_owned(),
        ]
    );
    // Without validation, exactly the surface extensions are enabled.
    let bare = plan_instance(false, &available, &surface);
    assert!(bare.enabled_layers.is_empty());
    assert_eq!(bare.enabled_extensions, surface);
    // With validation but no debug extension on the driver, the layer
    // alone is enabled.
    let no_debug = plan_instance(true, &vec!["other".to_owned()], &surface);
    assert_eq!(no_debug.enabled_layers.len(), 1);
    assert_eq!(no_debug.enabled_extensions, surface);
}

#[test]
fn api_version_resolution() {
    let reported = (1u32 << 22) | (2u32 << 12) | 131;
    assert_eq!(resolve_api_version(Some(reported)), Version::new(1, 2, 131));
    // The documented floor when the driver reports nothing.
    assert_eq!(resolve_api_version(None), Version::new(1, 0, 0));
}
