use rmge::error::DeviceInitError;
use rmge::geometry::{Quad, Vec2};
use rmge::graphics::frame::FramePhase;
use rmge::graphics::swapchain::{
    build_swapchain_settings, CompositeAlpha, Extent2D, SurfaceCaps, SurfaceFormat, RGBA8_SRGB_ID,
};
use rmge::graphics::pipeline::{BlendMode, Topology};
use rmge::graphics::vertex::{AttrFormat, UvRect, Vertex, UV_ONE, UV_ZERO};
use rmge::graphics::{HalState, PresentMode, TeardownStep, TexturedQuad, Vsync};

fn base_caps() -> SurfaceCaps {
    SurfaceCaps {
        has_graphics_queue: true,
        min_image_count: 2,
        max_image_count: 8,
        min_extent: Extent2D { width: 16, height: 16 },
        max_extent: Extent2D { width: 2048, height: 2048 },
        supports_color_attachment: true,
        present_modes: vec![PresentMode::Fifo, PresentMode::Mailbox],
        composite_alphas: vec![CompositeAlpha::PostMultiplied, CompositeAlpha::Inherit],
        formats: Some(vec![
            SurfaceFormat { id: 44, srgb: false },
            SurfaceFormat { id: 50, srgb: true },
            SurfaceFormat { id: 51, srgb: true },
        ]),
    }
}

fn uv_quad(uv_rect: UvRect) -> TexturedQuad {
    let p = |x: f32, y: f32| Vec2 { x: x.to_bits(), y: y.to_bits() };
    TexturedQuad {
        quad: Quad {
            top_left: p(-0.25, 0.75),
            bottom_left: p(-0.25, 0.25),
            bottom_right: p(0.25, 0.25),
            top_right: p(0.25, 0.75),
        },
        uv_rect,
        tex_num: 0,
    }
}

#[test]
fn scenario_initial_capacity_one_draw_three_quads() {
    let mut engine = HalState::new(
        &base_caps(),
        Extent2D { width: 800, height: 600 },
        1,
        &vec![PresentMode::Fifo],
    )
    .unwrap();
    assert_eq!(engine.buffers.cap, 1);
    let quads = vec![
        uv_quad(UvRect { u0: 0, v0: 0, u1: 0, v1: 0 }),
        uv_quad(UvRect { u0: 0, v0: 0, u1: 0, v1: 0 }),
        uv_quad(UvRect { u0: 0, v0: 0, u1: 0, v1: 0 }),
    ];
    let mut session = engine.draw_quad_frame(&quads).unwrap();
    // The buffers grew before anything was recorded.
    assert!(engine.buffers.cap >= 3);
    assert_eq!(session.plan.index_count, 18);
    session.image_acquired(Some(0)).unwrap();
    session.fence_synced(true, true).unwrap();
    session.vertices_written(true).unwrap();
    session.presented(true).unwrap();
    assert_eq!(session.phase, FramePhase::Complete);
}

#[test]
fn scenario_surface_lost_then_recreate_and_draw() {
    let caps = base_caps();
    let window = Extent2D { width: 800, height: 600 };
    let prefs = vec![PresentMode::Fifo];
    let mut engine = HalState::new(&caps, window, 4, &prefs).unwrap();
    let quads = vec![uv_quad(UvRect { u0: 0, v0: 0, u1: 0, v1: 0 })];
    let mut session = engine.draw_quad_frame(&quads).unwrap();
    let r = session.image_acquired(None);
    assert_eq!(r, Err(rmge::error::FrameError::SwapchainInvalidated));
    // Recreate the engine against the same window and draw again.
    let mut engine = HalState::new(&caps, window, 4, &prefs).unwrap();
    let mut session = engine.draw_quad_frame(&quads).unwrap();
    session.image_acquired(Some(0)).unwrap();
    session.fence_synced(true, true).unwrap();
    session.vertices_written(true).unwrap();
    session.presented(true).unwrap();
    assert_eq!(session.phase, FramePhase::Complete);
}

#[test]
fn uv_round_trip_corners_and_rect() {
    let rect = UvRect {
        u0: 3.5f32.to_bits(),
        v0: 7.25f32.to_bits(),
        u1: 96.0f32.to_bits(),
        v1: 128.5f32.to_bits(),
    };
    let q = uv_quad(rect);
    let vs = q.to_vertices();
    // UV coordinates are the corners of [0,1]x[0,1], not of the rect.
    assert_eq!((vs[0].uv.x, vs[0].uv.y), (0f32.to_bits(), 1f32.to_bits()));
    assert_eq!((vs[1].uv.x, vs[1].uv.y), (0f32.to_bits(), 0f32.to_bits()));
    assert_eq!((vs[2].uv.x, vs[2].uv.y), (1f32.to_bits(), 0f32.to_bits()));
    assert_eq!((vs[3].uv.x, vs[3].uv.y), (1f32.to_bits(), 1f32.to_bits()));
    assert_eq!(UV_ZERO, 0f32.to_bits());
    assert_eq!(UV_ONE, 1f32.to_bits());
    for v in vs {
        assert_eq!(v.uv_rect, rect);
    }
    // The pushed constant is the rect, unchanged.
    let mut engine = HalState::new(
        &base_caps(),
        Extent2D { width: 800, height: 600 },
        4,
        &vec![PresentMode::Fifo],
    )
    .unwrap();
    let session = engine.draw_quad_frame(&vec![q]).unwrap();
    assert_eq!(session.plan.push_constants, rect);
}

#[test]
fn present_mode_preference_order_wins() {
    let caps = base_caps();
    let window = Extent2D { width: 100, height: 100 };
    let s = build_swapchain_settings(
        &caps,
        window,
        &vec![PresentMode::Immediate, PresentMode::Mailbox, PresentMode::Fifo],
    )
    .unwrap();
    // Immediate is unsupported; Mailbox is the next preference.
    assert_eq!(s.present_mode, PresentMode::Mailbox);
    assert_eq!(s.image_count, 3);
    let s = build_swapchain_settings(&caps, window, &vec![PresentMode::Fifo]).unwrap();
    assert_eq!(s.present_mode, PresentMode::Fifo);
    assert_eq!(s.image_count, 2);
}

#[test]
fn no_requested_present_mode_fails_construction() {
    let caps = base_caps();
    let r = HalState::new(
        &caps,
        Extent2D { width: 100, height: 100 },
        1,
        &vec![PresentMode::Immediate, PresentMode::Relaxed],
    );
    assert_eq!(r.unwrap_err(), DeviceInitError::NoSupportedPresentMode);
}

#[test]
fn missing_graphics_queue_fails_construction() {
    let mut caps = base_caps();
    caps.has_graphics_queue = false;
    let r = HalState::new(&caps, Extent2D { width: 100, height: 100 }, 1, &vec![PresentMode::Fifo]);
    assert_eq!(r.unwrap_err(), DeviceInitError::NoGraphicsQueue);
}

#[test]
fn missing_color_attachment_fails_construction() {
    let mut caps = base_caps();
    caps.supports_color_attachment = false;
    let r = HalState::new(&caps, Extent2D { width: 100, height: 100 }, 1, &vec![PresentMode::Fifo]);
    assert_eq!(r.unwrap_err(), DeviceInitError::ColorAttachmentUnsupported);
}

#[test]
fn missing_composite_alpha_fails_construction() {
    let mut caps = base_caps();
    caps.composite_alphas = vec![];
    let r = HalState::new(&caps, Extent2D { width: 100, height: 100 }, 1, &vec![PresentMode::Fifo]);
    assert_eq!(r.unwrap_err(), DeviceInitError::NoCompositeAlpha);
}

#[test]
fn composite_alpha_fixed_preference_order() {
    let caps = base_caps();
    let s = build_swapchain_settings(
        &caps,
        Extent2D { width: 100, height: 100 },
        &vec![PresentMode::Fifo],
    )
    .unwrap();
    // Inherit precedes PostMultiplied in the fixed order.
    assert_eq!(s.composite_alpha, CompositeAlpha::Inherit);
}

#[test]
fn format_prefers_srgb_else_first_else_fallback() {
    let window = Extent2D { width: 100, height: 100 };
    let prefs = vec![PresentMode::Fifo];
    // The first sRGB variant wins.
    let s = build_swapchain_settings(&base_caps(), window, &prefs).unwrap();
    assert_eq!(s.format, SurfaceFormat { id: 50, srgb: true });
    // No sRGB variant: the first reported format.
    let mut caps = base_caps();
    caps.formats = Some(vec![
        SurfaceFormat { id: 44, srgb: false },
        SurfaceFormat { id: 45, srgb: false },
    ]);
    let s = build_swapchain_settings(&caps, window, &prefs).unwrap();
    assert_eq!(s.format, SurfaceFormat { id: 44, srgb: false });
    // No reported formats at all: the hard fallback.
    caps.formats = None;
    let s = build_swapchain_settings(&caps, window, &prefs).unwrap();
    assert_eq!(s.format, SurfaceFormat { id: RGBA8_SRGB_ID, srgb: true });
    caps.formats = Some(vec![]);
    let s = build_swapchain_settings(&caps, window, &prefs).unwrap();
    assert_eq!(s.format, SurfaceFormat { id: RGBA8_SRGB_ID, srgb: true });
}

#[test]
fn extent_is_clamped_to_caps_and_window() {
    let caps = base_caps();
    let prefs = vec![PresentMode::Fifo];
    let s = build_swapchain_settings(&caps, Extent2D { width: 8000, height: 4 }, &prefs).unwrap();
    assert_eq!(s.extent, Extent2D { width: 2048, height: 16 });
    let s = build_swapchain_settings(&caps, Extent2D { width: 640, height: 480 }, &prefs).unwrap();
    assert_eq!(s.extent, Extent2D { width: 640, height: 480 });
}

#[test]
fn image_count_clamps_to_capability_range() {
    let mut caps = base_caps();
    caps.min_image_count = 4;
    caps.max_image_count = 6;
    let s = build_swapchain_settings(
        &caps,
        Extent2D { width: 100, height: 100 },
        &vec![PresentMode::Fifo],
    )
    .unwrap();
    // The bias of 2 lies below the range: the range's floor wins.
    assert_eq!(s.image_count, 4);
    let mut engine = HalState::new(
        &caps,
        Extent2D { width: 100, height: 100 },
        1,
        &vec![PresentMode::Fifo],
    )
    .unwrap();
    assert_eq!(engine.frames_in_flight, 4);
    assert_eq!(engine.draw_clear_frame(rmge::graphics::frame::ClearColor {
        r: 0, g: 0, b: 0, a: 0,
    }).slot, 0);
}

#[test]
fn vsync_maps_to_present_modes() {
    assert_eq!(Vsync::TripleBuffered.present_mode(), PresentMode::Mailbox);
    assert_eq!(Vsync::DoubleBuffered.present_mode(), PresentMode::Fifo);
    assert_eq!(Vsync::Relaxed.present_mode(), PresentMode::Relaxed);
    assert_eq!(Vsync::Immediate.present_mode(), PresentMode::Immediate);
}

#[test]
fn vertex_attribute_layout() {
    let attrs = Vertex::attributes();
    assert_eq!(attrs.len(), 4);
    assert_eq!(
        (attrs[0].location, attrs[0].offset, attrs[0].format),
        (0, 0, AttrFormat::Rg32Float)
    );
    assert_eq!(
        (attrs[1].location, attrs[1].offset, attrs[1].format),
        (1, 8, AttrFormat::Rg32Float)
    );
    assert_eq!(
        (attrs[2].location, attrs[2].offset, attrs[2].format),
        (2, 16, AttrFormat::Rgba32Float)
    );
    assert_eq!(
        (attrs[3].location, attrs[3].offset, attrs[3].format),
        (3, 32, AttrFormat::R32Uint)
    );
    for a in attrs {
        assert_eq!(a.binding, 0);
    }
}

#[test]
fn vertex_to_array_flattens_in_buffer_order() {
    let v = Vertex {
        xy: Vec2 { x: 1, y: 2 },
        uv: Vec2 { x: 3, y: 4 },
        uv_rect: UvRect { u0: 5, v0: 6, u1: 7, v1: 8 },
        tex_num: 9,
    };
    assert_eq!(v.to_array(), [1, 2, 3, 4, 5, 6, 7, 8]);
}

#[test]
fn teardown_follows_reverse_dependency_order() {
    let engine = HalState::new(
        &base_caps(),
        Extent2D { width: 100, height: 100 },
        1,
        &vec![PresentMode::Fifo],
    )
    .unwrap();
    let steps = engine.dispose();
    assert_eq!(
        steps,
        vec![
            TeardownStep::WaitIdle,
            TeardownStep::DestroyFences,
            TeardownStep::DestroySemaphores,
            TeardownStep::DestroyFramebuffers,
            TeardownStep::DestroyImageViews,
            TeardownStep::DestroyBuffers,
            TeardownStep::DestroyTextures,
            TeardownStep::DestroySamplers,
            TeardownStep::DestroyDescriptorPool,
            TeardownStep::DestroyDescriptorSetLayouts,
            TeardownStep::DestroyPipelineLayout,
            TeardownStep::DestroyPipeline,
            TeardownStep::DestroyCommandPool,
            TeardownStep::DestroyRenderPass,
            TeardownStep::DestroySwapchain,
            TeardownStep::DestroyDevice,
            TeardownStep::DestroyInstance,
        ]
    );
}

#[test]
fn pipeline_layout_matches_the_shader_interface() {
    let engine = HalState::new(
        &base_caps(),
        Extent2D { width: 320, height: 200 },
        1,
        &vec![PresentMode::Fifo],
    )
    .unwrap();
    assert_eq!(engine.pipeline.vertex_stride, 36);
    assert_eq!(engine.pipeline.push_constant_words, 4);
    assert_eq!(engine.pipeline.extent, Extent2D { width: 320, height: 200 });
    assert_eq!(engine.pipeline.topology, Topology::TriangleList);
    assert!(!engine.pipeline.depth_stencil_enabled);
    assert_eq!(engine.pipeline.blend, BlendMode::StraightAlpha);
    assert_eq!(engine.pipeline.bindings.len(), 2);
    assert_eq!(engine.pipeline.bindings[0].count, 64);
    assert_eq!(engine.pipeline.bindings[1].count, 1);
    for b in &engine.pipeline.bindings {
        assert!(b.visible_to_vertex && b.visible_to_fragment);
    }
}
