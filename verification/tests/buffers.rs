use rmge::error::BufferGrowthError;
use rmge::geometry::{Quad, Vec2};
use rmge::graphics::gpu_buffer::{
    find_memory_type, quad_indices, GpuBuffer, MemoryType, MAX_QUADS, QUAD_INDEX_BYTES,
    QUAD_VERTEX_BYTES,
};
use rmge::graphics::vertex::{UvRect, UV_ONE, UV_ZERO};
use rmge::graphics::TexturedQuad;

fn expected_indices(n: usize) -> Vec<u16> {
    let mut v = Vec::new();
    for k in 0..n {
        let base: u16 = (k * 4) as u16;
        for off in [0u16, 1, 2, 2, 3, 0] {
            v.push(base + off);
        }
    }
    v
}

fn quad_with(tex_num: u32, uv_rect: UvRect) -> TexturedQuad {
    let p = |x: f32, y: f32| Vec2 { x: x.to_bits(), y: y.to_bits() };
    TexturedQuad {
        quad: Quad {
            top_left: p(-0.5, 0.5),
            bottom_left: p(-0.5, -0.5),
            bottom_right: p(0.5, -0.5),
            top_right: p(0.5, 0.5),
        },
        uv_rect,
        tex_num,
    }
}

#[test]
fn index_pattern_for_five_quads() {
    let mut b = GpuBuffer::new(1);
    assert!(b.ensure_capacity(5).is_ok());
    assert!(b.cap >= 5);
    assert_eq!(b.indices, expected_indices(5));
    assert_eq!(b.vertices.len(), 4 * 5);
}

#[test]
fn index_pattern_per_quad() {
    let v = quad_indices(3);
    assert_eq!(v.len(), 18);
    assert_eq!(&v[0..6], &[0, 1, 2, 2, 3, 0]);
    assert_eq!(&v[6..12], &[4, 5, 6, 6, 7, 4]);
    assert_eq!(&v[12..18], &[8, 9, 10, 10, 11, 8]);
}

#[test]
fn growth_is_monotone() {
    let mut b = GpuBuffer::new(2);
    assert!(b.ensure_capacity(5).is_ok());
    assert!(b.cap >= 5);
    // A smaller request never shrinks the buffers.
    let before = b.indices.clone();
    assert!(b.ensure_capacity(3).is_ok());
    assert_eq!(b.cap, 5);
    assert_eq!(b.indices, before);
}

#[test]
fn failed_growth_leaves_buffers_unchanged() {
    let mut b = GpuBuffer::new(2);
    let old_indices = b.indices.clone();
    let r = b.ensure_capacity(MAX_QUADS + 1);
    assert_eq!(r, Err(BufferGrowthError::CapacityTooLarge));
    assert_eq!(b.cap, 2);
    assert_eq!(b.indices, old_indices);
}

#[test]
fn largest_capacity_fits_sixteen_bit_indices() {
    let mut b = GpuBuffer::new(1);
    assert!(b.ensure_capacity(MAX_QUADS).is_ok());
    assert_eq!(b.cap, MAX_QUADS);
    // The last quad's pattern is {65532, 65533, 65534, 65534, 65535, 65532}.
    assert_eq!(*b.indices.last().unwrap(), u16::MAX - 3);
    assert_eq!(b.indices[b.indices.len() - 2], u16::MAX);
}

#[test]
fn write_places_each_quad_at_its_slot() {
    let rect_a = UvRect { u0: 0f32.to_bits(), v0: 0f32.to_bits(), u1: 16f32.to_bits(), v1: 16f32.to_bits() };
    let rect_b = UvRect { u0: 16f32.to_bits(), v0: 0f32.to_bits(), u1: 32f32.to_bits(), v1: 16f32.to_bits() };
    let quads = vec![quad_with(0, rect_a), quad_with(1, rect_b)];
    let mut b = GpuBuffer::new(4);
    b.write(&quads);
    assert_eq!(b.vertices.len(), 16);
    for (i, q) in quads.iter().enumerate() {
        for j in 0..4 {
            let v = b.vertices[4 * i + j];
            assert_eq!(v.uv_rect, q.uv_rect);
            assert_eq!(v.tex_num, q.tex_num);
        }
        // UV corners of the unit square, in vertex order.
        assert_eq!((b.vertices[4 * i].uv.x, b.vertices[4 * i].uv.y), (UV_ZERO, UV_ONE));
        assert_eq!((b.vertices[4 * i + 1].uv.x, b.vertices[4 * i + 1].uv.y), (UV_ZERO, UV_ZERO));
        assert_eq!((b.vertices[4 * i + 2].uv.x, b.vertices[4 * i + 2].uv.y), (UV_ONE, UV_ZERO));
        assert_eq!((b.vertices[4 * i + 3].uv.x, b.vertices[4 * i + 3].uv.y), (UV_ONE, UV_ONE));
    }
}

#[test]
fn planned_growth_commits_only_on_success() {
    let mut b = GpuBuffer::new(2);
    // Capacity already sufficient: nothing to plan.
    assert!(matches!(b.plan_growth(2), Ok(None)));
    // Over the index limit: refused outright.
    assert_eq!(
        b.plan_growth(MAX_QUADS + 1).unwrap_err(),
        BufferGrowthError::CapacityTooLarge
    );
    // Planning alone changes nothing: a driver whose allocation fails
    // discards the plan and the old buffers stand as they were.
    let old_indices = b.indices.clone();
    let request = b.plan_growth(6).unwrap().unwrap();
    assert_eq!(b.cap, 2);
    assert_eq!(b.indices, old_indices);
    assert_eq!(request.new_cap, 6);
    assert_eq!(request.vertex_bytes, 6 * QUAD_VERTEX_BYTES);
    assert_eq!(request.index_bytes, 6 * QUAD_INDEX_BYTES);
    assert_eq!(request.indices, expected_indices(6));
    // Committing applies exactly the planned state.
    b.commit_growth(request);
    assert_eq!(b.cap, 6);
    assert_eq!(b.indices, expected_indices(6));
    assert_eq!(b.vertices.len(), 24);
}

#[test]
fn buffer_byte_sizes() {
    let b = GpuBuffer::new(7);
    assert_eq!(b.vertex_bytes(), 7 * QUAD_VERTEX_BYTES);
    assert_eq!(b.index_bytes(), 7 * QUAD_INDEX_BYTES);
    assert_eq!(QUAD_VERTEX_BYTES, 144);
    assert_eq!(QUAD_INDEX_BYTES, 12);
}

#[test]
fn memory_type_selection_intersects_mask_and_visibility() {
    let types = vec![
        MemoryType { cpu_visible: true },
        MemoryType { cpu_visible: false },
        MemoryType { cpu_visible: true },
    ];
    // Bit 0 is masked out, bit 1 is not host-visible, bit 2 matches.
    assert_eq!(find_memory_type(0b110, &types), Some(2));
    assert_eq!(find_memory_type(0b111, &types), Some(0));
    assert_eq!(find_memory_type(0b010, &types), None);
    assert_eq!(find_memory_type(0, &types), None);
}
