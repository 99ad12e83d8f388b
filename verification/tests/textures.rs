use rmge::error::TextureError;
use rmge::graphics::loadedimage::{TextureBinding, TexturePool};
use rmge::graphics::swapchain::{CompositeAlpha, Extent2D, SurfaceCaps};
use rmge::graphics::{HalState, PresentMode, DESCRIPTOR_SET_COUNT, DESCRIPTOR_SET_IMAGE_COUNT};

fn simple_caps() -> SurfaceCaps {
    SurfaceCaps {
        has_graphics_queue: true,
        min_image_count: 1,
        max_image_count: 8,
        min_extent: Extent2D { width: 1, height: 1 },
        max_extent: Extent2D { width: 4096, height: 4096 },
        supports_color_attachment: true,
        present_modes: vec![PresentMode::Fifo, PresentMode::Mailbox],
        composite_alphas: vec![CompositeAlpha::Opaque],
        formats: None,
    }
}

fn new_engine() -> HalState {
    HalState::new(
        &simple_caps(),
        Extent2D { width: 800, height: 600 },
        4,
        &vec![PresentMode::Fifo],
    )
    .unwrap()
}

fn png_bytes(width: u32, height: u32, pixels: Vec<u8>) -> Vec<u8> {
    let img = image::RgbaImage::from_raw(width, height, pixels).unwrap();
    let mut out = std::io::Cursor::new(Vec::new());
    image::DynamicImage::ImageRgba8(img)
        .write_to(&mut out, image::ImageFormat::Png)
        .unwrap();
    out.into_inner()
}

#[test]
fn placement_fills_sets_before_allocating_new_ones() {
    let mut pool = TexturePool::new(2, 3);
    let expected = [(0, 0), (0, 1), (1, 0), (1, 1), (2, 0), (2, 1)];
    for (i, (set, off)) in expected.iter().enumerate() {
        let b = pool.register_texture().unwrap();
        assert_eq!(b, TextureBinding { set_index: *set, array_offset: *off });
        assert_eq!(pool.texture_count, i + 1);
        // ceil((i + 1) / 2) descriptor sets.
        assert_eq!(pool.descriptor_set_count, (i + 1 + 1) / 2);
    }
}

#[test]
fn exhausted_pool_refuses_without_corruption() {
    let mut pool = TexturePool::new(2, 1);
    assert!(pool.register_texture().is_ok());
    assert!(pool.register_texture().is_ok());
    let r = pool.register_texture();
    assert_eq!(r, Err(TextureError::DescriptorPoolExhausted));
    assert_eq!(pool.texture_count, 2);
    assert_eq!(pool.descriptor_set_count, 1);
}

#[test]
fn zero_capacity_pool_is_exhausted_at_once() {
    let mut pool = TexturePool::new(4, 0);
    assert_eq!(pool.register_texture(), Err(TextureError::DescriptorPoolExhausted));
    assert_eq!(pool.texture_count, 0);
}

#[test]
fn malformed_bytes_give_image_decode_error() {
    let mut engine = new_engine();
    let r = engine.load_texture(&vec![0u8, 1, 2, 3, 4, 5]);
    assert!(matches!(r, Err(TextureError::ImageDecodeError)));
    assert_eq!(engine.texture_pool.texture_count, 0);
    assert_eq!(engine.texture_pool.descriptor_set_count, 0);
}

#[test]
fn load_after_failure_gets_next_sequential_index() {
    let mut engine = new_engine();
    // A failed decode must not disturb the pool.
    assert!(matches!(
        engine.load_texture(&vec![0u8; 16]),
        Err(TextureError::ImageDecodeError)
    ));
    let good = png_bytes(2, 2, vec![255u8; 16]);
    let first = engine.load_texture(&good).unwrap();
    assert_eq!(first.binding, TextureBinding { set_index: 0, array_offset: 0 });
    assert_eq!(engine.texture_pool.texture_count, 1);
    assert_eq!(engine.texture_pool.descriptor_set_count, 1);
    let second = engine.load_texture(&good).unwrap();
    assert_eq!(second.binding, TextureBinding { set_index: 0, array_offset: 1 });
    assert_eq!(engine.texture_pool.texture_count, 2);
}

#[test]
fn decode_round_trips_pixel_data() {
    let pixels: Vec<u8> = vec![
        255, 0, 0, 255, // red
        0, 255, 0, 255, // green
        0, 0, 255, 255, // blue
    ];
    let bytes = png_bytes(3, 1, pixels.clone());
    let mut engine = new_engine();
    let upload = engine.load_texture(&bytes).unwrap();
    assert_eq!(upload.bitmap.width, 3);
    assert_eq!(upload.bitmap.height, 1);
    assert_eq!(upload.bitmap.pixels, pixels);
}

#[test]
fn failed_upload_rolls_back_the_accounting() {
    let good = png_bytes(2, 2, vec![128u8; 16]);
    let mut engine = new_engine();
    let first = engine.load_texture(&good).unwrap();
    assert_eq!(first.binding, TextureBinding { set_index: 0, array_offset: 0 });
    assert_eq!(engine.texture_pool.texture_count, 1);
    assert_eq!(engine.texture_pool.descriptor_set_count, 1);
    // The driver could not upload it: the engine takes it back out, the
    // set allocated only for it is freed, and the next load gets the same
    // binding again.
    engine.texture_upload_failed();
    assert_eq!(engine.texture_pool.texture_count, 0);
    assert_eq!(engine.texture_pool.descriptor_set_count, 0);
    let again = engine.load_texture(&good).unwrap();
    assert_eq!(again.binding, TextureBinding { set_index: 0, array_offset: 0 });
    assert_eq!(engine.texture_pool.texture_count, 1);
}

#[test]
fn rollback_keeps_prior_textures() {
    let mut pool = TexturePool::new(2, 3);
    for _ in 0..3 {
        pool.register_texture().unwrap();
    }
    assert_eq!((pool.texture_count, pool.descriptor_set_count), (3, 2));
    // Taking the third texture back also frees the set that existed only
    // for it; the first two and their full set stay.
    pool.unregister_texture();
    assert_eq!((pool.texture_count, pool.descriptor_set_count), (2, 1));
    let b = pool.register_texture().unwrap();
    assert_eq!(b, TextureBinding { set_index: 1, array_offset: 0 });
}

#[test]
fn binding_marks_fresh_set_and_first_sampler() {
    let mut pool = TexturePool::new(2, 4);
    // Offset zero exactly when every earlier set was full: the driver
    // writes the sampler binding of the fresh set on those loads, and
    // creates the sampler itself only on the very first, bound at (0, 0).
    let expected_fresh = [true, false, true, false, true, false];
    for fresh in expected_fresh {
        let count_before = pool.texture_count;
        let b = pool.register_texture().unwrap();
        assert_eq!(b.array_offset == 0, fresh);
        assert_eq!(b.set_index == 0 && b.array_offset == 0, count_before == 0);
    }
}

#[test]
fn engine_pool_dimensions() {
    let engine = new_engine();
    assert_eq!(engine.texture_pool.descriptor_size, DESCRIPTOR_SET_IMAGE_COUNT);
    assert_eq!(engine.texture_pool.pool_size, DESCRIPTOR_SET_COUNT);
    assert_eq!(DESCRIPTOR_SET_IMAGE_COUNT, 64);
    assert_eq!(DESCRIPTOR_SET_COUNT, 16);
}
