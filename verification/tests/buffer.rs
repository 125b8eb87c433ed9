//! Vertex buffer creation and upload sizing.

use hgl::glenum::DYNAMIC_DRAW;
use hgl::glenum::STATIC_DRAW;
use hgl::glenum::STREAM_DRAW;
use hgl::Device;
use hgl::Vbo;
use hgl::VboUsage;

#[test]
fn upload_sizes_the_store_byte_exactly() {
    let mut dev = Device::new();
    let data: [f32; 6] = [0.0, 0.5, 0.5, -0.5, -0.5, -0.5];
    let vbo = Vbo::from_data(&mut dev, &data, VboUsage::StaticDraw).unwrap();
    // 6 elements of 4 bytes each.
    assert_eq!(dev.get_buffer_size(vbo.name()), 24);
    assert_eq!(dev.buffers[0].usage, STATIC_DRAW);
}

#[test]
fn empty_slice_yields_a_valid_empty_buffer() {
    let mut dev = Device::new();
    let data: [f32; 0] = [];
    // Pinned behavior: an empty upload succeeds and owns a zero-byte store.
    let vbo = Vbo::from_data(&mut dev, &data, VboUsage::StaticDraw).unwrap();
    assert!(dev.is_buffer(vbo.name()));
    assert_eq!(dev.get_buffer_size(vbo.name()), 0);
}

#[test]
fn from_data_leaves_the_new_buffer_bound() {
    let mut dev = Device::new();
    let data: [u16; 3] = [0, 1, 2];
    let vbo = Vbo::from_data(&mut dev, &data, VboUsage::DynamicDraw).unwrap();
    assert_eq!(dev.bound_array_buffer, vbo.name());
    assert_eq!(dev.get_buffer_size(vbo.name()), 6);
    assert_eq!(dev.buffers[0].usage, DYNAMIC_DRAW);
}

#[test]
fn activate_rebinds_an_earlier_buffer() {
    let mut dev = Device::new();
    let first = Vbo::from_data(&mut dev, &[1.0f32], VboUsage::StaticDraw).unwrap();
    let second = Vbo::from_data(&mut dev, &[2.0f32, 3.0], VboUsage::StaticDraw).unwrap();
    assert_eq!(dev.bound_array_buffer, second.name());
    first.activate(&mut dev);
    assert_eq!(dev.bound_array_buffer, first.name());
    assert_ne!(first.name(), second.name());
}

#[test]
fn usage_constants() {
    assert_eq!(VboUsage::StaticDraw.to_glenum(), STATIC_DRAW);
    assert_eq!(VboUsage::DynamicDraw.to_glenum(), DYNAMIC_DRAW);
    assert_eq!(VboUsage::StreamDraw.to_glenum(), STREAM_DRAW);
    assert_eq!(STATIC_DRAW, 0x88E4);
    assert_eq!(DYNAMIC_DRAW, 0x88E8);
    assert_eq!(STREAM_DRAW, 0x88E0);
}
