use egui_wgpu_backend::color::unit_single;
use egui_wgpu_backend::vertex::{PaintVertex, Vertex};

#[test]
fn black_transparent_maps_to_zero() {
    let vertex = PaintVertex { pos: [0, 0], uv: [0, 0], color: [0, 0, 0, 0] };
    let out = Vertex::from_paint(&vertex);
    assert_eq!(out.color, [0, 0, 0, 0]);
    for bits in out.color {
        assert_eq!(f32::from_bits(bits), 0.0);
    }
}

#[test]
fn white_opaque_maps_to_one() {
    let vertex = PaintVertex { pos: [0, 0], uv: [0, 0], color: [255, 255, 255, 255] };
    let out = Vertex::from_paint(&vertex);
    for bits in out.color {
        assert_eq!(bits, 0x3F80_0000);
        assert_eq!(f32::from_bits(bits), 1.0);
    }
}

#[test]
fn half_intensity_maps_to_about_half() {
    let bits = unit_single(128);
    assert_eq!(bits, 0x3F00_8081);
    let value = f32::from_bits(bits);
    assert!((value - 0.502).abs() < 0.0005);
}

#[test]
fn smallest_channel_value() {
    assert_eq!(unit_single(1), 0x3B80_8081);
    assert_eq!(f32::from_bits(unit_single(1)), 1.0 / 255.0);
}

#[test]
fn every_channel_value_matches_float_division() {
    for channel in 0..=255u8 {
        let expected = (channel as f32 / 255.0).to_bits();
        assert_eq!(unit_single(channel), expected, "channel {}", channel);
    }
}

#[test]
fn channel_values_are_ordered() {
    for channel in 0..255u8 {
        let low = f32::from_bits(unit_single(channel));
        let high = f32::from_bits(unit_single(channel + 1));
        assert!(low < high);
    }
}

#[test]
fn conversion_keeps_position_and_texture_coordinate() {
    let vertex = PaintVertex {
        pos: [12.5f32.to_bits(), (-3.0f32).to_bits()],
        uv: [0.25f32.to_bits(), 0.75f32.to_bits()],
        color: [255, 0, 51, 102],
    };
    let out = Vertex::from_paint(&vertex);
    assert_eq!(f32::from_bits(out.position[0]), 12.5);
    assert_eq!(f32::from_bits(out.position[1]), -3.0);
    assert_eq!(f32::from_bits(out.uv[0]), 0.25);
    assert_eq!(f32::from_bits(out.uv[1]), 0.75);
    assert_eq!(f32::from_bits(out.color[0]), 1.0);
    assert_eq!(f32::from_bits(out.color[1]), 0.0);
    assert_eq!(f32::from_bits(out.color[2]), 0.2);
    assert_eq!(f32::from_bits(out.color[3]), 0.4);
}
