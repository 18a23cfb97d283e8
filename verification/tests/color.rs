use amethyst_imgui::color::{normalize, ImguiColor};
use amethyst_imgui::constant::{ImguiPushConstant, MINUS_ONE, ONE, ZERO};

#[test]
fn color_from_u32() {
    assert_eq!(ImguiColor::from(0xdead_beef_u32), ImguiColor(0xdead_beef));
}

#[test]
fn normalize_splits_channels_red_first() {
    assert_eq!(normalize(0x4433_2211), [0x11, 0x22, 0x33, 0x44]);
    assert_eq!(normalize(0), [0, 0, 0, 0]);
    assert_eq!(normalize(u32::MAX), [255, 255, 255, 255]);
    assert_eq!(normalize(0xff00_0000), [0, 0, 0, 255]);
}

#[test]
fn normalized_channels_as_floats() {
    let c = normalize(0xff80_00ff);
    let f: Vec<f32> = c.iter().map(|v| *v as f32 / 255.0).collect();
    assert_eq!(f[0], 1.0);
    assert_eq!(f[1], 0.0);
    assert_eq!(f[2], 128.0 / 255.0);
    assert_eq!(f[3], 1.0);
}

#[test]
fn channels_pack_and_unpack() {
    let c = ImguiColor::from_channels([1, 2, 3, 4]);
    assert_eq!(c, ImguiColor(0x0403_0201));
    assert_eq!(c.channels(), [1, 2, 3, 4]);
    assert_eq!(ImguiColor::from_channels(ImguiColor(0x89ab_cdef).channels()), ImguiColor(0x89ab_cdef));
}

#[test]
fn push_constant_default_is_identity() {
    let c = ImguiPushConstant::default();
    assert_eq!(c.raw(), [ONE, ONE, ZERO, ZERO]);
    assert_eq!(c.raw(), [1.0_f32.to_bits(), 1.0_f32.to_bits(), 0.0_f32.to_bits(), 0.0_f32.to_bits()]);
}

#[test]
fn push_constant_parts() {
    let mut c = ImguiPushConstant::new(1, 2, 3, 4);
    assert_eq!(c.raw(), [1, 2, 3, 4]);
    assert_eq!(c.scale(), (1, 2));
    assert_eq!(c.translation(), (3, 4));
    c.set_scale((5, 6));
    assert_eq!(c.raw(), [5, 6, 3, 4]);
    c.set_translation((7, 8));
    assert_eq!(c.raw(), [5, 6, 7, 8]);
}

#[test]
fn push_constant_frame_transform() {
    let (w, h) = (800.0_f32, 600.0_f32);
    let mut c = ImguiPushConstant::default();
    c.set_frame(((2.0 / w).to_bits(), (2.0 / h).to_bits()));
    assert_eq!(MINUS_ONE, (-1.0_f32).to_bits());
    assert_eq!(f32::from_bits(c.scale().0), 2.0 / 800.0);
    assert_eq!(f32::from_bits(c.scale().1), 2.0 / 600.0);
    assert_eq!(f32::from_bits(c.translation().0), -1.0);
    assert_eq!(f32::from_bits(c.translation().1), -1.0);
}
