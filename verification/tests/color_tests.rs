use rasterizer::color::Color;
use rasterizer::fixed::FX_ONE;

#[test]
fn new_rgb_is_opaque() {
    let c = Color::new_rgb(10, 20, 30);
    assert_eq!((c.r, c.g, c.b, c.a), (10, 20, 30, 255));
}

#[test]
fn new_rgba_keeps_alpha() {
    let c = Color::new_rgba(10, 20, 30, 40);
    assert_eq!((c.r, c.g, c.b, c.a), (10, 20, 30, 40));
}

#[test]
fn rgba_packs_channels_high_to_low() {
    let c = Color::new_rgba(0x12, 0x34, 0x56, 0x78);
    assert_eq!(c.rgba(), 0x1234_5678);
}

#[test]
fn argb_packs_alpha_first() {
    let c = Color::new_rgba(0x12, 0x34, 0x56, 0x78);
    assert_eq!(c.argb(), 0x7812_3456);
}

#[test]
fn mul_with_doubling_clamps_at_white() {
    // a factor of 2.0 in fixed point
    let c = Color::new_rgb(200, 200, 200).mul_with(2 * FX_ONE);
    assert_eq!((c.r, c.g, c.b, c.a), (255, 255, 255, 255));
}

#[test]
fn mul_with_half_scales_down() {
    let c = Color::new_rgb(100, 50, 25).mul_with(FX_ONE / 2);
    assert_eq!((c.r, c.g, c.b, c.a), (50, 25, 12, 255));
}

#[test]
fn mul_with_negative_clamps_at_black() {
    let c = Color::new_rgb(200, 200, 200).mul_with(-FX_ONE);
    assert_eq!((c.r, c.g, c.b, c.a), (0, 0, 0, 255));
}

#[test]
fn add_color_saturates_per_channel() {
    let c = Color::new_rgb(250, 10, 10).add_color(&Color::new_rgb(10, 10, 10));
    assert_eq!((c.r, c.g, c.b, c.a), (255, 20, 20, 255));
}
