use rasterizer::color::Color;
use rasterizer::fixed::FX_ONE;
use rasterizer::geometry::{Mat4, Vec3, Vec4};
use rasterizer::rasterizer::{compute_barycentric2d, inside_triangle, Primitive, Rasterizer};

fn tri() -> (Vec3, Vec3, Vec3) {
    (
        Vec3::new(0, 0, 0),
        Vec3::new(2 * FX_ONE, 0, 0),
        Vec3::new(0, 2 * FX_ONE, 0),
    )
}

#[test]
fn barycentric_of_edge_midpoint_is_half_half_zero() {
    let (v0, v1, v2) = tri();
    let (na, nb, ng, d) = compute_barycentric2d(v0, v1, v2, FX_ONE, 0);
    assert_eq!(d, 2048 * 2048);
    assert_eq!(na, d / 2);
    assert_eq!(nb, d / 2);
    assert_eq!(ng, 0);
}

#[test]
fn inside_triangle_accepts_interior_and_edges() {
    let (v0, v1, v2) = tri();
    assert!(inside_triangle(v0, v1, v2, FX_ONE / 2, FX_ONE / 2));
    assert!(inside_triangle(v0, v1, v2, 0, 0));
    assert!(inside_triangle(v0, v1, v2, 2 * FX_ONE, 0));
}

#[test]
fn inside_triangle_rejects_exterior_points() {
    let (v0, v1, v2) = tri();
    assert!(!inside_triangle(v0, v1, v2, 3 * FX_ONE, 0));
    assert!(!inside_triangle(v0, v1, v2, -FX_ONE, 0));
    assert!(!inside_triangle(v0, v1, v2, 2 * FX_ONE, 2 * FX_ONE));
}

#[test]
fn degenerate_triangle_contains_no_point() {
    let v = Vec3::new(FX_ONE, FX_ONE, 0);
    assert!(!inside_triangle(v, v, v, FX_ONE, FX_ONE));
}

#[test]
fn perspective_divide_maps_by_w() {
    // a perspective-style projection: w_clip = -z. The triangle sits at
    // z = -2, so every coordinate is divided by 2 on the way to NDC,
    // and the remapped depth of z_ndc = -1 is f2 - f1 = 102.
    let mut r = Rasterizer::new(4, 4);
    let p = r.load_positions(vec![
        Vec3::new(-2 * FX_ONE, -2 * FX_ONE, -2 * FX_ONE),
        Vec3::new(0, -2 * FX_ONE, -2 * FX_ONE),
        Vec3::new(-2 * FX_ONE, 0, -2 * FX_ONE),
    ]);
    let i = r.load_indices(vec![(0, 1, 2)]);
    r.set_projection(Mat4::from_rows(
        Vec4::new(FX_ONE, 0, 0, 0),
        Vec4::new(0, FX_ONE, 0, 0),
        Vec4::new(0, 0, FX_ONE, 0),
        Vec4::new(0, 0, -FX_ONE, 0),
    ));
    assert_eq!(r.draw(p, i, None, Primitive::Triangle), Ok(()));
    let red = Color::new_rgb(255, 0, 0);
    let idx = |x: u32, y: u32| ((4 - 1 - y) * 4 + x) as usize;
    assert_eq!(r.frame_buf[idx(0, 0)], red);
    assert_eq!(r.frame_buf[idx(2, 0)], red);
    assert_eq!(r.frame_buf[idx(0, 2)], red);
    assert_eq!(r.frame_buf[idx(2, 2)], Color::new_rgb(0, 0, 0));
    assert_eq!(r.depth_buf[idx(0, 0)], 102);
}

#[test]
fn model_matrix_scales_geometry_before_rasterization() {
    // doubling x in the model matrix turns this half-width triangle into
    // the canonical lower-left block
    let mut r = Rasterizer::new(4, 4);
    let p = r.load_positions(vec![
        Vec3::new(-FX_ONE / 2, -FX_ONE, 0),
        Vec3::new(0, -FX_ONE, 0),
        Vec3::new(-FX_ONE / 2, 0, 0),
    ]);
    let i = r.load_indices(vec![(0, 1, 2)]);
    r.set_model(Mat4::from_rows(
        Vec4::new(2 * FX_ONE, 0, 0, 0),
        Vec4::new(0, FX_ONE, 0, 0),
        Vec4::new(0, 0, FX_ONE, 0),
        Vec4::new(0, 0, 0, FX_ONE),
    ));
    assert_eq!(r.draw(p, i, None, Primitive::Triangle), Ok(()));
    let red = Color::new_rgb(255, 0, 0);
    let idx = |x: u32, y: u32| ((4 - 1 - y) * 4 + x) as usize;
    assert_eq!(r.frame_buf[idx(0, 0)], red);
    assert_eq!(r.frame_buf[idx(1, 1)], red);
    assert_eq!(r.frame_buf[idx(3, 3)], Color::new_rgb(0, 0, 0));
}
