use rasterizer::color::Color;
use rasterizer::fixed::FX_ONE;
use rasterizer::geometry::{Mat4, Vec3, Vec4};
use rasterizer::triangle::Triangle;

#[test]
fn new_triangle_is_zeroed_and_black() {
    let t = Triangle::new();
    for k in 0..3 {
        assert_eq!(t.v[k], Vec3::new(0, 0, 0));
        assert_eq!(t.color[k], Color::new_rgb(0, 0, 0));
        assert_eq!(t.normal[k], Vec3::new(0, 0, 0));
        assert_eq!((t.tex_coords[k].x, t.tex_coords[k].y), (0, 0));
    }
}

#[test]
fn vertex_accessors_follow_set_vertex() {
    let mut t = Triangle::new();
    t.set_vertex(0, Vec3::new(1, 2, 3));
    t.set_vertex(1, Vec3::new(4, 5, 6));
    t.set_vertex(2, Vec3::new(7, 8, 9));
    assert_eq!(t.a(), Vec3::new(1, 2, 3));
    assert_eq!(t.b(), Vec3::new(4, 5, 6));
    assert_eq!(t.c(), Vec3::new(7, 8, 9));
}

#[test]
fn set_normal_and_tex_coords_store_per_vertex() {
    let mut t = Triangle::new();
    t.set_normal(1, Vec3::new(0, FX_ONE, 0));
    t.set_tex_coords(2, FX_ONE / 2, FX_ONE / 4);
    assert_eq!(t.normal[1], Vec3::new(0, FX_ONE, 0));
    assert_eq!((t.tex_coords[2].x, t.tex_coords[2].y), (FX_ONE / 2, FX_ONE / 4));
}

#[test]
fn flat_color_is_first_corner() {
    let mut t = Triangle::new();
    t.set_color(0, Color::new_rgb(9, 8, 7));
    t.set_color(1, Color::new_rgb(1, 2, 3));
    assert_eq!(t.color(), Color::new_rgb(9, 8, 7));
}

#[test]
fn color_by_barycentric_blends_corners() {
    let mut t = Triangle::new();
    t.set_color(0, Color::new_rgb(100, 0, 0));
    t.set_color(1, Color::new_rgb(0, 100, 0));
    t.set_color(2, Color::new_rgb(0, 0, 100));
    let c = t.color_by_barycentric(FX_ONE / 2, FX_ONE / 4, FX_ONE / 4);
    assert_eq!((c.r, c.g, c.b, c.a), (50, 25, 25, 255));
}

#[test]
fn to_vector4_homogenizes_with_unit_w() {
    let mut t = Triangle::new();
    t.set_vertex(0, Vec3::new(1, 2, 3));
    let v = t.to_vector4();
    assert_eq!(v[0], Vec4::new(1, 2, 3, FX_ONE));
    assert_eq!(v[1], Vec4::new(0, 0, 0, FX_ONE));
}

#[test]
fn identity_matrix_fixes_vectors() {
    let m = Mat4::identity();
    let v = Vec4::new(3 * FX_ONE, -2 * FX_ONE, FX_ONE, FX_ONE);
    assert_eq!(m.mul_vec(&v), v);
}

#[test]
fn translation_matrix_moves_points() {
    // translate by (5, -3, 1): identity plus a fourth column
    let m = Mat4::from_rows(
        Vec4::new(FX_ONE, 0, 0, 5 * FX_ONE),
        Vec4::new(0, FX_ONE, 0, -3 * FX_ONE),
        Vec4::new(0, 0, FX_ONE, FX_ONE),
        Vec4::new(0, 0, 0, FX_ONE),
    );
    let p = m.mul_vec(&Vec4::new(FX_ONE, FX_ONE, 0, FX_ONE));
    assert_eq!(p, Vec4::new(6 * FX_ONE, -2 * FX_ONE, FX_ONE, FX_ONE));
}

#[test]
fn matrix_product_composes_translations() {
    let t1 = Mat4::from_rows(
        Vec4::new(FX_ONE, 0, 0, 2 * FX_ONE),
        Vec4::new(0, FX_ONE, 0, 0),
        Vec4::new(0, 0, FX_ONE, 0),
        Vec4::new(0, 0, 0, FX_ONE),
    );
    let t2 = Mat4::from_rows(
        Vec4::new(FX_ONE, 0, 0, 3 * FX_ONE),
        Vec4::new(0, FX_ONE, 0, FX_ONE),
        Vec4::new(0, 0, FX_ONE, 0),
        Vec4::new(0, 0, 0, FX_ONE),
    );
    let m = t1.mul_mat(&t2);
    let p = m.mul_vec(&Vec4::new(0, 0, 0, FX_ONE));
    assert_eq!(p, Vec4::new(5 * FX_ONE, FX_ONE, 0, FX_ONE));
}
