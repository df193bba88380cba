use rasterizer::color::Color;
use rasterizer::fixed::FX_ONE;
use rasterizer::geometry::Vec3;
use rasterizer::rasterizer::{
    Buffers, IndBufId, PosBufId, Primitive, Rasterizer, RasterizerError, DEPTH_F2, DEPTH_FAR,
};
use rasterizer::triangle::Triangle;

fn idx(r: &Rasterizer, x: u32, y: u32) -> usize {
    ((r.height - 1 - y) * r.width + x) as usize
}

#[test]
fn new_fills_black_and_far() {
    let r = Rasterizer::new(3, 2);
    assert_eq!(r.frame_buf.len(), 6);
    assert_eq!(r.depth_buf.len(), 6);
    assert!(r.frame_buf.iter().all(|c| *c == Color::new_rgb(0, 0, 0)));
    assert!(r.depth_buf.iter().all(|d| *d == DEPTH_FAR));
}

#[test]
fn set_pixel_writes_when_nearer() {
    let mut r = Rasterizer::new(4, 4);
    let red = Color::new_rgb(255, 0, 0);
    r.set_pixel(1, 2, red, 100);
    let i = idx(&r, 1, 2);
    assert_eq!(r.frame_buf[i], red);
    assert_eq!(r.depth_buf[i], 100);
}

#[test]
fn set_pixel_ignores_out_of_range() {
    let mut r = Rasterizer::new(4, 4);
    let before = r.frame_buf.clone();
    r.set_pixel(4, 0, Color::new_rgb(1, 2, 3), 0);
    r.set_pixel(0, 7, Color::new_rgb(1, 2, 3), 0);
    assert_eq!(r.frame_buf, before);
}

#[test]
fn depth_test_keeps_nearer_regardless_of_order() {
    let red = Color::new_rgb(255, 0, 0);
    let blue = Color::new_rgb(0, 0, 255);
    let mut a = Rasterizer::new(2, 2);
    a.set_pixel(0, 0, red, 10);
    a.set_pixel(0, 0, blue, 20);
    let mut b = Rasterizer::new(2, 2);
    b.set_pixel(0, 0, blue, 20);
    b.set_pixel(0, 0, red, 10);
    let i = idx(&a, 0, 0);
    assert_eq!(a.frame_buf[i], red);
    assert_eq!(b.frame_buf[i], red);
    assert_eq!(a.depth_buf[i], 10);
    assert_eq!(b.depth_buf[i], 10);
    assert_eq!(a.frame_buf, b.frame_buf);
    assert_eq!(a.depth_buf, b.depth_buf);
}

#[test]
fn clear_color_resets_pixels_and_keeps_depth() {
    let mut r = Rasterizer::new(2, 2);
    r.set_pixel(0, 0, Color::new_rgb(9, 9, 9), 50);
    let i = idx(&r, 0, 0);
    r.clear(Buffers::color_only());
    assert!(r.frame_buf.iter().all(|c| *c == r.clear_color));
    assert_eq!(r.depth_buf[i], 50);
}

#[test]
fn clear_depth_resets_sentinel_and_keeps_color() {
    let mut r = Rasterizer::new(2, 2);
    let red = Color::new_rgb(255, 0, 0);
    r.set_pixel(1, 1, red, 50);
    let i = idx(&r, 1, 1);
    r.clear(Buffers::depth_only());
    assert_eq!(r.frame_buf[i], red);
    assert!(r.depth_buf.iter().all(|d| *d == DEPTH_FAR));
}

#[test]
fn clear_all_resets_both() {
    let mut r = Rasterizer::new(2, 2);
    r.set_pixel(1, 0, Color::new_rgb(255, 0, 0), 50);
    r.clear(Buffers::all());
    assert!(r.frame_buf.iter().all(|c| *c == r.clear_color));
    assert!(r.depth_buf.iter().all(|d| *d == DEPTH_FAR));
}

#[test]
fn handles_are_distinct_across_kinds() {
    let mut r = Rasterizer::new(2, 2);
    let p = r.load_positions(vec![Vec3::new(0, 0, 0)]);
    let i = r.load_indices(vec![(0, 0, 0)]);
    let c = r.load_colors(vec![Color::new_rgb(1, 2, 3)]);
    assert_ne!(p.0, i.0);
    assert_ne!(i.0, c.0);
    assert_ne!(p.0, c.0);
}

#[test]
fn draw_unknown_handles_report_and_draw_nothing() {
    let mut r = Rasterizer::new(2, 2);
    let before = r.frame_buf.clone();
    let res = r.draw(PosBufId(99), IndBufId(100), None, Primitive::Triangle);
    assert_eq!(res, Err(RasterizerError::UnknownPosBuffer));
    let p = r.load_positions(vec![Vec3::new(0, 0, 0)]);
    let res = r.draw(p, IndBufId(100), None, Primitive::Triangle);
    assert_eq!(res, Err(RasterizerError::UnknownIndBuffer));
    assert_eq!(r.frame_buf, before);
}

#[test]
fn draw_line_primitive_is_not_implemented() {
    let mut r = Rasterizer::new(2, 2);
    let p = r.load_positions(vec![Vec3::new(0, 0, 0)]);
    let i = r.load_indices(vec![(0, 0, 0)]);
    let before = r.frame_buf.clone();
    let res = r.draw(p, i, None, Primitive::Line);
    assert_eq!(res, Err(RasterizerError::NotImplemented));
    assert_eq!(r.frame_buf, before);
}

#[test]
fn draw_bad_index_is_reported() {
    let mut r = Rasterizer::new(2, 2);
    let p = r.load_positions(vec![Vec3::new(0, 0, 0)]);
    let i = r.load_indices(vec![(0, 3, 0)]);
    let res = r.draw(p, i, None, Primitive::Triangle);
    assert_eq!(res, Err(RasterizerError::IndexOutOfBounds));
}

#[test]
fn orthographic_triangle_covers_lower_left_block() {
    // 4x4 framebuffer, identity transforms: object coordinates are NDC.
    // A right triangle over NDC (-1,-1), (0,-1), (-1,0) lands on screen
    // pixels (0,0)-(2,0)-(0,2); edge-inclusive coverage is 6 pixels.
    let mut r = Rasterizer::new(4, 4);
    let p = r.load_positions(vec![
        Vec3::new(-FX_ONE, -FX_ONE, 0),
        Vec3::new(0, -FX_ONE, 0),
        Vec3::new(-FX_ONE, 0, 0),
    ]);
    let i = r.load_indices(vec![(0, 1, 2)]);
    let res = r.draw(p, i, None, Primitive::Triangle);
    assert_eq!(res, Ok(()));
    let red = Color::new_rgb(255, 0, 0);
    let black = Color::new_rgb(0, 0, 0);
    let covered = [(0, 0), (1, 0), (2, 0), (0, 1), (1, 1), (0, 2)];
    for x in 0..4u32 {
        for y in 0..4u32 {
            let want = if covered.contains(&(x, y)) { red } else { black };
            assert_eq!(r.frame_buf[idx(&r, x, y)], want, "pixel ({}, {})", x, y);
        }
    }
    // every covered pixel carries the remapped depth of z = 0
    for (x, y) in covered {
        assert_eq!(r.depth_buf[idx(&r, x, y)], DEPTH_F2);
    }
}

#[test]
fn per_vertex_colors_take_first_corner_flat() {
    let mut r = Rasterizer::new(4, 4);
    let p = r.load_positions(vec![
        Vec3::new(-FX_ONE, -FX_ONE, 0),
        Vec3::new(0, -FX_ONE, 0),
        Vec3::new(-FX_ONE, 0, 0),
    ]);
    let i = r.load_indices(vec![(0, 1, 2)]);
    let c = r.load_colors(vec![
        Color::new_rgb(10, 20, 30),
        Color::new_rgb(40, 50, 60),
        Color::new_rgb(70, 80, 90),
    ]);
    let res = r.draw(p, i, Some(c), Primitive::Triangle);
    assert_eq!(res, Ok(()));
    assert_eq!(r.frame_buf[idx(&r, 0, 0)], Color::new_rgb(10, 20, 30));
}

#[test]
fn degenerate_triangle_draws_nothing() {
    let mut r = Rasterizer::new(4, 4);
    let v = Vec3::new(-FX_ONE / 2, -FX_ONE / 2, 0);
    let p = r.load_positions(vec![v, v, v]);
    let i = r.load_indices(vec![(0, 1, 2)]);
    let before = r.frame_buf.clone();
    let before_depth = r.depth_buf.clone();
    let res = r.draw(p, i, None, Primitive::Triangle);
    assert_eq!(res, Ok(()));
    assert_eq!(r.frame_buf, before);
    assert_eq!(r.depth_buf, before_depth);
}

#[test]
fn nearer_triangle_wins_the_depth_test() {
    // the same screen triangle drawn twice; the second draw is nearer
    // (smaller z) and overwrites it
    let mut r = Rasterizer::new(4, 4);
    let p = r.load_positions(vec![
        Vec3::new(-FX_ONE, -FX_ONE, 0),
        Vec3::new(0, -FX_ONE, 0),
        Vec3::new(-FX_ONE, 0, 0),
        Vec3::new(-FX_ONE, -FX_ONE, -FX_ONE),
        Vec3::new(0, -FX_ONE, -FX_ONE),
        Vec3::new(-FX_ONE, 0, -FX_ONE),
    ]);
    let i = r.load_indices(vec![(0, 1, 2)]);
    let i2 = r.load_indices(vec![(3, 4, 5)]);
    let c = r.load_colors(vec![
        Color::new_rgb(255, 0, 0),
        Color::new_rgb(255, 0, 0),
        Color::new_rgb(255, 0, 0),
        Color::new_rgb(0, 255, 0),
        Color::new_rgb(0, 255, 0),
        Color::new_rgb(0, 255, 0),
    ]);
    assert_eq!(r.draw(p, i, Some(c), Primitive::Triangle), Ok(()));
    assert_eq!(r.frame_buf[idx(&r, 0, 0)], Color::new_rgb(255, 0, 0));
    assert_eq!(r.draw(p, i2, Some(c), Primitive::Triangle), Ok(()));
    assert_eq!(r.frame_buf[idx(&r, 0, 0)], Color::new_rgb(0, 255, 0));
    // drawing the farther one again changes nothing
    assert_eq!(r.draw(p, i, Some(c), Primitive::Triangle), Ok(()));
    assert_eq!(r.frame_buf[idx(&r, 0, 0)], Color::new_rgb(0, 255, 0));
}

#[test]
fn framebuffer_view_matches_storage() {
    let mut r = Rasterizer::new(2, 2);
    let red = Color::new_rgb(255, 0, 0);
    r.set_pixel(0, 1, red, 1);
    let fb = r.framebuffer();
    assert_eq!(fb.len(), 4);
    assert_eq!(fb[(2 - 1 - 1) * 2], red);
}

#[test]
fn framebuffer_u32_packs_argb_words() {
    let mut r = Rasterizer::new(1, 1);
    r.set_pixel(0, 0, Color::new_rgba(0x11, 0x22, 0x33, 0x44), 0);
    let words = r.framebuffer_u32();
    assert_eq!(words, vec![0x4411_2233]);
}

#[test]
fn framebuffer_u8_is_rgba_byte_stream() {
    let mut r = Rasterizer::new(2, 1);
    r.set_pixel(0, 0, Color::new_rgba(1, 2, 3, 4), 0);
    r.set_pixel(1, 0, Color::new_rgba(5, 6, 7, 8), 0);
    let bytes = r.framebuffer_u8();
    assert_eq!(bytes, vec![1, 2, 3, 4, 5, 6, 7, 8]);
}

#[test]
fn draw_line_paints_horizontal_run() {
    let mut r = Rasterizer::new(4, 4);
    let green = Color::new_rgb(0, 255, 0);
    // from pixel (0,1) toward pixel (3,1): the walk paints x = 0, 1, 2
    r.draw_line(
        Vec3::new(0, FX_ONE, 0),
        Vec3::new(3 * FX_ONE, FX_ONE, 0),
        green,
    );
    let black = Color::new_rgb(0, 0, 0);
    assert_eq!(r.frame_buf[idx(&r, 0, 1)], green);
    assert_eq!(r.frame_buf[idx(&r, 1, 1)], green);
    assert_eq!(r.frame_buf[idx(&r, 2, 1)], green);
    assert_eq!(r.frame_buf[idx(&r, 3, 1)], black);
    // wireframe drawing is not depth-tested: the depth buffer is untouched
    assert!(r.depth_buf.iter().all(|d| *d == DEPTH_FAR));
}

#[test]
fn draw_line_handles_steep_slopes() {
    let mut r = Rasterizer::new(4, 4);
    let blue = Color::new_rgb(0, 0, 255);
    r.draw_line(Vec3::new(FX_ONE, 0, 0), Vec3::new(FX_ONE, 3 * FX_ONE, 0), blue);
    assert_eq!(r.frame_buf[idx(&r, 1, 0)], blue);
    assert_eq!(r.frame_buf[idx(&r, 1, 1)], blue);
    assert_eq!(r.frame_buf[idx(&r, 1, 2)], blue);
}

#[test]
fn wireframe_draws_three_edges() {
    let mut r = Rasterizer::new(4, 4);
    let mut t = Triangle::new();
    t.set_vertex(0, Vec3::new(0, 0, 0));
    t.set_vertex(1, Vec3::new(3 * FX_ONE, 0, 0));
    t.set_vertex(2, Vec3::new(0, 3 * FX_ONE, 0));
    let red = Color::new_rgb(255, 0, 0);
    t.set_color(0, red);
    t.set_color(1, red);
    t.set_color(2, red);
    r.rasterize_wireframe(&t);
    // the horizontal edge start and the vertical edge run are painted
    assert_eq!(r.frame_buf[idx(&r, 0, 0)], red);
    assert_eq!(r.frame_buf[idx(&r, 1, 0)], red);
    assert_eq!(r.frame_buf[idx(&r, 0, 1)], red);
}

#[test]
fn rasterize_triangle_respects_stored_depth() {
    let mut r = Rasterizer::new(4, 4);
    let near = Color::new_rgb(1, 1, 1);
    r.set_pixel(0, 0, near, -100_000);
    let mut t = Triangle::new();
    t.set_vertex(0, Vec3::new(0, 0, 0));
    t.set_vertex(1, Vec3::new(2 * FX_ONE, 0, 0));
    t.set_vertex(2, Vec3::new(0, 2 * FX_ONE, 0));
    t.set_color(0, Color::new_rgb(200, 0, 0));
    r.rasterize_triangle(&t);
    // pixel (0,0) was already nearer; (1,0) gets the triangle color
    assert_eq!(r.frame_buf[idx(&r, 0, 0)], near);
    assert_eq!(r.frame_buf[idx(&r, 1, 0)], Color::new_rgb(200, 0, 0));
    assert_eq!(r.depth_buf[idx(&r, 1, 0)], 0);
}
