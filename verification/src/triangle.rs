//! Per-triangle vertex attributes: three vertices, each with position,
//! color, texture coordinates and normal.

use vstd::prelude::*;
use crate::color::{Color, add_channel_s, scale_channel_s};
use crate::fixed::FX_ONE;
use crate::geometry::{Vec2, Vec3, Vec4};

verus! {

/// A transient triangle: exactly three vertices with their attributes,
/// in counter-clockwise order. Built fresh per draw call and discarded
/// after rasterization.
#[derive(Clone, Copy, Debug)]
pub struct Triangle {
    /// screen-space position of each vertex
    pub v: [Vec3; 3],
    /// color at each vertex
    pub color: [Color; 3],
    /// texture u,v at each vertex
    pub tex_coords: [Vec2; 3],
    /// normal vector at each vertex
    pub normal: [Vec3; 3],
}

/// One channel of a color interpolated with barycentric weights:
/// each corner channel scaled by its weight, the three saturating-added.
pub open spec fn bary_channel_s(c0: int, c1: int, c2: int, alpha: int, beta: int, gamma: int) -> int {
    add_channel_s(
        add_channel_s(scale_channel_s(c0, alpha), scale_channel_s(c1, beta)),
        scale_channel_s(c2, gamma),
    )
}

impl Triangle {
    /// The well-formed "empty" triangle: all positions and attributes
    /// zero, all corner colors opaque black.
    pub open spec fn default_s() -> Triangle {
        let zero3 = Vec3 { x: 0i64, y: 0i64, z: 0i64 };
        let zero2 = Vec2 { x: 0i64, y: 0i64 };
        let black = Color { r: 0u8, g: 0u8, b: 0u8, a: 255u8 };
        Triangle {
            v: [zero3, zero3, zero3],
            color: [black, black, black],
            tex_coords: [zero2, zero2, zero2],
            normal: [zero3, zero3, zero3],
        }
    }

    /// A fresh triangle with zeroed attributes.
    pub fn new() -> (t: Triangle)
        ensures
            t == Triangle::default_s(),
    {
        let zero3 = Vec3::zeros();
        let zero2 = Vec2::zeros();
        let black = Color::new_rgb(0, 0, 0);
        Triangle {
            v: [zero3, zero3, zero3],
            color: [black, black, black],
            tex_coords: [zero2, zero2, zero2],
            normal: [zero3, zero3, zero3],
        }
    }

    /// The first vertex position.
    pub fn a(&self) -> (p: Vec3)
        ensures
            p == self.v[0],
    {
        self.v[0]
    }

    /// The second vertex position.
    pub fn b(&self) -> (p: Vec3)
        ensures
            p == self.v[1],
    {
        self.v[1]
    }

    /// The third vertex position.
    pub fn c(&self) -> (p: Vec3)
        ensures
            p == self.v[2],
    {
        self.v[2]
    }

    /// Replace the position of one vertex.
    pub fn set_vertex(&mut self, index: usize, vertex: Vec3)
        requires
            index < 3,
        ensures
            final(self).v@ == old(self).v@.update(index as int, vertex),
            final(self).color == old(self).color,
            final(self).tex_coords == old(self).tex_coords,
            final(self).normal == old(self).normal,
    {
        self.v[index] = vertex;
    }

    /// Replace the normal of one vertex.
    pub fn set_normal(&mut self, index: usize, normal: Vec3)
        requires
            index < 3,
        ensures
            final(self).normal@ == old(self).normal@.update(index as int, normal),
            final(self).v == old(self).v,
            final(self).color == old(self).color,
            final(self).tex_coords == old(self).tex_coords,
    {
        self.normal[index] = normal;
    }

    /// Replace the texture coordinates of one vertex.
    pub fn set_tex_coords(&mut self, index: usize, s: i64, t: i64)
        requires
            index < 3,
        ensures
            final(self).tex_coords@ == old(self).tex_coords@.update(
                index as int,
                Vec2 { x: s, y: t },
            ),
            final(self).v == old(self).v,
            final(self).color == old(self).color,
            final(self).normal == old(self).normal,
    {
        self.tex_coords[index] = Vec2::new(s, t);
    }

    /// Replace the color of one vertex.
    pub fn set_color(&mut self, index: usize, color: Color)
        requires
            index < 3,
        ensures
            final(self).color@ == old(self).color@.update(index as int, color),
            final(self).v == old(self).v,
            final(self).tex_coords == old(self).tex_coords,
            final(self).normal == old(self).normal,
    {
        self.color[index] = color;
    }

    /// The triangle's flat color: the color of its first vertex.
    pub fn color(&self) -> (c: Color)
        ensures
            c == self.color[0],
    {
        self.color[0]
    }

    /// The corner colors blended with fixed-point barycentric weights
    /// (`FX_ONE` stands for a weight of 1.0): each corner scaled and
    /// clamped, the three then added with saturation, channel by channel.
    pub fn color_by_barycentric(&self, alpha: i64, beta: i64, gamma: i64) -> (c: Color)
        ensures
            c.r as int == bary_channel_s(
                self.color[0].r as int,
                self.color[1].r as int,
                self.color[2].r as int,
                alpha as int,
                beta as int,
                gamma as int,
            ),
            c.g as int == bary_channel_s(
                self.color[0].g as int,
                self.color[1].g as int,
                self.color[2].g as int,
                alpha as int,
                beta as int,
                gamma as int,
            ),
            c.b as int == bary_channel_s(
                self.color[0].b as int,
                self.color[1].b as int,
                self.color[2].b as int,
                alpha as int,
                beta as int,
                gamma as int,
            ),
            c.a == 255u8,
    {
        let c0 = self.color[0].mul_with(alpha);
        let c1 = self.color[1].mul_with(beta);
        let c2 = self.color[2].mul_with(gamma);
        c0.add_color(&c1).add_color(&c2)
    }

    /// The three vertex positions homogenized to 4-vectors with w = 1.0.
    pub fn to_vector4(&self) -> (v: [Vec4; 3])
        ensures
            v[0] == (Vec4 { x: self.v[0].x, y: self.v[0].y, z: self.v[0].z, w: FX_ONE as i64 }),
            v[1] == (Vec4 { x: self.v[1].x, y: self.v[1].y, z: self.v[1].z, w: FX_ONE as i64 }),
            v[2] == (Vec4 { x: self.v[2].x, y: self.v[2].y, z: self.v[2].z, w: FX_ONE as i64 }),
    {
        [
            Vec4::new(self.v[0].x, self.v[0].y, self.v[0].z, FX_ONE),
            Vec4::new(self.v[1].x, self.v[1].y, self.v[1].z, FX_ONE),
            Vec4::new(self.v[2].x, self.v[2].y, self.v[2].z, FX_ONE),
        ]
    }
}

impl Default for Triangle {
    /// The zeroed triangle, as `new` builds it.
    fn default() -> (t: Triangle)
        ensures
            t == Triangle::default_s(),
    {
        Triangle::new()
    }
}

} // verus!
