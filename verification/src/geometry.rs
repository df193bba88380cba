//! Fixed-point vectors and 4x4 matrices for the transform pipeline.

use vstd::prelude::*;
use crate::fixed::{FX_ONE, fx_add, fx_add_s, fx_mul, fx_mul_s};

verus! {

/// A 2D fixed-point vector (texture coordinates).
#[derive(Clone, Copy, PartialEq, Eq, Structural, Debug)]
pub struct Vec2 {
    pub x: i64,
    pub y: i64,
}

/// A 3D fixed-point vector (positions, normals, screen-space vertices).
#[derive(Clone, Copy, PartialEq, Eq, Structural, Debug)]
pub struct Vec3 {
    pub x: i64,
    pub y: i64,
    pub z: i64,
}

/// A 4D fixed-point vector (homogeneous coordinates).
#[derive(Clone, Copy, PartialEq, Eq, Structural, Debug)]
pub struct Vec4 {
    pub x: i64,
    pub y: i64,
    pub z: i64,
    pub w: i64,
}

/// A 4x4 fixed-point matrix, stored by rows.
#[derive(Clone, Copy, PartialEq, Eq, Structural, Debug)]
pub struct Mat4 {
    pub r0: Vec4,
    pub r1: Vec4,
    pub r2: Vec4,
    pub r3: Vec4,
}

/// The saturating fixed-point dot product of two 4-vectors.
pub open spec fn dot4_s(a: Vec4, b: Vec4) -> int {
    fx_add_s(
        fx_add_s(fx_mul_s(a.x as int, b.x as int), fx_mul_s(a.y as int, b.y as int)),
        fx_add_s(fx_mul_s(a.z as int, b.z as int), fx_mul_s(a.w as int, b.w as int)),
    )
}

/// Matrix-vector product, component by component.
pub open spec fn mat_vec_mul_s(m: Mat4, v: Vec4) -> Vec4 {
    Vec4 {
        x: dot4_s(m.r0, v) as i64,
        y: dot4_s(m.r1, v) as i64,
        z: dot4_s(m.r2, v) as i64,
        w: dot4_s(m.r3, v) as i64,
    }
}

/// Column `j` of a matrix, as a 4-vector.
pub open spec fn col_s(m: Mat4, j: int) -> Vec4 {
    if j == 0 {
        Vec4 { x: m.r0.x, y: m.r1.x, z: m.r2.x, w: m.r3.x }
    } else if j == 1 {
        Vec4 { x: m.r0.y, y: m.r1.y, z: m.r2.y, w: m.r3.y }
    } else if j == 2 {
        Vec4 { x: m.r0.z, y: m.r1.z, z: m.r2.z, w: m.r3.z }
    } else {
        Vec4 { x: m.r0.w, y: m.r1.w, z: m.r2.w, w: m.r3.w }
    }
}

/// One row of the product `a * b`.
pub open spec fn mat_mul_row_s(r: Vec4, b: Mat4) -> Vec4 {
    Vec4 {
        x: dot4_s(r, col_s(b, 0)) as i64,
        y: dot4_s(r, col_s(b, 1)) as i64,
        z: dot4_s(r, col_s(b, 2)) as i64,
        w: dot4_s(r, col_s(b, 3)) as i64,
    }
}

/// Matrix product `a * b` in fixed-point arithmetic.
pub open spec fn mat_mul_s(a: Mat4, b: Mat4) -> Mat4 {
    Mat4 {
        r0: mat_mul_row_s(a.r0, b),
        r1: mat_mul_row_s(a.r1, b),
        r2: mat_mul_row_s(a.r2, b),
        r3: mat_mul_row_s(a.r3, b),
    }
}

/// The identity matrix (`FX_ONE` on the diagonal).
pub open spec fn mat_identity_s() -> Mat4 {
    Mat4 {
        r0: Vec4 { x: FX_ONE as i64, y: 0i64, z: 0i64, w: 0i64 },
        r1: Vec4 { x: 0i64, y: FX_ONE as i64, z: 0i64, w: 0i64 },
        r2: Vec4 { x: 0i64, y: 0i64, z: FX_ONE as i64, w: 0i64 },
        r3: Vec4 { x: 0i64, y: 0i64, z: 0i64, w: FX_ONE as i64 },
    }
}

impl Vec2 {
    /// A 2D vector from its components.
    pub fn new(x: i64, y: i64) -> (v: Vec2)
        ensures
            v == (Vec2 { x, y }),
    {
        Vec2 { x, y }
    }

    /// The zero vector.
    pub fn zeros() -> (v: Vec2)
        ensures
            v == (Vec2 { x: 0i64, y: 0i64 }),
    {
        Vec2 { x: 0, y: 0 }
    }
}

impl Vec3 {
    /// A 3D vector from its components.
    pub fn new(x: i64, y: i64, z: i64) -> (v: Vec3)
        ensures
            v == (Vec3 { x, y, z }),
    {
        Vec3 { x, y, z }
    }

    /// The zero vector.
    pub fn zeros() -> (v: Vec3)
        ensures
            v == (Vec3 { x: 0i64, y: 0i64, z: 0i64 }),
    {
        Vec3 { x: 0, y: 0, z: 0 }
    }
}

impl Vec4 {
    /// A 4D vector from its components.
    pub fn new(x: i64, y: i64, z: i64, w: i64) -> (v: Vec4)
        ensures
            v == (Vec4 { x, y, z, w }),
    {
        Vec4 { x, y, z, w }
    }
}

/// The saturating fixed-point dot product of two 4-vectors.
pub fn dot4(a: &Vec4, b: &Vec4) -> (r: i64)
    ensures
        r as int == dot4_s(*a, *b),
{
    let xx = fx_mul(a.x, b.x);
    let yy = fx_mul(a.y, b.y);
    let zz = fx_mul(a.z, b.z);
    let ww = fx_mul(a.w, b.w);
    fx_add(fx_add(xx, yy), fx_add(zz, ww))
}

impl Mat4 {
    /// The identity matrix.
    pub fn identity() -> (m: Mat4)
        ensures
            m == mat_identity_s(),
    {
        Mat4 {
            r0: Vec4 { x: FX_ONE, y: 0, z: 0, w: 0 },
            r1: Vec4 { x: 0, y: FX_ONE, z: 0, w: 0 },
            r2: Vec4 { x: 0, y: 0, z: FX_ONE, w: 0 },
            r3: Vec4 { x: 0, y: 0, z: 0, w: FX_ONE },
        }
    }

    /// A matrix from its 16 entries, row by row.
    pub fn from_rows(r0: Vec4, r1: Vec4, r2: Vec4, r3: Vec4) -> (m: Mat4)
        ensures
            m == (Mat4 { r0, r1, r2, r3 }),
    {
        Mat4 { r0, r1, r2, r3 }
    }

    /// Matrix-vector product.
    pub fn mul_vec(&self, v: &Vec4) -> (r: Vec4)
        ensures
            r == mat_vec_mul_s(*self, *v),
    {
        Vec4 {
            x: dot4(&self.r0, v),
            y: dot4(&self.r1, v),
            z: dot4(&self.r2, v),
            w: dot4(&self.r3, v),
        }
    }

    /// Column `j` of the matrix.
    fn col(&self, j: usize) -> (c: Vec4)
        requires
            j < 4,
        ensures
            c == col_s(*self, j as int),
    {
        if j == 0 {
            Vec4 { x: self.r0.x, y: self.r1.x, z: self.r2.x, w: self.r3.x }
        } else if j == 1 {
            Vec4 { x: self.r0.y, y: self.r1.y, z: self.r2.y, w: self.r3.y }
        } else if j == 2 {
            Vec4 { x: self.r0.z, y: self.r1.z, z: self.r2.z, w: self.r3.z }
        } else {
            Vec4 { x: self.r0.w, y: self.r1.w, z: self.r2.w, w: self.r3.w }
        }
    }

    /// Matrix product `self * other`.
    pub fn mul_mat(&self, other: &Mat4) -> (r: Mat4)
        ensures
            r == mat_mul_s(*self, *other),
    {
        let c0 = other.col(0);
        let c1 = other.col(1);
        let c2 = other.col(2);
        let c3 = other.col(3);
        Mat4 {
            r0: Vec4 {
                x: dot4(&self.r0, &c0),
                y: dot4(&self.r0, &c1),
                z: dot4(&self.r0, &c2),
                w: dot4(&self.r0, &c3),
            },
            r1: Vec4 {
                x: dot4(&self.r1, &c0),
                y: dot4(&self.r1, &c1),
                z: dot4(&self.r1, &c2),
                w: dot4(&self.r1, &c3),
            },
            r2: Vec4 {
                x: dot4(&self.r2, &c0),
                y: dot4(&self.r2, &c1),
                z: dot4(&self.r2, &c2),
                w: dot4(&self.r2, &c3),
            },
            r3: Vec4 {
                x: dot4(&self.r3, &c0),
                y: dot4(&self.r3, &c1),
                z: dot4(&self.r3, &c2),
                w: dot4(&self.r3, &c3),
            },
        }
    }
}

} // verus!
