//! 3D vectors and 3x3 matrices over the fixed-point scalar.
//!
//! Each executable operation is pinned to a spec-level mirror over the raw
//! integer components (`V3`, `M3`), so every contract downstream can state
//! results exactly.

use vstd::prelude::*;

use crate::fx::{fx_add, fx_div, fx_mul, fx_neg, fx_sqrt, fx_sub, fx_wf, Fx, MAX_RAW, SCALE};

verus! {

/// Spec mirror of `Vec3::normalize`.
pub open spec fn v3_normalize(v: V3) -> V3 {
    let n = fx_sqrt(v3_dot(v, v));
    if n == 0 {
        v3_zero()
    } else {
        V3 { x: fx_div(v.x, n), y: fx_div(v.y, n), z: fx_div(v.z, n) }
    }
}

/// Spec-level vector: the raw components as mathematical integers.
pub struct V3 {
    pub x: int,
    pub y: int,
    pub z: int,
}

/// Spec-level matrix, row-major: `m12` is row 1, column 2.
pub struct M3 {
    pub m11: int,
    pub m12: int,
    pub m13: int,
    pub m21: int,
    pub m22: int,
    pub m23: int,
    pub m31: int,
    pub m32: int,
    pub m33: int,
}

pub open spec fn v3_wf(v: V3) -> bool {
    &&& -(MAX_RAW as int) <= v.x <= MAX_RAW as int
    &&& -(MAX_RAW as int) <= v.y <= MAX_RAW as int
    &&& -(MAX_RAW as int) <= v.z <= MAX_RAW as int
}

pub open spec fn m3_wf(m: M3) -> bool {
    &&& -(MAX_RAW as int) <= m.m11 <= MAX_RAW as int
    &&& -(MAX_RAW as int) <= m.m12 <= MAX_RAW as int
    &&& -(MAX_RAW as int) <= m.m13 <= MAX_RAW as int
    &&& -(MAX_RAW as int) <= m.m21 <= MAX_RAW as int
    &&& -(MAX_RAW as int) <= m.m22 <= MAX_RAW as int
    &&& -(MAX_RAW as int) <= m.m23 <= MAX_RAW as int
    &&& -(MAX_RAW as int) <= m.m31 <= MAX_RAW as int
    &&& -(MAX_RAW as int) <= m.m32 <= MAX_RAW as int
    &&& -(MAX_RAW as int) <= m.m33 <= MAX_RAW as int
}

pub open spec fn v3_zero() -> V3 {
    V3 { x: 0, y: 0, z: 0 }
}

pub open spec fn v3_add(a: V3, b: V3) -> V3 {
    V3 { x: fx_add(a.x, b.x), y: fx_add(a.y, b.y), z: fx_add(a.z, b.z) }
}

pub open spec fn v3_sub(a: V3, b: V3) -> V3 {
    V3 { x: fx_sub(a.x, b.x), y: fx_sub(a.y, b.y), z: fx_sub(a.z, b.z) }
}

pub open spec fn v3_neg(a: V3) -> V3 {
    V3 { x: fx_neg(a.x), y: fx_neg(a.y), z: fx_neg(a.z) }
}

pub open spec fn v3_scale(s: int, a: V3) -> V3 {
    V3 { x: fx_mul(s, a.x), y: fx_mul(s, a.y), z: fx_mul(s, a.z) }
}

pub open spec fn v3_dot(a: V3, b: V3) -> int {
    fx_add(fx_add(fx_mul(a.x, b.x), fx_mul(a.y, b.y)), fx_mul(a.z, b.z))
}

pub open spec fn v3_cross(a: V3, b: V3) -> V3 {
    V3 {
        x: fx_sub(fx_mul(a.y, b.z), fx_mul(a.z, b.y)),
        y: fx_sub(fx_mul(a.z, b.x), fx_mul(a.x, b.z)),
        z: fx_sub(fx_mul(a.x, b.y), fx_mul(a.y, b.x)),
    }
}

pub open spec fn m3_row1(m: M3) -> V3 {
    V3 { x: m.m11, y: m.m12, z: m.m13 }
}

pub open spec fn m3_row2(m: M3) -> V3 {
    V3 { x: m.m21, y: m.m22, z: m.m23 }
}

pub open spec fn m3_row3(m: M3) -> V3 {
    V3 { x: m.m31, y: m.m32, z: m.m33 }
}

pub open spec fn m3_col1(m: M3) -> V3 {
    V3 { x: m.m11, y: m.m21, z: m.m31 }
}

pub open spec fn m3_col2(m: M3) -> V3 {
    V3 { x: m.m12, y: m.m22, z: m.m32 }
}

pub open spec fn m3_col3(m: M3) -> V3 {
    V3 { x: m.m13, y: m.m23, z: m.m33 }
}

pub open spec fn m3_zero() -> M3 {
    M3 { m11: 0, m12: 0, m13: 0, m21: 0, m22: 0, m23: 0, m31: 0, m32: 0, m33: 0 }
}

pub open spec fn m3_identity() -> M3 {
    M3 {
        m11: SCALE as int, m12: 0, m13: 0,
        m21: 0, m22: SCALE as int, m23: 0,
        m31: 0, m32: 0, m33: SCALE as int,
    }
}

pub open spec fn m3_transpose(m: M3) -> M3 {
    M3 {
        m11: m.m11, m12: m.m21, m13: m.m31,
        m21: m.m12, m22: m.m22, m23: m.m32,
        m31: m.m13, m32: m.m23, m33: m.m33,
    }
}

pub open spec fn m3_add(a: M3, b: M3) -> M3 {
    M3 {
        m11: fx_add(a.m11, b.m11), m12: fx_add(a.m12, b.m12), m13: fx_add(a.m13, b.m13),
        m21: fx_add(a.m21, b.m21), m22: fx_add(a.m22, b.m22), m23: fx_add(a.m23, b.m23),
        m31: fx_add(a.m31, b.m31), m32: fx_add(a.m32, b.m32), m33: fx_add(a.m33, b.m33),
    }
}

pub open spec fn m3_sub(a: M3, b: M3) -> M3 {
    M3 {
        m11: fx_sub(a.m11, b.m11), m12: fx_sub(a.m12, b.m12), m13: fx_sub(a.m13, b.m13),
        m21: fx_sub(a.m21, b.m21), m22: fx_sub(a.m22, b.m22), m23: fx_sub(a.m23, b.m23),
        m31: fx_sub(a.m31, b.m31), m32: fx_sub(a.m32, b.m32), m33: fx_sub(a.m33, b.m33),
    }
}

pub open spec fn m3_scale(s: int, m: M3) -> M3 {
    M3 {
        m11: fx_mul(s, m.m11), m12: fx_mul(s, m.m12), m13: fx_mul(s, m.m13),
        m21: fx_mul(s, m.m21), m22: fx_mul(s, m.m22), m23: fx_mul(s, m.m23),
        m31: fx_mul(s, m.m31), m32: fx_mul(s, m.m32), m33: fx_mul(s, m.m33),
    }
}

pub open spec fn m3_mul_vec(m: M3, v: V3) -> V3 {
    V3 { x: v3_dot(m3_row1(m), v), y: v3_dot(m3_row2(m), v), z: v3_dot(m3_row3(m), v) }
}

pub open spec fn m3_mul(a: M3, b: M3) -> M3 {
    M3 {
        m11: v3_dot(m3_row1(a), m3_col1(b)),
        m12: v3_dot(m3_row1(a), m3_col2(b)),
        m13: v3_dot(m3_row1(a), m3_col3(b)),
        m21: v3_dot(m3_row2(a), m3_col1(b)),
        m22: v3_dot(m3_row2(a), m3_col2(b)),
        m23: v3_dot(m3_row2(a), m3_col3(b)),
        m31: v3_dot(m3_row3(a), m3_col1(b)),
        m32: v3_dot(m3_row3(a), m3_col2(b)),
        m33: v3_dot(m3_row3(a), m3_col3(b)),
    }
}

/// Outer product: `(a b^T)_{ij} = a_i * b_j`.
pub open spec fn m3_outer(a: V3, b: V3) -> M3 {
    M3 {
        m11: fx_mul(a.x, b.x), m12: fx_mul(a.x, b.y), m13: fx_mul(a.x, b.z),
        m21: fx_mul(a.y, b.x), m22: fx_mul(a.y, b.y), m23: fx_mul(a.y, b.z),
        m31: fx_mul(a.z, b.x), m32: fx_mul(a.z, b.y), m33: fx_mul(a.z, b.z),
    }
}

/// Skew-symmetric cross-product matrix of a vector.
pub open spec fn m3_cross_matrix(v: V3) -> M3 {
    M3 {
        m11: 0, m12: fx_neg(v.z), m13: v.y,
        m21: v.z, m22: 0, m23: fx_neg(v.x),
        m31: fx_neg(v.y), m32: v.x, m33: 0,
    }
}

/// A 3D vector of fixed-point scalars.
#[derive(Clone, Copy, Debug, PartialEq, Eq, Structural)]
pub struct Vec3 {
    pub x: Fx,
    pub y: Fx,
    pub z: Fx,
}

impl View for Vec3 {
    type V = V3;

    open spec fn view(&self) -> V3 {
        V3 { x: self.x@, y: self.y@, z: self.z@ }
    }
}

/// A 3x3 matrix of fixed-point scalars, row-major.
#[derive(Clone, Copy, Debug, PartialEq, Eq, Structural)]
pub struct Mat3 {
    pub m11: Fx,
    pub m12: Fx,
    pub m13: Fx,
    pub m21: Fx,
    pub m22: Fx,
    pub m23: Fx,
    pub m31: Fx,
    pub m32: Fx,
    pub m33: Fx,
}

impl View for Mat3 {
    type V = M3;

    open spec fn view(&self) -> M3 {
        M3 {
            m11: self.m11@, m12: self.m12@, m13: self.m13@,
            m21: self.m21@, m22: self.m22@, m23: self.m23@,
            m31: self.m31@, m32: self.m32@, m33: self.m33@,
        }
    }
}

impl Vec3 {
    pub fn new(x: Fx, y: Fx, z: Fx) -> (r: Vec3)
        ensures
            r@ == (V3 { x: x@, y: y@, z: z@ }),
    {
        Vec3 { x, y, z }
    }

    pub fn zeros() -> (r: Vec3)
        ensures
            r@ == v3_zero(),
            v3_wf(r@),
    {
        Vec3 { x: Fx::zero(), y: Fx::zero(), z: Fx::zero() }
    }

    pub fn add(self, o: Vec3) -> (r: Vec3)
        ensures
            r@ == v3_add(self@, o@),
            v3_wf(r@),
    {
        Vec3 { x: self.x.add(o.x), y: self.y.add(o.y), z: self.z.add(o.z) }
    }

    pub fn sub(self, o: Vec3) -> (r: Vec3)
        ensures
            r@ == v3_sub(self@, o@),
            v3_wf(r@),
    {
        Vec3 { x: self.x.sub(o.x), y: self.y.sub(o.y), z: self.z.sub(o.z) }
    }

    pub fn neg(self) -> (r: Vec3)
        ensures
            r@ == v3_neg(self@),
            v3_wf(r@),
    {
        Vec3 { x: self.x.neg(), y: self.y.neg(), z: self.z.neg() }
    }

    pub fn scale(self, s: Fx) -> (r: Vec3)
        ensures
            r@ == v3_scale(s@, self@),
            v3_wf(r@),
    {
        Vec3 { x: s.mul(self.x), y: s.mul(self.y), z: s.mul(self.z) }
    }

    pub fn dot(self, o: Vec3) -> (r: Fx)
        ensures
            r@ == v3_dot(self@, o@),
            fx_wf(r),
    {
        self.x.mul(o.x).add(self.y.mul(o.y)).add(self.z.mul(o.z))
    }

    pub fn cross(self, o: Vec3) -> (r: Vec3)
        ensures
            r@ == v3_cross(self@, o@),
            v3_wf(r@),
    {
        Vec3 {
            x: self.y.mul(o.z).sub(self.z.mul(o.y)),
            y: self.z.mul(o.x).sub(self.x.mul(o.z)),
            z: self.x.mul(o.y).sub(self.y.mul(o.x)),
        }
    }

    /// Direction of this vector: each component divided by the Euclidean
    /// norm (computed at fixed-point precision). The zero vector, whose
    /// direction is undefined, maps to the zero vector.
    pub fn normalize(self) -> (r: Vec3)
        ensures
            r@ == v3_normalize(self@),
            v3_wf(r@),
            self@ == v3_zero() ==> r@ == v3_zero(),
    {
        let n = self.dot(self).sqrt();
        if n.raw == 0 {
            Vec3::zeros()
        } else {
            Vec3 { x: self.x.div(n), y: self.y.div(n), z: self.z.div(n) }
        }
    }

    pub fn cross_matrix(self) -> (r: Mat3)
        ensures
            r@ == m3_cross_matrix(self@),
            v3_wf(self@) ==> m3_wf(r@),
    {
        Mat3 {
            m11: Fx::zero(), m12: self.z.neg(), m13: self.y,
            m21: self.z, m22: Fx::zero(), m23: self.x.neg(),
            m31: self.y.neg(), m32: self.x, m33: Fx::zero(),
        }
    }

    /// Outer product with another vector.
    pub fn outer(self, o: Vec3) -> (r: Mat3)
        ensures
            r@ == m3_outer(self@, o@),
            m3_wf(r@),
    {
        Mat3 {
            m11: self.x.mul(o.x), m12: self.x.mul(o.y), m13: self.x.mul(o.z),
            m21: self.y.mul(o.x), m22: self.y.mul(o.y), m23: self.y.mul(o.z),
            m31: self.z.mul(o.x), m32: self.z.mul(o.y), m33: self.z.mul(o.z),
        }
    }
}

impl Mat3 {
    pub fn zeros() -> (r: Mat3)
        ensures
            r@ == m3_zero(),
            m3_wf(r@),
    {
        let z = Fx::zero();
        Mat3 { m11: z, m12: z, m13: z, m21: z, m22: z, m23: z, m31: z, m32: z, m33: z }
    }

    pub fn identity() -> (r: Mat3)
        ensures
            r@ == m3_identity(),
            m3_wf(r@),
    {
        let z = Fx::zero();
        let o = Fx::one();
        Mat3 { m11: o, m12: z, m13: z, m21: z, m22: o, m23: z, m31: z, m32: z, m33: o }
    }

    pub fn transpose(self) -> (r: Mat3)
        ensures
            r@ == m3_transpose(self@),
            m3_wf(self@) ==> m3_wf(r@),
    {
        Mat3 {
            m11: self.m11, m12: self.m21, m13: self.m31,
            m21: self.m12, m22: self.m22, m23: self.m32,
            m31: self.m13, m32: self.m23, m33: self.m33,
        }
    }

    pub fn add(self, o: Mat3) -> (r: Mat3)
        ensures
            r@ == m3_add(self@, o@),
            m3_wf(r@),
    {
        Mat3 {
            m11: self.m11.add(o.m11), m12: self.m12.add(o.m12), m13: self.m13.add(o.m13),
            m21: self.m21.add(o.m21), m22: self.m22.add(o.m22), m23: self.m23.add(o.m23),
            m31: self.m31.add(o.m31), m32: self.m32.add(o.m32), m33: self.m33.add(o.m33),
        }
    }

    pub fn sub(self, o: Mat3) -> (r: Mat3)
        ensures
            r@ == m3_sub(self@, o@),
            m3_wf(r@),
    {
        Mat3 {
            m11: self.m11.sub(o.m11), m12: self.m12.sub(o.m12), m13: self.m13.sub(o.m13),
            m21: self.m21.sub(o.m21), m22: self.m22.sub(o.m22), m23: self.m23.sub(o.m23),
            m31: self.m31.sub(o.m31), m32: self.m32.sub(o.m32), m33: self.m33.sub(o.m33),
        }
    }

    pub fn scale(self, s: Fx) -> (r: Mat3)
        ensures
            r@ == m3_scale(s@, self@),
            m3_wf(r@),
    {
        Mat3 {
            m11: s.mul(self.m11), m12: s.mul(self.m12), m13: s.mul(self.m13),
            m21: s.mul(self.m21), m22: s.mul(self.m22), m23: s.mul(self.m23),
            m31: s.mul(self.m31), m32: s.mul(self.m32), m33: s.mul(self.m33),
        }
    }

    pub fn mul_vec(self, v: Vec3) -> (r: Vec3)
        ensures
            r@ == m3_mul_vec(self@, v@),
            v3_wf(r@),
    {
        Vec3 {
            x: self.row1().dot(v),
            y: self.row2().dot(v),
            z: self.row3().dot(v),
        }
    }

    pub fn mul_mat(self, o: Mat3) -> (r: Mat3)
        ensures
            r@ == m3_mul(self@, o@),
            m3_wf(r@),
    {
        Mat3 {
            m11: self.row1().dot(o.col1()),
            m12: self.row1().dot(o.col2()),
            m13: self.row1().dot(o.col3()),
            m21: self.row2().dot(o.col1()),
            m22: self.row2().dot(o.col2()),
            m23: self.row2().dot(o.col3()),
            m31: self.row3().dot(o.col1()),
            m32: self.row3().dot(o.col2()),
            m33: self.row3().dot(o.col3()),
        }
    }

    fn row1(self) -> (r: Vec3)
        ensures
            r@ == m3_row1(self@),
    {
        Vec3 { x: self.m11, y: self.m12, z: self.m13 }
    }

    fn row2(self) -> (r: Vec3)
        ensures
            r@ == m3_row2(self@),
    {
        Vec3 { x: self.m21, y: self.m22, z: self.m23 }
    }

    fn row3(self) -> (r: Vec3)
        ensures
            r@ == m3_row3(self@),
    {
        Vec3 { x: self.m31, y: self.m32, z: self.m33 }
    }

    fn col1(self) -> (r: Vec3)
        ensures
            r@ == m3_col1(self@),
    {
        Vec3 { x: self.m11, y: self.m21, z: self.m31 }
    }

    fn col2(self) -> (r: Vec3)
        ensures
            r@ == m3_col2(self@),
    {
        Vec3 { x: self.m12, y: self.m22, z: self.m32 }
    }

    fn col3(self) -> (r: Vec3)
        ensures
            r@ == m3_col3(self@),
    {
        Vec3 { x: self.m13, y: self.m23, z: self.m33 }
    }
}

} // verus!
