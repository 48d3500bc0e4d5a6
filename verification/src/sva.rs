//! Spatial-vector algebra: 6D motion and force vectors, spatial transforms,
//! rigid-body inertia and articulated-body inertia.
//!
//! A `Motion` is a (linear, angular) velocity pair and a `Force` a (force,
//! moment) pair, each in a definite frame. An `Xform` holds the pose of a
//! frame relative to its parent; composing and applying it follows the usual
//! spatial-algebra adjoint rules (forces transform dually to motions).

use vstd::prelude::*;

use crate::fx::{cos_sin_v, fx_add, fx_div, fx_mul, fx_neg, fx_sqrt, fx_sub, fx_wf, Fx, SCALE};
use crate::serialize::{InertiaDef, QuatDef, TransformDef};
use crate::linalg::{
    m3_add, m3_cross_matrix, m3_identity, m3_mul, m3_mul_vec, m3_scale, m3_sub, m3_transpose,
    m3_wf, m3_zero, v3_add, v3_cross, v3_dot, v3_neg, v3_scale, v3_sub, v3_wf, v3_zero, M3, Mat3,
    V3, Vec3,
};
use crate::linalg::m3_outer;

verus! {

/// Spec-level spatial transform.
pub struct XfV {
    pub position: V3,
    pub rotation: M3,
}

/// Spec-level spatial motion vector.
pub struct MoV {
    pub v: V3,
    pub w: V3,
}

/// Spec-level spatial force vector.
pub struct FoV {
    pub f: V3,
    pub m: V3,
}

/// Spec-level rigid-body inertia.
pub struct InV {
    pub m: int,
    pub c: V3,
    pub moi: M3,
}

/// Spec-level articulated-body inertia.
pub struct IabV {
    pub m: M3,
    pub c: M3,
    pub moi: M3,
}

pub open spec fn xf_wf(x: XfV) -> bool {
    v3_wf(x.position) && m3_wf(x.rotation)
}

pub open spec fn mo_wf(m: MoV) -> bool {
    v3_wf(m.v) && v3_wf(m.w)
}

pub open spec fn fo_wf(f: FoV) -> bool {
    v3_wf(f.f) && v3_wf(f.m)
}

pub open spec fn iab_wf(i: IabV) -> bool {
    m3_wf(i.m) && m3_wf(i.c) && m3_wf(i.moi)
}

pub open spec fn xf_identity() -> XfV {
    XfV { position: v3_zero(), rotation: m3_identity() }
}

pub open spec fn xf_inverse(x: XfV) -> XfV {
    XfV {
        position: v3_neg(m3_mul_vec(x.rotation, x.position)),
        rotation: m3_transpose(x.rotation),
    }
}

/// Composition of two relative poses, as the original operator chains them:
/// `a` relative to the frame that `b` maps into.
pub open spec fn xf_mul(a: XfV, b: XfV) -> XfV {
    XfV {
        position: v3_add(b.position, m3_mul_vec(m3_transpose(b.rotation), a.position)),
        rotation: m3_mul(a.rotation, b.rotation),
    }
}

pub open spec fn xf_mul_motion(x: XfV, mo: MoV) -> MoV {
    MoV {
        v: m3_mul_vec(x.rotation, v3_sub(mo.v, v3_cross(x.position, mo.w))),
        w: m3_mul_vec(x.rotation, mo.w),
    }
}

/// Forces transform dually to motions.
pub open spec fn xf_mul_force(x: XfV, fo: FoV) -> FoV {
    FoV {
        f: m3_mul_vec(x.rotation, fo.f),
        m: m3_mul_vec(x.rotation, v3_sub(fo.m, v3_cross(x.position, fo.f))),
    }
}

pub open spec fn xf_mul_v3(x: XfV, v: V3) -> V3 {
    m3_mul_vec(x.rotation, v)
}

pub open spec fn xf_transform_point(x: XfV, p: V3) -> V3 {
    m3_mul_vec(x.rotation, v3_sub(p, x.position))
}

/// Congruence transform of an articulated-body inertia.
pub open spec fn xf_mul_iab(x: XfV, i: IabV) -> IabV {
    let rot = x.rotation;
    let rot_t = m3_transpose(rot);
    let icross = m3_cross_matrix(x.position);
    let c_shift = m3_sub(i.c, m3_mul(icross, i.m));
    IabV {
        m: m3_mul(m3_mul(rot, i.m), rot_t),
        c: m3_mul(m3_mul(rot, c_shift), rot_t),
        moi: m3_mul(
            m3_mul(
                rot,
                m3_add(m3_sub(i.moi, m3_mul(icross, m3_transpose(i.c))), m3_mul(c_shift, icross)),
            ),
            rot_t,
        ),
    }
}

pub open spec fn mo_zero() -> MoV {
    MoV { v: v3_zero(), w: v3_zero() }
}

pub open spec fn mo_add(a: MoV, b: MoV) -> MoV {
    MoV { v: v3_add(a.v, b.v), w: v3_add(a.w, b.w) }
}

pub open spec fn mo_scale(s: int, a: MoV) -> MoV {
    MoV { v: v3_scale(s, a.v), w: v3_scale(s, a.w) }
}

/// Spatial cross product of two motions (the Coriolis term).
pub open spec fn mo_cross_v(a: MoV, b: MoV) -> MoV {
    MoV {
        v: v3_add(v3_cross(a.w, b.v), v3_cross(a.v, b.w)),
        w: v3_cross(a.w, b.w),
    }
}

/// Spatial cross product of a motion with a force (dual to `mo_cross_v`).
pub open spec fn mo_cross_f(a: MoV, b: FoV) -> FoV {
    FoV {
        f: v3_cross(a.w, b.f),
        m: v3_add(v3_cross(a.w, b.m), v3_cross(a.v, b.f)),
    }
}

/// Linear velocity of the point `p` carried by the motion `a`.
pub open spec fn mo_velocity_point(a: MoV, p: V3) -> V3 {
    v3_add(v3_cross(a.w, p), a.v)
}

/// Spatial dot product of a motion with a force (power pairing).
pub open spec fn mo_dot_force(a: MoV, b: FoV) -> int {
    fx_add(v3_dot(a.v, b.f), v3_dot(a.w, b.m))
}

pub open spec fn fo_zero() -> FoV {
    FoV { f: v3_zero(), m: v3_zero() }
}

pub open spec fn fo_add(a: FoV, b: FoV) -> FoV {
    FoV { f: v3_add(a.f, b.f), m: v3_add(a.m, b.m) }
}

pub open spec fn fo_sub(a: FoV, b: FoV) -> FoV {
    FoV { f: v3_sub(a.f, b.f), m: v3_sub(a.m, b.m) }
}

pub open spec fn fo_scale(s: int, a: FoV) -> FoV {
    FoV { f: v3_scale(s, a.f), m: v3_scale(s, a.m) }
}

/// Rank-one articulated-body inertia built from a force's outer products.
pub open spec fn fo_self_outer(a: FoV) -> IabV {
    IabV { m: m3_outer(a.f, a.f), c: m3_outer(a.m, a.f), moi: m3_outer(a.m, a.m) }
}

/// The wrench of a pure force applied at a point.
pub open spec fn fo_force_point(force: V3, point: V3) -> FoV {
    FoV { f: force, m: v3_cross(point, force) }
}

/// Rigid-body inertia applied to a motion yields a force: the 10-parameter
/// inertia acts exactly as its articulated-body expansion, with the
/// mass-weighted center of mass in both the linear force and the moment,
/// and the parallel-axis term in the rotational part.
pub open spec fn in_mul_motion(i: InV, mo: MoV) -> FoV {
    iab_mul_motion(iab_from_inertia(i), mo)
}

/// Expansion of a rigid-body inertia into articulated-body form.
pub open spec fn iab_from_inertia(i: InV) -> IabV {
    let cc = m3_cross_matrix(i.c);
    IabV {
        m: m3_scale(i.m, m3_identity()),
        c: m3_scale(i.m, cc),
        moi: m3_sub(i.moi, m3_scale(i.m, m3_mul(cc, cc))),
    }
}

/// The rigid-body inertia's action agrees with its articulated-body
/// embedding on every motion: converting to articulated-body form first
/// changes nothing.
pub proof fn lemma_inertia_action_embeds(i: InV, mo: MoV)
    ensures
        in_mul_motion(i, mo) == iab_mul_motion(iab_from_inertia(i), mo),
{
}

/// Articulated-body inertia applied to a motion yields a force.
pub open spec fn iab_mul_motion(i: IabV, mo: MoV) -> FoV {
    FoV {
        f: v3_add(m3_mul_vec(i.m, mo.v), m3_mul_vec(m3_transpose(i.c), mo.w)),
        m: v3_add(m3_mul_vec(i.moi, mo.w), m3_mul_vec(i.c, mo.v)),
    }
}

pub open spec fn iab_zero() -> IabV {
    IabV { m: m3_zero(), c: m3_zero(), moi: m3_zero() }
}

pub open spec fn iab_add(a: IabV, b: IabV) -> IabV {
    IabV { m: m3_add(a.m, b.m), c: m3_add(a.c, b.c), moi: m3_add(a.moi, b.moi) }
}

pub open spec fn iab_sub(a: IabV, b: IabV) -> IabV {
    IabV { m: m3_sub(a.m, b.m), c: m3_sub(a.c, b.c), moi: m3_sub(a.moi, b.moi) }
}

pub open spec fn iab_scale(s: int, a: IabV) -> IabV {
    IabV { m: m3_scale(s, a.m), c: m3_scale(s, a.c), moi: m3_scale(s, a.moi) }
}

/// Euclidean norm of a quaternion at raw precision.
pub open spec fn quat_norm_v(q: QuatDef) -> int {
    fx_sqrt(
        fx_add(
            fx_add(fx_add(fx_mul(q.w@, q.w@), fx_mul(q.x@, q.x@)), fx_mul(q.y@, q.y@)),
            fx_mul(q.z@, q.z@),
        ),
    )
}

/// Rotation matrix of a quaternion after normalization; a degenerate
/// (zero-norm) quaternion yields the identity.
pub open spec fn m3_from_quat(q: QuatDef) -> M3 {
    let n = quat_norm_v(q);
    let w = fx_div(q.w@, n);
    let x = fx_div(q.x@, n);
    let y = fx_div(q.y@, n);
    let z = fx_div(q.z@, n);
    let xx = fx_mul(x, x);
    let yy = fx_mul(y, y);
    let zz = fx_mul(z, z);
    let xy = fx_mul(x, y);
    let xz = fx_mul(x, z);
    let yz = fx_mul(y, z);
    let wx = fx_mul(w, x);
    let wy = fx_mul(w, y);
    let wz = fx_mul(w, z);
    M3 {
        m11: fx_sub(SCALE as int, dbl(fx_add(yy, zz))),
        m12: dbl(fx_sub(xy, wz)),
        m13: dbl(fx_add(xz, wy)),
        m21: dbl(fx_add(xy, wz)),
        m22: fx_sub(SCALE as int, dbl(fx_add(xx, zz))),
        m23: dbl(fx_sub(yz, wx)),
        m31: dbl(fx_sub(xz, wy)),
        m32: dbl(fx_add(yz, wx)),
        m33: fx_sub(SCALE as int, dbl(fx_add(xx, yy))),
    }
}

/// Doubling at raw precision.
pub open spec fn dbl(a: int) -> int {
    fx_add(a, a)
}

/// Spec mirror of `Xform::from_def`.
pub open spec fn xf_from_def(t: TransformDef) -> XfV {
    XfV { position: t.position@, rotation: m3_from_quat(t.quaternion) }
}

/// Spec mirror of `Inertia::from_def`: the symmetric tensor assembled from
/// its six independent components.
pub open spec fn in_from_def(d: InertiaDef) -> InV {
    InV {
        m: d.mass@,
        c: d.center_of_mass@,
        moi: M3 {
            m11: d.inertia.xx@,
            m12: d.inertia.xy@,
            m13: d.inertia.xz@,
            m21: d.inertia.xy@,
            m22: d.inertia.yy@,
            m23: d.inertia.yz@,
            m31: d.inertia.xz@,
            m32: d.inertia.yz@,
            m33: d.inertia.zz@,
        },
    }
}

/// Rotation about the x axis by a raw angle, at fixed-point precision.
pub open spec fn m3_rx(q: int) -> M3 {
    let c = cos_sin_v(q).0;
    let s = cos_sin_v(q).1;
    M3 { m11: SCALE as int, m12: 0, m13: 0, m21: 0, m22: c, m23: s, m31: 0, m32: fx_neg(s), m33: c }
}

/// Rotation about the y axis by a raw angle, at fixed-point precision.
pub open spec fn m3_ry(q: int) -> M3 {
    let c = cos_sin_v(q).0;
    let s = cos_sin_v(q).1;
    M3 { m11: c, m12: 0, m13: fx_neg(s), m21: 0, m22: SCALE as int, m23: 0, m31: s, m32: 0, m33: c }
}

/// Rotation about the z axis by a raw angle, at fixed-point precision.
pub open spec fn m3_rz(q: int) -> M3 {
    let c = cos_sin_v(q).0;
    let s = cos_sin_v(q).1;
    M3 { m11: c, m12: s, m13: 0, m21: fx_neg(s), m22: c, m23: 0, m31: 0, m32: 0, m33: SCALE as int }
}

/// Rotation matrix about the x axis.
pub fn rx(angle: Fx) -> (r: Mat3)
    ensures
        r@ == m3_rx(angle@),
        m3_wf(r@),
{
    let cs = angle.cos_sin();
    let z = Fx::zero();
    Mat3 {
        m11: Fx::one(), m12: z, m13: z,
        m21: z, m22: cs.0, m23: cs.1,
        m31: z, m32: cs.1.neg(), m33: cs.0,
    }
}

/// Rotation matrix about the y axis.
pub fn ry(angle: Fx) -> (r: Mat3)
    ensures
        r@ == m3_ry(angle@),
        m3_wf(r@),
{
    let cs = angle.cos_sin();
    let z = Fx::zero();
    Mat3 {
        m11: cs.0, m12: z, m13: cs.1.neg(),
        m21: z, m22: Fx::one(), m23: z,
        m31: cs.1, m32: z, m33: cs.0,
    }
}

/// Rotation matrix about the z axis.
pub fn rz(angle: Fx) -> (r: Mat3)
    ensures
        r@ == m3_rz(angle@),
        m3_wf(r@),
{
    let cs = angle.cos_sin();
    let z = Fx::zero();
    Mat3 {
        m11: cs.0, m12: cs.1, m13: z,
        m21: cs.1.neg(), m22: cs.0, m23: z,
        m31: z, m32: z, m33: Fx::one(),
    }
}

/// A plain linear velocity (of a point).
#[derive(Clone, Copy, Debug, PartialEq, Eq, Structural)]
pub struct Velocity {
    pub vel: Vec3,
}

/// The pose of one frame relative to its parent frame.
#[derive(Clone, Copy, Debug, PartialEq, Eq, Structural)]
pub struct Xform {
    pub position: Vec3,
    pub rotation: Mat3,
}

impl View for Xform {
    type V = XfV;

    open spec fn view(&self) -> XfV {
        XfV { position: self.position@, rotation: self.rotation@ }
    }
}

impl Xform {
    pub fn new(position: Vec3, rotation: Mat3) -> (r: Xform)
        ensures
            r@ == (XfV { position: position@, rotation: rotation@ }),
    {
        Xform { position, rotation }
    }

    pub fn identity() -> (r: Xform)
        ensures
            r@ == xf_identity(),
            xf_wf(r@),
    {
        Xform { position: Vec3::zeros(), rotation: Mat3::identity() }
    }

    pub fn inverse(self) -> (r: Xform)
        ensures
            r@ == xf_inverse(self@),
            xf_wf(self@) ==> xf_wf(r@),
    {
        Xform {
            position: self.rotation.mul_vec(self.position).neg(),
            rotation: self.rotation.transpose(),
        }
    }

    pub fn rotx(angle: Fx) -> (r: Xform)
        ensures
            r@ == (XfV { position: v3_zero(), rotation: m3_rx(angle@) }),
            xf_wf(r@),
    {
        Xform { position: Vec3::zeros(), rotation: rx(angle) }
    }

    pub fn roty(angle: Fx) -> (r: Xform)
        ensures
            r@ == (XfV { position: v3_zero(), rotation: m3_ry(angle@) }),
            xf_wf(r@),
    {
        Xform { position: Vec3::zeros(), rotation: ry(angle) }
    }

    pub fn rotz(angle: Fx) -> (r: Xform)
        ensures
            r@ == (XfV { position: v3_zero(), rotation: m3_rz(angle@) }),
            xf_wf(r@),
    {
        Xform { position: Vec3::zeros(), rotation: rz(angle) }
    }

    pub fn posx(x: Fx) -> (r: Xform)
        ensures
            r@ == (XfV {
                position: V3 { x: x@, y: 0, z: 0 },
                rotation: m3_identity(),
            }),
    {
        Xform {
            position: Vec3 { x, y: Fx::zero(), z: Fx::zero() },
            rotation: Mat3::identity(),
        }
    }

    pub fn posy(y: Fx) -> (r: Xform)
        ensures
            r@ == (XfV {
                position: V3 { x: 0, y: y@, z: 0 },
                rotation: m3_identity(),
            }),
    {
        Xform {
            position: Vec3 { x: Fx::zero(), y, z: Fx::zero() },
            rotation: Mat3::identity(),
        }
    }

    pub fn posz(z: Fx) -> (r: Xform)
        ensures
            r@ == (XfV {
                position: V3 { x: 0, y: 0, z: z@ },
                rotation: m3_identity(),
            }),
    {
        Xform {
            position: Vec3 { x: Fx::zero(), y: Fx::zero(), z },
            rotation: Mat3::identity(),
        }
    }

    /// Build the fixed offset pose from its declarative record.
    pub fn from_def(transform_def: &TransformDef) -> (r: Xform)
        ensures
            r@ == xf_from_def(*transform_def),
            m3_wf(r@.rotation),
    {
        let q = transform_def.quaternion;
        let n = q.w.mul(q.w).add(q.x.mul(q.x)).add(q.y.mul(q.y)).add(q.z.mul(q.z)).sqrt();
        let w = q.w.div(n);
        let x = q.x.div(n);
        let y = q.y.div(n);
        let z = q.z.div(n);
        let xx = x.mul(x);
        let yy = y.mul(y);
        let zz = z.mul(z);
        let xy = x.mul(y);
        let xz = x.mul(z);
        let yz = y.mul(z);
        let wx = w.mul(x);
        let wy = w.mul(y);
        let wz = w.mul(z);
        let one = Fx::one();
        let rotation = Mat3 {
            m11: one.sub(yy.add(zz).add(yy.add(zz))),
            m12: xy.sub(wz).add(xy.sub(wz)),
            m13: xz.add(wy).add(xz.add(wy)),
            m21: xy.add(wz).add(xy.add(wz)),
            m22: one.sub(xx.add(zz).add(xx.add(zz))),
            m23: yz.sub(wx).add(yz.sub(wx)),
            m31: xz.sub(wy).add(xz.sub(wy)),
            m32: yz.add(wx).add(yz.add(wx)),
            m33: one.sub(xx.add(yy).add(xx.add(yy))),
        };
        Xform { position: transform_def.position, rotation }
    }

    /// Express an absolute point in this transform's frame.
    pub fn transform_point(self, point: Vec3) -> (r: Vec3)
        ensures
            r@ == xf_transform_point(self@, point@),
            v3_wf(r@),
    {
        self.rotation.mul_vec(point.sub(self.position))
    }

    /// Chain this relative pose onto `rhs` (the original's `*` operator).
    pub fn mul_xform(self, rhs: Xform) -> (r: Xform)
        ensures
            r@ == xf_mul(self@, rhs@),
            xf_wf(r@),
    {
        Xform {
            position: rhs.position.add(rhs.rotation.transpose().mul_vec(self.position)),
            rotation: self.rotation.mul_mat(rhs.rotation),
        }
    }

    /// Transform a motion vector into this frame.
    pub fn mul_motion(self, rhs: Motion) -> (r: Motion)
        ensures
            r@ == xf_mul_motion(self@, rhs@),
            mo_wf(r@),
    {
        Motion {
            v: self.rotation.mul_vec(rhs.v.sub(self.position.cross(rhs.w))),
            w: self.rotation.mul_vec(rhs.w),
        }
    }

    /// Transform a force vector into this frame (dual to `mul_motion`).
    pub fn mul_force(self, rhs: Force) -> (r: Force)
        ensures
            r@ == xf_mul_force(self@, rhs@),
            fo_wf(r@),
    {
        Force {
            f: self.rotation.mul_vec(rhs.f),
            m: self.rotation.mul_vec(rhs.m.sub(self.position.cross(rhs.f))),
        }
    }

    /// Rotate a plain 3D vector into this frame.
    pub fn mul_vec(self, rhs: Vec3) -> (r: Vec3)
        ensures
            r@ == xf_mul_v3(self@, rhs@),
            v3_wf(r@),
    {
        self.rotation.mul_vec(rhs)
    }

    /// Congruence-shift an articulated-body inertia by this transform.
    pub fn mul_inertia_ab(self, inertia: InertiaAB) -> (r: InertiaAB)
        ensures
            r@ == xf_mul_iab(self@, inertia@),
            iab_wf(r@),
    {
        let rot = self.rotation;
        let rot_t = rot.transpose();
        let icross = self.position.cross_matrix();
        let c_shift = inertia.c.sub(icross.mul_mat(inertia.m));
        InertiaAB {
            m: rot.mul_mat(inertia.m).mul_mat(rot_t),
            c: rot.mul_mat(c_shift).mul_mat(rot_t),
            moi: rot.mul_mat(
                inertia.moi.sub(icross.mul_mat(inertia.c.transpose())).add(
                    c_shift.mul_mat(icross),
                ),
            ).mul_mat(rot_t),
        }
    }
}

/// A 6D motion vector: linear part `v`, angular part `w`.
#[derive(Clone, Copy, Debug, PartialEq, Eq, Structural)]
pub struct Motion {
    pub v: Vec3,
    pub w: Vec3,
}

impl View for Motion {
    type V = MoV;

    open spec fn view(&self) -> MoV {
        MoV { v: self.v@, w: self.w@ }
    }
}

impl Motion {
    pub fn new(v: Vec3, w: Vec3) -> (r: Motion)
        ensures
            r@ == (MoV { v: v@, w: w@ }),
    {
        Motion { v, w }
    }

    pub fn zero() -> (r: Motion)
        ensures
            r@ == mo_zero(),
            mo_wf(r@),
    {
        Motion { v: Vec3::zeros(), w: Vec3::zeros() }
    }

    pub fn add(self, rhs: Motion) -> (r: Motion)
        ensures
            r@ == mo_add(self@, rhs@),
            mo_wf(r@),
    {
        Motion { v: self.v.add(rhs.v), w: self.w.add(rhs.w) }
    }

    pub fn scale(self, s: Fx) -> (r: Motion)
        ensures
            r@ == mo_scale(s@, self@),
            mo_wf(r@),
    {
        Motion { v: self.v.scale(s), w: self.w.scale(s) }
    }

    /// Spatial cross product with another motion.
    pub fn cross_v(self, rhs: Motion) -> (r: Motion)
        ensures
            r@ == mo_cross_v(self@, rhs@),
            mo_wf(r@),
    {
        Motion {
            v: self.w.cross(rhs.v).add(self.v.cross(rhs.w)),
            w: self.w.cross(rhs.w),
        }
    }

    /// Spatial cross product with a force.
    pub fn cross_f(self, rhs: Force) -> (r: Force)
        ensures
            r@ == mo_cross_f(self@, rhs@),
            fo_wf(r@),
    {
        Force {
            f: self.w.cross(rhs.f),
            m: self.w.cross(rhs.m).add(self.v.cross(rhs.f)),
        }
    }

    /// Linear velocity of a point carried by this motion.
    pub fn velocity_point(self, point: Vec3) -> (r: Velocity)
        ensures
            r.vel@ == mo_velocity_point(self@, point@),
            v3_wf(r.vel@),
    {
        Velocity { vel: self.w.cross(point).add(self.v) }
    }

    /// Power pairing with a force.
    pub fn dot_force(self, rhs: Force) -> (r: Fx)
        ensures
            r@ == mo_dot_force(self@, rhs@),
            fx_wf(r),
    {
        self.v.dot(rhs.f).add(self.w.dot(rhs.m))
    }
}

/// A 6D force vector (wrench): linear part `f`, moment `m`.
#[derive(Clone, Copy, Debug, PartialEq, Eq, Structural)]
pub struct Force {
    pub f: Vec3,
    pub m: Vec3,
}

impl View for Force {
    type V = FoV;

    open spec fn view(&self) -> FoV {
        FoV { f: self.f@, m: self.m@ }
    }
}

impl Force {
    pub fn new(f: Vec3, m: Vec3) -> (r: Force)
        ensures
            r@ == (FoV { f: f@, m: m@ }),
    {
        Force { f, m }
    }

    pub fn zero() -> (r: Force)
        ensures
            r@ == fo_zero(),
            fo_wf(r@),
    {
        Force { f: Vec3::zeros(), m: Vec3::zeros() }
    }

    pub fn add(self, rhs: Force) -> (r: Force)
        ensures
            r@ == fo_add(self@, rhs@),
            fo_wf(r@),
    {
        Force { f: self.f.add(rhs.f), m: self.m.add(rhs.m) }
    }

    pub fn sub(self, rhs: Force) -> (r: Force)
        ensures
            r@ == fo_sub(self@, rhs@),
            fo_wf(r@),
    {
        Force { f: self.f.sub(rhs.f), m: self.m.sub(rhs.m) }
    }

    pub fn scale(self, s: Fx) -> (r: Force)
        ensures
            r@ == fo_scale(s@, self@),
            fo_wf(r@),
    {
        Force { f: self.f.scale(s), m: self.m.scale(s) }
    }

    /// The rank-one articulated-body inertia `u u^T` of this force.
    pub fn self_outer_product(self) -> (r: InertiaAB)
        ensures
            r@ == fo_self_outer(self@),
            iab_wf(r@),
    {
        InertiaAB {
            m: self.f.outer(self.f),
            c: self.m.outer(self.f),
            moi: self.m.outer(self.m),
        }
    }

    /// The wrench of a pure force applied at a point.
    pub fn force_point(force: Vec3, point: Vec3) -> (r: Force)
        ensures
            r@ == fo_force_point(force@, point@),
    {
        Force { f: force, m: point.cross(force) }
    }
}

/// Rigid-body inertia: mass, center-of-mass offset and rotational inertia.
#[derive(Clone, Copy, Debug, PartialEq, Eq, Structural)]
pub struct Inertia {
    pub m: Fx,
    pub c: Vec3,
    pub moi: Mat3,
}

impl View for Inertia {
    type V = InV;

    open spec fn view(&self) -> InV {
        InV { m: self.m@, c: self.c@, moi: self.moi@ }
    }
}

impl Inertia {
    pub fn new(m: Fx, c: Vec3, moi: Mat3) -> (r: Inertia)
        ensures
            r@ == (InV { m: m@, c: c@, moi: moi@ }),
    {
        Inertia { m, c, moi }
    }

    pub fn zero() -> (r: Inertia)
        ensures
            r@ == (InV { m: 0, c: v3_zero(), moi: m3_zero() }),
    {
        Inertia { m: Fx::zero(), c: Vec3::zeros(), moi: Mat3::zeros() }
    }

    /// Build a rigid-body inertia from its declarative record.
    pub fn from_def(inertia_def: &InertiaDef) -> (r: Inertia)
        ensures
            r@ == in_from_def(*inertia_def),
    {
        let c = inertia_def.inertia;
        Inertia {
            m: inertia_def.mass,
            c: inertia_def.center_of_mass,
            moi: Mat3 {
                m11: c.xx, m12: c.xy, m13: c.xz,
                m21: c.xy, m22: c.yy, m23: c.yz,
                m31: c.xz, m32: c.yz, m33: c.zz,
            },
        }
    }

    /// Apply this inertia to a motion, yielding a force, through the
    /// articulated-body expansion (so the two actions agree exactly).
    pub fn mul_motion(self, rhs: Motion) -> (r: Force)
        ensures
            r@ == in_mul_motion(self@, rhs@),
            fo_wf(r@),
    {
        self.to_articulated().mul_motion(rhs)
    }

    /// Expand into articulated-body form.
    pub fn to_articulated(self) -> (r: InertiaAB)
        ensures
            r@ == iab_from_inertia(self@),
            iab_wf(r@),
    {
        let cc = self.c.cross_matrix();
        InertiaAB {
            m: Mat3::identity().scale(self.m),
            c: cc.scale(self.m),
            moi: self.moi.sub(cc.mul_mat(cc).scale(self.m)),
        }
    }
}

/// Articulated-body inertia: a full symmetric spatial operator.
#[derive(Clone, Copy, Debug, PartialEq, Eq, Structural)]
pub struct InertiaAB {
    pub m: Mat3,
    pub c: Mat3,
    pub moi: Mat3,
}

impl View for InertiaAB {
    type V = IabV;

    open spec fn view(&self) -> IabV {
        IabV { m: self.m@, c: self.c@, moi: self.moi@ }
    }
}

impl InertiaAB {
    pub fn zero() -> (r: InertiaAB)
        ensures
            r@ == iab_zero(),
            iab_wf(r@),
    {
        InertiaAB { m: Mat3::zeros(), c: Mat3::zeros(), moi: Mat3::zeros() }
    }

    /// Apply this inertia to a motion, yielding a force.
    pub fn mul_motion(self, rhs: Motion) -> (r: Force)
        ensures
            r@ == iab_mul_motion(self@, rhs@),
            fo_wf(r@),
    {
        Force {
            f: self.m.mul_vec(rhs.v).add(self.c.transpose().mul_vec(rhs.w)),
            m: self.moi.mul_vec(rhs.w).add(self.c.mul_vec(rhs.v)),
        }
    }

    pub fn add(self, rhs: InertiaAB) -> (r: InertiaAB)
        ensures
            r@ == iab_add(self@, rhs@),
            iab_wf(r@),
    {
        InertiaAB { m: self.m.add(rhs.m), c: self.c.add(rhs.c), moi: self.moi.add(rhs.moi) }
    }

    pub fn sub(self, rhs: InertiaAB) -> (r: InertiaAB)
        ensures
            r@ == iab_sub(self@, rhs@),
            iab_wf(r@),
    {
        InertiaAB { m: self.m.sub(rhs.m), c: self.c.sub(rhs.c), moi: self.moi.sub(rhs.moi) }
    }

    pub fn scale(self, s: Fx) -> (r: InertiaAB)
        ensures
            r@ == iab_scale(s@, self@),
            iab_wf(r@),
    {
        InertiaAB { m: self.m.scale(s), c: self.c.scale(s), moi: self.moi.scale(s) }
    }
}

} // verus!
