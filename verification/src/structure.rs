//! The traversal engine: the three recursive dynamics passes over the joint
//! forest, as forward and backward scans of the arena (parents always stand
//! before their children).
//!
//! Pass 1 (outward) computes each joint's pose, velocity and velocity-product
//! bias from its parent's. The external pass folds accumulated absolute
//! forces into each joint's frame. Pass 2 (inward) composes articulated-body
//! inertias and bias forces from the leaves toward the roots, resolving each
//! joint's one degree of freedom away. Pass 3 (outward) resolves generalized
//! accelerations from the roots back out to the leaves.

use vstd::prelude::*;

use crate::fx::{fx_div, fx_sub, SCALE};
use crate::joint::{Joint, JointType, JointV};
use crate::linalg::{m3_identity, v3_zero, V3};
use crate::state::{get_model_dstate, set_model_state, StateV, StateVector};
use crate::sva::{
    fo_add, fo_scale, fo_sub, iab_add, iab_from_inertia, iab_mul_motion, iab_scale, iab_sub,
    in_mul_motion, mo_add, mo_cross_f, mo_cross_v, mo_dot_force, mo_scale, m3_rx,
    m3_ry, m3_rz, xf_identity, xf_inverse, xf_mul, xf_mul_force, xf_mul_iab, xf_mul_motion,
    FoV, IabV, Motion, MoV, XfV, Xform,
};

verus! {

/// The views of a sequence of joints.
pub open spec fn views_of(s: Seq<Joint>) -> Seq<JointV> {
    s.map_values(|j: Joint| j@)
}

/// Every joint's parent stands strictly earlier in the arena.
pub open spec fn parents_earlier(s: Seq<JointV>) -> bool {
    forall|i: int|
        0 <= i < s.len() ==> match #[trigger] s[i].parent {
            Some(p) => 0 <= p < i,
            None => true,
        }
}

/// The joint-local displacement transform: rotation about or translation
/// along the joint's fixed axis by the generalized position.
pub open spec fn xj_of(jt: JointType, q: int) -> XfV {
    match jt {
        JointType::Base => xf_identity(),
        JointType::Rx => XfV { position: v3_zero(), rotation: m3_rx(q) },
        JointType::Ry => XfV { position: v3_zero(), rotation: m3_ry(q) },
        JointType::Rz => XfV { position: v3_zero(), rotation: m3_rz(q) },
        JointType::Px => XfV { position: V3 { x: q, y: 0, z: 0 }, rotation: m3_identity() },
        JointType::Py => XfV { position: V3 { x: 0, y: q, z: 0 }, rotation: m3_identity() },
        JointType::Pz => XfV { position: V3 { x: 0, y: 0, z: q }, rotation: m3_identity() },
    }
}

/// One joint's outward kinematics update, given its parent's absolute pose
/// and velocity.
pub open spec fn loop_1_upd(j: JointV, px: XfV, pv: MoV) -> JointV {
    let xj = xj_of(j.joint_type, j.q);
    let xl = xf_mul(xj, j.xt);
    let x = xf_mul(xl, px);
    let vj = mo_scale(j.qd, j.s);
    let v = mo_add(xf_mul_motion(xl, pv), vj);
    let c = mo_cross_v(v, vj);
    JointV { xj: xj, xl: xl, x: x, vj: vj, v: v, c: c, ..j }
}

/// Pass 1 at one index: a root is left unchanged.
pub open spec fn pass1_step(s: Seq<JointV>, i: int) -> Seq<JointV> {
    match s[i].parent {
        Some(p) => s.update(i, loop_1_upd(s[i], s[p].x, s[p].v)),
        None => s,
    }
}

/// Pass 1 over indices `i, i+1, ..., len-1` in order.
pub open spec fn pass1_from(s: Seq<JointV>, i: int) -> Seq<JointV>
    decreases s.len() - i,
{
    if i < 0 || i >= s.len() {
        s
    } else {
        pass1_from(pass1_step(s, i), i + 1)
    }
}

/// Fold a joint's accumulated external force (absolute coordinates) into
/// its own frame.
pub open spec fn apply_ext_upd(j: JointV) -> JointV {
    JointV { f_ext: xf_mul_force(j.x, j.f_ext), ..j }
}

/// The external-force resolution pass: every non-root joint, independently.
pub open spec fn apply_ext_all(s: Seq<JointV>) -> Seq<JointV> {
    Seq::new(
        s.len(),
        |i: int|
            if s[i].parent is Some {
                apply_ext_upd(s[i])
            } else {
                s[i]
            },
    )
}

/// The start of the inward pass: each joint's articulated-body inertia is
/// its own rigid-body inertia, and its bias force is the velocity-product
/// force less the (frame-local) external force.
pub open spec fn init_ab_upd(j: JointV) -> JointV {
    JointV {
        iaa: iab_from_inertia(j.i),
        paa: fo_sub(mo_cross_f(j.v, in_mul_motion(j.i, j.v)), j.f_ext),
        ..j
    }
}

/// The initialization scan, every joint independently.
pub open spec fn init_ab_all(s: Seq<JointV>) -> Seq<JointV> {
    Seq::new(s.len(), |i: int| init_ab_upd(s[i]))
}

/// A joint's own inward solve: the inertia-weighted axis force, the
/// diagonal inertia term along the axis, and the generalized force residual.
pub open spec fn child_solve(j: JointV) -> JointV {
    let uu = iab_mul_motion(j.iaa, j.s);
    let dd = mo_dot_force(j.s, uu);
    let u = fx_sub(j.tau, mo_dot_force(j.s, j.paa));
    JointV { uu: uu, dd: dd, u: u, ..j }
}

/// The joint's articulated-body inertia with its own degree of freedom
/// projected out (the rank-one correction along the axis).
pub open spec fn reduced_inertia(j: JointV) -> IabV {
    iab_sub(j.iaa, iab_scale(fx_div(SCALE as int, j.dd), crate::sva::fo_self_outer(j.uu)))
}

/// The joint's bias force with its own degree of freedom resolved away.
pub open spec fn reduced_bias(j: JointV) -> FoV {
    fo_add(fo_add(j.paa, iab_mul_motion(reduced_inertia(j), j.c)), fo_scale(
        fx_div(j.u, j.dd),
        j.uu,
    ))
}

/// Pass 2 at one index: the joint solves its own axis quantities and folds
/// its reduced inertia and bias, shifted into the parent frame, into its
/// parent's accumulators. A root is left unchanged.
pub open spec fn pass2_step(s: Seq<JointV>, i: int) -> Seq<JointV> {
    match s[i].parent {
        Some(p) => {
            let j1 = child_solve(s[i]);
            let s1 = s.update(i, j1);
            let xli = xf_inverse(j1.xl);
            let pnew = JointV {
                iaa: iab_add(s1[p].iaa, xf_mul_iab(xli, reduced_inertia(j1))),
                paa: fo_add(s1[p].paa, xf_mul_force(xli, reduced_bias(j1))),
                ..s1[p]
            };
            s1.update(p, pnew)
        },
        None => s,
    }
}

/// Pass 2 over indices `i, i-1, ..., 0` in order (leaf side first).
pub open spec fn pass2_down(s: Seq<JointV>, i: int) -> Seq<JointV>
    decreases i + 1,
{
    if i < 0 || i >= s.len() {
        s
    } else {
        pass2_down(pass2_step(s, i), i - 1)
    }
}

/// One joint's outward acceleration update, given its parent's absolute
/// spatial acceleration: resolve the generalized acceleration along the
/// axis, then the joint's own spatial acceleration.
pub open spec fn loop_3_upd(j: JointV, pa: MoV) -> JointV {
    let ap = mo_add(xf_mul_motion(j.xl, pa), j.c);
    let qdd = fx_div(fx_sub(j.u, mo_dot_force(ap, j.uu)), j.dd);
    let a = mo_add(ap, mo_scale(qdd, j.s));
    JointV { a: a, qdd: qdd, ..j }
}

/// Pass 3 at one index: a root keeps its prescribed acceleration.
pub open spec fn pass3_step(s: Seq<JointV>, i: int) -> Seq<JointV> {
    match s[i].parent {
        Some(p) => s.update(i, loop_3_upd(s[i], s[p].a)),
        None => s,
    }
}

/// Pass 3 over indices `i, i+1, ..., len-1` in order.
pub open spec fn pass3_from(s: Seq<JointV>, i: int) -> Seq<JointV>
    decreases s.len() - i,
{
    if i < 0 || i >= s.len() {
        s
    } else {
        pass3_from(pass3_step(s, i), i + 1)
    }
}

/// The whole dynamics evaluation on a state already written into the arena:
/// outward kinematics, inward composition, outward accelerations. (Force
/// injection and the external-force pass happen between pass 1 and pass 2
/// and are separate, order-independent scans.)
pub open spec fn all_passes(s: Seq<JointV>) -> Seq<JointV> {
    pass3_from(pass2_down(init_ab_all(pass1_from(s, 0)), s.len() - 1), 0)
}

/// A raw value within the symmetric saturation range.
pub open spec fn within_range(a: int) -> bool {
    -(crate::fx::MAX_RAW as int) <= a <= crate::fx::MAX_RAW as int
}

/// Accumulating `a` and `b` onto `x` never saturates, in either order.
pub open spec fn sum3_ok(x: int, a: int, b: int) -> bool {
    within_range(x + a) && within_range(x + b) && within_range(x + a + b)
}

pub open spec fn v3_acc_ok(x: V3, a: V3, b: V3) -> bool {
    sum3_ok(x.x, a.x, b.x) && sum3_ok(x.y, a.y, b.y) && sum3_ok(x.z, a.z, b.z)
}

pub open spec fn m3_acc_ok(x: crate::linalg::M3, a: crate::linalg::M3,
    b: crate::linalg::M3) -> bool {
    &&& sum3_ok(x.m11, a.m11, b.m11)
    &&& sum3_ok(x.m12, a.m12, b.m12)
    &&& sum3_ok(x.m13, a.m13, b.m13)
    &&& sum3_ok(x.m21, a.m21, b.m21)
    &&& sum3_ok(x.m22, a.m22, b.m22)
    &&& sum3_ok(x.m23, a.m23, b.m23)
    &&& sum3_ok(x.m31, a.m31, b.m31)
    &&& sum3_ok(x.m32, a.m32, b.m32)
    &&& sum3_ok(x.m33, a.m33, b.m33)
}

pub open spec fn fo_acc_ok(x: FoV, a: FoV, b: FoV) -> bool {
    v3_acc_ok(x.f, a.f, b.f) && v3_acc_ok(x.m, a.m, b.m)
}

pub open spec fn iab_acc_ok(x: IabV, a: IabV, b: IabV) -> bool {
    m3_acc_ok(x.m, a.m, b.m) && m3_acc_ok(x.c, a.c, b.c) && m3_acc_ok(x.moi, a.moi, b.moi)
}

/// The articulated-body inertia a child folds into its parent, a function
/// of the child's own fields alone.
pub open spec fn contrib_iaa(j: JointV) -> IabV {
    xf_mul_iab(xf_inverse(j.xl), reduced_inertia(child_solve(j)))
}

/// The bias force a child folds into its parent, a function of the child's
/// own fields alone.
pub open spec fn contrib_paa(j: JointV) -> FoV {
    xf_mul_force(xf_inverse(j.xl), reduced_bias(child_solve(j)))
}

/// Siblings are independent in the outward passes: two distinct non-root
/// joints that are not each other's parent may be processed in either
/// order in pass 1, with identical results. (A joint's update reads only
/// itself and its parent and writes only itself.)
#[verifier::rlimit(100)]
pub proof fn lemma_pass1_siblings_commute(s: Seq<JointV>, i: int, j: int)
    requires
        0 <= i < s.len(),
        0 <= j < s.len(),
        i != j,
        s[i].parent is Some && s[i].parent->0 != j,
        s[j].parent is Some && s[j].parent->0 != i,
        0 <= s[i].parent->0 < s.len(),
        0 <= s[j].parent->0 < s.len(),
    ensures
        pass1_step(pass1_step(s, i), j) == pass1_step(pass1_step(s, j), i),
{
    let pi = s[i].parent->0;
    let pj = s[j].parent->0;
    let a = loop_1_upd(s[i], s[pi].x, s[pi].v);
    let b = loop_1_upd(s[j], s[pj].x, s[pj].v);
    assert(pass1_step(s, i) == s.update(i, a));
    assert(pass1_step(s, j) == s.update(j, b));
    assert(pass1_step(s.update(i, a), j) == s.update(i, a).update(j, b));
    assert(pass1_step(s.update(j, b), i) == s.update(j, b).update(i, a));
    assert(s.update(i, a).update(j, b) =~= s.update(j, b).update(i, a));
}

/// The same independence for the outward acceleration pass.
#[verifier::rlimit(100)]
pub proof fn lemma_pass3_siblings_commute(s: Seq<JointV>, i: int, j: int)
    requires
        0 <= i < s.len(),
        0 <= j < s.len(),
        i != j,
        s[i].parent is Some && s[i].parent->0 != j,
        s[j].parent is Some && s[j].parent->0 != i,
        0 <= s[i].parent->0 < s.len(),
        0 <= s[j].parent->0 < s.len(),
    ensures
        pass3_step(pass3_step(s, i), j) == pass3_step(pass3_step(s, j), i),
{
    let pi = s[i].parent->0;
    let pj = s[j].parent->0;
    let a = loop_3_upd(s[i], s[pi].a);
    let b = loop_3_upd(s[j], s[pj].a);
    assert(pass3_step(s, i) == s.update(i, a));
    assert(pass3_step(s, j) == s.update(j, b));
    assert(pass3_step(s.update(i, a), j) == s.update(i, a).update(j, b));
    assert(pass3_step(s.update(j, b), i) == s.update(j, b).update(i, a));
    assert(s.update(i, a).update(j, b) =~= s.update(j, b).update(i, a));
}

/// Siblings are independent in the inward pass too: two children of the
/// same parent may fold their contributions in either order, provided the
/// parent's accumulator sums stay within the saturation range (each
/// child's contribution depends on that child's fields alone, and the two
/// orders differ only in the order of the parent's two accumulations).
#[verifier::rlimit(100)]
pub proof fn lemma_pass2_siblings_commute(s: Seq<JointV>, i: int, j: int, p: int)
    requires
        0 <= i < s.len(),
        0 <= j < s.len(),
        0 <= p < s.len(),
        i != j,
        p != i,
        p != j,
        s[i].parent == Some(p),
        s[j].parent == Some(p),
        iab_acc_ok(s[p].iaa, contrib_iaa(s[i]), contrib_iaa(s[j])),
        fo_acc_ok(s[p].paa, contrib_paa(s[i]), contrib_paa(s[j])),
    ensures
        pass2_step(pass2_step(s, i), j) == pass2_step(pass2_step(s, j), i),
{
    let si = pass2_step(s, i);
    let sj = pass2_step(s, j);
    assert(si[j] == s[j]);
    assert(sj[i] == s[i]);
    assert(child_solve(s[i]).xl == s[i].xl);
    assert(child_solve(s[j]).xl == s[j].xl);
    let ai = contrib_iaa(s[i]);
    let aj = contrib_iaa(s[j]);
    let bi = contrib_paa(s[i]);
    let bj = contrib_paa(s[j]);
    assert(iab_add(iab_add(s[p].iaa, ai), aj) == iab_add(iab_add(s[p].iaa, aj), ai));
    assert(fo_add(fo_add(s[p].paa, bi), bj) == fo_add(fo_add(s[p].paa, bj), bi));
    assert(pass2_step(pass2_step(s, i), j) =~= pass2_step(pass2_step(s, j), i));
}

/// One joint's outward kinematics update (executable twin of
/// `loop_1_upd`).
pub fn loop_1_update(joint: &mut Joint, parent_x: Xform, parent_v: Motion)
    ensures
        final(joint)@ == loop_1_upd(old(joint)@, parent_x@, parent_v@),
{
    let xj = match joint.joint_type {
        JointType::Base => Xform::identity(),
        JointType::Rx => Xform::rotx(joint.q),
        JointType::Ry => Xform::roty(joint.q),
        JointType::Rz => Xform::rotz(joint.q),
        JointType::Px => Xform::posx(joint.q),
        JointType::Py => Xform::posy(joint.q),
        JointType::Pz => Xform::posz(joint.q),
    };
    joint.xj = xj;
    joint.xl = xj.mul_xform(joint.xt);
    joint.x = joint.xl.mul_xform(parent_x);
    joint.vj = joint.s.scale(joint.qd);
    joint.v = joint.xl.mul_motion(parent_v).add(joint.vj);
    joint.c = joint.v.cross_v(joint.vj);
}

/// Pass 1 (outward kinematics), root to leaf over the arena.
#[verifier::rlimit(100)]
pub fn loop_1(joints: &mut Vec<Joint>)
    requires
        parents_earlier(views_of(old(joints)@)),
    ensures
        final(joints)@.len() == old(joints)@.len(),
        views_of(final(joints)@) == pass1_from(views_of(old(joints)@), 0),
        parents_earlier(views_of(final(joints)@)),
{
    let ghost target = pass1_from(views_of(old(joints)@), 0);
    let n = joints.len();
    let mut k: usize = 0;
    while k < n
        invariant
            k <= n,
            n == joints@.len(),
            parents_earlier(views_of(joints@)),
            pass1_from(views_of(joints@), k as int) == target,
        decreases n - k,
    {
        let ghost cur = views_of(joints@);
        match joints[k].parent {
            Some(p) => {
                proof {
                    assert(cur[k as int].parent == Some(p as int));
                    assert(0 <= p < k);
                }
                let px = joints[p].x;
                let pv = joints[p].v;
                loop_1_update(&mut joints[k], px, pv);
                proof {
                    assert(views_of(joints@) =~= pass1_step(cur, k as int));
                }
            },
            None => {
                proof {
                    assert(cur[k as int].parent is None);
                    assert(views_of(joints@) =~= pass1_step(cur, k as int));
                }
            },
        }
        proof {
            assert(pass1_from(views_of(joints@), k + 1) == pass1_from(cur, k as int));
            assert forall|i: int|
                0 <= i < n implies match #[trigger] views_of(joints@)[i].parent {
                Some(p) => 0 <= p < i,
                None => true,
            } by {
                assert(views_of(joints@)[i].parent == cur[i].parent);
            }
        }
        k = k + 1;
    }
    proof {
        assert(pass1_from(views_of(joints@), n as int) == views_of(joints@));
    }
}

/// Fold every joint's accumulated external force into its own frame
/// (executable twin of `apply_ext_all`); scan order does not matter, each
/// joint is touched independently.
pub fn apply_external_forces(joints: &mut Vec<Joint>)
    ensures
        final(joints)@.len() == old(joints)@.len(),
        views_of(final(joints)@) == apply_ext_all(views_of(old(joints)@)),
        parents_earlier(views_of(old(joints)@)) ==> parents_earlier(views_of(final(joints)@)),
{
    let ghost orig = views_of(joints@);
    let n = joints.len();
    let mut k: usize = 0;
    while k < n
        invariant
            k <= n,
            n == joints@.len(),
            orig == views_of(old(joints)@),
            orig.len() == n,
            forall|i: int| 0 <= i < k ==> views_of(joints@)[i] == apply_ext_all(orig)[i],
            forall|i: int| k <= i < n ==> views_of(joints@)[i] == orig[i],
        decreases n - k,
    {
        let ghost cur = views_of(joints@);
        let is_root = match joints[k].parent {
            Some(_) => false,
            None => true,
        };
        if !is_root {
            let jm = &mut joints[k];
            jm.f_ext = jm.x.mul_force(jm.f_ext);
        }
        proof {
            assert(views_of(joints@)[k as int] == apply_ext_all(orig)[k as int]);
            assert forall|i: int| 0 <= i < n && i != k implies views_of(joints@)[i] == cur[i] by {}
        }
        k = k + 1;
    }
    proof {
        assert(views_of(joints@) =~= apply_ext_all(orig));
    }
}

/// The initialization scan of the inward pass (executable twin of
/// `init_ab_all`).
#[verifier::rlimit(100)]
fn init_ab_scan(joints: &mut Vec<Joint>)
    ensures
        final(joints)@.len() == old(joints)@.len(),
        views_of(final(joints)@) == init_ab_all(views_of(old(joints)@)),
        forall|i: int|
            0 <= i < old(joints)@.len() ==> views_of(final(joints)@)[i].parent == views_of(
                old(joints)@,
            )[i].parent,
{
    let ghost orig = views_of(joints@);
    let n = joints.len();
    let mut k: usize = 0;
    while k < n
        invariant
            k <= n,
            n == joints@.len(),
            orig == views_of(old(joints)@),
            orig.len() == n,
            forall|i: int| 0 <= i < k ==> views_of(joints@)[i] == init_ab_all(orig)[i],
            forall|i: int| k <= i < n ==> views_of(joints@)[i] == orig[i],
        decreases n - k,
    {
        let ghost cur = views_of(joints@);
        let jm = &mut joints[k];
        jm.iaa = jm.i.to_articulated();
        jm.paa = jm.v.cross_f(jm.i.mul_motion(jm.v)).sub(jm.f_ext);
        proof {
            assert(views_of(joints@)[k as int] == init_ab_all(orig)[k as int]);
            assert forall|i: int| 0 <= i < n && i != k implies views_of(joints@)[i] == cur[i] by {}
        }
        k = k + 1;
    }
    proof {
        assert(views_of(joints@) =~= init_ab_all(orig));
    }
}

/// The inward composition scan, leaf side first (executable twin of
/// `pass2_down` from the last index).
#[verifier::rlimit(100)]
fn inward_scan(joints: &mut Vec<Joint>)
    requires
        parents_earlier(views_of(old(joints)@)),
    ensures
        final(joints)@.len() == old(joints)@.len(),
        views_of(final(joints)@) == pass2_down(views_of(old(joints)@), old(joints)@.len() - 1),
        parents_earlier(views_of(final(joints)@)),
{
    let ghost target2 = pass2_down(views_of(joints@), joints@.len() - 1);
    let n = joints.len();
    if n == 0 {
        return ;
    }
    let mut k2: usize = n;
    while k2 > 0
        invariant
            k2 <= n,
            n == joints@.len(),
            parents_earlier(views_of(joints@)),
            pass2_down(views_of(joints@), k2 as int - 1) == target2,
        decreases k2,
    {
        let ghost cur = views_of(joints@);
        let i = k2 - 1;
        match joints[i].parent {
            Some(p) => {
                proof {
                    assert(cur[i as int].parent == Some(p as int));
                    assert(0 <= p < i);
                }
                inward_step(joints, i, p);
                proof {
                    assert(views_of(joints@) == pass2_step(cur, i as int));
                    assert forall|ii: int|
                        0 <= ii < n implies match #[trigger] views_of(joints@)[ii].parent {
                        Some(pp) => 0 <= pp < ii,
                        None => true,
                    } by {
                        assert(views_of(joints@)[ii].parent == cur[ii].parent);
                    }
                }
            },
            None => {
                proof {
                    assert(cur[i as int].parent is None);
                    assert(views_of(joints@) =~= pass2_step(cur, i as int));
                }
            },
        }
        proof {
            assert(pass2_down(views_of(joints@), i as int - 1) == pass2_down(cur, i as int));
        }
        k2 = i;
    }
    proof {
        assert(pass2_down(views_of(joints@), -1) == views_of(joints@));
    }
}

/// One inward step: solve joint `i`'s axis quantities and fold its reduced
/// inertia and bias into parent `p`.
#[verifier::rlimit(100)]
fn inward_step(joints: &mut Vec<Joint>, i: usize, p: usize)
    requires
        0 <= p < i < old(joints)@.len(),
        views_of(old(joints)@)[i as int].parent == Some(p as int),
    ensures
        final(joints)@.len() == old(joints)@.len(),
        views_of(final(joints)@) == pass2_step(views_of(old(joints)@), i as int),
        forall|ii: int|
            0 <= ii < old(joints)@.len() ==> views_of(final(joints)@)[ii].parent == views_of(
                old(joints)@,
            )[ii].parent,
{
    let ghost cur = views_of(joints@);
    let jm = &mut joints[i];
    jm.uu = jm.iaa.mul_motion(jm.s);
    jm.dd = jm.s.dot_force(jm.uu);
    jm.u = jm.tau.sub(jm.s.dot_force(jm.paa));
    let ghost j1 = child_solve(cur[i as int]);
    proof {
        assert(joints@[i as int]@ == j1);
        assert forall|ii: int| 0 <= ii < cur.len() && ii != i implies joints@[ii]@ == cur[ii] by {}
    }
    let xli = joints[i].xl.inverse();
    let one = crate::fx::Fx::one();
    let coeff = one.div(joints[i].dd);
    let red_ia = joints[i].iaa.sub(joints[i].uu.self_outer_product().scale(coeff));
    let red_pa = joints[i].paa.add(red_ia.mul_motion(joints[i].c)).add(
        joints[i].uu.scale(joints[i].u.div(joints[i].dd)),
    );
    let add_ia = xli.mul_inertia_ab(red_ia);
    let add_pa = xli.mul_force(red_pa);
    proof {
        assert(red_ia@ == reduced_inertia(j1));
        assert(red_pa@ == reduced_bias(j1));
        assert(add_ia@ == xf_mul_iab(xf_inverse(j1.xl), reduced_inertia(j1)));
        assert(add_pa@ == xf_mul_force(xf_inverse(j1.xl), reduced_bias(j1)));
    }
    let pm = &mut joints[p];
    pm.iaa = pm.iaa.add(add_ia);
    pm.paa = pm.paa.add(add_pa);
    proof {
        let s1 = cur.update(i as int, j1);
        assert(joints@[p as int]@ == (JointV {
            iaa: iab_add(s1[p as int].iaa, xf_mul_iab(xf_inverse(j1.xl), reduced_inertia(j1))),
            paa: fo_add(s1[p as int].paa, xf_mul_force(xf_inverse(j1.xl), reduced_bias(j1))),
            ..s1[p as int]
        }));
        assert(views_of(joints@) =~= pass2_step(cur, i as int));
    }
}

/// The outward acceleration scan (executable twin of `pass3_from`).
#[verifier::rlimit(100)]
fn outward_scan(joints: &mut Vec<Joint>)
    requires
        parents_earlier(views_of(old(joints)@)),
    ensures
        final(joints)@.len() == old(joints)@.len(),
        views_of(final(joints)@) == pass3_from(views_of(old(joints)@), 0),
        parents_earlier(views_of(final(joints)@)),
{
    let ghost target3 = pass3_from(views_of(joints@), 0);
    let n = joints.len();
    let mut k3: usize = 0;
    while k3 < n
        invariant
            k3 <= n,
            n == joints@.len(),
            parents_earlier(views_of(joints@)),
            pass3_from(views_of(joints@), k3 as int) == target3,
        decreases n - k3,
    {
        let ghost cur = views_of(joints@);
        match joints[k3].parent {
            Some(p) => {
                proof {
                    assert(cur[k3 as int].parent == Some(p as int));
                    assert(0 <= p < k3);
                }
                let pa = joints[p].a;
                let jm = &mut joints[k3];
                let ap = jm.xl.mul_motion(pa).add(jm.c);
                jm.qdd = jm.u.sub(ap.dot_force(jm.uu)).div(jm.dd);
                jm.a = ap.add(jm.s.scale(jm.qdd));
                proof {
                    assert(joints@[k3 as int]@ == loop_3_upd(cur[k3 as int], cur[p as int].a));
                    assert(views_of(joints@) =~= pass3_step(cur, k3 as int));
                }
            },
            None => {
                proof {
                    assert(cur[k3 as int].parent is None);
                    assert(views_of(joints@) =~= pass3_step(cur, k3 as int));
                }
            },
        }
        proof {
            assert(pass3_from(views_of(joints@), k3 + 1) == pass3_from(cur, k3 as int));
            assert forall|i: int|
                0 <= i < n implies match #[trigger] views_of(joints@)[i].parent {
                Some(p) => 0 <= p < i,
                None => true,
            } by {
                assert(views_of(joints@)[i].parent == cur[i].parent);
            }
        }
        k3 = k3 + 1;
    }
    proof {
        assert(pass3_from(views_of(joints@), n as int) == views_of(joints@));
    }
}

/// Passes 2 and 3: initialize each joint's articulated-body quantities,
/// compose them inward (leaf to root), then resolve accelerations outward
/// (root to leaf).
pub fn loop_23(joints: &mut Vec<Joint>)
    requires
        parents_earlier(views_of(old(joints)@)),
    ensures
        final(joints)@.len() == old(joints)@.len(),
        views_of(final(joints)@) == pass3_from(
            pass2_down(init_ab_all(views_of(old(joints)@)), old(joints)@.len() - 1),
            0,
        ),
        parents_earlier(views_of(final(joints)@)),
{
    init_ab_scan(joints);
    proof {
        assert forall|i: int|
            0 <= i < joints@.len() implies match #[trigger] views_of(joints@)[i].parent {
            Some(p) => 0 <= p < i,
            None => true,
        } by {
            assert(views_of(joints@)[i].parent == views_of(old(joints)@)[i].parent);
        }
    }
    inward_scan(joints);
    outward_scan(joints);
}

/// One full dynamics evaluation: write the candidate state into the arena,
/// run the three passes, and read back the state derivative (velocity,
/// acceleration) per joint. Force accumulators are used as they stand; the
/// force-injection scans run separately between pass 1 and passes 2-3.
pub fn all_loops(joints: &mut Vec<Joint>, states: &StateVector) -> (dstate: StateVector)
    requires
        parents_earlier(views_of(old(joints)@)),
        old(joints)@.len() <= states@.len(),
    ensures
        final(joints)@.len() == old(joints)@.len(),
        views_of(final(joints)@) == all_passes(with_states(views_of(old(joints)@), states@)),
        dstate@.len() == old(joints)@.len(),
        forall|i: int|
            0 <= i < old(joints)@.len() ==> dstate@[i] == (StateV {
                q: views_of(final(joints)@)[i].qd,
                qd: views_of(final(joints)@)[i].qdd,
            }),
{
    set_model_state(joints, states);
    proof {
        assert(views_of(joints@) =~= with_states(views_of(old(joints)@), states@));
        assert forall|i: int|
            0 <= i < joints@.len() implies match #[trigger] views_of(joints@)[i].parent {
            Some(p) => 0 <= p < i,
            None => true,
        } by {
            assert(views_of(joints@)[i].parent == views_of(old(joints)@)[i].parent);
        }
    }
    loop_1(joints);
    loop_23(joints);
    get_model_dstate(joints)
}

/// A joint sequence with a state vector written in, index for index.
pub open spec fn with_states(s: Seq<JointV>, sv: Seq<StateV>) -> Seq<JointV> {
    Seq::new(s.len(), |i: int| JointV { q: sv[i].q, qd: sv[i].qd, ..s[i] })
}

} // verus!
