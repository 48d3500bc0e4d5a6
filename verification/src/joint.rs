//! The joint: one degree of freedom of the mechanism tree, and the state
//! container the traversal passes and force models read and write.

use vstd::prelude::*;

use crate::fx::Fx;
use crate::linalg::{m3_wf, v3_wf, V3};
use crate::serialize::{InertiaCompsDef, InertiaDef, JointDef, JointTypeDef, MeshDef, QuatDef,
    TransformDef};
use crate::sva::{
    in_from_def, xf_from_def, xf_identity, Force, FoV, Inertia, InertiaAB, IabV, InV, MoV, Motion,
    Xform, XfV,
};
use crate::linalg::Vec3;

verus! {

/// The joint kinds: the anchored base, three revolute axes, three
/// prismatic axes.
#[derive(Clone, Copy, Debug, PartialEq, Eq, Structural)]
pub enum JointType {
    Base,
    Rx,
    Ry,
    Rz,
    Px,
    Py,
    Pz,
}

/// The unit screw axis (motion subspace) of a joint kind.
pub open spec fn axis_of(jt: JointType) -> MoV {
    match jt {
        JointType::Base => MoV { v: V3 { x: 0, y: 0, z: 0 }, w: V3 { x: 0, y: 0, z: 0 } },
        JointType::Rx => MoV {
            v: V3 { x: 0, y: 0, z: 0 },
            w: V3 { x: crate::fx::SCALE as int, y: 0, z: 0 },
        },
        JointType::Ry => MoV {
            v: V3 { x: 0, y: 0, z: 0 },
            w: V3 { x: 0, y: crate::fx::SCALE as int, z: 0 },
        },
        JointType::Rz => MoV {
            v: V3 { x: 0, y: 0, z: 0 },
            w: V3 { x: 0, y: 0, z: crate::fx::SCALE as int },
        },
        JointType::Px => MoV {
            v: V3 { x: crate::fx::SCALE as int, y: 0, z: 0 },
            w: V3 { x: 0, y: 0, z: 0 },
        },
        JointType::Py => MoV {
            v: V3 { x: 0, y: crate::fx::SCALE as int, z: 0 },
            w: V3 { x: 0, y: 0, z: 0 },
        },
        JointType::Pz => MoV {
            v: V3 { x: 0, y: 0, z: crate::fx::SCALE as int },
            w: V3 { x: 0, y: 0, z: 0 },
        },
    }
}

/// The joint kind a kind tag of the description maps to.
pub open spec fn joint_type_of_def(t: JointTypeDef) -> JointType {
    match t {
        JointTypeDef::Base => JointType::Base,
        JointTypeDef::Px => JointType::Px,
        JointTypeDef::Py => JointType::Py,
        JointTypeDef::Pz => JointType::Pz,
        JointTypeDef::Rx => JointType::Rx,
        JointTypeDef::Ry => JointType::Ry,
        JointTypeDef::Rz => JointType::Rz,
    }
}

/// The kind tag of the description a joint kind re-serializes to.
pub open spec fn def_of_joint_type(t: JointType) -> JointTypeDef {
    match t {
        JointType::Base => JointTypeDef::Base,
        JointType::Px => JointTypeDef::Px,
        JointType::Py => JointTypeDef::Py,
        JointType::Pz => JointTypeDef::Pz,
        JointType::Rx => JointTypeDef::Rx,
        JointType::Ry => JointTypeDef::Ry,
        JointType::Rz => JointTypeDef::Rz,
    }
}

/// Spec view of a joint: every field as a mathematical value.
pub struct JointV {
    pub joint_type: JointType,
    pub name: Seq<char>,
    pub s: MoV,
    pub i: InV,
    pub xt: XfV,
    pub q: int,
    pub qd: int,
    pub qdd: int,
    pub xl: XfV,
    pub xj: XfV,
    pub x: XfV,
    pub v: MoV,
    pub vj: MoV,
    pub c: MoV,
    pub a: MoV,
    pub iaa: IabV,
    pub paa: FoV,
    pub tau: int,
    pub f_ext: FoV,
    pub dd: int,
    pub u: int,
    pub uu: FoV,
    pub parent: Option<int>,
    pub transform_def: TransformDef,
    pub inertia_def: InertiaDef,
    pub meshes: Seq<MeshDef>,
}

/// One joint of the mechanism: identity, static parameters, generalized
/// state, per-step derived quantities and solver scratch fields.
///
/// The declarative payload of the record it was built from (offset
/// transform, inertia components, visual primitives) is retained verbatim so
/// the model re-serializes losslessly.
#[derive(Debug)]
pub struct Joint {
    pub joint_type: JointType,
    pub name: String,

    // joint definition
    pub s: Motion,
    pub i: Inertia,
    pub xt: Xform,

    // joint state (and solution)
    pub q: Fx,
    pub qd: Fx,
    pub qdd: Fx,

    // common parameters
    pub xl: Xform,
    pub xj: Xform,
    pub x: Xform,
    pub v: Motion,
    pub vj: Motion,
    pub c: Motion,
    pub a: Motion,

    // algorithm specific parameters
    pub iaa: InertiaAB,
    pub paa: Force,
    pub tau: Fx,
    pub f_ext: Force,
    pub dd: Fx,
    pub u: Fx,
    pub uu: Force,

    // arena topology and retained declarative payload
    pub parent: Option<usize>,
    pub transform_def: TransformDef,
    pub inertia_def: InertiaDef,
    pub meshes: Vec<MeshDef>,
}

impl View for Joint {
    type V = JointV;

    open spec fn view(&self) -> JointV {
        JointV {
            joint_type: self.joint_type,
            name: self.name@,
            s: self.s@,
            i: self.i@,
            xt: self.xt@,
            q: self.q@,
            qd: self.qd@,
            qdd: self.qdd@,
            xl: self.xl@,
            xj: self.xj@,
            x: self.x@,
            v: self.v@,
            vj: self.vj@,
            c: self.c@,
            a: self.a@,
            iaa: self.iaa@,
            paa: self.paa@,
            tau: self.tau@,
            f_ext: self.f_ext@,
            dd: self.dd@,
            u: self.u@,
            uu: self.uu@,
            parent: match self.parent {
                Some(p) => Some(p as int),
                None => None,
            },
            transform_def: self.transform_def,
            inertia_def: self.inertia_def,
            meshes: self.meshes@,
        }
    }
}

/// The view of a freshly constructed joint: the given identity and static
/// parameters, with every dynamic and scratch field zero.
pub open spec fn fresh_joint(
    name: Seq<char>,
    jt: JointType,
    i: InV,
    xt: XfV,
    a: MoV,
    parent: Option<int>,
    transform_def: TransformDef,
    inertia_def: InertiaDef,
    meshes: Seq<MeshDef>,
) -> JointV {
    JointV {
        joint_type: jt,
        name: name,
        s: axis_of(jt),
        i: i,
        xt: xt,
        q: 0,
        qd: 0,
        qdd: 0,
        xl: xf_identity(),
        xj: xf_identity(),
        x: xf_identity(),
        v: crate::sva::mo_zero(),
        vj: crate::sva::mo_zero(),
        c: crate::sva::mo_zero(),
        a: a,
        iaa: crate::sva::iab_zero(),
        paa: crate::sva::fo_zero(),
        tau: 0,
        f_ext: crate::sva::fo_zero(),
        dd: 0,
        u: 0,
        uu: crate::sva::fo_zero(),
        parent: parent,
        transform_def: transform_def,
        inertia_def: inertia_def,
        meshes: meshes,
    }
}

/// The identity offset record: zero position, unit quaternion.
pub open spec fn default_transform_def() -> TransformDef {
    TransformDef {
        position: Vec3 { x: Fx { raw: 0 }, y: Fx { raw: 0 }, z: Fx { raw: 0 } },
        quaternion: QuatDef {
            w: Fx { raw: crate::fx::SCALE },
            x: Fx { raw: 0 },
            y: Fx { raw: 0 },
            z: Fx { raw: 0 },
        },
    }
}

/// The all-zero inertia record.
pub open spec fn default_inertia_def() -> InertiaDef {
    InertiaDef {
        mass: Fx { raw: 0 },
        center_of_mass: Vec3 { x: Fx { raw: 0 }, y: Fx { raw: 0 }, z: Fx { raw: 0 } },
        inertia: InertiaCompsDef {
            xx: Fx { raw: 0 },
            yy: Fx { raw: 0 },
            zz: Fx { raw: 0 },
            yz: Fx { raw: 0 },
            xz: Fx { raw: 0 },
            xy: Fx { raw: 0 },
        },
    }
}

impl Joint {
    /// Build a joint with the given identity and static parameters and all
    /// dynamic fields zero.
    fn fresh(name: String, jt: JointType, i: Inertia, xt: Xform, a: Motion) -> (r: Joint)
        ensures
            r@ == fresh_joint(
                name@,
                jt,
                i@,
                xt@,
                a@,
                None::<int>,
                default_transform_def(),
                default_inertia_def(),
                Seq::<MeshDef>::empty(),
            ),
    {
        let zero = Fx::zero();
        let s = Self::motion_subspace(jt);
        let r = Joint {
            joint_type: jt,
            name,
            s,
            i,
            xt,
            q: zero,
            qd: zero,
            qdd: zero,
            xl: Xform::identity(),
            xj: Xform::identity(),
            x: Xform::identity(),
            v: Motion::zero(),
            vj: Motion::zero(),
            c: Motion::zero(),
            a,
            iaa: InertiaAB::zero(),
            paa: Force::zero(),
            tau: zero,
            f_ext: Force::zero(),
            dd: zero,
            u: zero,
            uu: Force::zero(),
            parent: None,
            transform_def: TransformDef {
                position: Vec3::zeros(),
                quaternion: QuatDef { w: Fx::one(), x: zero, y: zero, z: zero },
            },
            inertia_def: InertiaDef {
                mass: zero,
                center_of_mass: Vec3::zeros(),
                inertia: InertiaCompsDef {
                    xx: zero,
                    yy: zero,
                    zz: zero,
                    yz: zero,
                    xz: zero,
                    xy: zero,
                },
            },
            meshes: Vec::new(),
        };
        proof {
            assert(r@.meshes =~= Seq::<MeshDef>::empty());
        }
        r
    }

    /// The unit screw axis of a joint kind, as an executable motion.
    pub fn motion_subspace(jt: JointType) -> (r: Motion)
        ensures
            r@ == axis_of(jt),
    {
        let zero = Fx::zero();
        let one = Fx::one();
        let zv = Vec3::zeros();
        match jt {
            JointType::Base => Motion { v: zv, w: zv },
            JointType::Rx => Motion { v: zv, w: Vec3 { x: one, y: zero, z: zero } },
            JointType::Ry => Motion { v: zv, w: Vec3 { x: zero, y: one, z: zero } },
            JointType::Rz => Motion { v: zv, w: Vec3 { x: zero, y: zero, z: one } },
            JointType::Px => Motion { v: Vec3 { x: one, y: zero, z: zero }, w: zv },
            JointType::Py => Motion { v: Vec3 { x: zero, y: one, z: zero }, w: zv },
            JointType::Pz => Motion { v: Vec3 { x: zero, y: zero, z: one }, w: zv },
        }
    }

    /// The anchored base joint, with its prescribed absolute acceleration
    /// (the gravity trick).
    pub fn base(a: Motion) -> (r: Joint)
        ensures
            r@ == fresh_joint(
                Seq::<char>::empty(),
                JointType::Base,
                (InV { m: 0, c: V3 { x: 0, y: 0, z: 0 }, moi: crate::linalg::m3_zero() }),
                xf_identity(),
                a@,
                None::<int>,
                default_transform_def(),
                default_inertia_def(),
                Seq::<MeshDef>::empty(),
            ),
    {
        let r = Self::fresh(String::new(), JointType::Base, Inertia::zero(), Xform::identity(), a);
        proof {
            assert(r@.name =~= Seq::<char>::empty());
        }
        r
    }

    /// A revolute joint about the x axis.
    pub fn rx(name: String, inertia: Inertia, xt: Xform) -> (r: Joint)
        ensures
            r@ == fresh_joint(
                name@,
                JointType::Rx,
                inertia@,
                xt@,
                crate::sva::mo_zero(),
                None::<int>,
                default_transform_def(),
                default_inertia_def(),
                Seq::<MeshDef>::empty(),
            ),
    {
        Self::fresh(name, JointType::Rx, inertia, xt, Motion::zero())
    }

    /// A revolute joint about the y axis.
    pub fn ry(name: String, inertia: Inertia, xt: Xform) -> (r: Joint)
        ensures
            r@ == fresh_joint(
                name@,
                JointType::Ry,
                inertia@,
                xt@,
                crate::sva::mo_zero(),
                None::<int>,
                default_transform_def(),
                default_inertia_def(),
                Seq::<MeshDef>::empty(),
            ),
    {
        Self::fresh(name, JointType::Ry, inertia, xt, Motion::zero())
    }

    /// A revolute joint about the z axis.
    pub fn rz(name: String, inertia: Inertia, xt: Xform) -> (r: Joint)
        ensures
            r@ == fresh_joint(
                name@,
                JointType::Rz,
                inertia@,
                xt@,
                crate::sva::mo_zero(),
                None::<int>,
                default_transform_def(),
                default_inertia_def(),
                Seq::<MeshDef>::empty(),
            ),
    {
        Self::fresh(name, JointType::Rz, inertia, xt, Motion::zero())
    }

    /// A prismatic joint along the x axis.
    pub fn px(name: String, inertia: Inertia, xt: Xform) -> (r: Joint)
        ensures
            r@ == fresh_joint(
                name@,
                JointType::Px,
                inertia@,
                xt@,
                crate::sva::mo_zero(),
                None::<int>,
                default_transform_def(),
                default_inertia_def(),
                Seq::<MeshDef>::empty(),
            ),
    {
        Self::fresh(name, JointType::Px, inertia, xt, Motion::zero())
    }

    /// A prismatic joint along the y axis.
    pub fn py(name: String, inertia: Inertia, xt: Xform) -> (r: Joint)
        ensures
            r@ == fresh_joint(
                name@,
                JointType::Py,
                inertia@,
                xt@,
                crate::sva::mo_zero(),
                None::<int>,
                default_transform_def(),
                default_inertia_def(),
                Seq::<MeshDef>::empty(),
            ),
    {
        Self::fresh(name, JointType::Py, inertia, xt, Motion::zero())
    }

    /// A prismatic joint along the z axis.
    pub fn pz(name: String, inertia: Inertia, xt: Xform) -> (r: Joint)
        ensures
            r@ == fresh_joint(
                name@,
                JointType::Pz,
                inertia@,
                xt@,
                crate::sva::mo_zero(),
                None::<int>,
                default_transform_def(),
                default_inertia_def(),
                Seq::<MeshDef>::empty(),
            ),
    {
        Self::fresh(name, JointType::Pz, inertia, xt, Motion::zero())
    }

    /// Build a joint from one record of the declarative description,
    /// retaining the record's payload for re-serialization.
    pub fn from_joint_def(joint_def: &JointDef) -> (r: Joint)
        ensures
            r@ == fresh_joint(
                joint_def.name@,
                joint_type_of_def(joint_def.joint_type),
                in_from_def(joint_def.inertia),
                xf_from_def(joint_def.transform),
                crate::sva::mo_zero(),
                None::<int>,
                joint_def.transform,
                joint_def.inertia,
                joint_def.meshes@,
            ),
    {
        let i = Inertia::from_def(&joint_def.inertia);
        let xt = Xform::from_def(&joint_def.transform);
        let jt = match joint_def.joint_type {
            JointTypeDef::Base => JointType::Base,
            JointTypeDef::Px => JointType::Px,
            JointTypeDef::Py => JointType::Py,
            JointTypeDef::Pz => JointType::Pz,
            JointTypeDef::Rx => JointType::Rx,
            JointTypeDef::Ry => JointType::Ry,
            JointTypeDef::Rz => JointType::Rz,
        };
        let mut r = Self::fresh(joint_def.name.clone(), jt, i, xt, Motion::zero());
        r.transform_def = joint_def.transform;
        r.inertia_def = joint_def.inertia;
        r.meshes = clone_meshes(&joint_def.meshes);
        r
    }

    /// The (position, velocity) pair of this joint.
    pub fn get_state(&self) -> (r: JointState)
        ensures
            r.q == self.q,
            r.qd == self.qd,
    {
        JointState { q: self.q, qd: self.qd }
    }

    /// Write a (position, velocity) pair into this joint.
    pub fn set_state(&mut self, state: &JointState)
        ensures
            final(self)@ == (JointV { q: state.q@, qd: state.qd@, ..old(self)@ }),
    {
        self.q = state.q;
        self.qd = state.qd;
    }

    /// The derivative pair of this joint: (velocity, acceleration).
    pub fn get_dstate(&self) -> (r: JointState)
        ensures
            r.q == self.qd,
            r.qd == self.qdd,
    {
        JointState { q: self.qd, qd: self.qdd }
    }

    /// Write a derivative pair into this joint.
    pub fn set_dstate(&mut self, dstate: JointState)
        ensures
            final(self)@ == (JointV { qd: dstate.q@, qdd: dstate.qd@, ..old(self)@ }),
    {
        self.qd = dstate.q;
        self.qdd = dstate.qd;
    }

    /// Clear the per-step accumulators: acceleration, external force and
    /// generalized force, as the start of every derivative evaluation does.
    pub fn reset(&mut self)
        ensures
            final(self)@ == (JointV {
                qdd: 0,
                f_ext: crate::sva::fo_zero(),
                tau: 0,
                ..old(self)@
            }),
    {
        self.qdd = Fx::zero();
        self.f_ext = Force::zero();
        self.tau = Fx::zero();
    }
}

/// The executable twin of `def_of_joint_type`.
pub fn joint_type_def_of(t: JointType) -> (r: JointTypeDef)
    ensures
        r == def_of_joint_type(t),
{
    match t {
        JointType::Base => JointTypeDef::Base,
        JointType::Px => JointTypeDef::Px,
        JointType::Py => JointTypeDef::Py,
        JointType::Pz => JointTypeDef::Pz,
        JointType::Rx => JointTypeDef::Rx,
        JointType::Ry => JointTypeDef::Ry,
        JointType::Rz => JointTypeDef::Rz,
    }
}

/// Clone a list of visual primitives (they are plain copyable records).
pub fn clone_meshes(meshes: &Vec<MeshDef>) -> (r: Vec<MeshDef>)
    ensures
        r@ == meshes@,
{
    let mut out: Vec<MeshDef> = Vec::new();
    let mut k: usize = 0;
    while k < meshes.len()
        invariant
            k <= meshes@.len(),
            out@ == meshes@.subrange(0, k as int),
        decreases meshes@.len() - k,
    {
        out.push(meshes[k]);
        proof {
            assert(out@ =~= meshes@.subrange(0, k + 1 as int));
        }
        k = k + 1;
    }
    proof {
        assert(out@ =~= meshes@);
    }
    out
}

/// A (position, velocity) pair for one joint.
#[derive(Clone, Copy, Debug, PartialEq, Eq, Structural)]
pub struct JointState {
    pub q: Fx,
    pub qd: Fx,
}

impl JointState {
    pub fn new(q: Fx, qd: Fx) -> (r: JointState)
        ensures
            r.q == q,
            r.qd == qd,
    {
        JointState { q, qd }
    }

    pub fn zero() -> (r: JointState)
        ensures
            r.q@ == 0,
            r.qd@ == 0,
    {
        JointState { q: Fx::zero(), qd: Fx::zero() }
    }

    pub fn from_joint(joint: &Joint) -> (r: JointState)
        ensures
            r.q == joint.q,
            r.qd == joint.qd,
    {
        JointState { q: joint.q, qd: joint.qd }
    }
}

} // verus!
