//! The declarative model description: an ordered list of joint records plus
//! a list of force-system attachments. This is the document the library must
//! round-trip losslessly (parse, build the forest, re-serialize).
//!
//! Scalars are fixed-point; the host turns them into whatever numeric form
//! its document encoding uses.

use vstd::prelude::*;

use crate::fx::Fx;
use crate::linalg::Vec3;

verus! {

/// The seven joint kind tags: the anchored base, three prismatic axes and
/// three revolute axes.
#[derive(Debug, Clone, Copy, PartialEq, Eq, Structural)]
pub enum JointTypeDef {
    Base,
    Px,
    Py,
    Pz,
    Rx,
    Ry,
    Rz,
}

/// A quaternion, scalar part first.
#[derive(Debug, Clone, Copy, PartialEq, Eq, Structural)]
pub struct QuatDef {
    pub w: Fx,
    pub x: Fx,
    pub y: Fx,
    pub z: Fx,
}

/// A fixed offset pose: position plus unit quaternion.
#[derive(Debug, Clone, Copy, PartialEq, Eq, Structural)]
pub struct TransformDef {
    pub position: Vec3,
    pub quaternion: QuatDef,
}

/// The six independent components of a symmetric inertia tensor.
#[derive(Debug, Clone, Copy, PartialEq, Eq, Structural)]
pub struct InertiaCompsDef {
    pub xx: Fx,
    pub yy: Fx,
    pub zz: Fx,
    pub yz: Fx,
    pub xz: Fx,
    pub xy: Fx,
}

/// A rigid body's 10-parameter inertia.
#[derive(Debug, Clone, Copy, PartialEq, Eq, Structural)]
pub struct InertiaDef {
    pub mass: Fx,
    pub center_of_mass: Vec3,
    pub inertia: InertiaCompsDef,
}

/// An RGBA color for a visual primitive.
#[derive(Debug, Clone, Copy, PartialEq, Eq, Structural)]
pub struct ColorDef {
    pub r: Fx,
    pub g: Fx,
    pub b: Fx,
    pub a: Fx,
}

/// A visual primitive attached to a joint.
#[derive(Debug, Clone, Copy, PartialEq, Eq, Structural)]
pub enum MeshTypeDef {
    Box { half_extents: Vec3 },
    Cylinder { height: Fx, radius: Fx },
}

#[derive(Debug, Clone, Copy, PartialEq, Eq, Structural)]
pub struct MeshDef {
    pub mesh_type: MeshTypeDef,
    pub transform: TransformDef,
    pub color: ColorDef,
}

/// One joint record of the description.
#[derive(Debug, Clone)]
pub struct JointDef {
    pub name: String,
    pub joint_type: JointTypeDef,
    pub parent: Option<String>,
    pub transform: TransformDef,
    pub inertia: InertiaDef,
    pub meshes: Vec<MeshDef>,
}

/// Spec view of a joint record: the name and parent as character sequences.
pub struct JointDefV {
    pub name: Seq<char>,
    pub joint_type: JointTypeDef,
    pub parent: Option<Seq<char>>,
    pub transform: TransformDef,
    pub inertia: InertiaDef,
    pub meshes: Seq<MeshDef>,
}

impl View for JointDef {
    type V = JointDefV;

    open spec fn view(&self) -> JointDefV {
        JointDefV {
            name: self.name@,
            joint_type: self.joint_type,
            parent: match self.parent {
                Some(p) => Some(p@),
                None => None,
            },
            transform: self.transform,
            inertia: self.inertia,
            meshes: self.meshes@,
        }
    }
}

/// Parameters of an idealized steering position servo.
#[derive(Debug, Clone)]
pub struct SteeringDef {
    pub joint: String,
    pub max_angle: Fx,
}

/// Parameters of an idealized constant-torque drive motor.
#[derive(Debug, Clone)]
pub struct DrivenWheelDef {
    pub joint: String,
    pub max_torque: Fx,
    pub max_speed: Fx,
    pub max_power: Fx,
}

/// Parameters of a dissipative brake.
#[derive(Debug, Clone)]
pub struct BrakeWheelDef {
    pub joint: String,
    pub max_torque: Fx,
}

/// Parameters of a linear spring-damper suspension.
#[derive(Debug, Clone)]
pub struct SuspensionDef {
    pub joint: String,
    pub stiffness: Fx,
    pub damping: Fx,
}

/// Parameters of the tire-ground contact model.
#[derive(Debug, Clone)]
pub struct TireContactDef {
    pub joint: String,
    pub radius: Fx,
    pub stiffness: Fx,
    pub damping: Fx,
    pub longitudinal_stiffness: Fx,
    pub lateral_stiffness: Fx,
}

/// One force-system attachment.
#[derive(Debug, Clone)]
pub enum SystemTypeDef {
    Steering(SteeringDef),
    Drive(DrivenWheelDef),
    Brake(BrakeWheelDef),
    Suspension(SuspensionDef),
    TireContact(TireContactDef),
}

#[derive(Debug, Clone)]
pub struct SystemDef {
    pub system_type: SystemTypeDef,
}

/// Spec view of a system attachment.
pub enum SystemDefV {
    Steering { joint: Seq<char>, max_angle: Fx },
    Drive { joint: Seq<char>, max_torque: Fx, max_speed: Fx, max_power: Fx },
    Brake { joint: Seq<char>, max_torque: Fx },
    Suspension { joint: Seq<char>, stiffness: Fx, damping: Fx },
    TireContact {
        joint: Seq<char>,
        radius: Fx,
        stiffness: Fx,
        damping: Fx,
        longitudinal_stiffness: Fx,
        lateral_stiffness: Fx,
    },
}

/// The joint name a system attachment refers to.
pub open spec fn sys_joint_name(s: SystemDefV) -> Seq<char> {
    match s {
        SystemDefV::Steering { joint, .. } => joint,
        SystemDefV::Drive { joint, .. } => joint,
        SystemDefV::Brake { joint, .. } => joint,
        SystemDefV::Suspension { joint, .. } => joint,
        SystemDefV::TireContact { joint, .. } => joint,
    }
}

/// Spec view of a system attachment variant.
pub open spec fn system_type_view(st: SystemTypeDef) -> SystemDefV {
    match st {
        SystemTypeDef::Steering(ref d) => SystemDefV::Steering {
            joint: d.joint@,
            max_angle: d.max_angle,
        },
        SystemTypeDef::Drive(ref d) => SystemDefV::Drive {
            joint: d.joint@,
            max_torque: d.max_torque,
            max_speed: d.max_speed,
            max_power: d.max_power,
        },
        SystemTypeDef::Brake(ref d) => SystemDefV::Brake {
            joint: d.joint@,
            max_torque: d.max_torque,
        },
        SystemTypeDef::Suspension(ref d) => SystemDefV::Suspension {
            joint: d.joint@,
            stiffness: d.stiffness,
            damping: d.damping,
        },
        SystemTypeDef::TireContact(ref d) => SystemDefV::TireContact {
            joint: d.joint@,
            radius: d.radius,
            stiffness: d.stiffness,
            damping: d.damping,
            longitudinal_stiffness: d.longitudinal_stiffness,
            lateral_stiffness: d.lateral_stiffness,
        },
    }
}

impl View for SystemDef {
    type V = SystemDefV;

    open spec fn view(&self) -> SystemDefV {
        system_type_view(self.system_type)
    }
}

/// Clone a system attachment variant, field for field.
pub fn clone_system_type(st: &SystemTypeDef) -> (r: SystemTypeDef)
    ensures
        system_type_view(r) == system_type_view(*st),
{
    match st {
        SystemTypeDef::Steering(d) => SystemTypeDef::Steering(
            SteeringDef { joint: d.joint.clone(), max_angle: d.max_angle },
        ),
        SystemTypeDef::Drive(d) => SystemTypeDef::Drive(
            DrivenWheelDef {
                joint: d.joint.clone(),
                max_torque: d.max_torque,
                max_speed: d.max_speed,
                max_power: d.max_power,
            },
        ),
        SystemTypeDef::Brake(d) => SystemTypeDef::Brake(
            BrakeWheelDef { joint: d.joint.clone(), max_torque: d.max_torque },
        ),
        SystemTypeDef::Suspension(d) => SystemTypeDef::Suspension(
            SuspensionDef {
                joint: d.joint.clone(),
                stiffness: d.stiffness,
                damping: d.damping,
            },
        ),
        SystemTypeDef::TireContact(d) => SystemTypeDef::TireContact(
            TireContactDef {
                joint: d.joint.clone(),
                radius: d.radius,
                stiffness: d.stiffness,
                damping: d.damping,
                longitudinal_stiffness: d.longitudinal_stiffness,
                lateral_stiffness: d.lateral_stiffness,
            },
        ),
    }
}

/// The joint name a system attachment refers to, as an executable borrow.
pub fn system_joint_name(st: &SystemTypeDef) -> (r: &String)
    ensures
        r@ == sys_joint_name(system_type_view(*st)),
{
    match st {
        SystemTypeDef::Steering(d) => &d.joint,
        SystemTypeDef::Drive(d) => &d.joint,
        SystemTypeDef::Brake(d) => &d.joint,
        SystemTypeDef::Suspension(d) => &d.joint,
        SystemTypeDef::TireContact(d) => &d.joint,
    }
}

/// The whole declarative model description.
#[derive(Debug, Clone)]
pub struct ModelDef {
    pub joints: Vec<JointDef>,
    pub name: String,
    pub systems: Vec<SystemDef>,
}

/// Spec view of a whole description.
pub struct ModelDefV {
    pub joints: Seq<JointDefV>,
    pub name: Seq<char>,
    pub systems: Seq<SystemDefV>,
}

impl View for ModelDef {
    type V = ModelDefV;

    open spec fn view(&self) -> ModelDefV {
        ModelDefV {
            joints: self.joints@.map_values(|j: JointDef| j@),
            name: self.name@,
            systems: self.systems@.map_values(|s: SystemDef| s@),
        }
    }
}

} // verus!
