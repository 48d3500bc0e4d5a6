//! The demo vehicle: a chassis on six degrees of freedom, four suspension
//! corners, steered front wheels and driven rear wheels, described as a
//! declarative model the loader can build and round-trip.

use vstd::prelude::*;

use crate::fx::{fx_add, fx_div, fx_divi, fx_mul, fx_neg, fx_sqrt, sat, Fx, PI_RAW, SCALE};
use crate::linalg::Vec3;
use crate::model::def_well_formed;
use crate::serialize::sys_joint_name;
use crate::serialize::{
    BrakeWheelDef, ColorDef, DrivenWheelDef, InertiaCompsDef, InertiaDef, JointDef, JointDefV,
    JointTypeDef, MeshDef, MeshTypeDef, ModelDef, QuatDef, SteeringDef, SuspensionDef, SystemDef,
    SystemDefV, SystemTypeDef, TireContactDef, TransformDef,
};

verus! {

/// One joint record has the given name, kind and parent.
pub open spec fn joint_shape(
    j: JointDefV,
    name: Seq<char>,
    jt: JointTypeDef,
    parent: Option<Seq<char>>,
) -> bool {
    j.name == name && j.joint_type == jt && j.parent == parent
}

/// The attachment is a suspension on the named joint with exactly these
/// raw spring parameters.
pub open spec fn attaches_suspension(
    s: SystemDefV,
    joint: Seq<char>,
    stiffness: int,
    damping: int,
) -> bool {
    match s {
        SystemDefV::Suspension { joint: j, stiffness: st, damping: dm } => {
            j == joint && st@ == stiffness && dm@ == damping
        },
        _ => false,
    }
}

/// The attachment is a steering servo on the named joint with exactly this
/// raw angle limit.
pub open spec fn attaches_steering(s: SystemDefV, joint: Seq<char>, max_angle: int) -> bool {
    match s {
        SystemDefV::Steering { joint: j, max_angle: ma } => j == joint && ma@ == max_angle,
        _ => false,
    }
}

/// The attachment is a drive motor on the named joint with exactly these
/// raw limits.
pub open spec fn attaches_drive(
    s: SystemDefV,
    joint: Seq<char>,
    max_torque: int,
    max_speed: int,
    max_power: int,
) -> bool {
    match s {
        SystemDefV::Drive { joint: j, max_torque: mt, max_speed: ms, max_power: mp } => {
            j == joint && mt@ == max_torque && ms@ == max_speed && mp@ == max_power
        },
        _ => false,
    }
}

/// The attachment is a brake on the named joint with exactly this raw
/// torque limit.
pub open spec fn attaches_brake(s: SystemDefV, joint: Seq<char>, max_torque: int) -> bool {
    match s {
        SystemDefV::Brake { joint: j, max_torque: mt } => j == joint && mt@ == max_torque,
        _ => false,
    }
}

/// The attachment is a tire contact on the named joint with exactly these
/// raw contact parameters.
pub open spec fn attaches_tire(
    s: SystemDefV,
    joint: Seq<char>,
    radius: int,
    stiffness: int,
    damping: int,
    longitudinal: int,
    lateral: int,
) -> bool {
    match s {
        SystemDefV::TireContact {
            joint: j,
            radius: r,
            stiffness: st,
            damping: dm,
            longitudinal_stiffness: lo,
            lateral_stiffness: la,
        } => {
            j == joint && r@ == radius && st@ == stiffness && dm@ == damping && lo@
                == longitudinal && la@ == lateral
        },
        _ => false,
    }
}

/// The record's offset transform translates only, to this raw position.
pub open spec fn placed_at(t: TransformDef, x: int, y: int, z: int) -> bool {
    &&& t.position.x@ == x
    &&& t.position.y@ == y
    &&& t.position.z@ == z
    &&& t.quaternion.w@ == SCALE as int
    &&& t.quaternion.x@ == 0
    &&& t.quaternion.y@ == 0
    &&& t.quaternion.z@ == 0
}

/// The record's inertia is this raw mass with a centered, diagonal tensor.
pub open spec fn weighs(i: InertiaDef, mass: int, xx: int, yy: int, zz: int) -> bool {
    &&& i.mass@ == mass
    &&& i.center_of_mass.x@ == 0
    &&& i.center_of_mass.y@ == 0
    &&& i.center_of_mass.z@ == 0
    &&& i.inertia.xx@ == xx
    &&& i.inertia.yy@ == yy
    &&& i.inertia.zz@ == zz
    &&& i.inertia.yz@ == 0
    &&& i.inertia.xz@ == 0
    &&& i.inertia.xy@ == 0
}

/// The gravity constant the demo uses (9.81), at raw precision.
pub open spec fn car_gravity_v() -> int {
    fx_divi(sat(981 * (SCALE as int)), 100)
}

/// One quarter, at raw precision.
pub open spec fn quarter_v() -> int {
    fx_divi(SCALE as int, 4)
}

/// The chassis mass (1000).
pub open spec fn chassis_mass_v() -> int {
    sat(1000 * (SCALE as int))
}

/// The chassis box dimensions (3.0 by 1.25 by 0.4), at raw precision.
pub open spec fn chassis_dim_x_v() -> int {
    sat(3 * (SCALE as int))
}

pub open spec fn chassis_dim_y_v() -> int {
    fx_divi(sat(5 * (SCALE as int)), 4)
}

pub open spec fn chassis_dim_z_v() -> int {
    fx_divi(sat(2 * (SCALE as int)), 5)
}

/// The chassis box inertia components, mass/12 times the squared cross
/// dimensions, at raw precision.
pub open spec fn chassis_moi_xx_v() -> int {
    fx_mul(
        fx_divi(chassis_mass_v(), 12),
        fx_add(
            fx_mul(chassis_dim_y_v(), chassis_dim_y_v()),
            fx_mul(chassis_dim_z_v(), chassis_dim_z_v()),
        ),
    )
}

pub open spec fn chassis_moi_yy_v() -> int {
    fx_mul(
        fx_divi(chassis_mass_v(), 12),
        fx_add(
            fx_mul(chassis_dim_x_v(), chassis_dim_x_v()),
            fx_mul(chassis_dim_z_v(), chassis_dim_z_v()),
        ),
    )
}

pub open spec fn chassis_moi_zz_v() -> int {
    fx_mul(
        fx_divi(chassis_mass_v(), 12),
        fx_add(
            fx_mul(chassis_dim_x_v(), chassis_dim_x_v()),
            fx_mul(chassis_dim_y_v(), chassis_dim_y_v()),
        ),
    )
}

/// The corner mass (10).
pub open spec fn susp_mass_v() -> int {
    sat(10 * (SCALE as int))
}

/// The corner's spherical inertia, 2/3 of mass times a 0.25 radius squared.
pub open spec fn susp_moi_v() -> int {
    fx_mul(
        fx_mul(fx_divi(sat(2 * (SCALE as int)), 3), susp_mass_v()),
        fx_mul(quarter_v(), quarter_v()),
    )
}

/// The suspension stiffness: a quarter of the vehicle weight over 0.1 of
/// spring travel.
pub open spec fn susp_stiffness_v() -> int {
    fx_div(
        fx_divi(fx_mul(sat(1000 * (SCALE as int)), car_gravity_v()), 4),
        fx_divi(SCALE as int, 10),
    )
}

/// The suspension damping: half of critical for a quarter of the vehicle
/// mass.
pub open spec fn susp_damping_v() -> int {
    fx_sqrt(fx_mul(susp_stiffness_v(), sat(250 * (SCALE as int))))
}

/// The corner positions: +-1.25 ahead, +-0.75 aside, 0.3 below.
pub open spec fn susp_x_v() -> int {
    fx_divi(sat(5 * (SCALE as int)), 4)
}

pub open spec fn susp_y_v() -> int {
    fx_divi(sat(3 * (SCALE as int)), 4)
}

pub open spec fn susp_z_v() -> int {
    fx_neg(fx_divi(sat(3 * (SCALE as int)), 10))
}

/// The steering limit, 30 degrees, at raw precision.
pub open spec fn steer_angle_v() -> int {
    fx_divi(PI_RAW as int, 6)
}

/// The wheel mass (10).
pub open spec fn wheel_mass_v() -> int {
    sat(10 * (SCALE as int))
}

/// The wheel radius (0.325).
pub open spec fn wheel_radius_v() -> int {
    fx_divi(sat(13 * (SCALE as int)), 40)
}

/// The wheel's cross-axis inertia, mass/12 times three radii squared.
pub open spec fn wheel_moi_xz_v() -> int {
    fx_mul(
        fx_divi(wheel_mass_v(), 12),
        fx_mul(sat(3 * (SCALE as int)), fx_mul(quarter_v(), quarter_v())),
    )
}

/// The wheel's spin-axis inertia, mass times the radius squared.
pub open spec fn wheel_moi_y_v() -> int {
    fx_mul(wheel_mass_v(), fx_mul(quarter_v(), quarter_v()))
}

/// The drive motor limits: torque 400, speed 50, power 100000.
pub open spec fn drive_torque_v() -> int {
    sat(400 * (SCALE as int))
}

pub open spec fn drive_speed_v() -> int {
    sat(50 * (SCALE as int))
}

pub open spec fn drive_power_v() -> int {
    sat(100000 * (SCALE as int))
}

/// The brake torque limits: 800 in front, 400 in the rear.
pub open spec fn front_brake_v() -> int {
    sat(800 * (SCALE as int))
}

pub open spec fn rear_brake_v() -> int {
    sat(400 * (SCALE as int))
}

/// The tire vertical stiffness: a quarter of the vehicle weight over 0.005
/// of deflection.
pub open spec fn tire_stiffness_v() -> int {
    fx_div(
        fx_divi(fx_mul(sat(1000 * (SCALE as int)), car_gravity_v()), 4),
        fx_divi(SCALE as int, 200),
    )
}

/// The tire vertical damping: a quarter of critical for a quarter of the
/// vehicle mass.
pub open spec fn tire_damping_v() -> int {
    fx_mul(
        fx_divi(SCALE as int, 2),
        fx_sqrt(fx_mul(sat(250 * (SCALE as int)), tire_stiffness_v())),
    )
}

/// The slip-force coefficients: 0.2 longitudinal, 0.5 lateral.
pub open spec fn tire_longitudinal_v() -> int {
    fx_divi(SCALE as int, 5)
}

pub open spec fn tire_lateral_v() -> int {
    fx_divi(SCALE as int, 2)
}

/// A key separating the demo's joint names: the length and the last two
/// characters, packed into one integer.
pub open spec fn name_tag(s: Seq<char>) -> int {
    if s.len() >= 2 {
        s.len() * 0x10000000 + (s[s.len() - 2] as int) * 0x10000 + (s[s.len() - 1] as int)
    } else {
        s.len() as int
    }
}

/// The key of the demo joint declared at each index.
pub open spec fn name_tag_table(i: int) -> int {
    if i == 0 {
        1081278565
    } else if i == 1 {
        2691694712
    } else if i == 2 {
        2691694713
    } else if i == 3 {
        2691694714
    } else if i == 4 {
        2691825786
    } else if i == 5 {
        2691825785
    } else if i == 6 {
        2691825784
    } else if i == 7 {
        3496345708
    } else if i == 8 {
        3496345714
    } else if i == 9 {
        3497132140
    } else if i == 10 {
        3497132146
    } else if i == 11 {
        2959474796
    } else if i == 12 {
        2959474802
    } else if i == 13 {
        2154168428
    } else if i == 14 {
        2154168434
    } else if i == 15 {
        2154954860
    } else if i == 16 {
        2154954866
    } else {
        0
    }
}

/// The identity offset record.
fn zero_transform() -> (r: TransformDef)
    ensures
        r == crate::joint::default_transform_def(),
{
    TransformDef {
        position: Vec3::zeros(),
        quaternion: QuatDef { w: Fx::one(), x: Fx::zero(), y: Fx::zero(), z: Fx::zero() },
    }
}

/// The all-zero inertia record.
fn zero_inertia() -> (r: InertiaDef)
    ensures
        r == crate::joint::default_inertia_def(),
{
    let z = Fx::zero();
    InertiaDef {
        mass: z,
        center_of_mass: Vec3::zeros(),
        inertia: InertiaCompsDef { xx: z, yy: z, zz: z, yz: z, xz: z, xy: z },
    }
}

/// A transform record that only translates.
fn pos_transform(x: Fx, y: Fx, z: Fx) -> (r: TransformDef)
    ensures
        placed_at(r, x@, y@, z@),
{
    TransformDef {
        position: Vec3 { x, y, z },
        quaternion: QuatDef { w: Fx::one(), x: Fx::zero(), y: Fx::zero(), z: Fx::zero() },
    }
}

/// A diagonal inertia record.
fn diag_inertia(mass: Fx, xx: Fx, yy: Fx, zz: Fx) -> (r: InertiaDef)
    ensures
        weighs(r, mass@, xx@, yy@, zz@),
{
    let z = Fx::zero();
    InertiaDef {
        mass,
        center_of_mass: Vec3::zeros(),
        inertia: InertiaCompsDef { xx, yy, zz, yz: z, xz: z, xy: z },
    }
}

/// One chassis link record.
fn chassis_link(name: &str, jt: JointTypeDef, parent: &str, inertia: InertiaDef,
    meshes: Vec<MeshDef>) -> (r: JointDef)
    ensures
        r@.name == name@,
        r@.parent == Some(parent@),
        r@.joint_type == jt,
        r@.transform == crate::joint::default_transform_def(),
        r@.inertia == inertia,
{
    JointDef {
        name: name.to_owned(),
        joint_type: jt,
        parent: Some(parent.to_owned()),
        transform: zero_transform(),
        inertia,
        meshes,
    }
}

/// The six-degree-of-freedom chassis chain (three prismatic, three
/// revolute links), the last of which carries the chassis body's mass and
/// box. Returns the name of the last link, the parent of the corners.
fn chassis_joints(joints: &mut Vec<JointDef>) -> (r: String)
    ensures
        final(joints)@.len() == old(joints)@.len() + 6,
        forall|i: int| 0 <= i < old(joints)@.len() ==> final(joints)@[i] == old(joints)@[i],
        r@ == "chassis_rx"@,
        joint_shape(
            (final(joints)@[old(joints)@.len() as int])@,
            "chassis_px"@,
            JointTypeDef::Px,
            Some("base"@),
        ),
        joint_shape(
            (final(joints)@[old(joints)@.len() as int + 1])@,
            "chassis_py"@,
            JointTypeDef::Py,
            Some("chassis_px"@),
        ),
        joint_shape(
            (final(joints)@[old(joints)@.len() as int + 2])@,
            "chassis_pz"@,
            JointTypeDef::Pz,
            Some("chassis_py"@),
        ),
        joint_shape(
            (final(joints)@[old(joints)@.len() as int + 3])@,
            "chassis_rz"@,
            JointTypeDef::Rz,
            Some("chassis_pz"@),
        ),
        joint_shape(
            (final(joints)@[old(joints)@.len() as int + 4])@,
            "chassis_ry"@,
            JointTypeDef::Ry,
            Some("chassis_rz"@),
        ),
        joint_shape(
            (final(joints)@[old(joints)@.len() as int + 5])@,
            "chassis_rx"@,
            JointTypeDef::Rx,
            Some("chassis_ry"@),
        ),
        (final(joints)@[old(joints)@.len() as int])@.transform == crate::joint::default_transform_def(),
        (final(joints)@[old(joints)@.len() as int + 1])@.transform == crate::joint::default_transform_def(),
        (final(joints)@[old(joints)@.len() as int + 2])@.transform == crate::joint::default_transform_def(),
        (final(joints)@[old(joints)@.len() as int + 3])@.transform == crate::joint::default_transform_def(),
        (final(joints)@[old(joints)@.len() as int + 4])@.transform == crate::joint::default_transform_def(),
        (final(joints)@[old(joints)@.len() as int + 5])@.transform == crate::joint::default_transform_def(),
        (final(joints)@[old(joints)@.len() as int])@.inertia == crate::joint::default_inertia_def(),
        (final(joints)@[old(joints)@.len() as int + 1])@.inertia == crate::joint::default_inertia_def(),
        (final(joints)@[old(joints)@.len() as int + 2])@.inertia == crate::joint::default_inertia_def(),
        (final(joints)@[old(joints)@.len() as int + 3])@.inertia == crate::joint::default_inertia_def(),
        (final(joints)@[old(joints)@.len() as int + 4])@.inertia == crate::joint::default_inertia_def(),
        weighs(
            (final(joints)@[old(joints)@.len() as int + 5])@.inertia,
            chassis_mass_v(),
            chassis_moi_xx_v(),
            chassis_moi_yy_v(),
            chassis_moi_zz_v(),
        ),
{
    let chassis_mass = Fx::from_int(1000);
    let dim_x = Fx::from_int(3);
    let dim_y = Fx::from_int(5).divi(4);
    let dim_z = Fx::from_int(2).divi(5);
    let twelfth = chassis_mass.divi(12);
    let moi_xx = twelfth.mul(dim_y.mul(dim_y).add(dim_z.mul(dim_z)));
    let moi_yy = twelfth.mul(dim_x.mul(dim_x).add(dim_z.mul(dim_z)));
    let moi_zz = twelfth.mul(dim_x.mul(dim_x).add(dim_y.mul(dim_y)));
    let chassis_inertia = diag_inertia(chassis_mass, moi_xx, moi_yy, moi_zz);

    let grey = Fx::one().divi(2);
    let mut meshes: Vec<MeshDef> = Vec::new();
    meshes.push(
        MeshDef {
            mesh_type: MeshTypeDef::Box {
                half_extents: Vec3 { x: dim_x.divi(2), y: dim_y.divi(2), z: dim_z.divi(2) },
            },
            transform: zero_transform(),
            color: ColorDef { r: grey, g: grey, b: grey, a: Fx::one() },
        },
    );
    joints.push(chassis_link("chassis_px", JointTypeDef::Px, "base", zero_inertia(), Vec::new()));
    joints.push(
        chassis_link("chassis_py", JointTypeDef::Py, "chassis_px", zero_inertia(), Vec::new()),
    );
    joints.push(
        chassis_link("chassis_pz", JointTypeDef::Pz, "chassis_py", zero_inertia(), Vec::new()),
    );
    joints.push(
        chassis_link("chassis_rz", JointTypeDef::Rz, "chassis_pz", zero_inertia(), Vec::new()),
    );
    joints.push(
        chassis_link("chassis_ry", JointTypeDef::Ry, "chassis_rz", zero_inertia(), Vec::new()),
    );
    joints.push(
        chassis_link("chassis_rx", JointTypeDef::Rx, "chassis_ry", chassis_inertia, meshes),
    );
    "chassis_rx".to_owned()
}

/// One suspension corner: a vertical prismatic joint under the chassis
/// with a linear spring-damper attached.
fn suspension_corner(joints: &mut Vec<JointDef>, systems: &mut Vec<SystemDef>, name: &str,
    chassis_name: &String, px: Fx, py: Fx)
    ensures
        final(joints)@.len() == old(joints)@.len() + 1,
        final(systems)@.len() == old(systems)@.len() + 1,
        forall|i: int| 0 <= i < old(joints)@.len() ==> final(joints)@[i] == old(joints)@[i],
        forall|i: int| 0 <= i < old(systems)@.len() ==> final(systems)@[i] == old(systems)@[i],
        joint_shape(
            (final(joints)@[old(joints)@.len() as int])@,
            name@,
            JointTypeDef::Pz,
            Some(chassis_name@),
        ),
        attaches_suspension(
            (final(systems)@[old(systems)@.len() as int])@,
            name@,
            susp_stiffness_v(),
            susp_damping_v(),
        ),
        placed_at((final(joints)@[old(joints)@.len() as int])@.transform, px@, py@, susp_z_v()),
        weighs(
            (final(joints)@[old(joints)@.len() as int])@.inertia,
            susp_mass_v(),
            susp_moi_v(),
            susp_moi_v(),
            susp_moi_v(),
        ),
{
    let susp_mass = Fx::from_int(10);
    let quarter = Fx::one().divi(4);
    let susp_moi = Fx::from_int(2).divi(3).mul(susp_mass).mul(quarter.mul(quarter));
    // weight / 4 / spring travel
    let gravity = Fx::from_int(981).divi(100);
    let stiffness = Fx::from_int(1000).mul(gravity).divi(4).div(Fx::one().divi(10));
    // half of critical damping
    let damping = stiffness.mul(Fx::from_int(250)).sqrt();
    let pz = Fx::from_int(3).divi(10).neg();
    let red = Fx::one();
    let eighth = Fx::one().divi(8);
    let mut meshes: Vec<MeshDef> = Vec::new();
    meshes.push(
        MeshDef {
            mesh_type: MeshTypeDef::Box {
                half_extents: Vec3 { x: eighth, y: eighth, z: eighth },
            },
            transform: zero_transform(),
            color: ColorDef { r: red, g: Fx::zero(), b: Fx::zero(), a: Fx::one() },
        },
    );
    joints.push(
        JointDef {
            name: name.to_owned(),
            joint_type: JointTypeDef::Pz,
            parent: Some(chassis_name.clone()),
            transform: pos_transform(px, py, pz),
            inertia: diag_inertia(susp_mass, susp_moi, susp_moi, susp_moi),
            meshes,
        },
    );
    systems.push(
        SystemDef {
            system_type: SystemTypeDef::Suspension(
                SuspensionDef { joint: name.to_owned(), stiffness, damping },
            ),
        },
    );
}

/// The four suspension corners.
fn suspension_joints(joints: &mut Vec<JointDef>, systems: &mut Vec<SystemDef>,
    chassis_name: String)
    ensures
        final(joints)@.len() == old(joints)@.len() + 4,
        final(systems)@.len() == old(systems)@.len() + 4,
        forall|i: int| 0 <= i < old(joints)@.len() ==> final(joints)@[i] == old(joints)@[i],
        forall|i: int| 0 <= i < old(systems)@.len() ==> final(systems)@[i] == old(systems)@[i],
        joint_shape(
            (final(joints)@[old(joints)@.len() as int])@,
            "suspension_fl"@,
            JointTypeDef::Pz,
            Some(chassis_name@),
        ),
        joint_shape(
            (final(joints)@[old(joints)@.len() as int + 1])@,
            "suspension_fr"@,
            JointTypeDef::Pz,
            Some(chassis_name@),
        ),
        joint_shape(
            (final(joints)@[old(joints)@.len() as int + 2])@,
            "suspension_rl"@,
            JointTypeDef::Pz,
            Some(chassis_name@),
        ),
        joint_shape(
            (final(joints)@[old(joints)@.len() as int + 3])@,
            "suspension_rr"@,
            JointTypeDef::Pz,
            Some(chassis_name@),
        ),
        attaches_suspension(
            (final(systems)@[old(systems)@.len() as int])@,
            "suspension_fl"@,
        susp_stiffness_v(), susp_damping_v(),
    ),
        attaches_suspension((final(systems)@[old(systems)@.len() as int + 1])@, "suspension_fr"@, susp_stiffness_v(), susp_damping_v()),
        attaches_suspension((final(systems)@[old(systems)@.len() as int + 2])@, "suspension_rl"@, susp_stiffness_v(), susp_damping_v()),
        attaches_suspension((final(systems)@[old(systems)@.len() as int + 3])@, "suspension_rr"@, susp_stiffness_v(), susp_damping_v()),
        placed_at(
            (final(joints)@[old(joints)@.len() as int])@.transform,
            susp_x_v(),
            susp_y_v(),
            susp_z_v(),
        ),
        placed_at(
            (final(joints)@[old(joints)@.len() as int + 1])@.transform,
            susp_x_v(),
            fx_neg(susp_y_v()),
            susp_z_v(),
        ),
        placed_at(
            (final(joints)@[old(joints)@.len() as int + 2])@.transform,
            fx_neg(susp_x_v()),
            susp_y_v(),
            susp_z_v(),
        ),
        placed_at(
            (final(joints)@[old(joints)@.len() as int + 3])@.transform,
            fx_neg(susp_x_v()),
            fx_neg(susp_y_v()),
            susp_z_v(),
        ),
        weighs(
            (final(joints)@[old(joints)@.len() as int])@.inertia,
            susp_mass_v(),
            susp_moi_v(),
            susp_moi_v(),
            susp_moi_v(),
        ),
        weighs(
            (final(joints)@[old(joints)@.len() as int + 1])@.inertia,
            susp_mass_v(),
            susp_moi_v(),
            susp_moi_v(),
            susp_moi_v(),
        ),
        weighs(
            (final(joints)@[old(joints)@.len() as int + 2])@.inertia,
            susp_mass_v(),
            susp_moi_v(),
            susp_moi_v(),
            susp_moi_v(),
        ),
        weighs(
            (final(joints)@[old(joints)@.len() as int + 3])@.inertia,
            susp_mass_v(),
            susp_moi_v(),
            susp_moi_v(),
            susp_moi_v(),
        ),
{
    let x = Fx::from_int(5).divi(4);
    let y = Fx::from_int(3).divi(4);
    suspension_corner(joints, systems, "suspension_fl", &chassis_name, x, y);
    suspension_corner(joints, systems, "suspension_fr", &chassis_name, x, y.neg());
    suspension_corner(joints, systems, "suspension_rl", &chassis_name, x.neg(), y);
    suspension_corner(joints, systems, "suspension_rr", &chassis_name, x.neg(), y.neg());
}

/// One steered kingpin: a massless revolute joint with the position servo.
fn steering_corner(joints: &mut Vec<JointDef>, systems: &mut Vec<SystemDef>, name: &str,
    parent: &str)
    ensures
        final(joints)@.len() == old(joints)@.len() + 1,
        final(systems)@.len() == old(systems)@.len() + 1,
        forall|i: int| 0 <= i < old(joints)@.len() ==> final(joints)@[i] == old(joints)@[i],
        forall|i: int| 0 <= i < old(systems)@.len() ==> final(systems)@[i] == old(systems)@[i],
        joint_shape(
            (final(joints)@[old(joints)@.len() as int])@,
            name@,
            JointTypeDef::Rz,
            Some(parent@),
        ),
        attaches_steering((final(systems)@[old(systems)@.len() as int])@, name@, steer_angle_v()),
        (final(joints)@[old(joints)@.len() as int])@.transform
            == crate::joint::default_transform_def(),
        (final(joints)@[old(joints)@.len() as int])@.inertia
            == crate::joint::default_inertia_def(),
{
    // 30 degrees
    let max_angle = Fx { raw: PI_RAW }.divi(6);
    joints.push(
        JointDef {
            name: name.to_owned(),
            joint_type: JointTypeDef::Rz,
            parent: Some(parent.to_owned()),
            transform: zero_transform(),
            inertia: zero_inertia(),
            meshes: Vec::new(),
        },
    );
    systems.push(
        SystemDef {
            system_type: SystemTypeDef::Steering(
                SteeringDef { joint: name.to_owned(), max_angle },
            ),
        },
    );
}

/// The two steered front corners.
fn steering_joints(joints: &mut Vec<JointDef>, systems: &mut Vec<SystemDef>)
    ensures
        final(joints)@.len() == old(joints)@.len() + 2,
        final(systems)@.len() == old(systems)@.len() + 2,
        forall|i: int| 0 <= i < old(joints)@.len() ==> final(joints)@[i] == old(joints)@[i],
        forall|i: int| 0 <= i < old(systems)@.len() ==> final(systems)@[i] == old(systems)@[i],
        joint_shape(
            (final(joints)@[old(joints)@.len() as int])@,
            "steering_fl"@,
            JointTypeDef::Rz,
            Some("suspension_fl"@),
        ),
        joint_shape(
            (final(joints)@[old(joints)@.len() as int + 1])@,
            "steering_fr"@,
            JointTypeDef::Rz,
            Some("suspension_fr"@),
        ),
        attaches_steering((final(systems)@[old(systems)@.len() as int])@, "steering_fl"@, steer_angle_v()),
        attaches_steering((final(systems)@[old(systems)@.len() as int + 1])@, "steering_fr"@, steer_angle_v()),
        (final(joints)@[old(joints)@.len() as int])@.transform == crate::joint::default_transform_def(),
        (final(joints)@[old(joints)@.len() as int + 1])@.transform == crate::joint::default_transform_def(),
        (final(joints)@[old(joints)@.len() as int])@.inertia == crate::joint::default_inertia_def(),
        (final(joints)@[old(joints)@.len() as int + 1])@.inertia == crate::joint::default_inertia_def(),
{
    steering_corner(joints, systems, "steering_fl", "suspension_fl");
    steering_corner(joints, systems, "steering_fr", "suspension_fr");
}

/// One wheel: a spinning revolute joint with brake and tire contact, and a
/// drive motor on the rear axle.
fn wheel_corner(joints: &mut Vec<JointDef>, systems: &mut Vec<SystemDef>, name: &str,
    parent: &str, driven: bool, brake_torque: Fx)
    ensures
        final(joints)@.len() == old(joints)@.len() + 1,
        final(systems)@.len() == old(systems)@.len() + (if driven { 3int } else { 2int }),
        forall|i: int| 0 <= i < old(joints)@.len() ==> final(joints)@[i] == old(joints)@[i],
        forall|i: int| 0 <= i < old(systems)@.len() ==> final(systems)@[i] == old(systems)@[i],
        joint_shape(
            (final(joints)@[old(joints)@.len() as int])@,
            name@,
            JointTypeDef::Ry,
            Some(parent@),
        ),
        driven ==> attaches_drive((final(systems)@[old(systems)@.len() as int])@, name@, drive_torque_v(), drive_speed_v(), drive_power_v())
            && attaches_brake((final(systems)@[old(systems)@.len() as int + 1])@, name@, brake_torque@)
            && attaches_tire((final(systems)@[old(systems)@.len() as int + 2])@, name@, wheel_radius_v(), tire_stiffness_v(), tire_damping_v(), tire_longitudinal_v(), tire_lateral_v()),
        !driven ==> attaches_brake((final(systems)@[old(systems)@.len() as int])@, name@, brake_torque@)
            && attaches_tire((final(systems)@[old(systems)@.len() as int + 1])@, name@, wheel_radius_v(), tire_stiffness_v(), tire_damping_v(), tire_longitudinal_v(), tire_lateral_v()),
        (final(joints)@[old(joints)@.len() as int])@.transform
            == crate::joint::default_transform_def(),
        weighs(
            (final(joints)@[old(joints)@.len() as int])@.inertia,
            wheel_mass_v(),
            wheel_moi_xz_v(),
            wheel_moi_y_v(),
            wheel_moi_xz_v(),
        ),
{
    let wheel_mass = Fx::from_int(10);
    let quarter = Fx::one().divi(4);
    let radius = Fx::from_int(13).divi(40);
    let moi_xz = wheel_mass.divi(12).mul(Fx::from_int(3).mul(quarter.mul(quarter)));
    let moi_y = wheel_mass.mul(quarter.mul(quarter));
    let blue = Fx::one();
    let grey = Fx::one().divi(2);
    let mut meshes: Vec<MeshDef> = Vec::new();
    meshes.push(
        MeshDef {
            mesh_type: MeshTypeDef::Cylinder {
                height: Fx::from_int(1).divi(5),
                radius,
            },
            transform: zero_transform(),
            color: ColorDef { r: grey, g: grey, b: blue, a: Fx::one() },
        },
    );
    joints.push(
        JointDef {
            name: name.to_owned(),
            joint_type: JointTypeDef::Ry,
            parent: Some(parent.to_owned()),
            transform: zero_transform(),
            inertia: diag_inertia(wheel_mass, moi_xz, moi_y, moi_xz),
            meshes,
        },
    );
    if driven {
        systems.push(
            SystemDef {
                system_type: SystemTypeDef::Drive(
                    DrivenWheelDef {
                        joint: name.to_owned(),
                        max_torque: Fx::from_int(400),
                        max_speed: Fx::from_int(50),
                        max_power: Fx::from_int(100000),
                    },
                ),
            },
        );
    }
    systems.push(
        SystemDef {
            system_type: SystemTypeDef::Brake(
                BrakeWheelDef { joint: name.to_owned(), max_torque: brake_torque },
            ),
        },
    );
    let gravity = Fx::from_int(981).divi(100);
    let tire_stiffness = Fx::from_int(1000).mul(gravity).divi(4).div(Fx::one().divi(200));
    let tire_damping = Fx::one().divi(2).mul(
        Fx::from_int(250).mul(tire_stiffness).sqrt(),
    );
    systems.push(
        SystemDef {
            system_type: SystemTypeDef::TireContact(
                TireContactDef {
                    joint: name.to_owned(),
                    radius,
                    stiffness: tire_stiffness,
                    damping: tire_damping,
                    longitudinal_stiffness: Fx::one().divi(5),
                    lateral_stiffness: Fx::one().divi(2),
                },
            ),
        },
    );
}

/// The four wheels: steered parents in front, suspension parents in the
/// rear; the rear axle is driven; front brakes are twice as strong.
fn wheel_joints(joints: &mut Vec<JointDef>, systems: &mut Vec<SystemDef>)
    ensures
        final(joints)@.len() == old(joints)@.len() + 4,
        final(systems)@.len() == old(systems)@.len() + 10,
        forall|i: int| 0 <= i < old(joints)@.len() ==> final(joints)@[i] == old(joints)@[i],
        forall|i: int| 0 <= i < old(systems)@.len() ==> final(systems)@[i] == old(systems)@[i],
        joint_shape(
            (final(joints)@[old(joints)@.len() as int])@,
            "wheel_fl"@,
            JointTypeDef::Ry,
            Some("steering_fl"@),
        ),
        joint_shape(
            (final(joints)@[old(joints)@.len() as int + 1])@,
            "wheel_fr"@,
            JointTypeDef::Ry,
            Some("steering_fr"@),
        ),
        joint_shape(
            (final(joints)@[old(joints)@.len() as int + 2])@,
            "wheel_rl"@,
            JointTypeDef::Ry,
            Some("suspension_rl"@),
        ),
        joint_shape(
            (final(joints)@[old(joints)@.len() as int + 3])@,
            "wheel_rr"@,
            JointTypeDef::Ry,
            Some("suspension_rr"@),
        ),
        attaches_brake((final(systems)@[old(systems)@.len() as int])@, "wheel_fl"@, front_brake_v()),
        attaches_tire((final(systems)@[old(systems)@.len() as int + 1])@, "wheel_fl"@, wheel_radius_v(), tire_stiffness_v(), tire_damping_v(), tire_longitudinal_v(), tire_lateral_v()),
        attaches_brake((final(systems)@[old(systems)@.len() as int + 2])@, "wheel_fr"@, front_brake_v()),
        attaches_tire((final(systems)@[old(systems)@.len() as int + 3])@, "wheel_fr"@, wheel_radius_v(), tire_stiffness_v(), tire_damping_v(), tire_longitudinal_v(), tire_lateral_v()),
        attaches_drive((final(systems)@[old(systems)@.len() as int + 4])@, "wheel_rl"@, drive_torque_v(), drive_speed_v(), drive_power_v()),
        attaches_brake((final(systems)@[old(systems)@.len() as int + 5])@, "wheel_rl"@, rear_brake_v()),
        attaches_tire((final(systems)@[old(systems)@.len() as int + 6])@, "wheel_rl"@, wheel_radius_v(), tire_stiffness_v(), tire_damping_v(), tire_longitudinal_v(), tire_lateral_v()),
        attaches_drive((final(systems)@[old(systems)@.len() as int + 7])@, "wheel_rr"@, drive_torque_v(), drive_speed_v(), drive_power_v()),
        attaches_brake((final(systems)@[old(systems)@.len() as int + 8])@, "wheel_rr"@, rear_brake_v()),
        attaches_tire((final(systems)@[old(systems)@.len() as int + 9])@, "wheel_rr"@, wheel_radius_v(), tire_stiffness_v(), tire_damping_v(), tire_longitudinal_v(), tire_lateral_v()),
        (final(joints)@[old(joints)@.len() as int])@.transform == crate::joint::default_transform_def(),
        (final(joints)@[old(joints)@.len() as int + 1])@.transform == crate::joint::default_transform_def(),
        (final(joints)@[old(joints)@.len() as int + 2])@.transform == crate::joint::default_transform_def(),
        (final(joints)@[old(joints)@.len() as int + 3])@.transform == crate::joint::default_transform_def(),
        weighs(
            (final(joints)@[old(joints)@.len() as int])@.inertia,
            wheel_mass_v(),
            wheel_moi_xz_v(),
            wheel_moi_y_v(),
            wheel_moi_xz_v(),
        ),
        weighs(
            (final(joints)@[old(joints)@.len() as int + 1])@.inertia,
            wheel_mass_v(),
            wheel_moi_xz_v(),
            wheel_moi_y_v(),
            wheel_moi_xz_v(),
        ),
        weighs(
            (final(joints)@[old(joints)@.len() as int + 2])@.inertia,
            wheel_mass_v(),
            wheel_moi_xz_v(),
            wheel_moi_y_v(),
            wheel_moi_xz_v(),
        ),
        weighs(
            (final(joints)@[old(joints)@.len() as int + 3])@.inertia,
            wheel_mass_v(),
            wheel_moi_xz_v(),
            wheel_moi_y_v(),
            wheel_moi_xz_v(),
        ),
{
    let front_brake = Fx::from_int(800);
    let rear_brake = Fx::from_int(400);
    wheel_corner(joints, systems, "wheel_fl", "steering_fl", false, front_brake);
    wheel_corner(joints, systems, "wheel_fr", "steering_fr", false, front_brake);
    wheel_corner(joints, systems, "wheel_rl", "suspension_rl", true, rear_brake);
    wheel_corner(joints, systems, "wheel_rr", "suspension_rr", true, rear_brake);
}

/// The whole demo vehicle as a declarative description: one anchored base,
/// the chassis chain, four suspension corners, two steered kingpins and
/// four wheels, with their force systems.
#[verifier::rlimit(100)]
pub fn car_json() -> (r: ModelDef)
    ensures
        r@.name == "car"@,
        r@.joints.len() == 17,
        r@.systems.len() == 16,
        joint_shape(r@.joints[0], "base"@, JointTypeDef::Base, None::<Seq<char>>),
        joint_shape(r@.joints[1], "chassis_px"@, JointTypeDef::Px, Some("base"@)),
        joint_shape(r@.joints[2], "chassis_py"@, JointTypeDef::Py, Some("chassis_px"@)),
        joint_shape(r@.joints[3], "chassis_pz"@, JointTypeDef::Pz, Some("chassis_py"@)),
        joint_shape(r@.joints[4], "chassis_rz"@, JointTypeDef::Rz, Some("chassis_pz"@)),
        joint_shape(r@.joints[5], "chassis_ry"@, JointTypeDef::Ry, Some("chassis_rz"@)),
        joint_shape(r@.joints[6], "chassis_rx"@, JointTypeDef::Rx, Some("chassis_ry"@)),
        joint_shape(r@.joints[7], "suspension_fl"@, JointTypeDef::Pz, Some("chassis_rx"@)),
        joint_shape(r@.joints[8], "suspension_fr"@, JointTypeDef::Pz, Some("chassis_rx"@)),
        joint_shape(r@.joints[9], "suspension_rl"@, JointTypeDef::Pz, Some("chassis_rx"@)),
        joint_shape(r@.joints[10], "suspension_rr"@, JointTypeDef::Pz, Some("chassis_rx"@)),
        joint_shape(r@.joints[11], "steering_fl"@, JointTypeDef::Rz, Some("suspension_fl"@)),
        joint_shape(r@.joints[12], "steering_fr"@, JointTypeDef::Rz, Some("suspension_fr"@)),
        joint_shape(r@.joints[13], "wheel_fl"@, JointTypeDef::Ry, Some("steering_fl"@)),
        joint_shape(r@.joints[14], "wheel_fr"@, JointTypeDef::Ry, Some("steering_fr"@)),
        joint_shape(r@.joints[15], "wheel_rl"@, JointTypeDef::Ry, Some("suspension_rl"@)),
        joint_shape(r@.joints[16], "wheel_rr"@, JointTypeDef::Ry, Some("suspension_rr"@)),
        attaches_suspension(r@.systems[0], "suspension_fl"@, susp_stiffness_v(), susp_damping_v()),
        attaches_suspension(r@.systems[1], "suspension_fr"@, susp_stiffness_v(), susp_damping_v()),
        attaches_suspension(r@.systems[2], "suspension_rl"@, susp_stiffness_v(), susp_damping_v()),
        attaches_suspension(r@.systems[3], "suspension_rr"@, susp_stiffness_v(), susp_damping_v()),
        attaches_steering(r@.systems[4], "steering_fl"@, steer_angle_v()),
        attaches_steering(r@.systems[5], "steering_fr"@, steer_angle_v()),
        attaches_brake(r@.systems[6], "wheel_fl"@, front_brake_v()),
        attaches_tire(r@.systems[7], "wheel_fl"@, wheel_radius_v(), tire_stiffness_v(), tire_damping_v(), tire_longitudinal_v(), tire_lateral_v()),
        attaches_brake(r@.systems[8], "wheel_fr"@, front_brake_v()),
        attaches_tire(r@.systems[9], "wheel_fr"@, wheel_radius_v(), tire_stiffness_v(), tire_damping_v(), tire_longitudinal_v(), tire_lateral_v()),
        attaches_drive(r@.systems[10], "wheel_rl"@, drive_torque_v(), drive_speed_v(), drive_power_v()),
        attaches_brake(r@.systems[11], "wheel_rl"@, rear_brake_v()),
        attaches_tire(r@.systems[12], "wheel_rl"@, wheel_radius_v(), tire_stiffness_v(), tire_damping_v(), tire_longitudinal_v(), tire_lateral_v()),
        attaches_drive(r@.systems[13], "wheel_rr"@, drive_torque_v(), drive_speed_v(), drive_power_v()),
        attaches_brake(r@.systems[14], "wheel_rr"@, rear_brake_v()),
        attaches_tire(r@.systems[15], "wheel_rr"@, wheel_radius_v(), tire_stiffness_v(), tire_damping_v(), tire_longitudinal_v(), tire_lateral_v()),
        r@.joints[0].transform == crate::joint::default_transform_def(),
        r@.joints[0].inertia == crate::joint::default_inertia_def(),
        r@.joints[1].transform == crate::joint::default_transform_def(),
        r@.joints[1].inertia == crate::joint::default_inertia_def(),
        r@.joints[2].transform == crate::joint::default_transform_def(),
        r@.joints[2].inertia == crate::joint::default_inertia_def(),
        r@.joints[3].transform == crate::joint::default_transform_def(),
        r@.joints[3].inertia == crate::joint::default_inertia_def(),
        r@.joints[4].transform == crate::joint::default_transform_def(),
        r@.joints[4].inertia == crate::joint::default_inertia_def(),
        r@.joints[5].transform == crate::joint::default_transform_def(),
        r@.joints[5].inertia == crate::joint::default_inertia_def(),
        r@.joints[6].transform == crate::joint::default_transform_def(),
        weighs(
            r@.joints[6].inertia,
            chassis_mass_v(),
            chassis_moi_xx_v(),
            chassis_moi_yy_v(),
            chassis_moi_zz_v(),
        ),
        placed_at(r@.joints[7].transform, susp_x_v(), susp_y_v(), susp_z_v()),
        weighs(
            r@.joints[7].inertia,
            susp_mass_v(),
            susp_moi_v(),
            susp_moi_v(),
            susp_moi_v(),
        ),
        placed_at(r@.joints[8].transform, susp_x_v(), fx_neg(susp_y_v()), susp_z_v()),
        weighs(
            r@.joints[8].inertia,
            susp_mass_v(),
            susp_moi_v(),
            susp_moi_v(),
            susp_moi_v(),
        ),
        placed_at(r@.joints[9].transform, fx_neg(susp_x_v()), susp_y_v(), susp_z_v()),
        weighs(
            r@.joints[9].inertia,
            susp_mass_v(),
            susp_moi_v(),
            susp_moi_v(),
            susp_moi_v(),
        ),
        placed_at(r@.joints[10].transform, fx_neg(susp_x_v()), fx_neg(susp_y_v()), susp_z_v()),
        weighs(
            r@.joints[10].inertia,
            susp_mass_v(),
            susp_moi_v(),
            susp_moi_v(),
            susp_moi_v(),
        ),
        r@.joints[11].transform == crate::joint::default_transform_def(),
        r@.joints[11].inertia == crate::joint::default_inertia_def(),
        r@.joints[12].transform == crate::joint::default_transform_def(),
        r@.joints[12].inertia == crate::joint::default_inertia_def(),
        r@.joints[13].transform == crate::joint::default_transform_def(),
        weighs(
            r@.joints[13].inertia,
            wheel_mass_v(),
            wheel_moi_xz_v(),
            wheel_moi_y_v(),
            wheel_moi_xz_v(),
        ),
        r@.joints[14].transform == crate::joint::default_transform_def(),
        weighs(
            r@.joints[14].inertia,
            wheel_mass_v(),
            wheel_moi_xz_v(),
            wheel_moi_y_v(),
            wheel_moi_xz_v(),
        ),
        r@.joints[15].transform == crate::joint::default_transform_def(),
        weighs(
            r@.joints[15].inertia,
            wheel_mass_v(),
            wheel_moi_xz_v(),
            wheel_moi_y_v(),
            wheel_moi_xz_v(),
        ),
        r@.joints[16].transform == crate::joint::default_transform_def(),
        weighs(
            r@.joints[16].inertia,
            wheel_mass_v(),
            wheel_moi_xz_v(),
            wheel_moi_y_v(),
            wheel_moi_xz_v(),
        ),
        def_well_formed(r@),
{
    let mut joints: Vec<JointDef> = Vec::new();
    let mut systems: Vec<SystemDef> = Vec::new();

    joints.push(
        JointDef {
            name: "base".to_owned(),
            joint_type: JointTypeDef::Base,
            parent: None,
            transform: zero_transform(),
            inertia: zero_inertia(),
            meshes: Vec::new(),
        },
    );

    let chassis_name = chassis_joints(&mut joints);
    suspension_joints(&mut joints, &mut systems, chassis_name);
    steering_joints(&mut joints, &mut systems);
    wheel_joints(&mut joints, &mut systems);

    let r = ModelDef { name: "car".to_owned(), joints, systems };
    proof {
        assert(r@.joints.len() == 17);
        assert(r@.systems.len() == 16);
        assert(joint_shape(r@.joints[0], "base"@, JointTypeDef::Base, None::<Seq<char>>));
        assert(joint_shape(r@.joints[1], "chassis_px"@, JointTypeDef::Px, Some("base"@)));
        assert(joint_shape(r@.joints[2], "chassis_py"@, JointTypeDef::Py, Some("chassis_px"@)));
        assert(joint_shape(r@.joints[3], "chassis_pz"@, JointTypeDef::Pz, Some("chassis_py"@)));
        assert(joint_shape(r@.joints[4], "chassis_rz"@, JointTypeDef::Rz, Some("chassis_pz"@)));
        assert(joint_shape(r@.joints[5], "chassis_ry"@, JointTypeDef::Ry, Some("chassis_rz"@)));
        assert(joint_shape(r@.joints[6], "chassis_rx"@, JointTypeDef::Rx, Some("chassis_ry"@)));
        assert(joint_shape(r@.joints[7], "suspension_fl"@, JointTypeDef::Pz, Some("chassis_rx"@)));
        assert(joint_shape(r@.joints[8], "suspension_fr"@, JointTypeDef::Pz, Some("chassis_rx"@)));
        assert(joint_shape(r@.joints[9], "suspension_rl"@, JointTypeDef::Pz, Some("chassis_rx"@)));
        assert(joint_shape(r@.joints[10], "suspension_rr"@, JointTypeDef::Pz, Some("chassis_rx"@)));
        assert(joint_shape(r@.joints[11], "steering_fl"@, JointTypeDef::Rz, Some("suspension_fl"@)));
        assert(joint_shape(r@.joints[12], "steering_fr"@, JointTypeDef::Rz, Some("suspension_fr"@)));
        assert(joint_shape(r@.joints[13], "wheel_fl"@, JointTypeDef::Ry, Some("steering_fl"@)));
        assert(joint_shape(r@.joints[14], "wheel_fr"@, JointTypeDef::Ry, Some("steering_fr"@)));
        assert(joint_shape(r@.joints[15], "wheel_rl"@, JointTypeDef::Ry, Some("suspension_rl"@)));
        assert(joint_shape(r@.joints[16], "wheel_rr"@, JointTypeDef::Ry, Some("suspension_rr"@)));
        assert(attaches_suspension(r@.systems[0], "suspension_fl"@, susp_stiffness_v(), susp_damping_v()));
        assert(attaches_suspension(r@.systems[1], "suspension_fr"@, susp_stiffness_v(), susp_damping_v()));
        assert(attaches_suspension(r@.systems[2], "suspension_rl"@, susp_stiffness_v(), susp_damping_v()));
        assert(attaches_suspension(r@.systems[3], "suspension_rr"@, susp_stiffness_v(), susp_damping_v()));
        assert(attaches_steering(r@.systems[4], "steering_fl"@, steer_angle_v()));
        assert(attaches_steering(r@.systems[5], "steering_fr"@, steer_angle_v()));
        assert(attaches_brake(r@.systems[6], "wheel_fl"@, front_brake_v()));
        assert(attaches_tire(r@.systems[7], "wheel_fl"@, wheel_radius_v(), tire_stiffness_v(), tire_damping_v(), tire_longitudinal_v(), tire_lateral_v()));
        assert(attaches_brake(r@.systems[8], "wheel_fr"@, front_brake_v()));
        assert(attaches_tire(r@.systems[9], "wheel_fr"@, wheel_radius_v(), tire_stiffness_v(), tire_damping_v(), tire_longitudinal_v(), tire_lateral_v()));
        assert(attaches_drive(r@.systems[10], "wheel_rl"@, drive_torque_v(), drive_speed_v(), drive_power_v()));
        assert(attaches_brake(r@.systems[11], "wheel_rl"@, rear_brake_v()));
        assert(attaches_tire(r@.systems[12], "wheel_rl"@, wheel_radius_v(), tire_stiffness_v(), tire_damping_v(), tire_longitudinal_v(), tire_lateral_v()));
        assert(attaches_drive(r@.systems[13], "wheel_rr"@, drive_torque_v(), drive_speed_v(), drive_power_v()));
        assert(attaches_brake(r@.systems[14], "wheel_rr"@, rear_brake_v()));
        assert(attaches_tire(r@.systems[15], "wheel_rr"@, wheel_radius_v(), tire_stiffness_v(), tire_damping_v(), tire_longitudinal_v(), tire_lateral_v()));
        assert(r@.joints[0].transform == crate::joint::default_transform_def());
        assert(r@.joints[0].inertia == crate::joint::default_inertia_def());
        assert(r@.joints[1].transform == crate::joint::default_transform_def());
        assert(r@.joints[1].inertia == crate::joint::default_inertia_def());
        assert(r@.joints[2].transform == crate::joint::default_transform_def());
        assert(r@.joints[2].inertia == crate::joint::default_inertia_def());
        assert(r@.joints[3].transform == crate::joint::default_transform_def());
        assert(r@.joints[3].inertia == crate::joint::default_inertia_def());
        assert(r@.joints[4].transform == crate::joint::default_transform_def());
        assert(r@.joints[4].inertia == crate::joint::default_inertia_def());
        assert(r@.joints[5].transform == crate::joint::default_transform_def());
        assert(r@.joints[5].inertia == crate::joint::default_inertia_def());
        assert(r@.joints[6].transform == crate::joint::default_transform_def());
        assert(weighs(
                r@.joints[6].inertia,
                chassis_mass_v(),
                chassis_moi_xx_v(),
                chassis_moi_yy_v(),
                chassis_moi_zz_v(),
            ));
        assert(placed_at(r@.joints[7].transform, susp_x_v(), susp_y_v(), susp_z_v()));
        assert(weighs(
                r@.joints[7].inertia,
                susp_mass_v(),
                susp_moi_v(),
                susp_moi_v(),
                susp_moi_v(),
            ));
        assert(placed_at(r@.joints[8].transform, susp_x_v(), fx_neg(susp_y_v()), susp_z_v()));
        assert(weighs(
                r@.joints[8].inertia,
                susp_mass_v(),
                susp_moi_v(),
                susp_moi_v(),
                susp_moi_v(),
            ));
        assert(placed_at(r@.joints[9].transform, fx_neg(susp_x_v()), susp_y_v(), susp_z_v()));
        assert(weighs(
                r@.joints[9].inertia,
                susp_mass_v(),
                susp_moi_v(),
                susp_moi_v(),
                susp_moi_v(),
            ));
        assert(placed_at(r@.joints[10].transform, fx_neg(susp_x_v()), fx_neg(susp_y_v()), susp_z_v()));
        assert(weighs(
                r@.joints[10].inertia,
                susp_mass_v(),
                susp_moi_v(),
                susp_moi_v(),
                susp_moi_v(),
            ));
        assert(r@.joints[11].transform == crate::joint::default_transform_def());
        assert(r@.joints[11].inertia == crate::joint::default_inertia_def());
        assert(r@.joints[12].transform == crate::joint::default_transform_def());
        assert(r@.joints[12].inertia == crate::joint::default_inertia_def());
        assert(r@.joints[13].transform == crate::joint::default_transform_def());
        assert(weighs(
                r@.joints[13].inertia,
                wheel_mass_v(),
                wheel_moi_xz_v(),
                wheel_moi_y_v(),
                wheel_moi_xz_v(),
            ));
        assert(r@.joints[14].transform == crate::joint::default_transform_def());
        assert(weighs(
                r@.joints[14].inertia,
                wheel_mass_v(),
                wheel_moi_xz_v(),
                wheel_moi_y_v(),
                wheel_moi_xz_v(),
            ));
        assert(r@.joints[15].transform == crate::joint::default_transform_def());
        assert(weighs(
                r@.joints[15].inertia,
                wheel_mass_v(),
                wheel_moi_xz_v(),
                wheel_moi_y_v(),
                wheel_moi_xz_v(),
            ));
        assert(r@.joints[16].transform == crate::joint::default_transform_def());
        assert(weighs(
                r@.joints[16].inertia,
                wheel_mass_v(),
                wheel_moi_xz_v(),
                wheel_moi_y_v(),
                wheel_moi_xz_v(),
            ));
        assert forall|i: int|
            0 <= i < 17 implies #[trigger] name_tag(r@.joints[i].name) == name_tag_table(i) by {
            if i == 0 {
                reveal_strlit("base");
                assert(r@.joints[0].name == "base"@);
                assert(name_tag(r@.joints[0].name) == 1081278565);
            }
            if i == 1 {
                reveal_strlit("chassis_px");
                assert(r@.joints[1].name == "chassis_px"@);
                assert(name_tag(r@.joints[1].name) == 2691694712);
            }
            if i == 2 {
                reveal_strlit("chassis_py");
                assert(r@.joints[2].name == "chassis_py"@);
                assert(name_tag(r@.joints[2].name) == 2691694713);
            }
            if i == 3 {
                reveal_strlit("chassis_pz");
                assert(r@.joints[3].name == "chassis_pz"@);
                assert(name_tag(r@.joints[3].name) == 2691694714);
            }
            if i == 4 {
                reveal_strlit("chassis_rz");
                assert(r@.joints[4].name == "chassis_rz"@);
                assert(name_tag(r@.joints[4].name) == 2691825786);
            }
            if i == 5 {
                reveal_strlit("chassis_ry");
                assert(r@.joints[5].name == "chassis_ry"@);
                assert(name_tag(r@.joints[5].name) == 2691825785);
            }
            if i == 6 {
                reveal_strlit("chassis_rx");
                assert(r@.joints[6].name == "chassis_rx"@);
                assert(name_tag(r@.joints[6].name) == 2691825784);
            }
            if i == 7 {
                reveal_strlit("suspension_fl");
                assert(r@.joints[7].name == "suspension_fl"@);
                assert(name_tag(r@.joints[7].name) == 3496345708);
            }
            if i == 8 {
                reveal_strlit("suspension_fr");
                assert(r@.joints[8].name == "suspension_fr"@);
                assert(name_tag(r@.joints[8].name) == 3496345714);
            }
            if i == 9 {
                reveal_strlit("suspension_rl");
                assert(r@.joints[9].name == "suspension_rl"@);
                assert(name_tag(r@.joints[9].name) == 3497132140);
            }
            if i == 10 {
                reveal_strlit("suspension_rr");
                assert(r@.joints[10].name == "suspension_rr"@);
                assert(name_tag(r@.joints[10].name) == 3497132146);
            }
            if i == 11 {
                reveal_strlit("steering_fl");
                assert(r@.joints[11].name == "steering_fl"@);
                assert(name_tag(r@.joints[11].name) == 2959474796);
            }
            if i == 12 {
                reveal_strlit("steering_fr");
                assert(r@.joints[12].name == "steering_fr"@);
                assert(name_tag(r@.joints[12].name) == 2959474802);
            }
            if i == 13 {
                reveal_strlit("wheel_fl");
                assert(r@.joints[13].name == "wheel_fl"@);
                assert(name_tag(r@.joints[13].name) == 2154168428);
            }
            if i == 14 {
                reveal_strlit("wheel_fr");
                assert(r@.joints[14].name == "wheel_fr"@);
                assert(name_tag(r@.joints[14].name) == 2154168434);
            }
            if i == 15 {
                reveal_strlit("wheel_rl");
                assert(r@.joints[15].name == "wheel_rl"@);
                assert(name_tag(r@.joints[15].name) == 2154954860);
            }
            if i == 16 {
                reveal_strlit("wheel_rr");
                assert(r@.joints[16].name == "wheel_rr"@);
                assert(name_tag(r@.joints[16].name) == 2154954866);
            }
        }
        assert forall|i: int, j: int|
            0 <= i < j < r@.joints.len() implies r@.joints[i].name != r@.joints[j].name by {
            assert(name_tag(r@.joints[i].name) == name_tag_table(i));
            assert(name_tag(r@.joints[j].name) == name_tag_table(j));
            assert(name_tag_table(i) != name_tag_table(j));
        }
        assert forall|j: int|
            0 <= j < r@.joints.len() implies match #[trigger] r@.joints[j].parent {
            Some(p) => exists|k: int| 0 <= k < j && r@.joints[k].name == p,
            None => true,
        } by {
            if j == 1 {
                assert(r@.joints[0].name == r@.joints[j].parent->0);
            }
            if j == 2 {
                assert(r@.joints[1].name == r@.joints[j].parent->0);
            }
            if j == 3 {
                assert(r@.joints[2].name == r@.joints[j].parent->0);
            }
            if j == 4 {
                assert(r@.joints[3].name == r@.joints[j].parent->0);
            }
            if j == 5 {
                assert(r@.joints[4].name == r@.joints[j].parent->0);
            }
            if j == 6 {
                assert(r@.joints[5].name == r@.joints[j].parent->0);
            }
            if j == 7 {
                assert(r@.joints[6].name == r@.joints[j].parent->0);
            }
            if j == 8 {
                assert(r@.joints[6].name == r@.joints[j].parent->0);
            }
            if j == 9 {
                assert(r@.joints[6].name == r@.joints[j].parent->0);
            }
            if j == 10 {
                assert(r@.joints[6].name == r@.joints[j].parent->0);
            }
            if j == 11 {
                assert(r@.joints[7].name == r@.joints[j].parent->0);
            }
            if j == 12 {
                assert(r@.joints[8].name == r@.joints[j].parent->0);
            }
            if j == 13 {
                assert(r@.joints[11].name == r@.joints[j].parent->0);
            }
            if j == 14 {
                assert(r@.joints[12].name == r@.joints[j].parent->0);
            }
            if j == 15 {
                assert(r@.joints[9].name == r@.joints[j].parent->0);
            }
            if j == 16 {
                assert(r@.joints[10].name == r@.joints[j].parent->0);
            }
        }
        assert forall|s: int|
            0 <= s < r@.systems.len() implies #[trigger] crate::model::system_resolves(r@, s) by {
            if s == 0 {
                assert(r@.joints[7].name == sys_joint_name(r@.systems[s]));
            }
            if s == 1 {
                assert(r@.joints[8].name == sys_joint_name(r@.systems[s]));
            }
            if s == 2 {
                assert(r@.joints[9].name == sys_joint_name(r@.systems[s]));
            }
            if s == 3 {
                assert(r@.joints[10].name == sys_joint_name(r@.systems[s]));
            }
            if s == 4 {
                assert(r@.joints[11].name == sys_joint_name(r@.systems[s]));
            }
            if s == 5 {
                assert(r@.joints[12].name == sys_joint_name(r@.systems[s]));
            }
            if s == 6 {
                assert(r@.joints[13].name == sys_joint_name(r@.systems[s]));
            }
            if s == 7 {
                assert(r@.joints[13].name == sys_joint_name(r@.systems[s]));
            }
            if s == 8 {
                assert(r@.joints[14].name == sys_joint_name(r@.systems[s]));
            }
            if s == 9 {
                assert(r@.joints[14].name == sys_joint_name(r@.systems[s]));
            }
            if s == 10 {
                assert(r@.joints[15].name == sys_joint_name(r@.systems[s]));
            }
            if s == 11 {
                assert(r@.joints[15].name == sys_joint_name(r@.systems[s]));
            }
            if s == 12 {
                assert(r@.joints[15].name == sys_joint_name(r@.systems[s]));
            }
            if s == 13 {
                assert(r@.joints[16].name == sys_joint_name(r@.systems[s]));
            }
            if s == 14 {
                assert(r@.joints[16].name == sys_joint_name(r@.systems[s]));
            }
            if s == 15 {
                assert(r@.joints[16].name == sys_joint_name(r@.systems[s]));
            }
        }
        assert(crate::model::joints_well_formed(r@.joints));
        assert(crate::model::systems_well_formed(r@));
    }
    r
}

} // verus!
