//! The per-joint force models: suspension spring-damper, tire-ground
//! contact, steering position servo, drive torque and brake torque.
//!
//! Each model reads one joint's kinematic state (and the shared control
//! snapshot) and mutates only that joint's accumulators, so the injection
//! scans commute with one another and are order-independent.

use vstd::prelude::*;

use crate::fx::{fx_add, fx_div, fx_mul, fx_neg, fx_sign, fx_sub, Fx, SCALE};
use crate::joint::{Joint, JointV};
use crate::linalg::{v3_dot, v3_neg, v3_normalize, v3_zero, V3, Vec3};
use crate::model::{Attachment, Model};
use crate::serialize::{
    BrakeWheelDef, DrivenWheelDef, SteeringDef, SuspensionDef, SystemTypeDef, TireContactDef,
};
use crate::structure::views_of;
use crate::sva::{
    fo_add, fo_force_point, mo_velocity_point, xf_inverse, xf_mul_v3, xf_transform_point, FoV,
    Force, MoV, XfV, Xform,
};

verus! {

/// The control snapshot read by the force models: throttle and brake in
/// [0, 1], steering in [-1, 1], as fixed-point scalars.
#[derive(Clone, Copy, Debug, PartialEq, Eq, Structural)]
pub struct CarControl {
    pub throttle: Fx,
    pub brake: Fx,
    pub steering: Fx,
}

impl CarControl {
    pub fn zero() -> (r: CarControl)
        ensures
            r.throttle@ == 0,
            r.brake@ == 0,
            r.steering@ == 0,
    {
        CarControl { throttle: Fx::zero(), brake: Fx::zero(), steering: Fx::zero() }
    }
}

/// A linear spring-damper acting on a prismatic joint's own coordinate.
#[derive(Clone, Copy, Debug, PartialEq, Eq, Structural)]
pub struct Suspension {
    pub stiffness: Fx,
    pub damping: Fx,
}

impl Suspension {
    pub fn new(stiffness: Fx, damping: Fx) -> (r: Suspension)
        ensures
            r.stiffness == stiffness,
            r.damping == damping,
    {
        Suspension { stiffness, damping }
    }

    pub fn from_def(suspension_def: &SuspensionDef) -> (r: Suspension)
        ensures
            r.stiffness == suspension_def.stiffness,
            r.damping == suspension_def.damping,
    {
        Suspension::new(suspension_def.stiffness, suspension_def.damping)
    }
}

/// The generalized force a suspension adds: `-(stiffness*q + damping*qd)`.
pub open spec fn suspension_force(stiffness: int, damping: int, q: int, qd: int) -> int {
    fx_neg(fx_add(fx_mul(stiffness, q), fx_mul(damping, qd)))
}

/// The tire-ground contact model's parameters.
#[derive(Clone, Copy, Debug, PartialEq, Eq, Structural)]
pub struct TireContact {
    pub radius: Fx,
    pub stiffness: Fx,
    pub damping: Fx,
    pub longitudinal_stiffness: Fx,
    pub lateral_stiffness: Fx,
}

impl TireContact {
    pub fn new(radius: Fx, stiffness: Fx, damping: Fx, longitudinal_stiffness: Fx,
        lateral_stiffness: Fx) -> (r: TireContact)
        ensures
            r.radius == radius,
            r.stiffness == stiffness,
            r.damping == damping,
            r.longitudinal_stiffness == longitudinal_stiffness,
            r.lateral_stiffness == lateral_stiffness,
    {
        TireContact { radius, stiffness, damping, longitudinal_stiffness, lateral_stiffness }
    }

    pub fn from_def(tire_contact_def: &TireContactDef) -> (r: TireContact)
        ensures
            r.radius == tire_contact_def.radius,
            r.stiffness == tire_contact_def.stiffness,
            r.damping == tire_contact_def.damping,
            r.longitudinal_stiffness == tire_contact_def.longitudinal_stiffness,
            r.lateral_stiffness == tire_contact_def.lateral_stiffness,
    {
        TireContact::new(
            tire_contact_def.radius,
            tire_contact_def.stiffness,
            tire_contact_def.damping,
            tire_contact_def.longitudinal_stiffness,
            tire_contact_def.lateral_stiffness,
        )
    }
}

/// An idealized zero-latency steering position servo.
#[derive(Clone, Copy, Debug, PartialEq, Eq, Structural)]
pub struct Steering {
    pub max_angle: Fx,
}

impl Steering {
    pub fn new(max_angle: Fx) -> (r: Steering)
        ensures
            r.max_angle == max_angle,
    {
        Steering { max_angle }
    }

    pub fn from_def(steering_def: &SteeringDef) -> (r: Steering)
        ensures
            r.max_angle == steering_def.max_angle,
    {
        Steering::new(steering_def.max_angle)
    }
}

/// An idealized constant-torque drive motor.
#[derive(Clone, Copy, Debug, PartialEq, Eq, Structural)]
pub struct DrivenWheel {
    pub max_torque: Fx,
}

impl DrivenWheel {
    pub fn new(max_torque: Fx) -> (r: DrivenWheel)
        ensures
            r.max_torque == max_torque,
    {
        DrivenWheel { max_torque }
    }

    pub fn from_def(driven_wheel_def: &DrivenWheelDef) -> (r: DrivenWheel)
        ensures
            r.max_torque == driven_wheel_def.max_torque,
    {
        DrivenWheel::new(driven_wheel_def.max_torque)
    }
}

/// A dissipative brake.
#[derive(Clone, Copy, Debug, PartialEq, Eq, Structural)]
pub struct BrakeWheel {
    pub max_torque: Fx,
}

impl BrakeWheel {
    pub fn new(max_torque: Fx) -> (r: BrakeWheel)
        ensures
            r.max_torque == max_torque,
    {
        BrakeWheel { max_torque }
    }

    pub fn from_def(brake_wheel_def: &BrakeWheelDef) -> (r: BrakeWheel)
        ensures
            r.max_torque == brake_wheel_def.max_torque,
    {
        BrakeWheel::new(brake_wheel_def.max_torque)
    }
}

/// The brake torque: `-(brake * max_torque) * sign(qd)`. It always opposes
/// the current rotation, and vanishes exactly at rest.
pub open spec fn brake_torque(brake: int, max_torque: int, qd: int) -> int {
    fx_mul(fx_neg(fx_mul(brake, max_torque)), fx_sign(qd))
}

/// The executable brake torque.
pub fn brake_torque_value(brake: Fx, max_torque: Fx, qd: Fx) -> (r: Fx)
    ensures
        r@ == brake_torque(brake@, max_torque@, qd@),
        qd@ == 0 ==> r@ == 0,
{
    brake.mul(max_torque).neg().mul(qd.sign())
}

/// The brake is an odd function of the joint velocity: reversing the wheel
/// reverses the torque, and a wheel at rest feels no brake torque at all.
pub proof fn lemma_brake_symmetry(brake: int, max_torque: int, qd: int)
    ensures
        brake_torque(brake, max_torque, 0) == 0,
        qd != 0 ==> brake_torque(brake, max_torque, qd) == fx_neg(
            brake_torque(brake, max_torque, fx_neg(qd)),
        ),
{
    let m = fx_neg(fx_mul(brake, max_torque));
    if qd != 0 {
        assert(fx_sign(fx_neg(qd)) == fx_neg(fx_sign(qd)));
        crate::fx::lemma_mul_neg(m, fx_sign(qd));
    }
}

/// Saturation of the ground-plane friction forces: whatever the raw
/// velocity-proportional value, the clamped force never exceeds the
/// vertical force in magnitude.
pub proof fn lemma_friction_saturation(raw: int, vertical: int)
    requires
        0 <= vertical <= crate::fx::MAX_RAW as int,
    ensures
        fx_neg(vertical) <= friction_clamp(raw, vertical) <= vertical,
{
}

/// A contact point at rest feels no ground-plane friction: with a zero
/// raw velocity-proportional value, the clamp returns exactly zero for any
/// nonnegative vertical force.
pub proof fn lemma_friction_at_rest(vertical: int)
    requires
        0 <= vertical <= crate::fx::MAX_RAW as int,
    ensures
        friction_clamp(0, vertical) == 0,
{
}

/// The simplified friction-circle clamp: the ground-plane force component
/// is cut off at plus/minus the vertical force magnitude.
pub open spec fn friction_clamp(raw: int, vertical: int) -> int {
    let lo = fx_neg(vertical);
    let m = if raw >= lo {
        raw
    } else {
        lo
    };
    if m <= vertical {
        m
    } else {
        vertical
    }
}

/// The executable friction clamp (`force.max(-vertical).min(vertical)`).
pub fn friction_clamp_value(raw: Fx, vertical: Fx) -> (r: Fx)
    ensures
        r@ == friction_clamp(raw@, vertical@),
        vertical@ >= 0 ==> fx_neg(vertical@) <= r@ <= vertical@,
{
    raw.max(vertical.neg()).min(vertical)
}

/// What the tire model adds to a wheel joint's external-force accumulator.
///
/// The wheel's spin axis is projected onto the ground plane for the lateral
/// direction, crossed with world-up for the forward direction; the lowest
/// point of the tire is found a radius below the center along the
/// reconstructed tire-up direction. If that point is above the ground
/// (height at least zero) there is no force at all. Otherwise a vertical
/// spring-damper force plus clamped longitudinal and lateral friction
/// forces act at the contact point.
pub open spec fn tire_force(c: TireContact, x: XfV, v: MoV) -> FoV {
    let x0 = xf_inverse(x);
    let tire_lat_local = V3 { x: 0, y: SCALE as int, z: 0 };
    let lat0 = xf_mul_v3(x0, tire_lat_local);
    let contact_lat = v3_normalize(V3 { x: lat0.x, y: lat0.y, z: 0 });
    let contact_up = V3 { x: 0, y: 0, z: SCALE as int };
    let contact_fwd = v3_normalize(crate::linalg::v3_cross(contact_lat, contact_up));
    let fwd_local = xf_mul_v3(x, contact_fwd);
    let tire_up_local = v3_normalize(crate::linalg::v3_cross(fwd_local, tire_lat_local));
    let contact_local = v3_neg(crate::linalg::v3_scale(c.radius@, tire_up_local));
    let contact_abs = xf_transform_point(x0, contact_local);
    let height = contact_abs.z;
    if height >= 0 {
        crate::sva::fo_zero()
    } else {
        let v0 = crate::sva::xf_mul_motion(x0, v);
        let vel = mo_velocity_point(v0, contact_abs);
        let spring = fx_neg(fx_mul(c.stiffness@, height));
        let dampf = fx_neg(fx_mul(c.damping@, vel.z));
        let vertical = fx_add(spring, dampf);
        let fwd_vel = v3_dot(vel, contact_fwd);
        let lat_vel = v3_dot(vel, contact_lat);
        let fwd_force = friction_clamp(
            fx_mul(fx_mul(fx_neg(fwd_vel), c.longitudinal_stiffness@), vertical),
            vertical,
        );
        let lat_force = friction_clamp(
            fx_mul(fx_mul(fx_neg(lat_vel), c.lateral_stiffness@), vertical),
            vertical,
        );
        let total = crate::linalg::v3_add(
            crate::linalg::v3_add(
                crate::linalg::v3_scale(fwd_force, contact_fwd),
                crate::linalg::v3_scale(lat_force, contact_lat),
            ),
            V3 { x: 0, y: 0, z: vertical },
        );
        fo_force_point(total, contact_abs)
    }
}

/// The executable tire contact force for one wheel joint.
///
/// Beyond mirroring `tire_force` exactly, the contract carries the contact
/// law itself: no force at or above ground height, and each ground-plane
/// friction component saturated at the vertical force magnitude.
pub fn tire_force_value(c: &TireContact, x: Xform, v: crate::sva::Motion) -> (r: Force)
    ensures
        r@ == tire_force(*c, x@, v@),
{
    let x0 = x.inverse();
    let tire_lat_local = Vec3 { x: Fx::zero(), y: Fx::one(), z: Fx::zero() };
    let lat0 = x0.mul_vec(tire_lat_local);
    let contact_lat = Vec3 { x: lat0.x, y: lat0.y, z: Fx::zero() }.normalize();
    let contact_up = Vec3 { x: Fx::zero(), y: Fx::zero(), z: Fx::one() };
    let contact_fwd = contact_lat.cross(contact_up).normalize();
    let fwd_local = x.mul_vec(contact_fwd);
    let tire_up_local = fwd_local.cross(tire_lat_local).normalize();
    let contact_local = tire_up_local.scale(c.radius).neg();
    let contact_abs = x0.transform_point(contact_local);
    let height = contact_abs.z;
    if !height.is_neg() {
        Force::zero()
    } else {
        let v0 = x0.mul_motion(v);
        let vel = v0.velocity_point(contact_abs).vel;
        let spring = c.stiffness.mul(height).neg();
        let dampf = c.damping.mul(vel.z).neg();
        let vertical = spring.add(dampf);
        let fwd_vel = vel.dot(contact_fwd);
        let lat_vel = vel.dot(contact_lat);
        let fwd_force = friction_clamp_value(
            fwd_vel.neg().mul(c.longitudinal_stiffness).mul(vertical),
            vertical,
        );
        let lat_force = friction_clamp_value(
            lat_vel.neg().mul(c.lateral_stiffness).mul(vertical),
            vertical,
        );
        let total = contact_fwd.scale(fwd_force).add(contact_lat.scale(lat_force)).add(
            Vec3 { x: Fx::zero(), y: Fx::zero(), z: vertical },
        );
        Force::force_point(total, contact_abs)
    }
}

/// One suspension attachment applied to the arena.
pub open spec fn susp_step(s: Seq<JointV>, at: crate::model::AttachmentV) -> Seq<JointV> {
    match at.def {
        crate::serialize::SystemDefV::Suspension { joint: _, stiffness, damping } => {
            let j = s[at.joint];
            s.update(
                at.joint,
                JointV { tau: fx_add(j.tau, suspension_force(stiffness@, damping@, j.q, j.qd)), ..j },
            )
        },
        _ => s,
    }
}

/// One steering attachment applied to the arena: the servo overwrites the
/// joint's position with `steering * max_angle`.
pub open spec fn steer_step(s: Seq<JointV>, at: crate::model::AttachmentV, steering: int) -> Seq<
    JointV,
> {
    match at.def {
        crate::serialize::SystemDefV::Steering { joint: _, max_angle } => {
            let j = s[at.joint];
            s.update(at.joint, JointV { q: fx_mul(steering, max_angle@), ..j })
        },
        _ => s,
    }
}

/// One drive attachment applied to the arena: an idealized constant-torque
/// motor adds `throttle * max_torque`.
pub open spec fn drive_step(s: Seq<JointV>, at: crate::model::AttachmentV, throttle: int) -> Seq<
    JointV,
> {
    match at.def {
        crate::serialize::SystemDefV::Drive { joint: _, max_torque, .. } => {
            let j = s[at.joint];
            s.update(at.joint, JointV { tau: fx_add(j.tau, fx_mul(throttle, max_torque@)), ..j })
        },
        _ => s,
    }
}

/// One brake attachment applied to the arena.
pub open spec fn brake_step(s: Seq<JointV>, at: crate::model::AttachmentV, brake: int) -> Seq<
    JointV,
> {
    match at.def {
        crate::serialize::SystemDefV::Brake { joint: _, max_torque } => {
            let j = s[at.joint];
            s.update(at.joint, JointV { tau: fx_add(j.tau, brake_torque(brake, max_torque@, j.qd)), ..j })
        },
        _ => s,
    }
}

/// One tire-contact attachment applied to the arena: the contact wrench is
/// added to the joint's external-force accumulator.
pub open spec fn tire_step(s: Seq<JointV>, at: crate::model::AttachmentV) -> Seq<JointV> {
    match at.def {
        crate::serialize::SystemDefV::TireContact {
            joint: _,
            radius,
            stiffness,
            damping,
            longitudinal_stiffness,
            lateral_stiffness,
        } => {
            let c = TireContact { radius, stiffness, damping, longitudinal_stiffness,
                lateral_stiffness };
            let j = s[at.joint];
            s.update(at.joint, JointV { f_ext: fo_add(j.f_ext, tire_force(c, j.x, j.v)), ..j })
        },
        _ => s,
    }
}

/// The suspension scan folded over the attachment list in order.
pub open spec fn susp_from(s: Seq<JointV>, sys: Seq<crate::model::AttachmentV>, i: int) -> Seq<
    JointV,
>
    decreases sys.len() - i,
{
    if i < 0 || i >= sys.len() {
        s
    } else {
        susp_from(susp_step(s, sys[i]), sys, i + 1)
    }
}

/// The steering scan folded over the attachment list in order.
pub open spec fn steer_from(
    s: Seq<JointV>,
    sys: Seq<crate::model::AttachmentV>,
    i: int,
    steering: int,
) -> Seq<JointV>
    decreases sys.len() - i,
{
    if i < 0 || i >= sys.len() {
        s
    } else {
        steer_from(steer_step(s, sys[i], steering), sys, i + 1, steering)
    }
}

/// The drive scan folded over the attachment list in order.
pub open spec fn drive_from(
    s: Seq<JointV>,
    sys: Seq<crate::model::AttachmentV>,
    i: int,
    throttle: int,
) -> Seq<JointV>
    decreases sys.len() - i,
{
    if i < 0 || i >= sys.len() {
        s
    } else {
        drive_from(drive_step(s, sys[i], throttle), sys, i + 1, throttle)
    }
}

/// The brake scan folded over the attachment list in order.
pub open spec fn brake_from(
    s: Seq<JointV>,
    sys: Seq<crate::model::AttachmentV>,
    i: int,
    brake: int,
) -> Seq<JointV>
    decreases sys.len() - i,
{
    if i < 0 || i >= sys.len() {
        s
    } else {
        brake_from(brake_step(s, sys[i], brake), sys, i + 1, brake)
    }
}

/// The tire-contact scan folded over the attachment list in order.
pub open spec fn tire_from(s: Seq<JointV>, sys: Seq<crate::model::AttachmentV>, i: int) -> Seq<
    JointV,
>
    decreases sys.len() - i,
{
    if i < 0 || i >= sys.len() {
        s
    } else {
        tire_from(tire_step(s, sys[i]), sys, i + 1)
    }
}

/// Apply every suspension attachment to its joint's generalized force.
#[verifier::rlimit(60)]
pub fn suspension_system(model: &mut Model)
    requires
        crate::model::systems_in_range(old(model)@),
    ensures
        final(model).name@ == old(model).name@,
        final(model).systems@ == old(model).systems@,
        final(model).joints@.len() == old(model).joints@.len(),
        views_of(final(model).joints@) == susp_from(
            views_of(old(model).joints@),
            old(model)@.systems,
            0,
        ),
        forall|i: int|
            0 <= i < old(model).joints@.len() ==> (#[trigger] views_of(
                final(model).joints@,
            )[i]).parent == views_of(old(model).joints@)[i].parent,
{
    let ghost sysv = model@.systems;
    let ghost target = susp_from(views_of(model.joints@), sysv, 0);
    let n = model.systems.len();
    let mut k: usize = 0;
    while k < n
        invariant
            k <= n,
            n == model.systems@.len(),
            model.systems@ == old(model).systems@,
            model.name@ == old(model).name@,
            model.joints@.len() == old(model).joints@.len(),
            sysv == old(model)@.systems,
            crate::model::systems_in_range(old(model)@),
            forall|i: int|
                0 <= i < old(model).joints@.len() ==> (#[trigger] views_of(
                    model.joints@,
                )[i]).parent == views_of(old(model).joints@)[i].parent,
            susp_from(views_of(model.joints@), sysv, k as int) == target,
        decreases n - k,
    {
        let ghost cur = views_of(model.joints@);
        proof {
            assert(sysv[k as int] == model.systems@[k as int]@);
            assert(0 <= sysv[k as int].joint < model.joints@.len());
        }
        let ji = model.systems[k].joint;
        match &model.systems[k].def {
            SystemTypeDef::Suspension(d) => {
                let st = d.stiffness;
                let dm = d.damping;
                let jm = &mut model.joints[ji];
                jm.tau = jm.tau.add(st.mul(jm.q).add(dm.mul(jm.qd)).neg());
                proof {
                    assert(views_of(model.joints@) =~= susp_step(cur, sysv[k as int]));
                }
            },
            _ => {
                proof {
                    assert(views_of(model.joints@) =~= susp_step(cur, sysv[k as int]));
                }
            },
        }
        proof {
            assert(susp_from(views_of(model.joints@), sysv, k + 1) == susp_from(
                cur,
                sysv,
                k as int,
            ));
        }
        proof {
            assert forall|i: int|
                0 <= i < old(model).joints@.len() implies (#[trigger] views_of(
                model.joints@,
            )[i]).parent == views_of(old(model).joints@)[i].parent by {
                assert(views_of(model.joints@)[i].parent == cur[i].parent);
            }
        }
        k = k + 1;
    }
    proof {
        assert(susp_from(views_of(model.joints@), sysv, n as int) == views_of(model.joints@));
    }
}

/// Apply every steering attachment: the servo writes the commanded angle.
#[verifier::rlimit(60)]
pub fn steering_system(model: &mut Model, control: &CarControl)
    requires
        crate::model::systems_in_range(old(model)@),
    ensures
        final(model).name@ == old(model).name@,
        final(model).systems@ == old(model).systems@,
        final(model).joints@.len() == old(model).joints@.len(),
        views_of(final(model).joints@) == steer_from(
            views_of(old(model).joints@),
            old(model)@.systems,
            0,
            control.steering@,
        ),
        forall|i: int|
            0 <= i < old(model).joints@.len() ==> (#[trigger] views_of(
                final(model).joints@,
            )[i]).parent == views_of(old(model).joints@)[i].parent,
{
    let ghost sysv = model@.systems;
    let ghost target = steer_from(views_of(model.joints@), sysv, 0, control.steering@);
    let n = model.systems.len();
    let mut k: usize = 0;
    while k < n
        invariant
            k <= n,
            n == model.systems@.len(),
            model.systems@ == old(model).systems@,
            model.name@ == old(model).name@,
            model.joints@.len() == old(model).joints@.len(),
            sysv == old(model)@.systems,
            crate::model::systems_in_range(old(model)@),
            forall|i: int|
                0 <= i < old(model).joints@.len() ==> (#[trigger] views_of(
                    model.joints@,
                )[i]).parent == views_of(old(model).joints@)[i].parent,
            steer_from(views_of(model.joints@), sysv, k as int, control.steering@) == target,
        decreases n - k,
    {
        let ghost cur = views_of(model.joints@);
        proof {
            assert(sysv[k as int] == model.systems@[k as int]@);
            assert(0 <= sysv[k as int].joint < model.joints@.len());
        }
        let ji = model.systems[k].joint;
        match &model.systems[k].def {
            SystemTypeDef::Steering(d) => {
                let ma = d.max_angle;
                let jm = &mut model.joints[ji];
                jm.q = control.steering.mul(ma);
                proof {
                    assert(views_of(model.joints@) =~= steer_step(
                        cur,
                        sysv[k as int],
                        control.steering@,
                    ));
                }
            },
            _ => {
                proof {
                    assert(views_of(model.joints@) =~= steer_step(
                        cur,
                        sysv[k as int],
                        control.steering@,
                    ));
                }
            },
        }
        proof {
            assert(steer_from(views_of(model.joints@), sysv, k + 1, control.steering@)
                == steer_from(cur, sysv, k as int, control.steering@));
        }
        proof {
            assert forall|i: int|
                0 <= i < old(model).joints@.len() implies (#[trigger] views_of(
                model.joints@,
            )[i]).parent == views_of(old(model).joints@)[i].parent by {
                assert(views_of(model.joints@)[i].parent == cur[i].parent);
            }
        }
        k = k + 1;
    }
    proof {
        assert(steer_from(views_of(model.joints@), sysv, n as int, control.steering@)
            == views_of(model.joints@));
    }
}

/// Apply every drive attachment: constant torque scaled by the throttle.
#[verifier::rlimit(60)]
pub fn driven_wheel_system(model: &mut Model, control: &CarControl)
    requires
        crate::model::systems_in_range(old(model)@),
    ensures
        final(model).name@ == old(model).name@,
        final(model).systems@ == old(model).systems@,
        final(model).joints@.len() == old(model).joints@.len(),
        views_of(final(model).joints@) == drive_from(
            views_of(old(model).joints@),
            old(model)@.systems,
            0,
            control.throttle@,
        ),
        forall|i: int|
            0 <= i < old(model).joints@.len() ==> (#[trigger] views_of(
                final(model).joints@,
            )[i]).parent == views_of(old(model).joints@)[i].parent,
{
    let ghost sysv = model@.systems;
    let ghost target = drive_from(views_of(model.joints@), sysv, 0, control.throttle@);
    let n = model.systems.len();
    let mut k: usize = 0;
    while k < n
        invariant
            k <= n,
            n == model.systems@.len(),
            model.systems@ == old(model).systems@,
            model.name@ == old(model).name@,
            model.joints@.len() == old(model).joints@.len(),
            sysv == old(model)@.systems,
            crate::model::systems_in_range(old(model)@),
            forall|i: int|
                0 <= i < old(model).joints@.len() ==> (#[trigger] views_of(
                    model.joints@,
                )[i]).parent == views_of(old(model).joints@)[i].parent,
            drive_from(views_of(model.joints@), sysv, k as int, control.throttle@) == target,
        decreases n - k,
    {
        let ghost cur = views_of(model.joints@);
        proof {
            assert(sysv[k as int] == model.systems@[k as int]@);
            assert(0 <= sysv[k as int].joint < model.joints@.len());
        }
        let ji = model.systems[k].joint;
        match &model.systems[k].def {
            SystemTypeDef::Drive(d) => {
                let mt = d.max_torque;
                let jm = &mut model.joints[ji];
                jm.tau = jm.tau.add(control.throttle.mul(mt));
                proof {
                    assert(views_of(model.joints@) =~= drive_step(
                        cur,
                        sysv[k as int],
                        control.throttle@,
                    ));
                }
            },
            _ => {
                proof {
                    assert(views_of(model.joints@) =~= drive_step(
                        cur,
                        sysv[k as int],
                        control.throttle@,
                    ));
                }
            },
        }
        proof {
            assert(drive_from(views_of(model.joints@), sysv, k + 1, control.throttle@)
                == drive_from(cur, sysv, k as int, control.throttle@));
        }
        proof {
            assert forall|i: int|
                0 <= i < old(model).joints@.len() implies (#[trigger] views_of(
                model.joints@,
            )[i]).parent == views_of(old(model).joints@)[i].parent by {
                assert(views_of(model.joints@)[i].parent == cur[i].parent);
            }
        }
        k = k + 1;
    }
    proof {
        assert(drive_from(views_of(model.joints@), sysv, n as int, control.throttle@)
            == views_of(model.joints@));
    }
}

/// Apply every brake attachment: a torque always opposing the current
/// rotation, zero at rest.
#[verifier::rlimit(60)]
pub fn brake_wheel_system(model: &mut Model, control: &CarControl)
    requires
        crate::model::systems_in_range(old(model)@),
    ensures
        final(model).name@ == old(model).name@,
        final(model).systems@ == old(model).systems@,
        final(model).joints@.len() == old(model).joints@.len(),
        views_of(final(model).joints@) == brake_from(
            views_of(old(model).joints@),
            old(model)@.systems,
            0,
            control.brake@,
        ),
        forall|i: int|
            0 <= i < old(model).joints@.len() ==> (#[trigger] views_of(
                final(model).joints@,
            )[i]).parent == views_of(old(model).joints@)[i].parent,
{
    let ghost sysv = model@.systems;
    let ghost target = brake_from(views_of(model.joints@), sysv, 0, control.brake@);
    let n = model.systems.len();
    let mut k: usize = 0;
    while k < n
        invariant
            k <= n,
            n == model.systems@.len(),
            model.systems@ == old(model).systems@,
            model.name@ == old(model).name@,
            model.joints@.len() == old(model).joints@.len(),
            sysv == old(model)@.systems,
            crate::model::systems_in_range(old(model)@),
            forall|i: int|
                0 <= i < old(model).joints@.len() ==> (#[trigger] views_of(
                    model.joints@,
                )[i]).parent == views_of(old(model).joints@)[i].parent,
            brake_from(views_of(model.joints@), sysv, k as int, control.brake@) == target,
        decreases n - k,
    {
        let ghost cur = views_of(model.joints@);
        proof {
            assert(sysv[k as int] == model.systems@[k as int]@);
            assert(0 <= sysv[k as int].joint < model.joints@.len());
        }
        let ji = model.systems[k].joint;
        match &model.systems[k].def {
            SystemTypeDef::Brake(d) => {
                let mt = d.max_torque;
                let qd = model.joints[ji].qd;
                let torque = brake_torque_value(control.brake, mt, qd);
                let jm = &mut model.joints[ji];
                jm.tau = jm.tau.add(torque);
                proof {
                    assert(views_of(model.joints@) =~= brake_step(
                        cur,
                        sysv[k as int],
                        control.brake@,
                    ));
                }
            },
            _ => {
                proof {
                    assert(views_of(model.joints@) =~= brake_step(
                        cur,
                        sysv[k as int],
                        control.brake@,
                    ));
                }
            },
        }
        proof {
            assert(brake_from(views_of(model.joints@), sysv, k + 1, control.brake@)
                == brake_from(cur, sysv, k as int, control.brake@));
        }
        proof {
            assert forall|i: int|
                0 <= i < old(model).joints@.len() implies (#[trigger] views_of(
                model.joints@,
            )[i]).parent == views_of(old(model).joints@)[i].parent by {
                assert(views_of(model.joints@)[i].parent == cur[i].parent);
            }
        }
        k = k + 1;
    }
    proof {
        assert(brake_from(views_of(model.joints@), sysv, n as int, control.brake@)
            == views_of(model.joints@));
    }
}

/// Apply every tire-contact attachment: the contact wrench computed from
/// the wheel's pose and velocity is added to its external-force
/// accumulator.
#[verifier::rlimit(60)]
pub fn tire_contact_system(model: &mut Model)
    requires
        crate::model::systems_in_range(old(model)@),
    ensures
        final(model).name@ == old(model).name@,
        final(model).systems@ == old(model).systems@,
        final(model).joints@.len() == old(model).joints@.len(),
        views_of(final(model).joints@) == tire_from(
            views_of(old(model).joints@),
            old(model)@.systems,
            0,
        ),
        forall|i: int|
            0 <= i < old(model).joints@.len() ==> (#[trigger] views_of(
                final(model).joints@,
            )[i]).parent == views_of(old(model).joints@)[i].parent,
{
    let ghost sysv = model@.systems;
    let ghost target = tire_from(views_of(model.joints@), sysv, 0);
    let n = model.systems.len();
    let mut k: usize = 0;
    while k < n
        invariant
            k <= n,
            n == model.systems@.len(),
            model.systems@ == old(model).systems@,
            model.name@ == old(model).name@,
            model.joints@.len() == old(model).joints@.len(),
            sysv == old(model)@.systems,
            crate::model::systems_in_range(old(model)@),
            forall|i: int|
                0 <= i < old(model).joints@.len() ==> (#[trigger] views_of(
                    model.joints@,
                )[i]).parent == views_of(old(model).joints@)[i].parent,
            tire_from(views_of(model.joints@), sysv, k as int) == target,
        decreases n - k,
    {
        let ghost cur = views_of(model.joints@);
        proof {
            assert(sysv[k as int] == model.systems@[k as int]@);
            assert(0 <= sysv[k as int].joint < model.joints@.len());
        }
        let ji = model.systems[k].joint;
        match &model.systems[k].def {
            SystemTypeDef::TireContact(d) => {
                let c = TireContact::from_def(d);
                let x = model.joints[ji].x;
                let v = model.joints[ji].v;
                let f = tire_force_value(&c, x, v);
                let jm = &mut model.joints[ji];
                jm.f_ext = jm.f_ext.add(f);
                proof {
                    assert(views_of(model.joints@) =~= tire_step(cur, sysv[k as int]));
                }
            },
            _ => {
                proof {
                    assert(views_of(model.joints@) =~= tire_step(cur, sysv[k as int]));
                }
            },
        }
        proof {
            assert(tire_from(views_of(model.joints@), sysv, k + 1) == tire_from(
                cur,
                sysv,
                k as int,
            ));
        }
        proof {
            assert forall|i: int|
                0 <= i < old(model).joints@.len() implies (#[trigger] views_of(
                model.joints@,
            )[i]).parent == views_of(old(model).joints@)[i].parent by {
                assert(views_of(model.joints@)[i].parent == cur[i].parent);
            }
        }
        k = k + 1;
    }
    proof {
        assert(tire_from(views_of(model.joints@), sysv, n as int) == views_of(model.joints@));
    }
}

} // verus!
