//! Dynamics scenarios: free fall under the prescribed base acceleration,
//! suspension settling, tire contact forces, and independence of sibling
//! declaration order.

use rigid_body::fx::{Fx, SCALE};
use rigid_body::integrator::rk4_step;
use rigid_body::joint::JointType;
use rigid_body::linalg::{Mat3, Vec3};
use rigid_body::model::{build_model, Model};
use rigid_body::physics::{tire_force_value, CarControl, TireContact};
use rigid_body::serialize::{
    InertiaCompsDef, InertiaDef, JointDef, JointTypeDef, ModelDef, QuatDef, SuspensionDef,
    SystemDef, SystemTypeDef, TransformDef,
};
use rigid_body::sva::{Inertia, Motion, Xform};

fn to_f64(x: Fx) -> f64 {
    x.raw as f64 / SCALE as f64
}

fn zero_transform() -> TransformDef {
    TransformDef {
        position: Vec3 { x: Fx { raw: 0 }, y: Fx { raw: 0 }, z: Fx { raw: 0 } },
        quaternion: QuatDef {
            w: Fx::one(),
            x: Fx { raw: 0 },
            y: Fx { raw: 0 },
            z: Fx { raw: 0 },
        },
    }
}

fn point_mass_inertia(mass: Fx) -> InertiaDef {
    let z = Fx { raw: 0 };
    InertiaDef {
        mass,
        center_of_mass: Vec3 { x: z, y: z, z: z },
        inertia: InertiaCompsDef {
            xx: Fx::one(),
            yy: Fx::one(),
            zz: Fx::one(),
            yz: z,
            xz: z,
            xy: z,
        },
    }
}

fn joint(name: &str, jt: JointTypeDef, parent: Option<&str>, mass: Fx) -> JointDef {
    JointDef {
        name: name.to_owned(),
        joint_type: jt,
        parent: parent.map(|p| p.to_owned()),
        transform: zero_transform(),
        inertia: point_mass_inertia(mass),
        meshes: Vec::new(),
    }
}

fn gravity() -> Motion {
    // the base prescribes an upward acceleration of g, which free bodies
    // feel as gravity
    let g = Fx::from_int(981).divi(100);
    Motion {
        v: Vec3 { x: Fx { raw: 0 }, y: Fx { raw: 0 }, z: g },
        w: Vec3 { x: Fx { raw: 0 }, y: Fx { raw: 0 }, z: Fx { raw: 0 } },
    }
}

fn free_body_model() -> Model {
    let def = ModelDef {
        name: "drop".to_owned(),
        joints: vec![
            joint("base", JointTypeDef::Base, None, Fx { raw: 0 }),
            joint("body", JointTypeDef::Pz, Some("base"), Fx::one()),
        ],
        systems: Vec::new(),
    };
    let mut m = build_model(&def).unwrap();
    m.set_base_acceleration(gravity());
    m
}

#[test]
fn free_body_falls_uniformly() {
    let mut m = free_body_model();
    let control = CarControl::zero();
    let h = Fx::one().divi(100);
    let steps = 100;
    for _ in 0..steps {
        rk4_step(&mut m, &control, h);
    }
    let t = steps as f64 * to_f64(h);
    let g = 9.81;
    let q = to_f64(m.joints[1].q);
    let qd = to_f64(m.joints[1].qd);
    // qd = -g t and q = -g t^2 / 2, within fixed-point truncation
    assert!((qd + g * t).abs() < 0.02 * g * t, "qd = {qd}, expected {}", -g * t);
    assert!(
        (q + 0.5 * g * t * t).abs() < 0.04 * g * t * t,
        "q = {q}, expected {}",
        -0.5 * g * t * t
    );
}

#[test]
fn suspension_settles_to_static_deflection() {
    let stiffness = Fx::from_int(400);
    let damping = Fx::from_int(40);
    let def = ModelDef {
        name: "settle".to_owned(),
        joints: vec![
            joint("base", JointTypeDef::Base, None, Fx { raw: 0 }),
            joint("sprung", JointTypeDef::Pz, Some("base"), Fx::from_int(10)),
        ],
        systems: vec![SystemDef {
            system_type: SystemTypeDef::Suspension(SuspensionDef {
                joint: "sprung".to_owned(),
                stiffness,
                damping,
            }),
        }],
    };
    let mut m = build_model(&def).unwrap();
    m.set_base_acceleration(gravity());
    let control = CarControl::zero();
    let h = Fx::one().divi(200);
    for _ in 0..4000 {
        rk4_step(&mut m, &control, h);
    }
    let q = to_f64(m.joints[1].q);
    let expected = -10.0 * 9.81 / 400.0;
    assert!(
        (q - expected).abs() < 0.05 * expected.abs(),
        "q = {q}, expected {expected}"
    );
    assert!(to_f64(m.joints[1].qd).abs() < 0.01);
}

#[test]
fn sibling_declaration_order_does_not_change_accelerations() {
    let build = |first: &str, second: &str| -> Model {
        let def = ModelDef {
            name: "twins".to_owned(),
            joints: vec![
                joint("base", JointTypeDef::Base, None, Fx { raw: 0 }),
                joint("trunk", JointTypeDef::Pz, Some("base"), Fx::from_int(5)),
                joint(first, JointTypeDef::Rx, Some("trunk"), Fx::from_int(2)),
                joint(second, JointTypeDef::Ry, Some("trunk"), Fx::from_int(3)),
            ],
            systems: Vec::new(),
        };
        let mut m = build_model(&def).unwrap();
        m.set_base_acceleration(gravity());
        m
    };
    // the same two siblings, declared in both orders
    let mut m1 = build("left", "right");
    let mut m2 = build("right", "left");
    // give the siblings distinct nonzero states, keyed by name
    for m in [&mut m1, &mut m2] {
        for j in m.joints.iter_mut() {
            match j.name.as_str() {
                "left" => {
                    j.q = Fx::one().divi(4);
                    j.qd = Fx::one().divi(8);
                }
                "right" => {
                    j.q = Fx::one().divi(3).neg();
                    j.qd = Fx::one().divi(5);
                }
                "trunk" => {
                    j.qd = Fx::one().divi(16);
                }
                _ => {}
            }
        }
    }
    let control = CarControl::zero();
    let h = Fx::one().divi(100);
    rk4_step(&mut m1, &control, h);
    rk4_step(&mut m2, &control, h);
    let find = |m: &Model, name: &str| -> (i64, i64) {
        let j = m.joints.iter().find(|j| j.name == name).unwrap();
        (j.q.raw, j.qd.raw)
    };
    for name in ["trunk", "left", "right"] {
        assert_eq!(find(&m1, name), find(&m2, name), "joint {name} differs");
    }
}

#[test]
fn inertia_action_matches_articulated_embedding() {
    // an off-center body: mass 2 with center of mass one unit along x
    let z = Fx { raw: 0 };
    let i = Inertia::new(
        Fx::from_int(2),
        Vec3 { x: Fx::one(), y: z, z },
        Mat3::identity(),
    );
    let spin = Motion {
        v: Vec3 { x: z, y: z, z },
        w: Vec3 { x: z, y: Fx::one(), z },
    };
    let direct = i.mul_motion(spin);
    let embedded = i.to_articulated().mul_motion(spin);
    // the 10-parameter action and its articulated-body embedding agree
    assert_eq!(direct.f, embedded.f);
    assert_eq!(direct.m, embedded.m);
    // and the linear force carries the mass-weighted center: -(m c) x w
    assert_eq!(direct.f.z.raw, -2 * SCALE);
}

#[test]
fn tire_at_ground_height_gives_no_force() {
    let c = TireContact::new(
        Fx::from_int(13).divi(40),
        Fx::from_int(1000),
        Fx::from_int(10),
        Fx::one().divi(5),
        Fx::one().divi(2),
    );
    // wheel center exactly one radius above the ground: grazing contact
    let x = Xform::posz(Fx::from_int(13).divi(40));
    let f = tire_force_value(&c, x, Motion::zero());
    assert_eq!(f.f.x.raw, 0);
    assert_eq!(f.f.y.raw, 0);
    assert_eq!(f.f.z.raw, 0);
    assert_eq!(f.m.x.raw, 0);
    assert_eq!(f.m.y.raw, 0);
    assert_eq!(f.m.z.raw, 0);
}

#[test]
fn tire_vertical_force_is_stiffness_times_depth() {
    let stiffness = Fx::from_int(64);
    let c = TireContact::new(
        Fx::one(),
        stiffness,
        Fx::from_int(10),
        Fx::one().divi(5),
        Fx::one().divi(2),
    );
    // center at 0.75: a radius-1 tire penetrates by 0.25, velocity zero
    let x = Xform::posz(Fx::from_int(3).divi(4));
    let f = tire_force_value(&c, x, Motion::zero());
    // vertical force = stiffness * depth = 64 * 0.25 = 16, exactly
    assert_eq!(f.f.z.raw, 16 * SCALE);
    assert_eq!(f.f.x.raw, 0);
    assert_eq!(f.f.y.raw, 0);
}

#[test]
fn tire_longitudinal_force_saturates_at_vertical_force() {
    let stiffness = Fx::from_int(64);
    let c = TireContact::new(
        Fx::one(),
        stiffness,
        Fx { raw: 0 },
        Fx::one().divi(5),
        Fx::one().divi(2),
    );
    let x = Xform::posz(Fx::from_int(3).divi(4));
    // a huge forward slip velocity
    let v = Motion {
        v: Vec3 {
            x: Fx::from_int(1000),
            y: Fx { raw: 0 },
            z: Fx { raw: 0 },
        },
        w: Vec3 { x: Fx { raw: 0 }, y: Fx { raw: 0 }, z: Fx { raw: 0 } },
    };
    let f = tire_force_value(&c, x, v);
    let vertical = f.f.z.raw;
    assert_eq!(vertical, 16 * SCALE);
    // saturated: the longitudinal force equals the vertical force magnitude
    assert_eq!(f.f.x.raw, -vertical);
}

#[test]
fn steering_servo_writes_the_commanded_angle() {
    let def = ModelDef {
        name: "steer".to_owned(),
        joints: vec![
            joint("base", JointTypeDef::Base, None, Fx { raw: 0 }),
            joint("kingpin", JointTypeDef::Rz, Some("base"), Fx::one()),
        ],
        systems: vec![SystemDef {
            system_type: SystemTypeDef::Steering(rigid_body::serialize::SteeringDef {
                joint: "kingpin".to_owned(),
                max_angle: Fx::one().divi(2),
            }),
        }],
    };
    let mut m = build_model(&def).unwrap();
    let control = CarControl {
        throttle: Fx { raw: 0 },
        brake: Fx { raw: 0 },
        steering: Fx::one().divi(2),
    };
    rigid_body::physics::steering_system(&mut m, &control);
    // q = steering * max_angle = 0.5 * 0.5 = 0.25
    assert_eq!(m.joints[1].q.raw, SCALE / 4);
}

#[test]
fn the_car_simulates_without_upset() {
    let def = rigid_body::car::car_json();
    let mut m = build_model(&def).unwrap();
    m.set_base_acceleration(gravity());
    // drop the chassis a little above its rest height, like the host does
    for j in m.joints.iter_mut() {
        if j.name == "chassis_pz" {
            j.q = Fx::from_int(55).divi(100);
        }
    }
    let control = CarControl::zero();
    let h = Fx::one().divi(500);
    for _ in 0..200 {
        rk4_step(&mut m, &control, h);
    }
    let jz = m
        .joints
        .iter()
        .find(|j| j.name == "chassis_pz")
        .unwrap();
    let q = to_f64(jz.q);
    // the chassis settles somewhere between the drop height and the ground
    assert!(q > 0.0 && q < 0.8, "chassis height {q}");
    assert!(matches!(m.joints[0].joint_type, JointType::Base));
}
