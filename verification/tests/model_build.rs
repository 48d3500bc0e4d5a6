//! Model construction: the error taxonomy and the lossless round trip from
//! a declarative description through the built forest and back.

use rigid_body::car::car_json;
use rigid_body::fx::Fx;
use rigid_body::joint::JointType;
use rigid_body::linalg::Vec3;
use rigid_body::model::{build_model, ModelError};
use rigid_body::serialize::{
    InertiaCompsDef, InertiaDef, JointDef, JointTypeDef, MeshDef, ModelDef, QuatDef, SuspensionDef,
    SystemDef, SystemTypeDef, TransformDef,
};

fn zero_transform() -> TransformDef {
    TransformDef {
        position: Vec3 { x: Fx { raw: 0 }, y: Fx { raw: 0 }, z: Fx { raw: 0 } },
        quaternion: QuatDef {
            w: Fx::one(),
            x: Fx { raw: 0 },
            y: Fx { raw: 0 },
            z: Fx { raw: 0 },
        },
    }
}

fn zero_inertia() -> InertiaDef {
    let z = Fx { raw: 0 };
    InertiaDef {
        mass: z,
        center_of_mass: Vec3 { x: z, y: z, z: z },
        inertia: InertiaCompsDef { xx: z, yy: z, zz: z, yz: z, xz: z, xy: z },
    }
}

fn joint(name: &str, jt: JointTypeDef, parent: Option<&str>) -> JointDef {
    JointDef {
        name: name.to_owned(),
        joint_type: jt,
        parent: parent.map(|p| p.to_owned()),
        transform: zero_transform(),
        inertia: zero_inertia(),
        meshes: Vec::new(),
    }
}

fn transforms_equal(a: &TransformDef, b: &TransformDef) -> bool {
    a.position == b.position && a.quaternion == b.quaternion
}

fn inertias_equal(a: &InertiaDef, b: &InertiaDef) -> bool {
    a.mass == b.mass && a.center_of_mass == b.center_of_mass && a.inertia == b.inertia
}

fn meshes_equal(a: &[MeshDef], b: &[MeshDef]) -> bool {
    a.len() == b.len() && a.iter().zip(b.iter()).all(|(x, y)| x == y)
}

fn joints_equal(a: &JointDef, b: &JointDef) -> bool {
    a.name == b.name
        && a.joint_type == b.joint_type
        && a.parent == b.parent
        && transforms_equal(&a.transform, &b.transform)
        && inertias_equal(&a.inertia, &b.inertia)
        && meshes_equal(&a.meshes, &b.meshes)
}

fn systems_equal(a: &SystemDef, b: &SystemDef) -> bool {
    match (&a.system_type, &b.system_type) {
        (SystemTypeDef::Steering(x), SystemTypeDef::Steering(y)) => {
            x.joint == y.joint && x.max_angle == y.max_angle
        }
        (SystemTypeDef::Drive(x), SystemTypeDef::Drive(y)) => {
            x.joint == y.joint
                && x.max_torque == y.max_torque
                && x.max_speed == y.max_speed
                && x.max_power == y.max_power
        }
        (SystemTypeDef::Brake(x), SystemTypeDef::Brake(y)) => {
            x.joint == y.joint && x.max_torque == y.max_torque
        }
        (SystemTypeDef::Suspension(x), SystemTypeDef::Suspension(y)) => {
            x.joint == y.joint && x.stiffness == y.stiffness && x.damping == y.damping
        }
        (SystemTypeDef::TireContact(x), SystemTypeDef::TireContact(y)) => {
            x.joint == y.joint
                && x.radius == y.radius
                && x.stiffness == y.stiffness
                && x.damping == y.damping
                && x.longitudinal_stiffness == y.longitudinal_stiffness
                && x.lateral_stiffness == y.lateral_stiffness
        }
        _ => false,
    }
}

fn models_equal(a: &ModelDef, b: &ModelDef) -> bool {
    a.name == b.name
        && a.joints.len() == b.joints.len()
        && a.joints.iter().zip(b.joints.iter()).all(|(x, y)| joints_equal(x, y))
        && a.systems.len() == b.systems.len()
        && a.systems.iter().zip(b.systems.iter()).all(|(x, y)| systems_equal(x, y))
}

#[test]
fn well_formed_description_builds() {
    let def = ModelDef {
        name: "pair".to_owned(),
        joints: vec![
            joint("base", JointTypeDef::Base, None),
            joint("body", JointTypeDef::Pz, Some("base")),
        ],
        systems: Vec::new(),
    };
    let m = build_model(&def).unwrap();
    assert_eq!(m.joints.len(), 2);
    assert_eq!(m.joints[0].parent, None);
    assert_eq!(m.joints[1].parent, Some(0));
    assert!(matches!(m.joints[1].joint_type, JointType::Pz));
}

#[test]
fn duplicate_name_is_rejected() {
    let def = ModelDef {
        name: "dup".to_owned(),
        joints: vec![
            joint("base", JointTypeDef::Base, None),
            joint("body", JointTypeDef::Pz, Some("base")),
            joint("body", JointTypeDef::Px, Some("base")),
        ],
        systems: Vec::new(),
    };
    match build_model(&def) {
        Err(ModelError::DuplicateName { name }) => assert_eq!(name, "body"),
        other => panic!("expected a duplicate-name error, got {:?}", other.is_ok()),
    }
}

#[test]
fn parent_declared_after_child_is_rejected() {
    let def = ModelDef {
        name: "late".to_owned(),
        joints: vec![
            joint("base", JointTypeDef::Base, None),
            joint("child", JointTypeDef::Pz, Some("late_parent")),
            joint("late_parent", JointTypeDef::Px, Some("base")),
        ],
        systems: Vec::new(),
    };
    match build_model(&def) {
        Err(ModelError::ParentNotFound { joint, parent }) => {
            assert_eq!(joint, "child");
            assert_eq!(parent, "late_parent");
        }
        other => panic!("expected a parent-not-found error, got {:?}", other.is_ok()),
    }
}

#[test]
fn system_with_unknown_joint_is_rejected() {
    let def = ModelDef {
        name: "ghostly".to_owned(),
        joints: vec![joint("base", JointTypeDef::Base, None)],
        systems: vec![SystemDef {
            system_type: SystemTypeDef::Suspension(SuspensionDef {
                joint: "nowhere".to_owned(),
                stiffness: Fx::one(),
                damping: Fx::one(),
            }),
        }],
    };
    match build_model(&def) {
        Err(ModelError::SystemJointNotFound { joint }) => assert_eq!(joint, "nowhere"),
        other => panic!("expected a system-joint error, got {:?}", other.is_ok()),
    }
}

#[test]
fn round_trip_is_lossless_for_the_car() {
    let def = car_json();
    let model = build_model(&def).unwrap();
    let back = model.to_def();
    assert!(models_equal(&def, &back));
}

#[test]
fn round_trip_is_lossless_for_a_small_model() {
    let mut j = joint("hinge", JointTypeDef::Ry, Some("base"));
    j.transform.position = Vec3 {
        x: Fx::from_int(2),
        y: Fx { raw: -12345 },
        z: Fx { raw: 7 },
    };
    j.inertia.mass = Fx::from_int(3);
    let def = ModelDef {
        name: "tiny".to_owned(),
        joints: vec![joint("base", JointTypeDef::Base, None), j],
        systems: Vec::new(),
    };
    let model = build_model(&def).unwrap();
    let back = model.to_def();
    assert!(models_equal(&def, &back));
}

#[test]
fn car_parameters_match_the_design() {
    let def = car_json();
    let scale = rigid_body::fx::SCALE as f64;
    let v = |x: Fx| x.raw as f64 / scale;

    // suspension: stiffness = 1000*9.81/4/0.1, damping = sqrt(stiffness*250)
    match &def.systems[0].system_type {
        SystemTypeDef::Suspension(s) => {
            assert_eq!(s.joint, "suspension_fl");
            assert!((v(s.stiffness) - 24525.0).abs() < 0.001 * 24525.0);
            assert!((v(s.damping) - (24525.0f64 * 250.0).sqrt()).abs() < 0.001 * 2476.0);
        }
        _ => panic!("expected a suspension attachment first"),
    }
    // corner placement: (1.25, 0.75, -0.3) for the front left
    let fl = &def.joints[7];
    assert_eq!(fl.name, "suspension_fl");
    assert!((v(fl.transform.position.x) - 1.25).abs() < 1e-4);
    assert!((v(fl.transform.position.y) - 0.75).abs() < 1e-4);
    assert!((v(fl.transform.position.z) + 0.3).abs() < 1e-4);
    assert!((v(fl.inertia.mass) - 10.0).abs() < 1e-4);
    // chassis: mass 1000 with the box inertia of 3.0 x 1.25 x 0.4
    let chassis = &def.joints[6];
    assert_eq!(chassis.name, "chassis_rx");
    assert!((v(chassis.inertia.mass) - 1000.0).abs() < 1e-4);
    assert!((v(chassis.inertia.inertia.xx) - 1000.0 / 12.0 * (1.25f64 * 1.25 + 0.4 * 0.4)).abs() < 0.1);
    assert!((v(chassis.inertia.inertia.yy) - 1000.0 / 12.0 * (3.0f64 * 3.0 + 0.4 * 0.4)).abs() < 0.1);
    assert!((v(chassis.inertia.inertia.zz) - 1000.0 / 12.0 * (3.0f64 * 3.0 + 1.25 * 1.25)).abs() < 0.1);
    // steering limit: 30 degrees
    match &def.systems[4].system_type {
        SystemTypeDef::Steering(s) => {
            assert_eq!(s.joint, "steering_fl");
            assert!((v(s.max_angle) - 30.0f64.to_radians()).abs() < 1e-3);
        }
        _ => panic!("expected a steering attachment fifth"),
    }
    // rear drive torque 400, front brake 800, rear brake 400, exactly
    match &def.systems[10].system_type {
        SystemTypeDef::Drive(s) => {
            assert_eq!(s.joint, "wheel_rl");
            assert_eq!(s.max_torque.raw, 400 * rigid_body::fx::SCALE);
        }
        _ => panic!("expected the rear-left drive attachment"),
    }
    match &def.systems[6].system_type {
        SystemTypeDef::Brake(s) => {
            assert_eq!(s.joint, "wheel_fl");
            assert_eq!(s.max_torque.raw, 800 * rigid_body::fx::SCALE);
        }
        _ => panic!("expected the front-left brake attachment"),
    }
    match &def.systems[11].system_type {
        SystemTypeDef::Brake(s) => {
            assert_eq!(s.joint, "wheel_rl");
            assert_eq!(s.max_torque.raw, 400 * rigid_body::fx::SCALE);
        }
        _ => panic!("expected the rear-left brake attachment"),
    }
    // tire: radius 0.325, stiffness 1000*9.81/4/0.005, coefficients 0.2 / 0.5
    match &def.systems[7].system_type {
        SystemTypeDef::TireContact(s) => {
            assert_eq!(s.joint, "wheel_fl");
            assert!((v(s.radius) - 0.325).abs() < 1e-4);
            assert!((v(s.stiffness) - 490500.0).abs() < 0.003 * 490500.0);
            assert!((v(s.longitudinal_stiffness) - 0.2).abs() < 1e-4);
            assert!((v(s.lateral_stiffness) - 0.5).abs() < 1e-4);
        }
        _ => panic!("expected the front-left tire attachment"),
    }
}

#[test]
fn car_description_has_the_expected_shape() {
    let def = car_json();
    assert_eq!(def.name, "car");
    assert_eq!(def.joints.len(), 17);
    assert_eq!(def.systems.len(), 16);
    assert!(matches!(def.joints[0].joint_type, JointTypeDef::Base));
    // the wheels come last, parented on steering in front, suspension in the rear
    assert_eq!(def.joints[16].name, "wheel_rr");
    assert_eq!(def.joints[16].parent.as_deref(), Some("suspension_rr"));
    assert_eq!(def.joints[13].name, "wheel_fl");
    assert_eq!(def.joints[13].parent.as_deref(), Some("steering_fl"));
}
