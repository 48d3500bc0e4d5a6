//! The joint arena: the forest the traversal passes walk, built from a
//! declarative description and re-serializable to an equal description.
//!
//! Joints are held in declaration order; every joint's parent index points
//! strictly earlier in the arena, so an outward pass is a forward scan and
//! an inward pass a backward scan.

use vstd::prelude::*;

use crate::joint::{def_of_joint_type, joint_type_of_def, Joint, JointV};
use crate::serialize::{
    clone_system_type, sys_joint_name, system_joint_name, system_type_view, JointDef, JointDefV,
    ModelDef, ModelDefV, SystemDef, SystemDefV, SystemTypeDef,
};
use crate::sva::{mo_zero, Motion};

verus! {

/// One force-system attachment, resolved to its joint's arena index; the
/// original record is retained verbatim for re-serialization.
#[derive(Debug)]
pub struct Attachment {
    pub joint: usize,
    pub def: SystemTypeDef,
}

/// Spec view of an attachment.
pub struct AttachmentV {
    pub joint: int,
    pub def: SystemDefV,
}

impl View for Attachment {
    type V = AttachmentV;

    open spec fn view(&self) -> AttachmentV {
        AttachmentV { joint: self.joint as int, def: system_type_view(self.def) }
    }
}

/// The model: the joint arena plus its force-system attachments.
#[derive(Debug)]
pub struct Model {
    pub name: String,
    pub joints: Vec<Joint>,
    pub systems: Vec<Attachment>,
}

/// Spec view of a model.
pub struct ModelV {
    pub name: Seq<char>,
    pub joints: Seq<JointV>,
    pub systems: Seq<AttachmentV>,
}

impl View for Model {
    type V = ModelV;

    open spec fn view(&self) -> ModelV {
        ModelV {
            name: self.name@,
            joints: self.joints@.map_values(|j: Joint| j@),
            systems: self.systems@.map_values(|s: Attachment| s@),
        }
    }
}

/// A model-construction error, identifying the offending joint name.
#[derive(Debug, Clone)]
pub enum ModelError {
    /// A joint's name repeats an earlier joint's name.
    DuplicateName { name: String },
    /// A joint names a parent that was not declared before it.
    ParentNotFound { joint: String, parent: String },
    /// A system attachment names a joint the description does not declare.
    SystemJointNotFound { joint: String },
}

/// The topological invariant of a built model: every parent index points
/// strictly earlier in the arena, names are unique, and every attachment's
/// joint index is in range.
pub open spec fn model_topo_wf(m: ModelV) -> bool {
    &&& forall|i: int|
        0 <= i < m.joints.len() ==> match #[trigger] m.joints[i].parent {
            Some(p) => 0 <= p < i,
            None => true,
        }
    &&& forall|i: int, j: int|
        0 <= i < j < m.joints.len() ==> m.joints[i].name != m.joints[j].name
    &&& forall|k: int| 0 <= k < m.systems.len() ==> 0 <= #[trigger] m.systems[k].joint < m.joints.len()
}

/// Every attachment's joint index is in range (a consequence of
/// `model_topo_wf` that the force-injection scans need on their own).
pub open spec fn systems_in_range(m: ModelV) -> bool {
    forall|k: int| 0 <= k < m.systems.len() ==> 0 <= #[trigger] m.systems[k].joint < m.joints.len()
}

/// Whether the joint list of a description is well formed: unique names,
/// and every declared parent appears strictly earlier in the list.
pub open spec fn joints_well_formed(joints: Seq<JointDefV>) -> bool {
    &&& forall|i: int, j: int| 0 <= i < j < joints.len() ==> joints[i].name != joints[j].name
    &&& forall|j: int|
        0 <= j < joints.len() ==> match #[trigger] joints[j].parent {
            Some(p) => exists|k: int| 0 <= k < j && joints[k].name == p,
            None => true,
        }
}

/// Whether one system attachment names a declared joint.
pub open spec fn system_resolves(d: ModelDefV, s: int) -> bool {
    exists|k: int| 0 <= k < d.joints.len() && #[trigger] d.joints[k].name == sys_joint_name(
        d.systems[s],
    )
}

/// Whether every system attachment of a description names a declared joint.
pub open spec fn systems_well_formed(d: ModelDefV) -> bool {
    forall|s: int| 0 <= s < d.systems.len() ==> #[trigger] system_resolves(d, s)
}

/// Whether a whole description is well formed (construction succeeds on
/// exactly these descriptions).
pub open spec fn def_well_formed(d: ModelDefV) -> bool {
    joints_well_formed(d.joints) && systems_well_formed(d)
}

/// The description a built model re-serializes to.
pub open spec fn model_to_def_v(m: ModelV) -> ModelDefV {
    ModelDefV {
        name: m.name,
        joints: Seq::new(
            m.joints.len(),
            |i: int|
                JointDefV {
                    name: m.joints[i].name,
                    joint_type: def_of_joint_type(m.joints[i].joint_type),
                    parent: match m.joints[i].parent {
                        Some(p) => Some(m.joints[p].name),
                        None => None,
                    },
                    transform: m.joints[i].transform_def,
                    inertia: m.joints[i].inertia_def,
                    meshes: m.joints[i].meshes,
                },
        ),
        systems: Seq::new(m.systems.len(), |k: int| m.systems[k].def),
    }
}

/// Find the first joint with the given name.
pub fn find_joint(joints: &Vec<Joint>, name: &String) -> (r: Option<usize>)
    ensures
        match r {
            Some(i) => 0 <= i < joints@.len() && joints@[i as int]@.name == name@,
            None => forall|k: int| 0 <= k < joints@.len() ==> joints@[k]@.name != name@,
        },
{
    let mut k: usize = 0;
    while k < joints.len()
        invariant
            k <= joints@.len(),
            forall|i: int| 0 <= i < k ==> joints@[i]@.name != name@,
        decreases joints@.len() - k,
    {
        if joints[k].name == *name {
            return Some(k);
        }
        k = k + 1;
    }
    None
}

/// Build the joint arena from the description's joint records, resolving
/// each declared parent to its arena index. Reports the first duplicated
/// name or unresolved parent; succeeds exactly on well-formed joint lists.
pub fn build_joints(model: &ModelDef) -> (r: Result<Vec<Joint>, ModelError>)
    ensures
        match r {
            Ok(joints) => {
                &&& joints_well_formed(model@.joints)
                &&& joints@.len() == model@.joints.len()
                &&& built_all_match(joints@.map_values(|j: Joint| j@), model@.joints)
            },
            Err(e) => {
                &&& !joints_well_formed(model@.joints)
                &&& match e {
                    ModelError::DuplicateName { name } => exists|i: int, j: int|
                        0 <= i < j < model@.joints.len() && model@.joints[i].name
                            == model@.joints[j].name && model@.joints[j].name == name@,
                    ModelError::ParentNotFound { joint, parent } => exists|j: int|
                        0 <= j < model@.joints.len() && model@.joints[j].name == joint@
                            && model@.joints[j].parent == Some(parent@) && !(exists|k: int|
                            0 <= k < j && model@.joints[k].name == parent@),
                    ModelError::SystemJointNotFound { .. } => false,
                }
            },
        },
{
    let mut joints: Vec<Joint> = Vec::new();
    let ghost defs = model@.joints;
    let mut idx: usize = 0;
    while idx < model.joints.len()
        invariant
            idx <= model.joints@.len(),
            defs == model@.joints,
            defs.len() == model.joints@.len(),
            joints@.len() == idx,
            built_all_match(joints@.map_values(|j: Joint| j@), defs),
            built_names_distinct(joints@.map_values(|j: Joint| j@)),
        decreases model.joints@.len() - idx,
    {
        let ghost built_before = joints@.map_values(|j2: Joint| j2@);
        let jd = &model.joints[idx];
        proof {
            assert(jd@ == defs[idx as int]);
        }
        match find_joint(&joints, &jd.name) {
            Some(di) => {
                proof {
                    assert(built_matches(built_before, defs, di as int));
                    assert(defs[di as int].name == defs[idx as int].name);
                    assert(!joints_well_formed(defs));
                }
                return Err(ModelError::DuplicateName { name: jd.name.clone() });
            },
            None => {},
        }
        let mut j = Joint::from_joint_def(jd);
        match &jd.parent {
            Some(pname) => {
                match find_joint(&joints, pname) {
                    Some(pi) => {
                        j.parent = Some(pi);
                    },
                    None => {
                        proof {
                            assert forall|k: int| 0 <= k < idx implies #[trigger] defs[k].name
                                != pname@ by {
                                assert(built_matches(built_before, defs, k));
                                assert(joints@[k]@.name != pname@);
                            }
                            assert(defs[idx as int].parent == Some(pname@));
                            assert(!joints_well_formed(defs));
                        }
                        return Err(ModelError::ParentNotFound {
                            joint: jd.name.clone(),
                            parent: pname.clone(),
                        });
                    },
                }
            },
            None => {},
        }
        joints.push(j);
        proof {
            let built = joints@.map_values(|j2: Joint| j2@);
            assert(built =~= built_before.push(j@));
            assert(built_matches(built, defs, idx as int));
            assert forall|i: int| 0 <= i < idx + 1 implies #[trigger] built_matches(
                built,
                defs,
                i,
            ) by {
                if i < idx {
                    assert(built_matches(built_before, defs, i));
                }
            }
            assert(built_names_distinct(built)) by {
                assert(forall|k: int| 0 <= k < idx ==> built[k].name != j@.name);
            }
        }
        idx = idx + 1;
    }
    proof {
        let built = joints@.map_values(|j: Joint| j@);
        assert forall|i: int, j: int|
            0 <= i < j < defs.len() implies defs[i].name != defs[j].name by {
            assert(built_matches(built, defs, i));
            assert(built_matches(built, defs, j));
        }
        assert forall|j: int|
            0 <= j < defs.len() implies match #[trigger] defs[j].parent {
            Some(p) => exists|k: int| 0 <= k < j && defs[k].name == p,
            None => true,
        } by {
            assert(built_matches(built, defs, j));
            match defs[j].parent {
                Some(p) => {
                    let pi = built[j].parent->0;
                    assert(built_matches(built, defs, pi));
                    assert(0 <= pi < j && defs[pi].name == p);
                },
                None => {},
            }
        }
    }
    Ok(joints)
}

/// A joint after the base-acceleration write: base joints get the new
/// prescribed acceleration, every other joint is unchanged.
pub open spec fn with_base_accel(j: JointV, a: crate::sva::MoV) -> JointV {
    if j.joint_type is Base {
        JointV { a: a, ..j }
    } else {
        j
    }
}

/// The kind tags survive the round trip through the joint kind.
proof fn lemma_type_tag_roundtrip(t: crate::serialize::JointTypeDef)
    ensures
        def_of_joint_type(joint_type_of_def(t)) == t,
{
}

/// Build the whole model from a description: the joint arena, then the
/// force-system attachments resolved to arena indices. Succeeds exactly on
/// well-formed descriptions, and the built model re-serializes to a
/// description equal to the input, field for field.
pub fn build_model(model_def: &ModelDef) -> (r: Result<Model, ModelError>)
    ensures
        match r {
            Ok(m) => {
                &&& def_well_formed(model_def@)
                &&& model_topo_wf(m@)
                &&& model_to_def_v(m@) == model_def@
                &&& m@.systems.len() == model_def@.systems.len()
                &&& forall|k: int|
                    0 <= k < m@.systems.len() ==> m@.joints[(#[trigger] m@.systems[k]).joint].name
                        == sys_joint_name(model_def@.systems[k])
            },
            Err(e) => {
                &&& !def_well_formed(model_def@)
                &&& match e {
                    ModelError::SystemJointNotFound { joint } => exists|s: int|
                        0 <= s < model_def@.systems.len() && sys_joint_name(
                            #[trigger] model_def@.systems[s],
                        ) == joint@ && !system_resolves(model_def@, s),
                    _ => !joints_well_formed(model_def@.joints),
                }
            },
        },
{
    let ghost defs = model_def@.joints;
    let joints = match build_joints(model_def) {
        Ok(j) => j,
        Err(e) => {
            proof {
                match e {
                    ModelError::SystemJointNotFound { .. } => {
                        assert(false);
                    },
                    _ => {},
                }
            }
            return Err(e);
        },
    };
    let ghost built = joints@.map_values(|j: Joint| j@);
    let mut systems: Vec<Attachment> = Vec::new();
    let mut k: usize = 0;
    while k < model_def.systems.len()
        invariant
            k <= model_def.systems@.len(),
            defs == model_def@.joints,
            built == joints@.map_values(|j: Joint| j@),
            built.len() == defs.len(),
            built_all_match(built, defs),
            joints_well_formed(defs),
            systems@.len() == k,
            forall|s: int|
                0 <= s < k ==> (#[trigger] systems@[s]@).def == model_def@.systems[s],
            forall|s: int|
                0 <= s < k ==> 0 <= (#[trigger] systems@[s]@).joint < built.len(),
            forall|s: int|
                0 <= s < k ==> built[(#[trigger] systems@[s]@).joint].name == sys_joint_name(
                    model_def@.systems[s],
                ),
        decreases model_def.systems@.len() - k,
    {
        let sd = &model_def.systems[k];
        proof {
            assert(sd@ == model_def@.systems[k as int]);
        }
        let jn = system_joint_name(&sd.system_type);
        match find_joint(&joints, jn) {
            Some(ji) => {
                systems.push(Attachment { joint: ji, def: clone_system_type(&sd.system_type) });
            },
            None => {
                proof {
                    assert forall|i: int| 0 <= i < defs.len() implies #[trigger] defs[i].name
                        != jn@ by {
                        assert(built_matches(built, defs, i));
                        assert(joints@[i]@.name != jn@);
                    }
                    assert(sys_joint_name(model_def@.systems[k as int]) == jn@);
                    assert(!system_resolves(model_def@, k as int)) by {
                        if system_resolves(model_def@, k as int) {
                            let w = choose|k2: int|
                                0 <= k2 < model_def@.joints.len() && #[trigger] model_def@
                                    .joints[k2].name == sys_joint_name(
                                    model_def@.systems[k as int],
                                );
                            assert(defs[w].name != jn@);
                        }
                    }
                    assert(!systems_well_formed(model_def@));
                }
                return Err(ModelError::SystemJointNotFound { joint: jn.clone() });
            },
        }
        k = k + 1;
    }
    let ghost sysatt = systems@.map_values(|a: Attachment| a@);
    proof {
        assert forall|s: int| 0 <= s < model_def@.systems.len() implies #[trigger] system_resolves(
            model_def@,
            s,
        ) by {
            let ji = systems@[s]@.joint;
            assert(built_matches(built, defs, ji));
            assert(model_def@.joints[ji].name == sys_joint_name(model_def@.systems[s]));
        }
        assert(systems_well_formed(model_def@));
        assert forall|s: int|
            0 <= s < sysatt.len() implies built[(#[trigger] sysatt[s]).joint].name
            == sys_joint_name(model_def@.systems[s]) by {
            assert(sysatt[s] == systems@[s]@);
        }
    }
    let m = Model { name: model_def.name.clone(), joints, systems };
    proof {
        assert(m@.joints == built);
        assert(m@.systems == sysatt);
        assert(model_topo_wf(m@)) by {
            assert forall|i: int| 0 <= i < m@.joints.len() implies match #[trigger] m@.joints[i]
                .parent {
                Some(p) => 0 <= p < i,
                None => true,
            } by {
                assert(built_matches(built, defs, i));
            }
            assert forall|i: int, j: int|
                0 <= i < j < m@.joints.len() implies m@.joints[i].name != m@.joints[j].name by {
                assert(built_matches(built, defs, i));
                assert(built_matches(built, defs, j));
            }
        }
        assert(model_to_def_v(m@) == model_def@) by {
            assert(model_to_def_v(m@).joints =~= model_def@.joints) by {
                assert forall|i: int|
                    0 <= i < built.len() implies model_to_def_v(m@).joints[i]
                    == model_def@.joints[i] by {
                    assert(built_matches(built, defs, i));
                    lemma_type_tag_roundtrip(defs[i].joint_type);
                    match defs[i].parent {
                        Some(p) => {
                            let pi = built[i].parent->0;
                            assert(built_matches(built, defs, pi));
                        },
                        None => {},
                    }
                }
            }
            assert(model_to_def_v(m@).systems =~= model_def@.systems);
            assert(model_to_def_v(m@) =~= model_def@);
        }
    }
    Ok(m)
}

impl Model {
    /// Re-serialize this model to a declarative description.
    pub fn to_def(&self) -> (r: ModelDef)
        requires
            model_topo_wf(self@),
        ensures
            r@ == model_to_def_v(self@),
    {
        let mut joints: Vec<JointDef> = Vec::new();
        let mut k: usize = 0;
        while k < self.joints.len()
            invariant
                k <= self.joints@.len(),
                model_topo_wf(self@),
                joints@.len() == k,
                forall|i: int|
                    0 <= i < k ==> (#[trigger] joints@[i])@ == model_to_def_v(self@).joints[i],
            decreases self.joints@.len() - k,
        {
            let j = &self.joints[k];
            proof {
                assert(j@ == self@.joints[k as int]);
            }
            let parent: Option<String> = match j.parent {
                Some(p) => {
                    proof {
                        assert(self@.joints[k as int].parent == Some(p as int));
                    }
                    Some(self.joints[p].name.clone())
                },
                None => None,
            };
            joints.push(
                JointDef {
                    name: j.name.clone(),
                    joint_type: crate::joint::joint_type_def_of(j.joint_type),
                    parent,
                    transform: j.transform_def,
                    inertia: j.inertia_def,
                    meshes: crate::joint::clone_meshes(&j.meshes),
                },
            );
            k = k + 1;
        }
        let mut systems: Vec<SystemDef> = Vec::new();
        let mut s: usize = 0;
        while s < self.systems.len()
            invariant
                s <= self.systems@.len(),
                model_topo_wf(self@),
                systems@.len() == s,
                forall|i: int|
                    0 <= i < s ==> (#[trigger] systems@[i])@ == model_to_def_v(self@).systems[i],
            decreases self.systems@.len() - s,
        {
            systems.push(SystemDef { system_type: clone_system_type(&self.systems[s].def) });
            s = s + 1;
        }
        let r = ModelDef { joints, name: self.name.clone(), systems };
        proof {
            assert(r@.joints =~= model_to_def_v(self@).joints);
            assert(r@.systems =~= model_to_def_v(self@).systems);
            assert(r@ =~= model_to_def_v(self@));
        }
        r
    }

    /// Overwrite the prescribed absolute acceleration of every base joint
    /// (gravity enters the solver here); all other joints and fields are
    /// untouched.
    pub fn set_base_acceleration(&mut self, a: Motion)
        ensures
            final(self)@.name == old(self)@.name,
            final(self)@.systems == old(self)@.systems,
            final(self)@.joints.len() == old(self)@.joints.len(),
            forall|i: int|
                0 <= i < old(self)@.joints.len() ==> #[trigger] final(self)@.joints[i]
                    == with_base_accel(old(self)@.joints[i], a@),
            model_topo_wf(old(self)@) ==> model_topo_wf(final(self)@),
    {
        let ghost orig = self@;
        let n = self.joints.len();
        let mut k: usize = 0;
        while k < n
            invariant
                k <= n,
                n == self.joints@.len(),
                orig == old(self)@,
                self.name@ == orig.name,
                self.systems@.map_values(|s: Attachment| s@) == orig.systems,
                self.joints@.len() == orig.joints.len(),
                forall|i: int|
                    0 <= i < k ==> (#[trigger] self.joints@[i])@ == with_base_accel(
                        orig.joints[i],
                        a@,
                    ),
                forall|i: int| k <= i < n ==> (#[trigger] self.joints@[i])@ == orig.joints[i],
            decreases n - k,
        {
            let ghost prev = self.joints@.map_values(|j: Joint| j@);
            let is_base = match self.joints[k].joint_type {
                crate::joint::JointType::Base => true,
                _ => false,
            };
            if is_base {
                self.joints[k].a = a;
            }
            proof {
                assert(self.joints@[k as int]@ == with_base_accel(prev[k as int], a@));
                assert forall|i: int| 0 <= i < n && i != k implies self.joints@[i]@ == prev[i] by {
                }
            }
            k = k + 1;
        }
        proof {
            if model_topo_wf(old(self)@) {
                assert forall|i: int|
                    0 <= i < self@.joints.len() implies match #[trigger] self@.joints[i].parent {
                    Some(p) => 0 <= p < i,
                    None => true,
                } by {
                    assert(self@.joints[i].parent == old(self)@.joints[i].parent);
                }
                assert forall|i: int, j: int|
                    0 <= i < j < self@.joints.len() implies self@.joints[i].name
                    != self@.joints[j].name by {
                    assert(self@.joints[i].name == old(self)@.joints[i].name);
                    assert(self@.joints[j].name == old(self)@.joints[j].name);
                }
            }
        }
    }
}

/// Pairwise distinctness of built joint names.
pub open spec fn built_names_distinct(built: Seq<JointV>) -> bool {
    forall|i: int, j: int| 0 <= i < j < built.len() ==> built[i].name != built[j].name
}

/// Every built joint matches its source record.
pub open spec fn built_all_match(built: Seq<JointV>, defs: Seq<JointDefV>) -> bool {
    forall|i: int| 0 <= i < built.len() ==> #[trigger] built_matches(built, defs, i)
}

/// What one built joint says about its source record: the identity and
/// payload carry over, and a declared parent resolves to the arena index of
/// the (unique, earlier) joint with the parent's name.
pub open spec fn built_matches(built: Seq<JointV>, defs: Seq<JointDefV>, i: int) -> bool {
    &&& 0 <= i < built.len()
    &&& built.len() <= defs.len()
    &&& built[i].name == defs[i].name
    &&& built[i].joint_type == joint_type_of_def(defs[i].joint_type)
    &&& built[i].transform_def == defs[i].transform
    &&& built[i].inertia_def == defs[i].inertia
    &&& built[i].meshes == defs[i].meshes
    &&& built[i].q == 0 && built[i].qd == 0 && built[i].qdd == 0
    &&& built[i].a == mo_zero()
    &&& built[i].s == crate::joint::axis_of(built[i].joint_type)
    &&& built[i].i == crate::sva::in_from_def(defs[i].inertia)
    &&& built[i].xt == crate::sva::xf_from_def(defs[i].transform)
    &&& match defs[i].parent {
        Some(p) => match built[i].parent {
            Some(pi) => 0 <= pi < i && built[pi].name == p,
            None => false,
        },
        None => built[i].parent == None::<int>,
    }
}

} // verus!
