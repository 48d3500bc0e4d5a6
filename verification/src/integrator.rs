//! The integrator: classical fourth-order Runge-Kutta over the generalized
//! state vector, with one full dynamics evaluation (force injection plus the
//! three traversal passes) per stage.

use vstd::prelude::*;

use crate::fx::{fx_divi, Fx};
use crate::joint::{Joint, JointV};
use crate::model::{AttachmentV, Model};
use crate::physics::{
    brake_from, brake_wheel_system, driven_wheel_system, drive_from, steer_from, steering_system,
    susp_from, suspension_system, tire_contact_system, tire_from, CarControl,
};
use crate::state::{
    get_model_dstate, get_model_state, set_model_state, sv_add, sv_scale, StateV, StateVector,
};
use crate::structure::{
    apply_ext_all, apply_external_forces, init_ab_all, loop_1, loop_23, parents_earlier,
    pass1_from, pass2_down, pass3_from, views_of, with_states,
};
use crate::sva::fo_zero;

verus! {

/// A joint with its per-step accumulators cleared.
pub open spec fn reset_upd(j: JointV) -> JointV {
    JointV { qdd: 0, f_ext: fo_zero(), tau: 0, ..j }
}

/// The reset scan, every joint independently.
pub open spec fn reset_all(s: Seq<JointV>) -> Seq<JointV> {
    Seq::new(s.len(), |i: int| reset_upd(s[i]))
}

/// The state derivative read back from the arena: (velocity, acceleration)
/// per joint.
pub open spec fn dstate_of(s: Seq<JointV>) -> Seq<StateV> {
    Seq::new(s.len(), |i: int| StateV { q: s[i].qd, qd: s[i].qdd })
}

/// One full dynamics evaluation on the arena: write the candidate state,
/// clear the accumulators, run the steering servo and the outward
/// kinematics, inject the suspension, tire, drive and brake forces, resolve
/// external forces, and run the inward and outward dynamics passes.
#[verifier::opaque]
pub open spec fn eval_views(
    s: Seq<JointV>,
    sys: Seq<AttachmentV>,
    c: CarControl,
    states: Seq<StateV>,
) -> Seq<JointV> {
    let s1 = reset_all(with_states(s, states));
    let s2 = pass1_from(steer_from(s1, sys, 0, c.steering@), 0);
    let s3 = susp_from(s2, sys, 0);
    let s4 = tire_from(s3, sys, 0);
    let s5 = drive_from(s4, sys, 0, c.throttle@);
    let s6 = brake_from(s5, sys, 0, c.brake@);
    let s7 = apply_ext_all(s6);
    pass3_from(pass2_down(init_ab_all(s7), s.len() - 1), 0)
}

/// Clear every joint's per-step accumulators (executable twin of
/// `reset_all`).
fn reset_scan(joints: &mut Vec<Joint>)
    ensures
        final(joints)@.len() == old(joints)@.len(),
        views_of(final(joints)@) == reset_all(views_of(old(joints)@)),
        forall|i: int|
            0 <= i < old(joints)@.len() ==> views_of(final(joints)@)[i].parent == views_of(
                old(joints)@,
            )[i].parent,
{
    let ghost orig = views_of(joints@);
    let n = joints.len();
    let mut k: usize = 0;
    while k < n
        invariant
            k <= n,
            n == joints@.len(),
            orig == views_of(old(joints)@),
            orig.len() == n,
            forall|i: int| 0 <= i < k ==> views_of(joints@)[i] == reset_all(orig)[i],
            forall|i: int| k <= i < n ==> views_of(joints@)[i] == orig[i],
        decreases n - k,
    {
        let ghost cur = views_of(joints@);
        let jm = &mut joints[k];
        jm.reset();
        proof {
            assert(views_of(joints@)[k as int] == reset_all(orig)[k as int]);
            assert forall|i: int| 0 <= i < n && i != k implies views_of(joints@)[i] == cur[i] by {}
        }
        k = k + 1;
    }
    proof {
        assert(views_of(joints@) =~= reset_all(orig));
    }
}

/// One derivative evaluation for the integrator (executable twin of
/// `eval_views`): the arena afterwards holds the evaluated configuration,
/// and the returned vector is the state derivative read from it.
#[verifier::rlimit(100)]
pub fn dynamics_eval(model: &mut Model, control: &CarControl, states: &StateVector) -> (d:
    StateVector)
    requires
        parents_earlier(views_of(old(model).joints@)),
        crate::model::systems_in_range(old(model)@),
        old(model).joints@.len() <= states@.len(),
    ensures
        final(model).name@ == old(model).name@,
        final(model).systems@ == old(model).systems@,
        final(model).joints@.len() == old(model).joints@.len(),
        views_of(final(model).joints@) == eval_views(
            views_of(old(model).joints@),
            old(model)@.systems,
            *control,
            states@,
        ),
        parents_earlier(views_of(final(model).joints@)),
        d@ == dstate_of(views_of(final(model).joints@)),
{
    let ghost j0 = views_of(old(model).joints@);
    let ghost sys0 = old(model)@.systems;
    set_model_state(&mut model.joints, states);
    proof {
        assert(views_of(model.joints@) =~= with_states(j0, states@));
        assert forall|i: int|
            0 <= i < model.joints@.len() implies match #[trigger] views_of(
            model.joints@,
        )[i].parent {
            Some(p) => 0 <= p < i,
            None => true,
        } by {
            assert(views_of(model.joints@)[i].parent == views_of(old(model).joints@)[i].parent);
        }
    }
    reset_scan(&mut model.joints);
    let ghost s1 = reset_all(with_states(j0, states@));
    proof {
        assert(views_of(model.joints@) == s1);
        assert forall|i: int|
            0 <= i < model.joints@.len() implies match #[trigger] views_of(
            model.joints@,
        )[i].parent {
            Some(p) => 0 <= p < i,
            None => true,
        } by {
            assert(views_of(model.joints@)[i].parent == views_of(old(model).joints@)[i].parent);
        }
        assert(crate::model::systems_in_range(model@)) by {
            assert(model@.systems =~= old(model)@.systems);
            assert(model@.joints.len() == old(model)@.joints.len());
        }
    }
    steering_system(model, control);
    let ghost s1s = steer_from(s1, sys0, 0, control.steering@);
    proof {
        assert(model@.systems =~= sys0);
        assert(views_of(model.joints@) == s1s);
        lemma_scan_parents(views_of(model.joints@), j0);
    }
    loop_1(&mut model.joints);
    let ghost s2 = pass1_from(s1s, 0);
    proof {
        assert(views_of(model.joints@) == s2);
        assert(crate::model::systems_in_range(model@)) by {
            assert(model@.systems =~= old(model)@.systems);
            assert(model@.joints.len() == old(model)@.joints.len());
        }
    }
    suspension_system(model);
    let ghost s3 = susp_from(s2, sys0, 0);
    proof {
        assert(views_of(model.joints@) == s3);
    }
    tire_contact_system(model);
    let ghost s4 = tire_from(s3, sys0, 0);
    proof {
        assert(views_of(model.joints@) == s4);
    }
    driven_wheel_system(model, control);
    let ghost s5 = drive_from(s4, sys0, 0, control.throttle@);
    proof {
        assert(views_of(model.joints@) == s5);
    }
    brake_wheel_system(model, control);
    let ghost s6 = brake_from(s5, sys0, 0, control.brake@);
    proof {
        assert(views_of(model.joints@) == s6);
        lemma_scan_parents(views_of(model.joints@), s2);
    }
    apply_external_forces(&mut model.joints);
    let ghost s7 = apply_ext_all(s6);
    proof {
        assert(views_of(model.joints@) == s7);
        lemma_apply_ext_parents(s7, s6);
        lemma_scan_parents(s7, s2);
    }
    loop_23(&mut model.joints);
    proof {
        assert(views_of(model.joints@) == pass3_from(pass2_down(init_ab_all(s7), s7.len() - 1), 0));
        assert(s7.len() == j0.len());
        reveal(crate::integrator::eval_views);
        assert(views_of(model.joints@) == eval_views(j0, sys0, *control, states@));
    }
    let d = get_model_dstate(&model.joints);
    proof {
        assert(d@ =~= dstate_of(views_of(model.joints@)));
    }
    d
}

/// The (position, velocity) state read from the arena.
pub open spec fn state_of(s: Seq<JointV>) -> Seq<StateV> {
    Seq::new(s.len(), |i: int| StateV { q: s[i].q, qd: s[i].qd })
}

/// One classical RK4 step: four derivative evaluations at blended states,
/// weighted 1:2:2:1 and scaled by h/6. The first component is the next
/// state vector; the second is the arena as the fourth evaluation left it
/// (the next state is then written into it).
pub open spec fn rk4_result(
    j0: Seq<JointV>,
    sys: Seq<AttachmentV>,
    c: CarControl,
    s0: Seq<StateV>,
    h: int,
) -> (Seq<StateV>, Seq<JointV>) {
    let j1 = eval_views(j0, sys, c, s0);
    let k1 = dstate_of(j1);
    let half = fx_divi(h, 2);
    let j2 = eval_views(j1, sys, c, sv_add(s0, sv_scale(k1, half)));
    let k2 = dstate_of(j2);
    let j3 = eval_views(j2, sys, c, sv_add(s0, sv_scale(k2, half)));
    let k3 = dstate_of(j3);
    let j4 = eval_views(j3, sys, c, sv_add(s0, sv_scale(k3, h)));
    let k4 = dstate_of(j4);
    let two = 2 * (crate::fx::SCALE as int);
    let sum = sv_add(sv_add(sv_add(k1, sv_scale(k2, two)), sv_scale(k3, two)), k4);
    (sv_add(s0, sv_scale(sum, fx_divi(h, 6))), j4)
}

/// Advance the model one fixed timestep with classical fourth-order
/// Runge-Kutta: evaluate the full dynamics four times at blended candidate
/// states, combine the stage derivatives 1:2:2:1 scaled by h/6, and write
/// the resulting state back into every joint. Returns the new state vector.
#[verifier::rlimit(100)]
pub fn rk4_step(model: &mut Model, control: &CarControl, h: Fx) -> (r: StateVector)
    requires
        parents_earlier(views_of(old(model).joints@)),
        crate::model::systems_in_range(old(model)@),
    ensures
        final(model).name@ == old(model).name@,
        final(model).systems@ == old(model).systems@,
        final(model).joints@.len() == old(model).joints@.len(),
        r@ == rk4_result(
            views_of(old(model).joints@),
            old(model)@.systems,
            *control,
            state_of(views_of(old(model).joints@)),
            h@,
        ).0,
        views_of(final(model).joints@) == with_states(
            rk4_result(
                views_of(old(model).joints@),
                old(model)@.systems,
                *control,
                state_of(views_of(old(model).joints@)),
                h@,
            ).1,
            r@,
        ),
        parents_earlier(views_of(final(model).joints@)),
{
    let ghost j0 = views_of(old(model).joints@);
    let ghost sys0 = old(model)@.systems;
    let s0 = get_model_state(&model.joints);
    proof {
        assert(s0@ =~= state_of(j0));
    }
    let k1 = dynamics_eval(model, control, &s0);
    let ghost j1 = eval_views(j0, sys0, *control, s0@);
    proof {
        assert(views_of(model.joints@) == j1);
        assert(k1@ =~= dstate_of(j1));
    }
    let half_h = h.divi(2);
    let b2 = s0.add(&k1.scale(half_h));
    let k2 = dynamics_eval(model, control, &b2);
    let ghost j2 = eval_views(j1, sys0, *control, b2@);
    proof {
        assert(views_of(model.joints@) == j2);
        assert(k2@ =~= dstate_of(j2));
    }
    let b3 = s0.add(&k2.scale(half_h));
    let k3 = dynamics_eval(model, control, &b3);
    let ghost j3 = eval_views(j2, sys0, *control, b3@);
    proof {
        assert(views_of(model.joints@) == j3);
        assert(k3@ =~= dstate_of(j3));
    }
    let b4 = s0.add(&k3.scale(h));
    let k4 = dynamics_eval(model, control, &b4);
    let ghost j4 = eval_views(j3, sys0, *control, b4@);
    proof {
        assert(views_of(model.joints@) == j4);
        assert(k4@ =~= dstate_of(j4));
    }
    let two = Fx::from_int(2);
    let sum = k1.add(&k2.scale(two)).add(&k3.scale(two)).add(&k4);
    let snew = s0.add(&sum.scale(h.divi(6)));
    proof {
        assert(two@ == 2 * (crate::fx::SCALE as int));
        assert(snew@ == rk4_result(j0, sys0, *control, s0@, h@).0);
    }
    set_model_state(&mut model.joints, &snew);
    proof {
        assert(views_of(model.joints@) =~= with_states(j4, snew@));
        assert forall|i: int|
            0 <= i < model.joints@.len() implies match #[trigger] views_of(
            model.joints@,
        )[i].parent {
            Some(p) => 0 <= p < i,
            None => true,
        } by {
            assert(views_of(model.joints@)[i].parent == j4[i].parent);
        }
    }
    snew
}

/// The external-force pass keeps every joint's parent.
proof fn lemma_apply_ext_parents(now: Seq<JointV>, before: Seq<JointV>)
    requires
        now == apply_ext_all(before),
    ensures
        now.len() == before.len(),
        forall|i: int| 0 <= i < now.len() ==> #[trigger] now[i].parent == before[i].parent,
{
}

/// The force-injection scans touch only a joint's state and accumulator
/// fields, so parent indices survive them; this lemma is stated as the fact
/// the caller needs after a chain of scans.
proof fn lemma_scan_parents(now: Seq<JointV>, orig: Seq<JointV>)
    requires
        now.len() == orig.len(),
        parents_earlier(orig),
        forall|i: int| 0 <= i < now.len() ==> #[trigger] now[i].parent == orig[i].parent,
    ensures
        parents_earlier(now),
{
    assert forall|i: int|
        0 <= i < now.len() implies match #[trigger] now[i].parent {
        Some(p) => 0 <= p < i,
        None => true,
    } by {
        assert(now[i].parent == orig[i].parent);
    }
}

} // verus!
