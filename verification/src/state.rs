//! The generalized state vector: every joint's (position, velocity) pair in
//! declaration order. The integrator blends these vectors; the traversal
//! engine reads and writes them index-for-index against the joint arena.

use vstd::prelude::*;

use crate::fx::{fx_add, fx_mul, Fx};
use crate::joint::{Joint, JointV};

verus! {

/// Spec view of one joint's state entry.
pub struct StateV {
    pub q: int,
    pub qd: int,
}

/// One joint's (position, velocity) entry of the state vector.
#[derive(Clone, Copy, Debug, PartialEq, Eq, Structural)]
pub struct State {
    pub q: Fx,
    pub qd: Fx,
}

impl View for State {
    type V = StateV;

    open spec fn view(&self) -> StateV {
        StateV { q: self.q@, qd: self.qd@ }
    }
}

pub open spec fn state_add(a: StateV, b: StateV) -> StateV {
    StateV { q: fx_add(a.q, b.q), qd: fx_add(a.qd, b.qd) }
}

pub open spec fn state_scale(a: StateV, s: int) -> StateV {
    StateV { q: fx_mul(a.q, s), qd: fx_mul(a.qd, s) }
}

impl State {
    pub fn add(self, rhs: State) -> (r: State)
        ensures
            r@ == state_add(self@, rhs@),
    {
        State { q: self.q.add(rhs.q), qd: self.qd.add(rhs.qd) }
    }

    pub fn scale(self, rhs: Fx) -> (r: State)
        ensures
            r@ == state_scale(self@, rhs@),
    {
        State { q: self.q.mul(rhs), qd: self.qd.mul(rhs) }
    }
}

/// Elementwise sum of two state vectors of equal length.
pub open spec fn sv_add(a: Seq<StateV>, b: Seq<StateV>) -> Seq<StateV>
    recommends
        a.len() == b.len(),
{
    Seq::new(a.len(), |i: int| state_add(a[i], b[i]))
}

/// Elementwise scaling of a state vector.
pub open spec fn sv_scale(a: Seq<StateV>, s: int) -> Seq<StateV> {
    Seq::new(a.len(), |i: int| state_scale(a[i], s))
}

/// The generalized state of the whole model, one entry per joint, in the
/// arena's fixed order.
#[derive(Debug, Clone)]
pub struct StateVector {
    pub states: Vec<State>,
}

impl View for StateVector {
    type V = Seq<StateV>;

    open spec fn view(&self) -> Seq<StateV> {
        self.states@.map_values(|s: State| s@)
    }
}

impl StateVector {
    /// Elementwise sum with another state vector of the same length.
    pub fn add(&self, rhs: &StateVector) -> (r: StateVector)
        requires
            self@.len() == rhs@.len(),
        ensures
            r@ == sv_add(self@, rhs@),
    {
        let mut states: Vec<State> = Vec::new();
        let mut k: usize = 0;
        while k < self.states.len()
            invariant
                k <= self.states@.len(),
                self@.len() == rhs@.len(),
                self@.len() == self.states@.len(),
                rhs@.len() == rhs.states@.len(),
                states@.len() == k,
                forall|i: int|
                    0 <= i < k ==> states@[i]@ == state_add(self@[i], rhs@[i]),
            decreases self.states@.len() - k,
        {
            states.push(self.states[k].add(rhs.states[k]));
            k = k + 1;
        }
        let r = StateVector { states };
        proof {
            assert(r@ =~= sv_add(self@, rhs@));
        }
        r
    }

    /// Elementwise scaling by a scalar.
    pub fn scale(&self, rhs: Fx) -> (r: StateVector)
        ensures
            r@ == sv_scale(self@, rhs@),
    {
        let mut states: Vec<State> = Vec::new();
        let mut k: usize = 0;
        while k < self.states.len()
            invariant
                k <= self.states@.len(),
                self@.len() == self.states@.len(),
                states@.len() == k,
                forall|i: int|
                    0 <= i < k ==> states@[i]@ == state_scale(self@[i], rhs@),
            decreases self.states@.len() - k,
        {
            states.push(self.states[k].scale(rhs));
            k = k + 1;
        }
        let r = StateVector { states };
        proof {
            assert(r@ =~= sv_scale(self@, rhs@));
        }
        r
    }
}

/// Read every joint's (q, qd) into a state vector, index-for-index.
pub fn get_model_state(joints: &Vec<Joint>) -> (r: StateVector)
    ensures
        r@.len() == joints@.len(),
        forall|i: int|
            0 <= i < joints@.len() ==> r@[i] == (StateV {
                q: joints@[i]@.q,
                qd: joints@[i]@.qd,
            }),
{
    let mut states: Vec<State> = Vec::new();
    let mut k: usize = 0;
    while k < joints.len()
        invariant
            k <= joints@.len(),
            states@.len() == k,
            forall|i: int|
                0 <= i < k ==> states@.map_values(|s: State| s@)[i] == (StateV {
                    q: joints@[i]@.q,
                    qd: joints@[i]@.qd,
                }),
        decreases joints@.len() - k,
    {
        states.push(State { q: joints[k].q, qd: joints[k].qd });
        k = k + 1;
    }
    StateVector { states }
}

/// Read every joint's (qd, qdd) — the derivative of its state —
/// index-for-index.
pub fn get_model_dstate(joints: &Vec<Joint>) -> (r: StateVector)
    ensures
        r@.len() == joints@.len(),
        forall|i: int|
            0 <= i < joints@.len() ==> r@[i] == (StateV {
                q: joints@[i]@.qd,
                qd: joints@[i]@.qdd,
            }),
{
    let mut states: Vec<State> = Vec::new();
    let mut k: usize = 0;
    while k < joints.len()
        invariant
            k <= joints@.len(),
            states@.len() == k,
            forall|i: int|
                0 <= i < k ==> states@.map_values(|s: State| s@)[i] == (StateV {
                    q: joints@[i]@.qd,
                    qd: joints@[i]@.qdd,
                }),
        decreases joints@.len() - k,
    {
        states.push(State { q: joints[k].qd, qd: joints[k].qdd });
        k = k + 1;
    }
    StateVector { states }
}

/// Write a state vector back into the joints, index-for-index; every other
/// joint field is untouched.
pub fn set_model_state(joints: &mut Vec<Joint>, states: &StateVector)
    requires
        old(joints)@.len() <= states@.len(),
    ensures
        final(joints)@.len() == old(joints)@.len(),
        forall|i: int|
            0 <= i < old(joints)@.len() ==> final(joints)@[i]@ == (JointV {
                q: states@[i].q,
                qd: states@[i].qd,
                ..old(joints)@[i]@
            }),
{
    let n = joints.len();
    let mut k: usize = 0;
    while k < n
        invariant
            k <= n,
            n == joints@.len(),
            joints@.len() == old(joints)@.len(),
            old(joints)@.len() <= states@.len(),
            forall|i: int|
                0 <= i < k ==> joints@[i]@ == (JointV {
                    q: states@[i].q,
                    qd: states@[i].qd,
                    ..old(joints)@[i]@
                }),
            forall|i: int| k <= i < n ==> joints@[i]@ == old(joints)@[i]@,
        decreases n - k,
    {
        let j = &mut joints[k];
        j.q = states.states[k].q;
        j.qd = states.states[k].qd;
        k = k + 1;
    }
}

} // verus!
