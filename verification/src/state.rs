//! The 12-component dynamic state of the airframe.
//!
//! The component order is a fixed contract shared with the aerodynamic
//! plugin: `npos, epos, altitude, phi, theta, psi, velocity, alpha, beta,
//! p, q, r`.  Positions and altitude in ft, Euler and aero angles in rad,
//! velocity in ft/s, body rates in rad/s.  The simulator stores the
//! components as IEEE-754 doubles, which the verifier does not reason
//! about, so the record is generic in the scalar: the layout and its
//! round-trip laws hold for every component type.

use vstd::prelude::*;

verus! {

#[derive(Debug, Clone, Copy, PartialEq)]
pub struct State<T> {
    pub npos: T,
    pub epos: T,
    pub altitude: T,
    pub phi: T,
    pub theta: T,
    pub psi: T,
    pub velocity: T,
    pub alpha: T,
    pub beta: T,
    pub p: T,
    pub q: T,
    pub r: T,
}

impl<T> View for State<T> {
    type V = Seq<T>;

    /// A state viewed as its flat 12-component sequence.
    open spec fn view(&self) -> Seq<T> {
        seq![
            self.npos,
            self.epos,
            self.altitude,
            self.phi,
            self.theta,
            self.psi,
            self.velocity,
            self.alpha,
            self.beta,
            self.p,
            self.q,
            self.r,
        ]
    }
}

impl<T: Copy> State<T> {
    /// The state a flat 12-component sequence denotes.
    pub open spec fn of_seq(q: Seq<T>) -> State<T>
        recommends
            q.len() == 12,
    {
        State {
            npos: q[0],
            epos: q[1],
            altitude: q[2],
            phi: q[3],
            theta: q[4],
            psi: q[5],
            velocity: q[6],
            alpha: q[7],
            beta: q[8],
            p: q[9],
            q: q[10],
            r: q[11],
        }
    }

    pub fn from_list(value: [T; 12]) -> (r: Self)
        ensures
            r == State::of_seq(value@),
    {
        State {
            npos: value[0],
            epos: value[1],
            altitude: value[2],
            phi: value[3],
            theta: value[4],
            psi: value[5],
            velocity: value[6],
            alpha: value[7],
            beta: value[8],
            p: value[9],
            q: value[10],
            r: value[11],
        }
    }

    pub fn to_list(&self) -> (r: [T; 12])
        ensures
            r@ == self@,
    {
        let r = [
            self.npos,
            self.epos,
            self.altitude,
            self.phi,
            self.theta,
            self.psi,
            self.velocity,
            self.alpha,
            self.beta,
            self.p,
            self.q,
            self.r,
        ];
        proof {
            assert(r@ =~= self@);
        }
        r
    }

    /// Round-tripping a state through its flat representation is the
    /// identity.
    pub proof fn lemma_roundtrip(s: State<T>)
        ensures
            State::of_seq(s@) == s,
    {
    }

    /// Round-tripping a 12-component sequence through the state record is
    /// the identity.
    pub proof fn lemma_roundtrip_seq(q: Seq<T>)
        requires
            q.len() == 12,
        ensures
            State::of_seq(q)@ =~= q,
    {
    }
}

} // verus!
