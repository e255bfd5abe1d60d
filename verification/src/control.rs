//! The 4-component control vector: `thrust (lb), elevator (deg),
//! aileron (deg), rudder (deg)`, in that fixed order.
//!
//! Generic in the scalar for the same reason as [`crate::state::State`].

use vstd::prelude::*;

verus! {

#[derive(Debug, Clone, Copy, PartialEq)]
pub struct Control<T> {
    pub thrust: T,
    pub elevator: T,
    pub aileron: T,
    pub rudder: T,
}

impl<T> View for Control<T> {
    type V = Seq<T>;

    /// A control viewed as its flat 4-component sequence.
    open spec fn view(&self) -> Seq<T> {
        seq![self.thrust, self.elevator, self.aileron, self.rudder]
    }
}

impl<T: Copy> Control<T> {
    pub fn new(thrust: T, elevator: T, aileron: T, rudder: T) -> (r: Self)
        ensures
            r.thrust == thrust,
            r.elevator == elevator,
            r.aileron == aileron,
            r.rudder == rudder,
    {
        Self { thrust, elevator, aileron, rudder }
    }

    /// The control a flat 4-component sequence denotes.
    pub open spec fn of_seq(q: Seq<T>) -> Control<T>
        recommends
            q.len() == 4,
    {
        Control { thrust: q[0], elevator: q[1], aileron: q[2], rudder: q[3] }
    }

    pub fn from_list(value: [T; 4]) -> (r: Self)
        ensures
            r == Control::of_seq(value@),
    {
        Control { thrust: value[0], elevator: value[1], aileron: value[2], rudder: value[3] }
    }

    pub fn to_list(&self) -> (r: [T; 4])
        ensures
            r@ == self@,
    {
        let r = [self.thrust, self.elevator, self.aileron, self.rudder];
        proof {
            assert(r@ =~= self@);
        }
        r
    }

    /// The component at `index`, in the fixed order above.
    pub fn get(&self, index: usize) -> (r: T)
        requires
            index < 4,
        ensures
            r == self@[index as int],
    {
        if index == 0 {
            self.thrust
        } else if index == 1 {
            self.elevator
        } else if index == 2 {
            self.aileron
        } else {
            self.rudder
        }
    }

    /// Replaces the component at `index`, leaving the others unchanged.
    pub fn set(&mut self, index: usize, value: T)
        requires
            index < 4,
        ensures
            final(self)@ =~= old(self)@.update(index as int, value),
    {
        if index == 0 {
            self.thrust = value;
        } else if index == 1 {
            self.elevator = value;
        } else if index == 2 {
            self.aileron = value;
        } else {
            self.rudder = value;
        }
    }

    /// Round-tripping a control through its flat representation is the
    /// identity.
    pub proof fn lemma_roundtrip(c: Control<T>)
        ensures
            Control::of_seq(c@) == c,
    {
    }

    /// Round-tripping a 4-component sequence through the control record is
    /// the identity.
    pub proof fn lemma_roundtrip_seq(q: Seq<T>)
        requires
            q.len() == 4,
        ensures
            Control::of_seq(q)@ =~= q,
    {
    }
}

} // verus!
