//! The 6-component auxiliary output of each step: load factors `nx, ny, nz`
//! (g), `mach`, dynamic pressure `qbar` (lb/ft²) and static pressure `ps`
//! (lb/ft²), in that fixed order.
//!
//! Generic in the scalar for the same reason as [`crate::state::State`].

use vstd::prelude::*;

verus! {

#[derive(Debug, Clone, Copy, PartialEq)]
pub struct StateExtend<T> {
    pub nx: T,
    pub ny: T,
    pub nz: T,
    pub mach: T,
    pub qbar: T,
    pub ps: T,
}

impl<T> View for StateExtend<T> {
    type V = Seq<T>;

    /// An auxiliary output viewed as its flat 6-component sequence.
    open spec fn view(&self) -> Seq<T> {
        seq![self.nx, self.ny, self.nz, self.mach, self.qbar, self.ps]
    }
}

impl<T: Copy> StateExtend<T> {
    /// The auxiliary output a flat 6-component sequence denotes.
    pub open spec fn of_seq(q: Seq<T>) -> StateExtend<T>
        recommends
            q.len() == 6,
    {
        StateExtend { nx: q[0], ny: q[1], nz: q[2], mach: q[3], qbar: q[4], ps: q[5] }
    }

    pub fn from_list(value: [T; 6]) -> (r: Self)
        ensures
            r == StateExtend::of_seq(value@),
    {
        StateExtend {
            nx: value[0],
            ny: value[1],
            nz: value[2],
            mach: value[3],
            qbar: value[4],
            ps: value[5],
        }
    }

    pub fn to_list(&self) -> (r: [T; 6])
        ensures
            r@ == self@,
    {
        let r = [self.nx, self.ny, self.nz, self.mach, self.qbar, self.ps];
        proof {
            assert(r@ =~= self@);
        }
        r
    }

    /// Round-tripping an auxiliary output through its flat representation is
    /// the identity.
    pub proof fn lemma_roundtrip(e: StateExtend<T>)
        ensures
            StateExtend::of_seq(e@) == e,
    {
    }

    /// Round-tripping a 6-component sequence through the record is the
    /// identity.
    pub proof fn lemma_roundtrip_seq(q: Seq<T>)
        requires
            q.len() == 6,
        ensures
            StateExtend::of_seq(q)@ =~= q,
    {
    }
}

} // verus!
