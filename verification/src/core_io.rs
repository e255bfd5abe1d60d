//! What a plane block is seeded with and what each step hands back.
//!
//! Generic in the scalar for the same reason as [`crate::state::State`].

use crate::control::Control;
use crate::state::State;
use crate::state_extend::StateExtend;
use vstd::prelude::*;

verus! {

/// The initial condition of a plane block: a state and a control.
#[derive(Debug, Clone, Copy, PartialEq)]
pub struct CoreInit<T> {
    pub state: State<T>,
    pub control: Control<T>,
}

impl<T: Copy> CoreInit<T> {
    pub fn new(state: State<T>, control: Control<T>) -> (r: Self)
        ensures
            r.state == state,
            r.control == control,
    {
        Self { state, control }
    }

    /// The flat 16-component representation: the state's components
    /// followed by the control's.
    pub fn to_list(&self) -> (r: Vec<T>)
        ensures
            r@ == self.state@ + self.control@,
    {
        let s = self.state.to_list();
        let c = self.control.to_list();
        let mut v: Vec<T> = Vec::new();
        for i in 0..12
            invariant
                v@ =~= s@.take(i as int),
                s@ == self.state@,
        {
            v.push(s[i]);
        }
        for i in 0..4
            invariant
                v@ =~= s@ + c@.take(i as int),
                s@ == self.state@,
                c@ == self.control@,
        {
            v.push(c[i]);
        }
        proof {
            assert(v@ =~= self.state@ + self.control@);
        }
        v
    }
}

/// The output of one simulation step: the advanced state, the actuator
/// outputs actually applied, and the auxiliary outputs.
#[derive(Debug, Clone, Copy, PartialEq)]
pub struct CoreOutput<T> {
    pub state: State<T>,
    pub control: Control<T>,
    pub state_extend: StateExtend<T>,
}

impl<T: Copy> CoreOutput<T> {
    pub fn new(state: State<T>, control: Control<T>, state_extend: StateExtend<T>) -> (r: Self)
        ensures
            r.state == state,
            r.control == control,
            r.state_extend == state_extend,
    {
        Self { state, control, state_extend }
    }

    /// The flat 22-component representation: state, then control, then
    /// auxiliary outputs.
    pub fn to_list(&self) -> (r: Vec<T>)
        ensures
            r@ == self.state@ + self.control@ + self.state_extend@,
    {
        let s = self.state.to_list();
        let c = self.control.to_list();
        let e = self.state_extend.to_list();
        let mut v: Vec<T> = Vec::new();
        for i in 0..12
            invariant
                v@ =~= s@.take(i as int),
                s@ == self.state@,
        {
            v.push(s[i]);
        }
        for i in 0..4
            invariant
                v@ =~= s@ + c@.take(i as int),
                s@ == self.state@,
                c@ == self.control@,
        {
            v.push(c[i]);
        }
        for i in 0..6
            invariant
                v@ =~= s@ + c@ + e@.take(i as int),
                s@ == self.state@,
                c@ == self.control@,
                e@ == self.state_extend@,
        {
            v.push(e[i]);
        }
        proof {
            assert(v@ =~= self.state@ + self.control@ + self.state_extend@);
        }
        v
    }
}

} // verus!
