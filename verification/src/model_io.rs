//! The input and output records of the mechanical model: what one
//! evaluation of the 6-DoF equations consumes and produces.
//!
//! Generic in the scalar for the same reason as [`crate::state::State`].

use crate::control::Control;
use crate::state::State;
use crate::state_extend::StateExtend;
use vstd::prelude::*;

verus! {

/// One evaluation point of the mechanical model: the working state, the
/// actuator outputs, and the leading-edge-flap deflection.
#[derive(Debug, Clone, Copy, PartialEq)]
pub struct MechanicalModelInput<T> {
    pub state: State<T>,
    pub control: Control<T>,
    pub d_lef: T,
}

impl<T: Copy> MechanicalModelInput<T> {
    pub fn new(state: State<T>, control: Control<T>, d_lef: T) -> (r: Self)
        ensures
            r.state == state,
            r.control == control,
            r.d_lef == d_lef,
    {
        Self { state, control, d_lef }
    }
}

/// What one evaluation produces: the state derivative, component for
/// component in the state's order, and the auxiliary outputs.
#[derive(Debug, Clone, Copy, PartialEq)]
pub struct MechanicalModelOutput<T> {
    pub state_dot: State<T>,
    pub state_extend: StateExtend<T>,
}

impl<T: Copy> MechanicalModelOutput<T> {
    pub fn new(state_dot: State<T>, state_extend: StateExtend<T>) -> (r: Self)
        ensures
            r.state_dot == state_dot,
            r.state_extend == state_extend,
    {
        Self { state_dot, state_extend }
    }
}

} // verus!
