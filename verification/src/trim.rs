//! The trim solver's records and its discrete tables.
//!
//! Trimming searches for a control/attitude fixed point of the 6-DoF
//! dynamics with Nelder-Mead.  The search itself runs on doubles outside
//! this crate, but the records it passes around are laid out here, and
//! which state targets a flight-condition variant sets and how the cost
//! weights the state derivative are whole-number tables, decided and
//! proved here; the numerical driver converts them to doubles.

use crate::control::Control;
use crate::core_io::CoreInit;
use crate::nelder_mead::NelderMeadResult;
use crate::other::FlightCondition;
use crate::state::State;
use crate::state_extend::StateExtend;
use vstd::prelude::*;

verus! {

/// The initial guess of the five free trim variables: the four control
/// values and the angle of attack (rad).
#[derive(Debug, Clone, Copy, PartialEq)]
pub struct TrimInit<T> {
    pub control: Control<T>,
    pub alpha: T,
}

impl<T: Copy> TrimInit<T> {
    pub fn new(control: Control<T>, alpha: T) -> (r: Self)
        ensures
            r.control == control,
            r.alpha == alpha,
    {
        Self { control, alpha }
    }

    /// The flat 5-component vector the optimizer searches over: the
    /// control's components followed by the angle of attack.
    pub fn to_list(&self) -> (r: Vec<T>)
        ensures
            r@ == self.control@ + seq![self.alpha],
    {
        let c = self.control.to_list();
        let mut v: Vec<T> = Vec::new();
        for i in 0..4
            invariant
                v@ =~= c@.take(i as int),
                c@ == self.control@,
        {
            v.push(c[i]);
        }
        v.push(self.alpha);
        proof {
            assert(v@ =~= self.control@ + seq![self.alpha]);
        }
        v
    }
}

/// The flight condition a trim run steers towards.
#[derive(Debug, Clone, Copy, PartialEq)]
pub struct TrimTarget<T> {
    pub altitude: T,
    pub velocity: T,
    pub npos: T,
    pub epos: T,
}

impl<T: Copy> TrimTarget<T> {
    pub fn new(altitude: T, velocity: T, npos: T, epos: T) -> (r: Self)
        ensures
            r.altitude == altitude,
            r.velocity == velocity,
            r.npos == npos,
            r.epos == epos,
    {
        Self { altitude, velocity, npos, epos }
    }
}

/// What a trim run returns: the steady state found, the clamped controls,
/// the auxiliary outputs at that state, and the optimizer's summary.
#[derive(Debug, Clone, PartialEq)]
pub struct TrimOutput<T> {
    pub state: State<T>,
    pub control: Control<T>,
    pub state_extend: StateExtend<T>,
    pub nelder_mead_result: NelderMeadResult<T>,
}

impl<T: Copy> TrimOutput<T> {
    pub fn new(
        state: State<T>,
        control: Control<T>,
        state_extend: StateExtend<T>,
        nelder_mead_result: NelderMeadResult<T>,
    ) -> (r: Self)
        ensures
            r.state == state,
            r.control == control,
            r.state_extend == state_extend,
            r.nelder_mead_result == nelder_mead_result,
    {
        Self { state, control, state_extend, nelder_mead_result }
    }

    /// A trim output seeds a plane block at its steady-state condition.
    pub fn to_core_init(self) -> (r: CoreInit<T>)
        ensures
            r.state == self.state,
            r.control == self.control,
    {
        CoreInit::new(self.state, self.control)
    }
}

/// The state the trim cost evaluates a candidate at: position and every
/// rate but the pitch-rate target zeroed, altitude and velocity from the
/// target, pitch attitude equal to the angle of attack, and the yaw and
/// pitch-rate targets as the flight condition sets them.
pub fn trim_state<T: Copy>(zero: T, altitude: T, velocity: T, alpha: T, psi: T, q: T) -> (r:
    State<T>)
    ensures
        r.npos == zero,
        r.epos == zero,
        r.altitude == altitude,
        r.phi == zero,
        r.theta == alpha,
        r.psi == psi,
        r.velocity == velocity,
        r.alpha == alpha,
        r.beta == zero,
        r.p == zero,
        r.q == q,
        r.r == zero,
{
    State {
        npos: zero,
        epos: zero,
        altitude,
        phi: zero,
        theta: alpha,
        psi,
        velocity,
        alpha,
        beta: zero,
        p: zero,
        q,
        r: zero,
    }
}

/// The target values and cost weights a flight-condition variant sets:
/// the yaw-rate target `psi` (deg/s), the pitch-rate target `q` (deg/s),
/// and the weights of the pitch and yaw components of the cost.
#[derive(Debug, Clone, Copy, PartialEq, Eq, Structural)]
pub struct ConditionTargets {
    pub psi: u64,
    pub q: u64,
    pub theta_weight: u64,
    pub psi_weight: u64,
}

/// The targets of a trim run.  Wings-level flight (the default when no
/// variant is given) and rolling flight leave everything at rest with a
/// pitch weight of 10; turning flight sets a unit yaw-rate target and
/// weights it; a pull-up sets a unit pitch-rate target and lowers the
/// pitch weight to 1.
pub fn condition_targets(fc: Option<FlightCondition>) -> (r: ConditionTargets)
    ensures
        r.psi == 1 <==> fc == Some(FlightCondition::Turning),
        r.psi_weight == 1 <==> fc == Some(FlightCondition::Turning),
        r.q == 1 <==> fc == Some(FlightCondition::PullUp),
        fc == Some(FlightCondition::Turning) ==> r.psi == 1 && r.q == 0 && r.theta_weight == 10
            && r.psi_weight == 1,
        fc == Some(FlightCondition::PullUp) ==> r.psi == 0 && r.q == 1 && r.theta_weight == 1
            && r.psi_weight == 0,
        fc != Some(FlightCondition::Turning) && fc != Some(FlightCondition::PullUp) ==> r.psi
            == 0 && r.q == 0 && r.theta_weight == 10 && r.psi_weight == 0,
{
    match fc {
        Some(FlightCondition::Turning) => ConditionTargets {
            psi: 1,
            q: 0,
            theta_weight: 10,
            psi_weight: 1,
        },
        Some(FlightCondition::PullUp) => ConditionTargets {
            psi: 0,
            q: 1,
            theta_weight: 1,
            psi_weight: 0,
        },
        _ => ConditionTargets { psi: 0, q: 0, theta_weight: 10, psi_weight: 0 },
    }
}

/// The weight each component of the state derivative carries in the trim
/// cost `J = sum of w_i * xdot_i^2`, in the state's component order.
/// Position rates are free, the altitude rate weighs 5, the bank rate 10,
/// the pitch and yaw rates as the flight condition says, the acceleration
/// 2, and every remaining rate 10.
pub fn cost_weights(theta_weight: u64, psi_weight: u64) -> (r: Vec<u64>)
    ensures
        r@ == seq![
            0u64,
            0u64,
            5u64,
            10u64,
            theta_weight,
            psi_weight,
            2u64,
            10u64,
            10u64,
            10u64,
            10u64,
            10u64,
        ],
{
    let mut v: Vec<u64> = Vec::new();
    v.push(0);
    v.push(0);
    v.push(5);
    v.push(10);
    v.push(theta_weight);
    v.push(psi_weight);
    v.push(2);
    v.push(10);
    v.push(10);
    v.push(10);
    v.push(10);
    v.push(10);
    proof {
        assert(v@ =~= seq![
            0u64,
            0u64,
            5u64,
            10u64,
            theta_weight,
            psi_weight,
            2u64,
            10u64,
            10u64,
            10u64,
            10u64,
            10u64,
        ]);
    }
    v
}

} // verus!
