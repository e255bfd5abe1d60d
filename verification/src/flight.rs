//! Discrete flight-control decisions: which regime of the scripted rudder
//! pulse applies, and which state components are angular.
//!
//! The pulse amplitude and the simulation time are doubles, outside what
//! the verifier reasons about; the host computes the comparisons and the
//! functions here decide what they mean.

use vstd::prelude::*;

verus! {

/// The regime of the scripted disturbance pulse: the deflection is added
/// on [1, 3] s, subtracted on (3, 5] s, and zero elsewhere.
#[derive(Debug, Clone, Copy, PartialEq, Eq, Structural)]
pub enum DisturbanceRegime {
    Positive,
    Negative,
    Zero,
}

/// Which regime applies, from the comparison outcomes `t >= 1`, `t <= 3`,
/// `t >= 3` and `t <= 5` computed by the host.  At the boundary where both
/// windows hold (`t = 3`) the positive regime wins.
pub fn disturbance_regime(ge_1: bool, le_3: bool, ge_3: bool, le_5: bool) -> (r:
    DisturbanceRegime)
    ensures
        r == DisturbanceRegime::Positive <==> (ge_1 && le_3),
        r == DisturbanceRegime::Negative <==> (!(ge_1 && le_3) && ge_3 && le_5),
        r == DisturbanceRegime::Zero <==> (!(ge_1 && le_3) && !(ge_3 && le_5)),
{
    if ge_1 && le_3 {
        DisturbanceRegime::Positive
    } else if ge_3 && le_5 {
        DisturbanceRegime::Negative
    } else {
        DisturbanceRegime::Zero
    }
}

/// Whether state component `i` is converted between radians and degrees
/// for display: the Euler angles (indices 3 to 5), the aero angles and the
/// body rates (indices 7 to 11).
pub fn is_angular_component(i: usize) -> (r: bool)
    ensures
        r <==> ((3 <= i && i <= 5) || (7 <= i && i <= 11)),
{
    (3 <= i && i <= 5) || (7 <= i && i <= 11)
}

} // verus!
