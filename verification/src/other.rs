//! The remaining records the core shares with the aerodynamic plugin: the
//! coefficient vector, the airframe constants and the control/envelope
//! limits, plus the flight-condition variants of the trim solver.
//!
//! Generic in the scalar for the same reason as [`crate::state::State`].

use vstd::prelude::*;

verus! {

/// Aerodynamic coefficients, forces then moments: `c_x, c_z, c_m, c_y,
/// c_n, c_l` (x = body-forward, z = body-down, l = roll, m = pitch,
/// n = yaw).
#[derive(Debug, Clone, Copy, PartialEq)]
pub struct C<T> {
    pub c_x: T,
    pub c_z: T,
    pub c_m: T,
    pub c_y: T,
    pub c_n: T,
    pub c_l: T,
}

impl<T: Copy> C<T> {
    pub fn new(c_x: T, c_z: T, c_m: T, c_y: T, c_n: T, c_l: T) -> (r: Self)
        ensures
            r.c_x == c_x,
            r.c_z == c_z,
            r.c_m == c_m,
            r.c_y == c_y,
            r.c_n == c_n,
            r.c_l == c_l,
    {
        Self { c_x, c_z, c_m, c_y, c_n, c_l }
    }
}

/// Constants of a plane: mass `m` (slug), span `b` (ft), planform area `s`
/// (ft²), mean aerodynamic chord `c_bar` (ft), reference and actual centre
/// of gravity `x_cg_r, x_cg` (fractions of `c_bar`), engine angular
/// momentum along the roll axis `h_eng`, and the inertias `j_y, j_xz, j_z,
/// j_x` (slug-ft²).
#[derive(Debug, Clone, Copy, PartialEq)]
pub struct PlaneConstants<T> {
    pub m: T,
    pub b: T,
    pub s: T,
    pub c_bar: T,
    pub x_cg_r: T,
    pub x_cg: T,
    pub h_eng: T,
    pub j_y: T,
    pub j_xz: T,
    pub j_z: T,
    pub j_x: T,
}

impl<T: Copy> PlaneConstants<T> {
    pub fn new(
        m: T,
        b: T,
        s: T,
        c_bar: T,
        x_cg_r: T,
        x_cg: T,
        h_eng: T,
        j_y: T,
        j_xz: T,
        j_z: T,
        j_x: T,
    ) -> (r: Self)
        ensures
            r.m == m,
            r.b == b,
            r.s == s,
            r.c_bar == c_bar,
            r.x_cg_r == x_cg_r,
            r.x_cg == x_cg,
            r.h_eng == h_eng,
            r.j_y == j_y,
            r.j_xz == j_xz,
            r.j_z == j_z,
            r.j_x == j_x,
    {
        Self { m, b, s, c_bar, x_cg_r, x_cg, h_eng, j_y, j_xz, j_z, j_x }
    }
}

/// Command and rate limits of the four actuators, and the α/β envelope
/// (in degrees) the working state is clamped to before each plugin call.
#[derive(Debug, Clone, Copy, PartialEq)]
pub struct ControlLimit<T> {
    pub thrust_cmd_limit_top: T,
    pub thrust_cmd_limit_bottom: T,
    pub thrust_rate_limit: T,
    pub ele_cmd_limit_top: T,
    pub ele_cmd_limit_bottom: T,
    pub ele_rate_limit: T,
    pub ail_cmd_limit_top: T,
    pub ail_cmd_limit_bottom: T,
    pub ail_rate_limit: T,
    pub rud_cmd_limit_top: T,
    pub rud_cmd_limit_bottom: T,
    pub rud_rate_limit: T,
    pub alpha_limit_top: T,
    pub alpha_limit_bottom: T,
    pub beta_limit_top: T,
    pub beta_limit_bottom: T,
}

impl<T: Copy> ControlLimit<T> {
    pub fn new(
        thrust_cmd_limit_top: T,
        thrust_cmd_limit_bottom: T,
        thrust_rate_limit: T,
        ele_cmd_limit_top: T,
        ele_cmd_limit_bottom: T,
        ele_rate_limit: T,
        ail_cmd_limit_top: T,
        ail_cmd_limit_bottom: T,
        ail_rate_limit: T,
        rud_cmd_limit_top: T,
        rud_cmd_limit_bottom: T,
        rud_rate_limit: T,
        alpha_limit_top: T,
        alpha_limit_bottom: T,
        beta_limit_top: T,
        beta_limit_bottom: T,
    ) -> (r: Self)
        ensures
            r.thrust_cmd_limit_top == thrust_cmd_limit_top,
            r.thrust_cmd_limit_bottom == thrust_cmd_limit_bottom,
            r.thrust_rate_limit == thrust_rate_limit,
            r.ele_cmd_limit_top == ele_cmd_limit_top,
            r.ele_cmd_limit_bottom == ele_cmd_limit_bottom,
            r.ele_rate_limit == ele_rate_limit,
            r.ail_cmd_limit_top == ail_cmd_limit_top,
            r.ail_cmd_limit_bottom == ail_cmd_limit_bottom,
            r.ail_rate_limit == ail_rate_limit,
            r.rud_cmd_limit_top == rud_cmd_limit_top,
            r.rud_cmd_limit_bottom == rud_cmd_limit_bottom,
            r.rud_rate_limit == rud_rate_limit,
            r.alpha_limit_top == alpha_limit_top,
            r.alpha_limit_bottom == alpha_limit_bottom,
            r.beta_limit_top == beta_limit_top,
            r.beta_limit_bottom == beta_limit_bottom,
    {
        Self {
            thrust_cmd_limit_top,
            thrust_cmd_limit_bottom,
            thrust_rate_limit,
            ele_cmd_limit_top,
            ele_cmd_limit_bottom,
            ele_rate_limit,
            ail_cmd_limit_top,
            ail_cmd_limit_bottom,
            ail_rate_limit,
            rud_cmd_limit_top,
            rud_cmd_limit_bottom,
            rud_rate_limit,
            alpha_limit_top,
            alpha_limit_bottom,
            beta_limit_top,
            beta_limit_bottom,
        }
    }
}

/// The flight-condition variant a trim run targets.
#[derive(Debug, Clone, Copy, PartialEq, Eq, Structural)]
pub enum FlightCondition {
    WingsLevel,
    Turning,
    PullUp,
    Roll,
}

impl Default for FlightCondition {
    fn default() -> (r: Self)
        ensures
            r == FlightCondition::WingsLevel,
    {
        FlightCondition::WingsLevel
    }
}

} // verus!
