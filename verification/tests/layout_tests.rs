//! Round-trip and accessor tests of the shared record layouts.

use fly_ruler_core::control::Control;
use fly_ruler_core::core_io::{CoreInit, CoreOutput};
use fly_ruler_core::model_io::{MechanicalModelInput, MechanicalModelOutput};
use fly_ruler_core::other::{ControlLimit, FlightCondition, PlaneConstants, C};
use fly_ruler_core::state::State;
use fly_ruler_core::state_extend::StateExtend;

fn sample_state() -> State<f64> {
    State::from_list([
        0.0,
        0.0,
        15000.0,
        0.0,
        0.0790758040827099,
        0.0,
        500.0,
        0.0790758040827099,
        0.0,
        0.0,
        0.0,
        0.0,
    ])
}

fn sample_control() -> Control<f64> {
    Control::from_list([
        2109.41286903712,
        -2.24414978017729,
        -0.0935778861396136,
        0.0944687551889544,
    ])
}

fn sample_extend() -> StateExtend<f64> {
    StateExtend::from_list([0.02, -0.001, 1.0, 0.466, 180.0, 1194.0])
}

#[test]
fn test_state_roundtrip() {
    let list = [
        1.0, 2.0, 3.0, 4.0, 5.0, 6.0, 7.0, 8.0, 9.0, 10.0, 11.0, 12.0,
    ];
    let s = State::from_list(list);
    assert_eq!(s.npos, 1.0);
    assert_eq!(s.epos, 2.0);
    assert_eq!(s.altitude, 3.0);
    assert_eq!(s.phi, 4.0);
    assert_eq!(s.theta, 5.0);
    assert_eq!(s.psi, 6.0);
    assert_eq!(s.velocity, 7.0);
    assert_eq!(s.alpha, 8.0);
    assert_eq!(s.beta, 9.0);
    assert_eq!(s.p, 10.0);
    assert_eq!(s.q, 11.0);
    assert_eq!(s.r, 12.0);
    assert_eq!(s.to_list(), list);
    assert_eq!(State::from_list(s.to_list()), s);

    let t = sample_state();
    assert_eq!(State::from_list(t.to_list()), t);
}

#[test]
fn test_control_roundtrip() {
    let list = [2109.4, -2.244, -0.094, 0.094];
    let c = Control::from_list(list);
    assert_eq!(c.thrust, 2109.4);
    assert_eq!(c.elevator, -2.244);
    assert_eq!(c.aileron, -0.094);
    assert_eq!(c.rudder, 0.094);
    assert_eq!(c.to_list(), list);
    assert_eq!(Control::from_list(c.to_list()), c);
}

#[test]
fn test_control_get_set() {
    let mut c = Control::new(1000.0, 1.0, 2.0, 3.0);
    assert_eq!(c.get(0), 1000.0);
    assert_eq!(c.get(1), 1.0);
    assert_eq!(c.get(2), 2.0);
    assert_eq!(c.get(3), 3.0);
    c.set(1, -5.0);
    assert_eq!(c.get(0), 1000.0);
    assert_eq!(c.get(1), -5.0);
    assert_eq!(c.get(2), 2.0);
    assert_eq!(c.get(3), 3.0);
}

#[test]
fn test_state_extend_roundtrip() {
    let list = [0.1, 0.2, 0.3, 0.4, 0.5, 0.6];
    let e = StateExtend::from_list(list);
    assert_eq!(e.nx, 0.1);
    assert_eq!(e.ny, 0.2);
    assert_eq!(e.nz, 0.3);
    assert_eq!(e.mach, 0.4);
    assert_eq!(e.qbar, 0.5);
    assert_eq!(e.ps, 0.6);
    assert_eq!(e.to_list(), list);
    assert_eq!(StateExtend::from_list(e.to_list()), e);
}

#[test]
fn test_core_init_to_list() {
    let init = CoreInit::new(sample_state(), sample_control());
    let list = init.to_list();
    assert_eq!(list.len(), 16);
    assert_eq!(&list[..12], &sample_state().to_list());
    assert_eq!(&list[12..], &sample_control().to_list());
}

#[test]
fn test_core_output_to_list() {
    let out = CoreOutput::new(sample_state(), sample_control(), sample_extend());
    assert_eq!(out.state, sample_state());
    assert_eq!(out.control, sample_control());
    assert_eq!(out.state_extend, sample_extend());
    let list = out.to_list();
    assert_eq!(list.len(), 22);
    assert_eq!(&list[..12], &sample_state().to_list());
    assert_eq!(&list[12..16], &sample_control().to_list());
    assert_eq!(&list[16..], &sample_extend().to_list());
}

#[test]
fn test_model_io_records() {
    let input = MechanicalModelInput::new(sample_state(), sample_control(), 6.28161378774449);
    assert_eq!(input.state, sample_state());
    assert_eq!(input.control, sample_control());
    assert_eq!(input.d_lef, 6.28161378774449);

    let output = MechanicalModelOutput::new(sample_state(), sample_extend());
    assert_eq!(output.state_dot, sample_state());
    assert_eq!(output.state_extend, sample_extend());
}

#[test]
fn test_coefficients_and_constants() {
    let c = C::new(-0.02, -0.7, 0.01, 0.002, -0.001, 0.0005);
    assert_eq!(c.c_x, -0.02);
    assert_eq!(c.c_z, -0.7);
    assert_eq!(c.c_m, 0.01);
    assert_eq!(c.c_y, 0.002);
    assert_eq!(c.c_n, -0.001);
    assert_eq!(c.c_l, 0.0005);

    let p = PlaneConstants::new(
        636.94, 30.0, 300.0, 11.32, 0.35, 0.30, 0.0, 55814.0, 982.0, 63100.0, 9496.0,
    );
    assert_eq!(p.m, 636.94);
    assert_eq!(p.b, 30.0);
    assert_eq!(p.s, 300.0);
    assert_eq!(p.c_bar, 11.32);
    assert_eq!(p.x_cg_r, 0.35);
    assert_eq!(p.x_cg, 0.30);
    assert_eq!(p.h_eng, 0.0);
    assert_eq!(p.j_y, 55814.0);
    assert_eq!(p.j_xz, 982.0);
    assert_eq!(p.j_z, 63100.0);
    assert_eq!(p.j_x, 9496.0);

    let l = ControlLimit::new(
        19000.0, 1000.0, 10000.0, 25.0, -25.0, 60.0, 21.5, -21.5, 80.0, 30.0, -30.0, 120.0,
        45.0, -20.0, 30.0, -30.0,
    );
    assert_eq!(l.thrust_cmd_limit_top, 19000.0);
    assert_eq!(l.thrust_cmd_limit_bottom, 1000.0);
    assert_eq!(l.thrust_rate_limit, 10000.0);
    assert_eq!(l.ele_cmd_limit_top, 25.0);
    assert_eq!(l.ele_cmd_limit_bottom, -25.0);
    assert_eq!(l.ele_rate_limit, 60.0);
    assert_eq!(l.ail_cmd_limit_top, 21.5);
    assert_eq!(l.ail_cmd_limit_bottom, -21.5);
    assert_eq!(l.ail_rate_limit, 80.0);
    assert_eq!(l.rud_cmd_limit_top, 30.0);
    assert_eq!(l.rud_cmd_limit_bottom, -30.0);
    assert_eq!(l.rud_rate_limit, 120.0);
    assert_eq!(l.alpha_limit_top, 45.0);
    assert_eq!(l.alpha_limit_bottom, -20.0);
    assert_eq!(l.beta_limit_top, 30.0);
    assert_eq!(l.beta_limit_bottom, -30.0);
}

#[test]
fn test_flight_condition_default() {
    assert_eq!(FlightCondition::default(), FlightCondition::WingsLevel);
}
