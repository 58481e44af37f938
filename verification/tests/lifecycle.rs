use dmd_bridge::facade::{
    dmd_get_duart_output_port, dmd_get_pc, dmd_init, dmd_mouse_down, dmd_mouse_move, dmd_mouse_up,
    dmd_reset, dmd_rx_char, dmd_rx_keyboard, dmd_step, dmd_tx_poll, dmd_video_ram, test_function,
};
use dmd_bridge::state::{DmdState, Stepper};
use dmd_bridge::status::{Fault, StatusCode};
use dmd_core::dmd::Dmd;
use dmd_core::err::CpuError;

struct EngineStep;

impl Stepper for EngineStep {
    fn step_once(&self, dmd: &mut Dmd) -> Option<Result<(), CpuError>> {
        Some(dmd.step_with_error())
    }
}


#[test]
fn it_works() {
    assert_eq!(2 + 2, 4);
}

#[test]
fn new_state_is_empty() {
    let state = DmdState::new();
    assert!(state.dmd.is_none());
    assert!(!state.is_initialized());
}

#[test]
fn create_twice_then_reset() {
    let mut state = DmdState::new();
    assert!(dmd_init(&mut state));
    assert!(!dmd_init(&mut state));
    assert!(dmd_reset(&mut state).is_success());
    assert_eq!(dmd_reset(&mut state), StatusCode::Success);
}

#[test]
fn second_init_reports_already_initialized_and_keeps_the_terminal() {
    let mut state = DmdState::new();
    assert_eq!(state.init(), Ok(()));
    assert!(state.is_initialized());
    assert_eq!(state.reset(), Ok(()));
    let pc = dmd_get_pc(&state);
    assert_eq!(state.init(), Err(Fault::AlreadyInitialized));
    assert!(state.is_initialized());
    assert_eq!(dmd_get_pc(&state), pc);
}

#[test]
fn reset_before_create_fails_without_creating() {
    let mut state = DmdState::new();
    assert_eq!(state.reset(), Err(Fault::NotInitialized));
    assert!(!state.is_initialized());
    assert_eq!(dmd_reset(&mut state), StatusCode::Error);
    assert!(!dmd_reset(&mut state).is_success());
    assert!(state.dmd.is_none());
}

#[test]
fn domain_operations_before_create_report_not_initialized() {
    let mut state = DmdState::new();
    assert_eq!(state.step(&EngineStep), (Err(Fault::NotInitialized), 0));
    assert_eq!(state.get_pc(), Err(Fault::NotInitialized));
    assert_eq!(state.duart_output_port(), Err(Fault::NotInitialized));
    assert_eq!(state.rx_char(0x41), Err(Fault::NotInitialized));
    assert_eq!(state.rx_keyboard(0x41), Err(Fault::NotInitialized));
    assert_eq!(state.mouse_move(10, 20), Err(Fault::NotInitialized));
    assert_eq!(state.mouse_down(0), Err(Fault::NotInitialized));
    assert_eq!(state.mouse_up(0), Err(Fault::NotInitialized));
    assert_eq!(state.tx_poll(), Err(Fault::NotInitialized));
    assert_eq!(state.video_ram(), Err(Fault::NotInitialized));
    assert!(state.dmd.is_none());
}

#[test]
fn wire_operations_before_create_report_error() {
    let mut state = DmdState::new();
    assert_eq!(dmd_step(&mut state, &EngineStep), (StatusCode::Error, 0));
    assert_eq!(dmd_rx_char(&mut state, 0x41), StatusCode::Error);
    assert_eq!(dmd_rx_keyboard(&mut state, 0x41), StatusCode::Error);
    assert_eq!(dmd_mouse_move(&mut state, 1, 2), StatusCode::Error);
    assert_eq!(dmd_mouse_down(&mut state, 1), StatusCode::Error);
    assert_eq!(dmd_mouse_up(&mut state, 1), StatusCode::Error);
    assert_eq!(dmd_tx_poll(&mut state), (StatusCode::Error, 0));
    assert!(dmd_video_ram(&state).is_none());
    assert!(state.dmd.is_none());
}

#[test]
fn readers_return_zero_without_a_terminal() {
    let state = DmdState::new();
    assert_eq!(dmd_get_pc(&state), 0);
    assert_eq!(dmd_get_duart_output_port(&state), 0);
}

#[test]
fn probe_returns_its_constant() {
    assert_eq!(test_function(), 0x5a);
}
