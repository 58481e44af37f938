use std::sync::{Mutex, PoisonError};

use dmd_bridge::guard::{
    acquired, get_duart_output_port_with_access, get_pc_with_access, init_with_access,
    mouse_down_with_access, mouse_move_with_access, mouse_up_with_access, reset_with_access,
    rx_char_with_access, rx_keyboard_with_access, step_with_access, tx_poll_with_access,
    video_ram_with_access, Controller,
};
use dmd_bridge::state::{DmdState, Stepper};
use dmd_bridge::status::{translate, Fault, StatusCode};
use dmd_core::dmd::Dmd;
use dmd_core::err::CpuError;

struct EngineStep;

impl Stepper for EngineStep {
    fn step_once(&self, dmd: &mut Dmd) -> Option<Result<(), CpuError>> {
        Some(dmd.step_with_error())
    }
}


#[test]
fn controller_create_twice_then_reset() {
    let controller = Controller::new();
    assert!(controller.init());
    assert!(!controller.init());
    assert_eq!(controller.reset(), StatusCode::Success);
}

#[test]
fn controller_refuses_work_before_create() {
    let controller = Controller::new();
    assert_eq!(controller.reset(), StatusCode::Error);
    assert_eq!(controller.step(&EngineStep), (StatusCode::Error, 0));
    assert_eq!(controller.get_pc(), 0);
    assert_eq!(controller.get_duart_output_port(), 0);
    assert_eq!(controller.rx_char(0x41), StatusCode::Error);
    assert_eq!(controller.rx_keyboard(0x41), StatusCode::Error);
    assert_eq!(controller.mouse_move(3, 4), StatusCode::Error);
    assert_eq!(controller.mouse_down(1), StatusCode::Error);
    assert_eq!(controller.mouse_up(1), StatusCode::Error);
    assert_eq!(controller.tx_poll(), (StatusCode::Error, 0));
    assert!(controller.video_ram().is_none());
    // Nothing of the above created a terminal: creation still succeeds.
    assert!(controller.init());
}

#[test]
fn controller_reaches_the_terminal() {
    let controller = Controller::new();
    assert!(controller.init());
    assert_eq!(controller.reset(), StatusCode::Success);
    let mut engine = Dmd::new();
    engine.reset().unwrap();
    assert_eq!(controller.get_pc(), engine.get_pc());
    assert_eq!(controller.get_duart_output_port(), 0xff);
    assert_eq!(controller.mouse_move(10, 20), StatusCode::Success);
    assert_eq!(controller.mouse_down(1), StatusCode::Success);
    assert_eq!(controller.mouse_up(1), StatusCode::Success);
    assert_eq!(controller.get_duart_output_port(), 0xff);
    assert_eq!(controller.rx_char(0x41), StatusCode::Busy);
    assert_eq!(controller.rx_keyboard(0x41), StatusCode::Busy);
    assert_eq!(controller.tx_poll(), (StatusCode::Busy, 0));
    let frame = controller.video_ram().expect("a terminal exists");
    assert_eq!(frame.len(), 102_400);
    assert!(frame.iter().all(|byte| *byte == 0));
}

#[test]
fn controller_frame_copy_outlives_later_operations() {
    let controller = Controller::new();
    assert!(controller.init());
    let frame = controller.video_ram().expect("a terminal exists");
    assert_eq!(controller.reset(), StatusCode::Success);
    assert_ne!(controller.step(&EngineStep).0, StatusCode::Busy);
    assert_eq!(frame.len(), 102_400);
}

#[test]
fn a_guard_is_passed_on() {
    let lock = Mutex::new(DmdState::new());
    let access = acquired(lock.lock());
    assert!(access.is_ok());
    let mut guard = access.unwrap();
    assert!(guard.init().is_ok());
    assert!(guard.is_initialized());
}

#[test]
fn a_broken_lock_is_lock_unavailable() {
    let lock = Mutex::new(DmdState::new());
    let guard = lock.lock().unwrap();
    let access = acquired(Err(PoisonError::new(guard)));
    let fault = access.err().expect("the lock was broken");
    assert_eq!(fault, Fault::LockUnavailable);
    assert_eq!(translate(&Err::<(), Fault>(fault)), StatusCode::Error);
}

#[test]
fn interleaved_holders_see_one_terminal() {
    let controller = Controller::new();
    let first = &controller;
    let second = &controller;
    assert!(first.init());
    assert!(!second.init());
    assert_eq!(second.reset(), StatusCode::Success);
    assert_eq!(first.mouse_down(0), StatusCode::Success);
    assert_eq!(second.mouse_up(0), StatusCode::Success);
    assert_eq!(first.get_pc(), second.get_pc());
}

#[test]
fn a_broken_lock_is_an_error_for_every_operation() {
    let lock = Mutex::new(DmdState::new());
    let guard = lock.lock().unwrap();
    let mut access = Err(PoisonError::new(guard));
    assert!(!init_with_access(&mut access));
    assert_eq!(reset_with_access(&mut access), StatusCode::Error);
    assert_eq!(step_with_access(&mut access, &EngineStep), (StatusCode::Error, 0));
    assert_eq!(get_pc_with_access(&access), 0);
    assert_eq!(get_duart_output_port_with_access(&access), 0);
    assert_eq!(rx_char_with_access(&mut access, 0x41), StatusCode::Error);
    assert_eq!(rx_keyboard_with_access(&mut access, 0x41), StatusCode::Error);
    assert_eq!(mouse_move_with_access(&mut access, 1, 2), StatusCode::Error);
    assert_eq!(mouse_down_with_access(&mut access, 1), StatusCode::Error);
    assert_eq!(mouse_up_with_access(&mut access, 1), StatusCode::Error);
    assert_eq!(tx_poll_with_access(&mut access), (StatusCode::Error, 0));
    assert!(video_ram_with_access(&access).is_none());
    // The slot behind the broken lock was not touched.
    let guard = access.err().expect("the lock was broken").into_inner();
    assert!(!guard.is_initialized());
}

#[test]
fn an_empty_slot_is_an_error_for_every_operation_but_creation() {
    let lock = Mutex::new(DmdState::new());
    let mut access = lock.lock();
    assert_eq!(reset_with_access(&mut access), StatusCode::Error);
    assert_eq!(step_with_access(&mut access, &EngineStep), (StatusCode::Error, 0));
    assert_eq!(get_pc_with_access(&access), 0);
    assert_eq!(get_duart_output_port_with_access(&access), 0);
    assert_eq!(rx_char_with_access(&mut access, 0x41), StatusCode::Error);
    assert_eq!(rx_keyboard_with_access(&mut access, 0x41), StatusCode::Error);
    assert_eq!(mouse_move_with_access(&mut access, 1, 2), StatusCode::Error);
    assert_eq!(mouse_down_with_access(&mut access, 1), StatusCode::Error);
    assert_eq!(mouse_up_with_access(&mut access, 1), StatusCode::Error);
    assert_eq!(tx_poll_with_access(&mut access), (StatusCode::Error, 0));
    assert!(video_ram_with_access(&access).is_none());
    assert!(!access.as_ref().unwrap().is_initialized());
    assert!(init_with_access(&mut access));
    assert!(access.as_ref().unwrap().is_initialized());
}

#[test]
fn a_guard_leads_to_the_slot_behind_the_lock() {
    let lock = Mutex::new(DmdState::new());
    {
        let mut access = lock.lock();
        assert!(init_with_access(&mut access));
        assert!(!init_with_access(&mut access));
        assert_eq!(reset_with_access(&mut access), StatusCode::Success);
        let mut engine = Dmd::new();
        engine.reset().unwrap();
        assert_eq!(get_pc_with_access(&access), engine.get_pc());
        assert_eq!(get_duart_output_port_with_access(&access), 0xff);
        assert_eq!(mouse_move_with_access(&mut access, 10, 20), StatusCode::Success);
        assert_eq!(mouse_down_with_access(&mut access, 1), StatusCode::Success);
        assert_eq!(mouse_up_with_access(&mut access, 1), StatusCode::Success);
        assert_eq!(get_duart_output_port_with_access(&access), 0xff);
        assert_eq!(rx_char_with_access(&mut access, 0x41), StatusCode::Busy);
        assert_eq!(rx_keyboard_with_access(&mut access, 0x41), StatusCode::Busy);
        assert_eq!(tx_poll_with_access(&mut access), (StatusCode::Busy, 0));
        let frame = video_ram_with_access(&access).expect("a terminal exists");
        assert_eq!(frame.len(), 102_400);
        assert!(frame.iter().all(|byte| *byte == 0));
        assert_ne!(step_with_access(&mut access, &EngineStep).0, StatusCode::Busy);
    }
    // What was done through the first guard is what the next guard finds.
    let mut access = lock.lock();
    assert!(!init_with_access(&mut access));
    assert!(access.as_ref().unwrap().is_initialized());
    assert!(video_ram_with_access(&access).is_some());
}

#[test]
fn a_new_controller_starts_empty() {
    let controller = Controller::new();
    assert_eq!(controller.get_pc(), 0);
    assert!(controller.video_ram().is_none());
    assert_eq!(controller.reset(), StatusCode::Error);
    assert!(controller.init());
}
