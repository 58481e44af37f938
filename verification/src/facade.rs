//! The flat operation surface: one call, one unit of work, one status.
//!
//! Each function takes the slot that the caller holds exclusively, performs
//! the operation on it and reports through [`translate`], so that no fault
//! detail crosses the boundary. A caller that could not get exclusive access
//! reports `translate` of [`Fault::LockUnavailable`] and calls nothing here.
use vstd::prelude::*;
use crate::engine::{
    blank_frame, engine_frame, engine_rx_char_leaves, engine_rx_keyboard_leaves,
    engine_tx_pending, FRAME_LEN,
};
use crate::state::{after_poll, next_polled, power_on, DmdState, Stepper};
use crate::status::{poll_reply, poll_reply_of, status_of, translate, StatusCode};

verus! {

/// Creates the terminal. `true` exactly on the first call, which leaves a
/// terminal with a blank frame and nothing to transmit; a later call changes
/// nothing.
pub fn dmd_init(state: &mut DmdState) -> (created: bool)
    ensures
        created <==> old(state).dmd is None,
        final(state).instances() == 1,
        !created ==> *final(state) == *old(state),
        created ==> engine_frame(final(state).dmd->Some_0) == blank_frame() && engine_tx_pending(
            final(state).dmd->Some_0,
        ).len() == 0,
{
    translate(&state.init()).is_success()
}

/// Resets the terminal. `Error` without work while no terminal exists;
/// otherwise `Success`, and the slot holds a terminal in its power-on state,
/// whose frame buffer is blank over its full length and which has nothing to
/// transmit.
pub fn dmd_reset(state: &mut DmdState) -> (status: StatusCode)
    ensures
        status == status_of(old(state).needs_terminal()),
        final(state).instances() == old(state).instances(),
        old(state).dmd is None ==> status == StatusCode::Error && *final(state) == *old(state),
        old(state).dmd is Some ==> status == StatusCode::Success,
        status == StatusCode::Success ==> (final(state).dmd matches Some(after) && power_on(
            after,
        ) && engine_frame(after) == blank_frame() && engine_tx_pending(after).len() == 0),
{
    translate(&state.reset())
}

/// The frame buffer, or `None` while no terminal exists.
pub fn dmd_video_ram(state: &DmdState) -> (frame: Option<&[u8]>)
    ensures
        frame is Some <==> state.dmd is Some,
        frame matches Some(bytes) ==> bytes@ == engine_frame(state.dmd->Some_0) && bytes@.len()
            == FRAME_LEN,
{
    match state.video_ram() {
        Ok(bytes) => Some(bytes),
        Err(_) => None,
    }
}

/// Has `stepper` execute one instruction on the slot's terminal, once.
/// `Error` without work while no terminal exists; with a terminal, `Success`
/// exactly when the step went well, and the slot keeps the terminal as the
/// stepper left it. Where the step fails or does not return the status is
/// `Error` and the second component is the program counter afterwards; it is
/// zero otherwise.
pub fn dmd_step<S: Stepper>(state: &mut DmdState, stepper: &S) -> (report: (StatusCode, u32))
    ensures
        final(state).instances() == old(state).instances(),
        old(state).dmd is None ==> report.0 == StatusCode::Error && report.1 == 0 && *final(state)
            == *old(state),
        report.0 != StatusCode::Busy,
        report.0 == StatusCode::Success ==> report.1 == 0,
        report.0 == StatusCode::Error && old(state).dmd is Some ==> report.1 == final(state).pc(),
        old(state).dmd matches Some(before) ==> final(state).dmd matches Some(after)
            && stepper.leaves(before, report.0 == StatusCode::Success, after),
{
    let report = state.step(stepper);
    (translate(&report.0), report.1)
}

/// The program counter, or zero while no terminal exists.
pub fn dmd_get_pc(state: &DmdState) -> (pc: u32)
    ensures
        pc == state.pc(),
{
    match state.get_pc() {
        Ok(pc) => pc,
        Err(_) => 0,
    }
}

/// The serial controller's output port, or zero while no terminal exists.
pub fn dmd_get_duart_output_port(state: &DmdState) -> (value: u8)
    ensures
        value == state.output_port(),
{
    match state.duart_output_port() {
        Ok(value) => value,
        Err(_) => 0,
    }
}

/// Offers one byte to the primary receiver. `Error` without work while no
/// terminal exists; otherwise `Success`, or `Busy` if the receiver has not
/// drained the previous byte.
pub fn dmd_rx_char(state: &mut DmdState, c: u8) -> (status: StatusCode)
    ensures
        final(state).instances() == old(state).instances(),
        old(state).dmd is None ==> status == StatusCode::Error && *final(state) == *old(state),
        old(state).dmd is Some ==> status != StatusCode::Error,
        old(state).dmd matches Some(before) ==> final(state).dmd matches Some(after) && engine_rx_char_leaves(
            before,
            c,
            status == StatusCode::Success,
            after,
        ),
{
    translate(&state.rx_char(c))
}

/// Offers one byte to the keyboard receiver. `Error` without work while no
/// terminal exists; otherwise `Success`, or `Busy` if the receiver has not
/// drained the previous byte.
pub fn dmd_rx_keyboard(state: &mut DmdState, c: u8) -> (status: StatusCode)
    ensures
        final(state).instances() == old(state).instances(),
        old(state).dmd is None ==> status == StatusCode::Error && *final(state) == *old(state),
        old(state).dmd is Some ==> status != StatusCode::Error,
        old(state).dmd matches Some(before) ==> final(state).dmd matches Some(after) && engine_rx_keyboard_leaves(
            before,
            c,
            status == StatusCode::Success,
            after,
        ),
{
    translate(&state.rx_keyboard(c))
}

/// Reports a pointer position. `Success` exactly when a terminal exists.
pub fn dmd_mouse_move(state: &mut DmdState, x: u16, y: u16) -> (status: StatusCode)
    ensures
        status == status_of(old(state).needs_terminal()),
        *final(state) == old(state).after_mouse_move(x, y),
        final(state).instances() == old(state).instances(),
        final(state).output_port() == old(state).output_port(),
        old(state).dmd is None ==> status == StatusCode::Error && *final(state) == *old(state),
        old(state).dmd is Some ==> status == StatusCode::Success,
{
    translate(&state.mouse_move(x, y))
}

/// Reports a button press. `Success` exactly when a terminal exists.
pub fn dmd_mouse_down(state: &mut DmdState, button: u8) -> (status: StatusCode)
    ensures
        status == status_of(old(state).needs_terminal()),
        *final(state) == old(state).after_mouse_down(button),
        final(state).instances() == old(state).instances(),
        final(state).output_port() == old(state).output_port(),
        old(state).dmd is None ==> status == StatusCode::Error && *final(state) == *old(state),
        old(state).dmd is Some ==> status == StatusCode::Success,
{
    translate(&state.mouse_down(button))
}

/// Reports a button release. `Success` exactly when a terminal exists.
pub fn dmd_mouse_up(state: &mut DmdState, button: u8) -> (status: StatusCode)
    ensures
        status == status_of(old(state).needs_terminal()),
        *final(state) == old(state).after_mouse_up(button),
        final(state).instances() == old(state).instances(),
        final(state).output_port() == old(state).output_port(),
        old(state).dmd is None ==> status == StatusCode::Error && *final(state) == *old(state),
        old(state).dmd is Some ==> status == StatusCode::Success,
{
    translate(&state.mouse_up(button))
}

/// Collects the next byte that the terminal has sent. `Error` without work
/// while no terminal exists, `Busy` with a zero byte when nothing is pending,
/// otherwise `Success` with the byte, which is then gone from the queue.
pub fn dmd_tx_poll(state: &mut DmdState) -> (reply: (StatusCode, u8))
    ensures
        final(state).instances() == old(state).instances(),
        old(state).dmd is None ==> reply == (StatusCode::Error, 0u8) && *final(state) == *old(
            state,
        ),
        old(state).dmd matches Some(before) ==> reply == poll_reply_of(
            Ok(next_polled(engine_tx_pending(before))),
        ) && engine_tx_pending(final(state).dmd->Some_0) == after_poll(engine_tx_pending(before)),
{
    poll_reply(&state.tx_poll())
}

/// A probe that touches nothing: always `0x5a`.
pub fn test_function() -> (probe: i8)
    ensures
        probe == 0x5a,
{
    0x5a
}

} // verus!
