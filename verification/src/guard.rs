//! Exclusive access to the slot across threads.
//!
//! A [`Controller`] keeps the slot behind one lock. Each of its operations
//! acquires the lock, performs one operation of the flat surface on the slot
//! and lets the lock go before it returns; none of them calls back into the
//! caller while it holds the lock, but for the step, whose stepper works on
//! the terminal alone, so the operations of any number of threads happen one
//! after another. A lock that an earlier holder left broken is
//! reported as an error status by every operation from then on.
//!
//! What an operation finds in the slot is whatever the operations before it,
//! on any thread, have left there, so an operation of the controller states
//! only what holds of every outcome. Each is the call of `Mutex::lock`
//! followed by a function that takes what the call returned: those functions
//! state the reply, for a broken lock and for the slot that a guard gives
//! access to, and the slot that the guard gives access to afterwards.
use vstd::prelude::*;
use vstd::slice::slice_to_vec;
use std::sync::{LockResult, Mutex, MutexGuard, PoisonError};
use crate::engine::{
    blank_frame, engine_frame, engine_rx_char_leaves, engine_rx_keyboard_leaves,
    engine_tx_pending, FRAME_LEN,
};
use crate::facade::{
    dmd_get_duart_output_port, dmd_get_pc, dmd_init, dmd_mouse_down, dmd_mouse_move, dmd_mouse_up,
    dmd_reset, dmd_rx_char, dmd_rx_keyboard, dmd_step, dmd_tx_poll, dmd_video_ram,
};
use crate::state::{after_poll, next_polled, power_on, DmdState, Stepper};
use crate::status::{
    fault_status, poll_reply, poll_reply_of, status_of, translate, Fault, StatusCode,
};

verus! {

/// `std::sync::Mutex`: a lock around a value.
#[verifier::external_type_specification]
#[verifier::external_body]
#[verifier::reject_recursive_types(T)]
pub struct ExMutex<T: ?Sized>(Mutex<T>);

/// `std::sync::MutexGuard`: exclusive access to the value in a `Mutex`, given
/// up when the guard is dropped.
#[verifier::external_type_specification]
#[verifier::external_body]
#[verifier::reject_recursive_types(T)]
pub struct ExMutexGuard<'a, T: ?Sized + 'a>(MutexGuard<'a, T>);

/// `std::sync::PoisonError`: a holder of the lock panicked.
#[verifier::external_type_specification]
#[verifier::external_body]
#[verifier::reject_recursive_types(T)]
pub struct ExPoisonError<T>(PoisonError<T>);

/// The slot that a lock was created around. What the lock holds later is for
/// its holders to change, and no contract speaks of it.
pub uninterp spec fn started_as(lock: Mutex<DmdState>) -> DmdState;

/// The slot that a guard gives exclusive access to.
pub uninterp spec fn slot_of(guard: MutexGuard<DmdState>) -> DmdState;

/// `Mutex::new` puts a value behind a new, unlocked lock: the lock was
/// created around that value.
#[verifier::external_body]
fn new_lock(state: DmdState) -> (lock: Mutex<DmdState>)
    ensures
        started_as(lock) == state,
{
    Mutex::new(state)
}

/// `Mutex::lock` waits for the lock and returns a guard, or a `PoisonError`
/// if a holder panicked. Which of the two comes back is not a matter of the
/// arguments, so nothing is claimed. The call does not return if the calling
/// thread holds the lock already; no function of this crate calls it while
/// it holds a guard.
pub assume_specification<'a, T: ?Sized>[ Mutex::<T>::lock ](lock: &'a Mutex<T>) -> (access: Result<
    MutexGuard<'a, T>,
    PoisonError<MutexGuard<'a, T>>,
>);

/// `DerefMut::deref_mut` of a `MutexGuard`: the value behind the lock, for as
/// long as the guard is borrowed. The borrow starts at the slot that the
/// guard gives access to, and what it ends with is the slot that the guard
/// gives access to afterwards.
#[verifier::external_body]
fn held<'a, 'b>(guard: &'a mut MutexGuard<'b, DmdState>) -> (state: &'a mut DmdState)
    ensures
        *state == slot_of(*old(guard)),
        slot_of(*final(guard)) == *final(state),
{
    &mut **guard
}

/// `Deref::deref` of a `MutexGuard`: the slot that the guard gives access
/// to, for reading.
#[verifier::external_body]
fn seen<'a, 'b>(guard: &'a MutexGuard<'b, DmdState>) -> (state: &'a DmdState)
    ensures
        *state == slot_of(*guard),
{
    &**guard
}

/// Turns what `Mutex::lock` returned into a guard or a fault: a broken lock
/// is `Fault::LockUnavailable`, and a guard is passed on as it is.
pub fn acquired<'a>(
    access: Result<MutexGuard<'a, DmdState>, PoisonError<MutexGuard<'a, DmdState>>>,
) -> (access_or_fault: Result<MutexGuard<'a, DmdState>, Fault>)
    ensures
        access matches Ok(guard) ==> access_or_fault == Ok::<MutexGuard<'a, DmdState>, Fault>(guard),
        access is Err ==> access_or_fault == Err::<MutexGuard<'a, DmdState>, Fault>(
            Fault::LockUnavailable,
        ),
{
    match access {
        Ok(guard) => Ok(guard),
        Err(_) => Err(Fault::LockUnavailable),
    }
}

/// The slot behind its lock.
pub struct Controller {
    slot: Mutex<DmdState>,
}

impl Controller {
    /// The slot that the controller was created with.
    pub closed spec fn initial_slot(&self) -> DmdState {
        started_as(self.slot)
    }

    /// A controller whose slot starts empty.
    pub fn new() -> (controller: Controller)
        ensures
            controller.initial_slot().dmd is None,
    {
        Controller { slot: new_lock(DmdState::new()) }
    }

    /// Creates the terminal, see [`init_with_access`]. `false` if the lock
    /// is broken.
    pub fn init(&self) -> (created: bool) {
        let mut access = self.slot.lock();
        init_with_access(&mut access)
    }

    /// Resets the terminal, see [`reset_with_access`]. `Error` if the lock
    /// is broken.
    pub fn reset(&self) -> (status: StatusCode)
        ensures
            status != StatusCode::Busy,
    {
        let mut access = self.slot.lock();
        reset_with_access(&mut access)
    }

    /// A copy of the frame buffer, see [`video_ram_with_access`]. `None` if
    /// no terminal exists or the lock is broken. The copy stays valid
    /// whatever is done to the terminal afterwards.
    pub fn video_ram(&self) -> (frame: Option<Vec<u8>>)
        ensures
            frame matches Some(bytes) ==> bytes@.len() == FRAME_LEN,
    {
        let access = self.slot.lock();
        video_ram_with_access(&access)
    }

    /// Has `stepper` execute one instruction, see [`step_with_access`]. The
    /// lock is held while the stepper runs: the stepper must not call an
    /// operation of this controller. `Error` with a
    /// zero program counter if the lock is broken.
    pub fn step<S: Stepper>(&self, stepper: &S) -> (report: (StatusCode, u32))
        ensures
            report.0 != StatusCode::Busy,
            report.0 == StatusCode::Success ==> report.1 == 0,
    {
        let mut access = self.slot.lock();
        step_with_access(&mut access, stepper)
    }

    /// The program counter, see [`get_pc_with_access`]. Zero if the lock is
    /// broken.
    pub fn get_pc(&self) -> (pc: u32) {
        let access = self.slot.lock();
        get_pc_with_access(&access)
    }

    /// The output port, see [`get_duart_output_port_with_access`]. Zero if
    /// the lock is broken.
    pub fn get_duart_output_port(&self) -> (value: u8) {
        let access = self.slot.lock();
        get_duart_output_port_with_access(&access)
    }

    /// Offers a byte to the primary receiver, see [`rx_char_with_access`].
    /// `Error` if the lock is broken.
    pub fn rx_char(&self, c: u8) -> (status: StatusCode) {
        let mut access = self.slot.lock();
        rx_char_with_access(&mut access, c)
    }

    /// Offers a byte to the keyboard receiver, see
    /// [`rx_keyboard_with_access`]. `Error` if the lock is broken.
    pub fn rx_keyboard(&self, c: u8) -> (status: StatusCode) {
        let mut access = self.slot.lock();
        rx_keyboard_with_access(&mut access, c)
    }

    /// Reports a pointer position, see [`mouse_move_with_access`]. `Error`
    /// if the lock is broken.
    pub fn mouse_move(&self, x: u16, y: u16) -> (status: StatusCode)
        ensures
            status != StatusCode::Busy,
    {
        let mut access = self.slot.lock();
        mouse_move_with_access(&mut access, x, y)
    }

    /// Reports a button press, see [`mouse_down_with_access`]. `Error` if
    /// the lock is broken.
    pub fn mouse_down(&self, button: u8) -> (status: StatusCode)
        ensures
            status != StatusCode::Busy,
    {
        let mut access = self.slot.lock();
        mouse_down_with_access(&mut access, button)
    }

    /// Reports a button release, see [`mouse_up_with_access`]. `Error` if
    /// the lock is broken.
    pub fn mouse_up(&self, button: u8) -> (status: StatusCode)
        ensures
            status != StatusCode::Busy,
    {
        let mut access = self.slot.lock();
        mouse_up_with_access(&mut access, button)
    }

    /// Collects the next byte that the terminal has sent, see
    /// [`tx_poll_with_access`]. `Error` with a zero byte if the lock is
    /// broken.
    pub fn tx_poll(&self) -> (reply: (StatusCode, u8))
        ensures
            reply.0 != StatusCode::Success ==> reply.1 == 0,
    {
        let mut access = self.slot.lock();
        tx_poll_with_access(&mut access)
    }
}

/// The slot that an attempt to lock gives access to: none if the lock is
/// broken.
pub open spec fn granted(access: LockResult<MutexGuard<DmdState>>) -> Option<DmdState> {
    match access {
        Ok(guard) => Some(slot_of(guard)),
        Err(_) => None,
    }
}

/// The status of an operation that was refused for want of access.
pub open spec fn refused() -> StatusCode {
    fault_status(Fault::LockUnavailable)
}

/// Whether a creation succeeds: only with access to an empty slot.
pub open spec fn init_reply(found: Option<DmdState>) -> bool {
    match found {
        Some(slot) => slot.dmd is None,
        None => false,
    }
}

/// The frame that is copied out, if any.
pub open spec fn frame_reply(found: Option<DmdState>) -> Option<Seq<u8>> {
    match found {
        Some(slot) => match slot.dmd {
            Some(dmd) => Some(engine_frame(dmd)),
            None => None,
        },
        None => None,
    }
}

/// The program counter that is read: zero without access or terminal.
pub open spec fn pc_reply(found: Option<DmdState>) -> u32 {
    match found {
        Some(slot) => slot.pc(),
        None => 0,
    }
}

/// The output port that is read: zero without access or terminal.
pub open spec fn output_port_reply(found: Option<DmdState>) -> u8 {
    match found {
        Some(slot) => slot.output_port(),
        None => 0,
    }
}

/// The status of an operation that needs access to a terminal and nothing
/// else, as a pointer event does.
pub open spec fn presence_reply(found: Option<DmdState>) -> StatusCode {
    match found {
        Some(slot) => status_of(slot.needs_terminal()),
        None => refused(),
    }
}

/// Status and byte of a transmit poll.
pub open spec fn tx_reply(found: Option<DmdState>) -> (StatusCode, u8) {
    match found {
        Some(slot) => match slot.dmd {
            Some(dmd) => poll_reply_of(Ok(next_polled(engine_tx_pending(dmd)))),
            None => poll_reply_of(Err(Fault::NotInitialized)),
        },
        None => poll_reply_of(Err(Fault::LockUnavailable)),
    }
}

/// Creates the terminal in the slot that `access` leads to. `true` exactly
/// when the lock is sound and the slot was empty; the slot then holds a new
/// terminal, and in every other case it is left as it was.
pub fn init_with_access(access: &mut LockResult<MutexGuard<DmdState>>) -> (created: bool)
    ensures
        created == init_reply(granted(*old(access))),
        granted(*old(access)) is None ==> *final(access) == *old(access),
        granted(*old(access)) matches Some(before) ==> granted(*final(access)) matches Some(after)
            && after.instances() == 1 && (!created ==> after == before) && (created
            ==> engine_frame(after.dmd->Some_0) == blank_frame() && engine_tx_pending(
            after.dmd->Some_0,
        ).len() == 0),
{
    match access {
        Ok(guard) => dmd_init(held(guard)),
        Err(_) => translate(&Err::<(), Fault>(Fault::LockUnavailable)).is_success(),
    }
}

/// Resets the terminal in the slot that `access` leads to. `Error` if the
/// lock is broken or the slot is empty; else `Success`, and the slot holds a
/// terminal in its power-on state with a blank frame.
pub fn reset_with_access(access: &mut LockResult<MutexGuard<DmdState>>) -> (status: StatusCode)
    ensures
        status == presence_reply(granted(*old(access))),
        status != StatusCode::Busy,
        granted(*old(access)) is None ==> *final(access) == *old(access),
        granted(*old(access)) matches Some(before) ==> granted(*final(access)) matches Some(after)
            && after.instances() == before.instances() && (before.dmd is None ==> after == before)
            && (before.dmd is Some ==> power_on(after.dmd->Some_0) && engine_frame(
            after.dmd->Some_0,
        ) == blank_frame() && engine_tx_pending(after.dmd->Some_0).len() == 0),
{
    match access {
        Ok(guard) => dmd_reset(held(guard)),
        Err(_) => translate(&Err::<(), Fault>(Fault::LockUnavailable)),
    }
}

/// Copies the frame buffer of the terminal in the slot that `access` leads
/// to. `None` if the lock is broken or the slot is empty.
pub fn video_ram_with_access(access: &LockResult<MutexGuard<DmdState>>) -> (frame: Option<Vec<u8>>)
    ensures
        frame is Some <==> frame_reply(granted(*access)) is Some,
        frame matches Some(bytes) ==> frame_reply(granted(*access)) == Some(bytes@) && bytes@.len()
            == FRAME_LEN,
{
    match access {
        Ok(guard) => match dmd_video_ram(seen(guard)) {
            Some(bytes) => Some(slice_to_vec(bytes)),
            None => None,
        },
        Err(_) => None,
    }
}

/// Has `stepper` execute one instruction on the terminal in the slot that
/// `access` leads to. `Error` with a zero program counter, and nothing
/// changed, if the lock is broken or the slot is empty; with a terminal,
/// what [`dmd_step`] reports of the step, and the slot keeps the terminal as
/// the stepper left it.
pub fn step_with_access<S: Stepper>(
    access: &mut LockResult<MutexGuard<DmdState>>,
    stepper: &S,
) -> (report: (StatusCode, u32))
    ensures
        presence_reply(granted(*old(access))) == StatusCode::Error ==> report == (
            StatusCode::Error,
            0u32,
        ),
        report.0 != StatusCode::Busy,
        report.0 == StatusCode::Success ==> report.1 == 0,
        granted(*old(access)) is None ==> *final(access) == *old(access),
        granted(*old(access)) matches Some(before) ==> granted(*final(access)) matches Some(after)
            && after.instances() == before.instances() && (before.dmd is None ==> after == before)
            && (before.dmd is Some && report.0 == StatusCode::Error ==> report.1 == after.pc())
            && (before.dmd is Some ==> stepper.leaves(
            before.dmd->Some_0,
            report.0 == StatusCode::Success,
            after.dmd->Some_0,
        )),
{
    match access {
        Ok(guard) => dmd_step(held(guard), stepper),
        Err(_) => (translate(&Err::<(), Fault>(Fault::LockUnavailable)), 0),
    }
}

/// Reads the program counter of the terminal in the slot that `access` leads
/// to. Zero if the lock is broken or the slot is empty.
pub fn get_pc_with_access(access: &LockResult<MutexGuard<DmdState>>) -> (pc: u32)
    ensures
        pc == pc_reply(granted(*access)),
{
    match access {
        Ok(guard) => dmd_get_pc(seen(guard)),
        Err(_) => 0,
    }
}

/// Reads the output port of the terminal in the slot that `access` leads to.
/// Zero if the lock is broken or the slot is empty.
pub fn get_duart_output_port_with_access(access: &LockResult<MutexGuard<DmdState>>) -> (value: u8)
    ensures
        value == output_port_reply(granted(*access)),
{
    match access {
        Ok(guard) => dmd_get_duart_output_port(seen(guard)),
        Err(_) => 0,
    }
}

/// Offers a byte to the primary receiver of the terminal in the slot that
/// `access` leads to. `Error`, and nothing changed, exactly when the lock is
/// broken or the slot is empty; with a terminal, `Success` or `Busy` as the
/// engine decides.
pub fn rx_char_with_access(access: &mut LockResult<MutexGuard<DmdState>>, c: u8) -> (status:
    StatusCode)
    ensures
        status == StatusCode::Error <==> presence_reply(granted(*old(access))) == StatusCode::Error,
        granted(*old(access)) is None ==> *final(access) == *old(access),
        granted(*old(access)) matches Some(before) ==> granted(*final(access)) matches Some(after)
            && after.instances() == before.instances() && (before.dmd is None ==> after == before)
            && (before.dmd is Some ==> engine_rx_char_leaves(
            before.dmd->Some_0,
            c,
            status == StatusCode::Success,
            after.dmd->Some_0,
        )),
{
    match access {
        Ok(guard) => dmd_rx_char(held(guard), c),
        Err(_) => translate(&Err::<(), Fault>(Fault::LockUnavailable)),
    }
}

/// Offers a byte to the keyboard receiver of the terminal in the slot that
/// `access` leads to. `Error`, and nothing changed, exactly when the lock is
/// broken or the slot is empty; with a terminal, `Success` or `Busy` as the
/// engine decides.
pub fn rx_keyboard_with_access(access: &mut LockResult<MutexGuard<DmdState>>, c: u8) -> (status:
    StatusCode)
    ensures
        status == StatusCode::Error <==> presence_reply(granted(*old(access))) == StatusCode::Error,
        granted(*old(access)) is None ==> *final(access) == *old(access),
        granted(*old(access)) matches Some(before) ==> granted(*final(access)) matches Some(after)
            && after.instances() == before.instances() && (before.dmd is None ==> after == before)
            && (before.dmd is Some ==> engine_rx_keyboard_leaves(
            before.dmd->Some_0,
            c,
            status == StatusCode::Success,
            after.dmd->Some_0,
        )),
{
    match access {
        Ok(guard) => dmd_rx_keyboard(held(guard), c),
        Err(_) => translate(&Err::<(), Fault>(Fault::LockUnavailable)),
    }
}

/// Reports a pointer position to the terminal in the slot that `access`
/// leads to. `Success` exactly when the lock is sound and a terminal exists,
/// which then has received this position.
pub fn mouse_move_with_access(
    access: &mut LockResult<MutexGuard<DmdState>>,
    x: u16,
    y: u16,
) -> (status: StatusCode)
    ensures
        status == presence_reply(granted(*old(access))),
        granted(*old(access)) is None ==> *final(access) == *old(access),
        granted(*old(access)) matches Some(before) ==> granted(*final(access)) == Some(
            before.after_mouse_move(x, y),
        ),
{
    match access {
        Ok(guard) => dmd_mouse_move(held(guard), x, y),
        Err(_) => translate(&Err::<(), Fault>(Fault::LockUnavailable)),
    }
}

/// Reports a button press to the terminal in the slot that `access` leads
/// to. `Success` exactly when the lock is sound and a terminal exists, which
/// then has received this button.
pub fn mouse_down_with_access(access: &mut LockResult<MutexGuard<DmdState>>, button: u8) -> (status:
    StatusCode)
    ensures
        status == presence_reply(granted(*old(access))),
        granted(*old(access)) is None ==> *final(access) == *old(access),
        granted(*old(access)) matches Some(before) ==> granted(*final(access)) == Some(
            before.after_mouse_down(button),
        ),
{
    match access {
        Ok(guard) => dmd_mouse_down(held(guard), button),
        Err(_) => translate(&Err::<(), Fault>(Fault::LockUnavailable)),
    }
}

/// Reports a button release to the terminal in the slot that `access` leads
/// to. `Success` exactly when the lock is sound and a terminal exists, which
/// then has received this button.
pub fn mouse_up_with_access(access: &mut LockResult<MutexGuard<DmdState>>, button: u8) -> (status:
    StatusCode)
    ensures
        status == presence_reply(granted(*old(access))),
        granted(*old(access)) is None ==> *final(access) == *old(access),
        granted(*old(access)) matches Some(before) ==> granted(*final(access)) == Some(
            before.after_mouse_up(button),
        ),
{
    match access {
        Ok(guard) => dmd_mouse_up(held(guard), button),
        Err(_) => translate(&Err::<(), Fault>(Fault::LockUnavailable)),
    }
}

/// Collects the next byte that the terminal in the slot that `access` leads
/// to has sent. `Error` with a zero byte if the lock is broken or the slot
/// is empty, `Busy` with a zero byte if nothing is pending, else `Success`
/// with the byte, which is then gone from the terminal's queue.
pub fn tx_poll_with_access(access: &mut LockResult<MutexGuard<DmdState>>) -> (reply: (
    StatusCode,
    u8,
))
    ensures
        reply == tx_reply(granted(*old(access))),
        reply.0 != StatusCode::Success ==> reply.1 == 0,
        granted(*old(access)) is None ==> *final(access) == *old(access),
        granted(*old(access)) matches Some(before) ==> granted(*final(access)) matches Some(after)
            && after.instances() == before.instances() && (before.dmd is None ==> after == before)
            && (before.dmd is Some ==> engine_tx_pending(after.dmd->Some_0) == after_poll(
            engine_tx_pending(before.dmd->Some_0),
        )),
{
    match access {
        Ok(guard) => dmd_tx_poll(held(guard)),
        Err(_) => poll_reply(&Err(Fault::LockUnavailable)),
    }
}

} // verus!
