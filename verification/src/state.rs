//! The single slot that may hold a terminal, and one operation at a time on it.
//!
//! A caller holds a `DmdState` exclusively for the length of one operation:
//! every operation that can change the terminal takes `&mut self`, so no two
//! of them overlap. A terminal is created by exactly one call of
//! [`DmdState::init`]; before that call every other operation refuses to work.
use vstd::prelude::*;
use dmd_core::dmd::Dmd;
use dmd_core::err::CpuError;
use crate::engine::{
    blank_frame, engine_frame, engine_mouse_down, engine_mouse_move, engine_mouse_up,
    engine_output_port, engine_pc, engine_reset, engine_rx_char_leaves,
    engine_rx_keyboard_leaves, engine_tx_pending, FRAME_LEN,
};
use crate::status::{bus_outcome, receiver_outcome, step_report, went_well, Fault};

verus! {

/// What a poll hands out of a queue of pending bytes: the first, if any.
pub open spec fn next_polled(pending: Seq<u8>) -> Option<u8> {
    if pending.len() == 0 {
        None
    } else {
        Some(pending[0])
    }
}

/// What a poll leaves of a queue of pending bytes: all but the first.
pub open spec fn after_poll(pending: Seq<u8>) -> Seq<u8> {
    if pending.len() == 0 {
        pending
    } else {
        pending.skip(1)
    }
}

/// What a number of polls in a row leave of a queue of pending bytes.
pub open spec fn after_polls(pending: Seq<u8>, polls: nat) -> Seq<u8>
    decreases polls,
{
    if polls == 0 {
        pending
    } else {
        after_polls(after_poll(pending), (polls - 1) as nat)
    }
}

/// A terminal as it is built: nothing drawn, nothing to transmit.
pub open spec fn newly_built(dmd: Dmd) -> bool {
    engine_frame(dmd) == blank_frame() && engine_tx_pending(dmd).len() == 0
}

/// A terminal in its power-on state: what a reset makes of a newly built
/// terminal.
pub open spec fn power_on(dmd: Dmd) -> bool {
    exists|built: Dmd| newly_built(built) && dmd == #[trigger] engine_reset(built)
}

/// Makes one step of the engine on a terminal. The engine can panic inside a
/// step, on instructions and device accesses that it does not implement, and
/// nothing in this crate can contain a panic. So the step is made by the
/// caller of [`DmdState::step`], who contains it, and handed back here.
///
/// The stepper runs while the caller's exclusive access to the slot is held.
/// An implementation works on the terminal that it is given and on nothing
/// else of this crate: it must not call an operation of a
/// [`crate::guard::Controller`], which would wait for the lock that its own
/// caller holds.
pub trait Stepper {
    /// What this stepper can make of a terminal: whether, from `before`, a
    /// step can go well or not (`went_well`) and leave `after`. A stepper
    /// that says nothing of itself admits everything.
    open spec fn leaves(&self, before: Dmd, went_well: bool, after: Dmd) -> bool {
        true
    }

    /// Steps the terminal once with the engine's `step_with_error`. `Some`
    /// holds what that call returned; `None` says that it did not return.
    fn step_once(&self, dmd: &mut Dmd) -> (stepped: Option<Result<(), CpuError>>)
        ensures
            self.leaves(*old(dmd), went_well(stepped), *final(dmd)),
    ;
}

/// Holds the terminal, once there is one.
pub struct DmdState {
    pub dmd: Option<Dmd>,
}

impl DmdState {
    /// How many terminals the slot holds: none or one.
    pub open spec fn instances(&self) -> nat {
        if self.dmd is Some {
            1
        } else {
            0
        }
    }

    /// What an operation reports that needs a terminal and nothing else.
    pub open spec fn needs_terminal(&self) -> Result<(), Fault> {
        if self.dmd is Some {
            Ok(())
        } else {
            Err(Fault::NotInitialized)
        }
    }

    /// The slot after a pointer move: an empty slot stays empty.
    pub open spec fn after_mouse_move(&self, x: u16, y: u16) -> DmdState {
        match self.dmd {
            Some(dmd) => DmdState { dmd: Some(engine_mouse_move(dmd, x, y)) },
            None => *self,
        }
    }

    /// The slot after a button press: an empty slot stays empty.
    pub open spec fn after_mouse_down(&self, button: u8) -> DmdState {
        match self.dmd {
            Some(dmd) => DmdState { dmd: Some(engine_mouse_down(dmd, button)) },
            None => *self,
        }
    }

    /// The slot after a button release: an empty slot stays empty.
    pub open spec fn after_mouse_up(&self, button: u8) -> DmdState {
        match self.dmd {
            Some(dmd) => DmdState { dmd: Some(engine_mouse_up(dmd, button)) },
            None => *self,
        }
    }

    /// The output port read from this slot: zero while it is empty.
    pub open spec fn output_port(&self) -> u8 {
        match self.dmd {
            Some(dmd) => engine_output_port(dmd),
            None => 0,
        }
    }

    /// The program counter read from this slot: zero while it is empty.
    pub open spec fn pc(&self) -> u32 {
        match self.dmd {
            Some(dmd) => engine_pc(dmd),
            None => 0,
        }
    }

    /// An empty slot.
    pub fn new() -> (state: DmdState)
        ensures
            state.dmd is None,
            state.instances() == 0,
    {
        DmdState { dmd: None }
    }

    /// Tells whether a terminal has been created.
    pub fn is_initialized(&self) -> (yes: bool)
        ensures
            yes <==> self.dmd is Some,
    {
        self.dmd.is_some()
    }

    /// Creates the terminal. Succeeds exactly when the slot was empty; a
    /// later call fails and leaves the terminal as it was.
    pub fn init(&mut self) -> (outcome: Result<(), Fault>)
        ensures
            final(self).instances() == 1,
            old(self).dmd is None ==> outcome is Ok && engine_frame(final(self).dmd->Some_0)
                == blank_frame() && engine_tx_pending(final(self).dmd->Some_0).len() == 0,
            old(self).dmd is Some ==> outcome == Err::<(), Fault>(Fault::AlreadyInitialized)
                && *final(self) == *old(self),
    {
        if self.dmd.is_some() {
            Err(Fault::AlreadyInitialized)
        } else {
            self.dmd = Some(Dmd::new());
            Ok(())
        }
    }

    /// Puts the terminal into its power-on state: the terminal in the slot
    /// is given up and a newly built one, reset from its ROM, takes its
    /// place. Succeeds whenever there is a terminal. Afterwards the frame
    /// buffer is blank over its full length, whatever had been drawn, and
    /// nothing waits to be transmitted. What the old terminal held in its
    /// memory goes with it: the engine offers no other way to blank a frame.
    pub fn reset(&mut self) -> (outcome: Result<(), Fault>)
        ensures
            outcome == old(self).needs_terminal(),
            old(self).dmd is None ==> *final(self) == *old(self),
            old(self).dmd is Some ==> (final(self).dmd matches Some(after) && power_on(after)
                && engine_frame(after) == blank_frame() && engine_tx_pending(after).len() == 0),
            final(self).instances() == old(self).instances(),
    {
        if self.dmd.is_some() {
            self.dmd = None;
            let mut fresh = Dmd::new();
            let ghost built = fresh;
            let outcome = bus_outcome(fresh.reset());
            assert(newly_built(built) && fresh == engine_reset(built));
            self.dmd = Some(fresh);
            outcome
        } else {
            Err(Fault::NotInitialized)
        }
    }

    /// A read-only view of the frame buffer, `FRAME_LEN` bytes long. The
    /// borrow ends before the next operation that changes the terminal.
    pub fn video_ram(&self) -> (frame: Result<&[u8], Fault>)
        ensures
            self.dmd is None ==> frame == Err::<&[u8], Fault>(Fault::NotInitialized),
            self.dmd matches Some(dmd) ==> frame matches Ok(bytes) && bytes@ == engine_frame(dmd)
                && bytes@.len() == FRAME_LEN,
    {
        match &self.dmd {
            Some(dmd) => match dmd.video_ram() {
                Ok(bytes) => Ok(bytes),
                Err(_) => Err(Fault::OperationFailed),
            },
            None => Err(Fault::NotInitialized),
        }
    }

    /// Has `stepper` execute one instruction on the terminal in the slot,
    /// once, and reports what came of it: the slot keeps the terminal as the
    /// stepper left it, and the outcome is `Ok` exactly when the step went
    /// well. Without a terminal the stepper is not called. Where
    /// the step fails or does not return, the outcome is `OperationFailed`
    /// and the second component is the program counter at which the terminal
    /// stands afterwards; in every other case it is zero.
    pub fn step<S: Stepper>(&mut self, stepper: &S) -> (report: (Result<(), Fault>, u32))
        ensures
            final(self).instances() == old(self).instances(),
            old(self).dmd is None ==> report.0 == Err::<(), Fault>(Fault::NotInitialized)
                && report.1 == 0 && *final(self) == *old(self),
            old(self).dmd is Some ==> report.0 is Ok || report.0 == Err::<(), Fault>(
                Fault::OperationFailed,
            ),
            report.0 is Ok ==> report.1 == 0,
            report.0 == Err::<(), Fault>(Fault::OperationFailed) ==> final(self).dmd is Some
                && report.1 == final(self).pc(),
            old(self).dmd matches Some(before) ==> final(self).dmd matches Some(after)
                && stepper.leaves(before, report.0 is Ok, after),
    {
        match &mut self.dmd {
            Some(dmd) => {
                let stepped = stepper.step_once(dmd);
                let pc_after = dmd.get_pc();
                step_report(stepped, pc_after)
            },
            None => (Err(Fault::NotInitialized), 0),
        }
    }

    /// The program counter of the terminal.
    pub fn get_pc(&self) -> (pc: Result<u32, Fault>)
        ensures
            self.dmd is None ==> pc == Err::<u32, Fault>(Fault::NotInitialized),
            self.dmd is Some ==> pc == Ok::<u32, Fault>(self.pc()),
    {
        match &self.dmd {
            Some(dmd) => Ok(dmd.get_pc()),
            None => Err(Fault::NotInitialized),
        }
    }

    /// The value on the serial controller's output port.
    pub fn duart_output_port(&self) -> (value: Result<u8, Fault>)
        ensures
            self.dmd is None ==> value == Err::<u8, Fault>(Fault::NotInitialized),
            self.dmd is Some ==> value == Ok::<u8, Fault>(self.output_port()),
    {
        match &self.dmd {
            Some(dmd) => Ok(dmd.duart_output()),
            None => Err(Fault::NotInitialized),
        }
    }

    /// Offers one byte from the host to the terminal's primary receiver:
    /// this byte, to that receiver, once. With a terminal in the slot the
    /// only refusal is flow control.
    pub fn rx_char(&mut self, character: u8) -> (outcome: Result<(), Fault>)
        ensures
            final(self).instances() == old(self).instances(),
            old(self).dmd is None ==> outcome == Err::<(), Fault>(Fault::NotInitialized)
                && *final(self) == *old(self),
            old(self).dmd is Some ==> outcome is Ok || outcome == Err::<(), Fault>(
                Fault::ReceiverNotReady,
            ),
            old(self).dmd matches Some(before) ==> final(self).dmd matches Some(after)
                && engine_rx_char_leaves(before, character, outcome is Ok, after),
    {
        match &mut self.dmd {
            Some(dmd) => receiver_outcome(dmd.rx_char(character)),
            None => Err(Fault::NotInitialized),
        }
    }

    /// Offers one byte from the keyboard to the terminal's keyboard
    /// receiver: this byte, to that receiver, once. With a terminal in the
    /// slot the only refusal is flow control.
    pub fn rx_keyboard(&mut self, keycode: u8) -> (outcome: Result<(), Fault>)
        ensures
            final(self).instances() == old(self).instances(),
            old(self).dmd is None ==> outcome == Err::<(), Fault>(Fault::NotInitialized)
                && *final(self) == *old(self),
            old(self).dmd is Some ==> outcome is Ok || outcome == Err::<(), Fault>(
                Fault::ReceiverNotReady,
            ),
            old(self).dmd matches Some(before) ==> final(self).dmd matches Some(after)
                && engine_rx_keyboard_leaves(before, keycode, outcome is Ok, after),
    {
        match &mut self.dmd {
            Some(dmd) => receiver_outcome(dmd.rx_keyboard(keycode)),
            None => Err(Fault::NotInitialized),
        }
    }

    /// Tells the terminal where the pointer is. Succeeds whenever there is a
    /// terminal, and hands the engine this position.
    pub fn mouse_move(&mut self, x: u16, y: u16) -> (outcome: Result<(), Fault>)
        ensures
            outcome == old(self).needs_terminal(),
            *final(self) == old(self).after_mouse_move(x, y),
            final(self).instances() == old(self).instances(),
            final(self).output_port() == old(self).output_port(),
    {
        match &mut self.dmd {
            Some(dmd) => {
                dmd.mouse_move(x, y);
                Ok(())
            },
            None => Err(Fault::NotInitialized),
        }
    }

    /// Tells the terminal that a pointer button went down. Succeeds whenever
    /// there is a terminal, and hands the engine this button. The output
    /// port reads as before.
    pub fn mouse_down(&mut self, button: u8) -> (outcome: Result<(), Fault>)
        ensures
            outcome == old(self).needs_terminal(),
            *final(self) == old(self).after_mouse_down(button),
            final(self).instances() == old(self).instances(),
            final(self).output_port() == old(self).output_port(),
    {
        match &mut self.dmd {
            Some(dmd) => {
                dmd.mouse_down(button);
                Ok(())
            },
            None => Err(Fault::NotInitialized),
        }
    }

    /// Tells the terminal that a pointer button came up. Succeeds whenever
    /// there is a terminal, and hands the engine this button. The output
    /// port reads as before.
    pub fn mouse_up(&mut self, button: u8) -> (outcome: Result<(), Fault>)
        ensures
            outcome == old(self).needs_terminal(),
            *final(self) == old(self).after_mouse_up(button),
            final(self).instances() == old(self).instances(),
            final(self).output_port() == old(self).output_port(),
    {
        match &mut self.dmd {
            Some(dmd) => {
                dmd.mouse_up(button);
                Ok(())
            },
            None => Err(Fault::NotInitialized),
        }
    }

    /// Collects the next byte that the terminal has sent, if one is waiting.
    /// Never waits: with nothing pending the answer is `Ok(None)` at once. A
    /// byte that was handed out is gone from the queue.
    pub fn tx_poll(&mut self) -> (polled: Result<Option<u8>, Fault>)
        ensures
            final(self).instances() == old(self).instances(),
            old(self).dmd is None ==> polled == Err::<Option<u8>, Fault>(Fault::NotInitialized)
                && *final(self) == *old(self),
            old(self).dmd matches Some(before) ==> polled == Ok::<Option<u8>, Fault>(
                next_polled(engine_tx_pending(before)),
            ) && engine_tx_pending(final(self).dmd->Some_0) == after_poll(
                engine_tx_pending(before),
            ),
    {
        match &mut self.dmd {
            Some(dmd) => {
                let ghost pending = engine_tx_pending(*dmd);
                let polled = dmd.tx_poll();
                assert(engine_tx_pending(*dmd) =~= after_poll(pending));
                Ok(polled)
            },
            None => Err(Fault::NotInitialized),
        }
    }
}

/// Before a terminal is created, the operations above report
/// `NotInitialized` and leave the slot empty.
pub proof fn empty_slot_refuses_work(state: DmdState, x: u16, y: u16, button: u8)
    requires
        state.dmd is None,
    ensures
        state.needs_terminal() == Err::<(), Fault>(Fault::NotInitialized),
        state.after_mouse_move(x, y) == state,
        state.after_mouse_down(button) == state,
        state.after_mouse_up(button) == state,
        state.pc() == 0,
        state.output_port() == 0,
{
}

/// With a terminal in the slot, a reset and the pointer events succeed, and
/// pointer events keep a terminal there.
pub proof fn terminal_outlives_operations(state: DmdState, x: u16, y: u16, button: u8)
    requires
        state.dmd is Some,
    ensures
        state.needs_terminal() is Ok,
        state.after_mouse_move(x, y).instances() == 1,
        state.after_mouse_down(button).instances() == 1,
        state.after_mouse_up(button).instances() == 1,
{
}

/// The slot holds at most one terminal, whatever was done to it.
pub proof fn at_most_one_instance(state: DmdState)
    ensures
        state.instances() <= 1,
        state.instances() == 1 <==> state.dmd is Some,
{
}

/// A blank frame has the full length and holds zeros only. It is the frame
/// of a new terminal and of every terminal after a reset.
pub proof fn blank_frame_is_full_and_zero()
    ensures
        blank_frame().len() == FRAME_LEN,
        forall|i: int| 0 <= i < FRAME_LEN ==> blank_frame()[i] == 0,
{
}

/// A byte queued behind others is handed out after them, as it was queued,
/// and exactly once: the poll after it finds one byte less, and a poll of an
/// empty queue finds nothing and leaves it empty.
pub proof fn queued_byte_is_polled_once(pending: Seq<u8>, byte: u8)
    ensures
        next_polled(after_polls(pending.push(byte), pending.len())) == Some(byte),
        after_polls(pending.push(byte), pending.len() + 1).len() == 0,
        next_polled(after_polls(pending.push(byte), pending.len() + 1)) is None,
        next_polled(Seq::<u8>::empty()) is None,
        after_poll(Seq::<u8>::empty()) == Seq::<u8>::empty(),
{
    let queue = pending.push(byte);
    lemma_polls_skip(queue, pending.len());
    lemma_polls_skip(queue, pending.len() + 1);
    assert(queue.skip(pending.len() as int)[0] == byte);
}

/// Polling `polls` times drops that many bytes from the front of the queue.
proof fn lemma_polls_skip(pending: Seq<u8>, polls: nat)
    requires
        polls <= pending.len(),
    ensures
        after_polls(pending, polls) == pending.skip(polls as int),
    decreases polls,
{
    if polls == 0 {
        assert(pending.skip(0) =~= pending);
    } else {
        lemma_polls_skip(after_poll(pending), (polls - 1) as nat);
        assert(pending.skip(1).skip(polls - 1) =~= pending.skip(polls as int));
    }
}

} // verus!
