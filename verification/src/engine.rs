//! The emulator engine as this crate sees it.
//!
//! What this file says of the engine is believed, not proved: it declares the
//! engine's types, names what the engine holds, and gives each engine method
//! that the crate calls the contract that the engine's source supports.
use vstd::prelude::*;
use dmd_core::dmd::Dmd;
use dmd_core::err::{BusError, CpuError, DuartError};

verus! {

/// Number of bytes in the frame buffer that the engine exposes.
pub const FRAME_LEN: usize = 0x19000;

/// `dmd_core::dmd::Dmd`: one whole terminal (processor, bus, devices).
/// Nothing inside it is visible here.
#[verifier::external_type_specification]
#[verifier::external_body]
pub struct ExDmd(Dmd);

/// `dmd_core::err::BusError`: a failed memory or device access.
#[verifier::external_type_specification]
#[verifier::external_body]
pub struct ExBusError(BusError);

/// `dmd_core::err::CpuError`: a processor exception or a bus error met while
/// executing an instruction. It is what a step of the engine reports.
#[verifier::external_type_specification]
#[verifier::external_body]
pub struct ExCpuError(CpuError);

/// `dmd_core::err::DuartError`: its only variant says that a serial receiver
/// cannot take a byte yet.
#[verifier::external_type_specification]
#[verifier::external_body]
pub struct ExDuartError(DuartError);

/// The processor's program counter, as `Dmd::get_pc` reads it.
pub uninterp spec fn engine_pc(dmd: Dmd) -> u32;

/// The serial controller's output port, as `Dmd::duart_output` reads it.
pub uninterp spec fn engine_output_port(dmd: Dmd) -> u8;

/// The frame buffer, as `Dmd::video_ram` exposes it.
pub uninterp spec fn engine_frame(dmd: Dmd) -> Seq<u8>;

/// The bytes that the terminal has sent and that nobody has collected yet,
/// the one that `Dmd::tx_poll` hands out next standing first.
pub uninterp spec fn engine_tx_pending(dmd: Dmd) -> Seq<u8>;

/// The terminal that `Dmd::reset` leaves, given a terminal.
pub uninterp spec fn engine_reset(dmd: Dmd) -> Dmd;

/// Whether `Dmd::rx_char`, offered `character` on the terminal `before`, can
/// answer `accepted` and leave the terminal `after`. The engine's clock
/// decides between the answers that this admits.
pub uninterp spec fn engine_rx_char_leaves(
    before: Dmd,
    character: u8,
    accepted: bool,
    after: Dmd,
) -> bool;

/// Whether `Dmd::rx_keyboard`, offered `keycode` on the terminal `before`,
/// can answer `accepted` and leave the terminal `after`. The engine's clock
/// decides between the answers that this admits.
pub uninterp spec fn engine_rx_keyboard_leaves(
    before: Dmd,
    keycode: u8,
    accepted: bool,
    after: Dmd,
) -> bool;

/// The terminal that `Dmd::mouse_move` leaves, given a terminal and a
/// position.
pub uninterp spec fn engine_mouse_move(dmd: Dmd, x: u16, y: u16) -> Dmd;

/// The terminal that `Dmd::mouse_down` leaves, given a terminal and a button.
pub uninterp spec fn engine_mouse_down(dmd: Dmd, button: u8) -> Dmd;

/// The terminal that `Dmd::mouse_up` leaves, given a terminal and a button.
pub uninterp spec fn engine_mouse_up(dmd: Dmd, button: u8) -> Dmd;

/// A frame buffer into which nothing has been drawn: `FRAME_LEN` zero bytes.
pub open spec fn blank_frame() -> Seq<u8> {
    Seq::new(FRAME_LEN as nat, |i: int| 0u8)
}

/// `Dmd::new` builds a terminal. Its RAM, of which the frame buffer is a
/// part, is filled with zeros, and its transmit queue is empty.
pub assume_specification[ Dmd::new ]() -> (dmd: Dmd)
    ensures
        engine_frame(dmd) == blank_frame(),
        engine_tx_pending(dmd).len() == 0,
;

/// `Dmd::reset` loads the two ROM images, which fit the ROM, and reloads the
/// processor registers from the control block that the ROM's reset vector
/// points to, which lies in the ROM: none of these accesses can fail, so the
/// call succeeds on every terminal. It consults nothing but the terminal, so
/// the terminal that it leaves is named. It reads and writes ROM and
/// registers only, so the frame buffer, which lies in RAM, and the transmit
/// queue, which the serial controller keeps, stay as they were.
pub assume_specification[ Dmd::reset ](dmd: &mut Dmd) -> (outcome: Result<(), BusError>)
    ensures
        outcome is Ok,
        *final(dmd) == engine_reset(*old(dmd)),
        engine_frame(*final(dmd)) == engine_frame(*old(dmd)),
        engine_tx_pending(*final(dmd)) == engine_tx_pending(*old(dmd)),
;

/// `Dmd::video_ram` borrows the first `FRAME_LEN` bytes of the terminal's RAM.
/// The RAM is a megabyte long and never resized, and the engine wraps the
/// slice in `Ok` unconditionally, so the call always succeeds with a slice of
/// that length.
pub assume_specification<'a>[ Dmd::video_ram ](dmd: &'a Dmd) -> (frame: Result<&'a [u8], BusError>)
    ensures
        frame is Ok,
        frame matches Ok(bytes) ==> bytes@ == engine_frame(*dmd) && bytes@.len() == FRAME_LEN,
;

/// `Dmd::get_pc` reads the program counter and changes nothing.
pub assume_specification[ Dmd::get_pc ](dmd: &Dmd) -> (pc: u32)
    ensures
        pc == engine_pc(*dmd),
;

/// `Dmd::duart_output` reads the serial controller's output port and changes
/// nothing.
pub assume_specification[ Dmd::duart_output ](dmd: &Dmd) -> (value: u8)
    ensures
        value == engine_output_port(*dmd),
;

/// `Dmd::rx_char` offers one byte to the host-side receiver. Whether the
/// receiver takes it depends on the engine's clock, so the answer is not
/// named; the clause says that answer and terminal afterwards are among
/// those that this call, with this byte, can give.
pub assume_specification[ Dmd::rx_char ](dmd: &mut Dmd, character: u8) -> (outcome: Result<
    (),
    DuartError,
>)
    ensures
        engine_rx_char_leaves(*old(dmd), character, outcome is Ok, *final(dmd)),
;

/// `Dmd::rx_keyboard` offers one byte to the keyboard-side receiver. Whether
/// the receiver takes it depends on the engine's clock, so the answer is not
/// named; the clause says that answer and terminal afterwards are among
/// those that this call, with this byte, can give.
pub assume_specification[ Dmd::rx_keyboard ](dmd: &mut Dmd, keycode: u8) -> (outcome: Result<
    (),
    DuartError,
>)
    ensures
        engine_rx_keyboard_leaves(*old(dmd), keycode, outcome is Ok, *final(dmd)),
;

/// `Dmd::mouse_move` stores a pointer position in the mouse registers. The
/// terminal that it leaves is named; the output port is not touched.
pub assume_specification[ Dmd::mouse_move ](dmd: &mut Dmd, x: u16, y: u16)
    ensures
        *final(dmd) == engine_mouse_move(*old(dmd), x, y),
        engine_output_port(*final(dmd)) == engine_output_port(*old(dmd)),
;

/// `Dmd::mouse_down` records in the serial controller's input port that a
/// button went down. The terminal that it leaves is named; the output port
/// is not touched.
pub assume_specification[ Dmd::mouse_down ](dmd: &mut Dmd, button: u8)
    ensures
        *final(dmd) == engine_mouse_down(*old(dmd), button),
        engine_output_port(*final(dmd)) == engine_output_port(*old(dmd)),
;

/// `Dmd::mouse_up` records in the serial controller's input port that a
/// button came up. The terminal that it leaves is named; the output port is
/// not touched.
pub assume_specification[ Dmd::mouse_up ](dmd: &mut Dmd, button: u8)
    ensures
        *final(dmd) == engine_mouse_up(*old(dmd), button),
        engine_output_port(*final(dmd)) == engine_output_port(*old(dmd)),
;

/// `Dmd::tx_poll` takes the oldest uncollected byte out of the terminal's
/// transmit queue, or reports that the queue is empty, in which case the
/// queue stays empty. It never waits.
pub assume_specification[ Dmd::tx_poll ](dmd: &mut Dmd) -> (polled: Option<u8>)
    ensures
        engine_tx_pending(*old(dmd)).len() == 0 ==> polled is None && engine_tx_pending(
            *final(dmd),
        ).len() == 0,
        engine_tx_pending(*old(dmd)).len() > 0 ==> polled == Some(engine_tx_pending(*old(dmd))[0])
            && engine_tx_pending(*final(dmd)) == engine_tx_pending(*old(dmd)).skip(1),
;

} // verus!
