//! Faults, the wire status, and the one mapping between them.
use vstd::prelude::*;
use dmd_core::err::{BusError, CpuError, DuartError};

verus! {

/// Why an operation did no work, or did not finish it.
#[derive(Clone, Copy, Debug, PartialEq, Eq, Structural)]
pub enum Fault {
    /// The engine reported a malfunction.
    OperationFailed,
    /// No terminal has been created yet.
    NotInitialized,
    /// A terminal exists already.
    AlreadyInitialized,
    /// A serial receiver has not drained the previous byte.
    ReceiverNotReady,
    /// Exclusive access to the terminal could not be had.
    LockUnavailable,
}

/// What crosses the call boundary.
#[derive(Clone, Copy, Debug, PartialEq, Eq, Structural)]
pub enum StatusCode {
    Success,
    Error,
    Busy,
}

/// The status that stands for a fault. `Busy` is kept for flow control.
pub open spec fn fault_status(fault: Fault) -> StatusCode {
    match fault {
        Fault::OperationFailed => StatusCode::Error,
        Fault::NotInitialized => StatusCode::Error,
        Fault::AlreadyInitialized => StatusCode::Error,
        Fault::ReceiverNotReady => StatusCode::Busy,
        Fault::LockUnavailable => StatusCode::Error,
    }
}

/// The status that stands for an outcome, whatever value a success carries.
pub open spec fn status_of<T>(outcome: Result<T, Fault>) -> StatusCode {
    match outcome {
        Ok(_) => StatusCode::Success,
        Err(fault) => fault_status(fault),
    }
}

/// The integer that stands for a status on the wire.
pub open spec fn wire_code(status: StatusCode) -> u8 {
    match status {
        StatusCode::Success => 0,
        StatusCode::Error => 1,
        StatusCode::Busy => 2,
    }
}

/// Status and byte of a transmit poll: the byte with `Success`, `Busy` with a
/// zero byte when nothing was pending, the fault's status with a zero byte
/// otherwise.
pub open spec fn poll_reply_of(outcome: Result<Option<u8>, Fault>) -> (StatusCode, u8) {
    match outcome {
        Ok(Some(byte)) => (StatusCode::Success, byte),
        Ok(None) => (StatusCode::Busy, 0u8),
        Err(fault) => (fault_status(fault), 0u8),
    }
}

impl Fault {
    /// The status that this fault is reported as.
    pub fn status(self) -> (status: StatusCode)
        ensures
            status == fault_status(self),
            status != StatusCode::Success,
            status == StatusCode::Busy <==> self == Fault::ReceiverNotReady,
    {
        match self {
            Fault::OperationFailed => StatusCode::Error,
            Fault::NotInitialized => StatusCode::Error,
            Fault::AlreadyInitialized => StatusCode::Error,
            Fault::ReceiverNotReady => StatusCode::Busy,
            Fault::LockUnavailable => StatusCode::Error,
        }
    }
}

impl StatusCode {
    /// The integer sent for this status: 0, 1 or 2.
    pub fn code(self) -> (code: u8)
        ensures
            code == wire_code(self),
    {
        match self {
            StatusCode::Success => 0,
            StatusCode::Error => 1,
            StatusCode::Busy => 2,
        }
    }

    /// The status as a boolean, where `Error` and `Busy` collapse to `false`.
    pub fn is_success(self) -> (yes: bool)
        ensures
            yes <==> self == StatusCode::Success,
    {
        match self {
            StatusCode::Success => true,
            StatusCode::Error => false,
            StatusCode::Busy => false,
        }
    }
}

/// Maps an outcome to its status. Every operation reports through here.
pub fn translate<T>(outcome: &Result<T, Fault>) -> (status: StatusCode)
    ensures
        status == status_of(*outcome),
{
    match outcome {
        Ok(_) => StatusCode::Success,
        Err(fault) => fault.status(),
    }
}

/// Maps the outcome of a transmit poll to its status and byte.
pub fn poll_reply(outcome: &Result<Option<u8>, Fault>) -> (reply: (StatusCode, u8))
    ensures
        reply == poll_reply_of(*outcome),
{
    match outcome {
        Ok(Some(byte)) => (StatusCode::Success, *byte),
        Ok(None) => (StatusCode::Busy, 0),
        Err(fault) => (fault.status(), 0),
    }
}

/// A bus error of the engine is a malfunction.
pub fn bus_outcome(outcome: Result<(), BusError>) -> (mapped: Result<(), Fault>)
    ensures
        outcome is Ok ==> mapped == Ok::<(), Fault>(()),
        outcome is Err ==> mapped == Err::<(), Fault>(Fault::OperationFailed),
{
    match outcome {
        Ok(()) => Ok(()),
        Err(_) => Err(Fault::OperationFailed),
    }
}

/// A processor error of the engine is a malfunction.
pub fn cpu_outcome(outcome: Result<(), CpuError>) -> (mapped: Result<(), Fault>)
    ensures
        outcome is Ok ==> mapped == Ok::<(), Fault>(()),
        outcome is Err ==> mapped == Err::<(), Fault>(Fault::OperationFailed),
{
    match outcome {
        Ok(()) => Ok(()),
        Err(_) => Err(Fault::OperationFailed),
    }
}

/// What a step came to. `None` stands for a step that did not return: the
/// engine gave up on it. That, like a processor error, is a malfunction.
pub fn step_outcome(stepped: Option<Result<(), CpuError>>) -> (mapped: Result<(), Fault>)
    ensures
        stepped matches Some(outcome) && outcome is Ok ==> mapped == Ok::<(), Fault>(()),
        !(stepped matches Some(outcome) && outcome is Ok) ==> mapped == Err::<(), Fault>(
            Fault::OperationFailed,
        ),
{
    match stepped {
        Some(outcome) => cpu_outcome(outcome),
        None => Err(Fault::OperationFailed),
    }
}

/// Whether a step returned, and returned without an error.
pub open spec fn went_well(stepped: Option<Result<(), CpuError>>) -> bool {
    stepped matches Some(outcome) && outcome is Ok
}

/// The report of a step: success with a zero program counter, or a
/// malfunction with the program counter at which the terminal stands after
/// the step.
pub open spec fn step_report_of(stepped: Option<Result<(), CpuError>>, pc_after: u32) -> (
    Result<(), Fault>,
    u32,
) {
    if went_well(stepped) {
        (Ok(()), 0u32)
    } else {
        (Err(Fault::OperationFailed), pc_after)
    }
}

/// Reports a step from what came of it and the program counter read after
/// it.
pub fn step_report(stepped: Option<Result<(), CpuError>>, pc_after: u32) -> (report: (
    Result<(), Fault>,
    u32,
))
    ensures
        report == step_report_of(stepped, pc_after),
{
    let outcome = step_outcome(stepped);
    let pc: u32 = if outcome.is_err() {
        pc_after
    } else {
        0
    };
    (outcome, pc)
}

/// A refusal by a serial receiver is flow control, not a malfunction.
pub fn receiver_outcome(outcome: Result<(), DuartError>) -> (mapped: Result<(), Fault>)
    ensures
        outcome is Ok ==> mapped == Ok::<(), Fault>(()),
        outcome is Err ==> mapped == Err::<(), Fault>(Fault::ReceiverNotReady),
{
    match outcome {
        Ok(()) => Ok(()),
        Err(_) => Err(Fault::ReceiverNotReady),
    }
}

/// `Busy` stands for a receiver that is not ready and for nothing else, and
/// `Success` for no fault at all.
pub proof fn busy_means_flow_control<T>(outcome: Result<T, Fault>)
    ensures
        status_of(outcome) == StatusCode::Busy <==> outcome is Err && outcome->Err_0
            == Fault::ReceiverNotReady,
        status_of(outcome) == StatusCode::Success <==> outcome is Ok,
        fault_status(Fault::LockUnavailable) == StatusCode::Error,
        fault_status(Fault::NotInitialized) == StatusCode::Error,
        fault_status(Fault::AlreadyInitialized) == StatusCode::Error,
{
}

} // verus!
