use dmd_bridge::status::{
    bus_outcome, cpu_outcome, poll_reply, receiver_outcome, step_outcome, step_report, translate,
    Fault, StatusCode,
};
use dmd_core::err::{BusError, CpuError, CpuException, DuartError};

#[test]
fn success_maps_to_success() {
    assert_eq!(translate(&Ok::<(), Fault>(())), StatusCode::Success);
    assert_eq!(translate(&Ok::<u32, Fault>(7)), StatusCode::Success);
}

#[test]
fn every_fault_maps_to_its_status() {
    assert_eq!(Fault::OperationFailed.status(), StatusCode::Error);
    assert_eq!(Fault::NotInitialized.status(), StatusCode::Error);
    assert_eq!(Fault::AlreadyInitialized.status(), StatusCode::Error);
    assert_eq!(Fault::ReceiverNotReady.status(), StatusCode::Busy);
    assert_eq!(Fault::LockUnavailable.status(), StatusCode::Error);
}

#[test]
fn lock_failure_is_an_error_and_never_busy() {
    let status = translate(&Err::<(), Fault>(Fault::LockUnavailable));
    assert_eq!(status, StatusCode::Error);
    assert!(!status.is_success());
    assert_eq!(status.code(), 1);
}

#[test]
fn lifecycle_misuse_is_an_error_and_never_busy() {
    assert_eq!(translate(&Err::<(), Fault>(Fault::NotInitialized)), StatusCode::Error);
    assert_eq!(translate(&Err::<(), Fault>(Fault::AlreadyInitialized)), StatusCode::Error);
}

#[test]
fn wire_codes_are_zero_one_two() {
    assert_eq!(StatusCode::Success.code(), 0);
    assert_eq!(StatusCode::Error.code(), 1);
    assert_eq!(StatusCode::Busy.code(), 2);
}

#[test]
fn only_success_is_true() {
    assert!(StatusCode::Success.is_success());
    assert!(!StatusCode::Error.is_success());
    assert!(!StatusCode::Busy.is_success());
}

#[test]
fn poll_reply_carries_the_queued_byte() {
    assert_eq!(poll_reply(&Ok(None)), (StatusCode::Busy, 0));
    assert_eq!(poll_reply(&Ok(Some(0x7a))), (StatusCode::Success, 0x7a));
    assert_eq!(poll_reply(&Ok(Some(0))), (StatusCode::Success, 0));
    assert_eq!(poll_reply(&Err(Fault::NotInitialized)), (StatusCode::Error, 0));
    assert_eq!(poll_reply(&Err(Fault::LockUnavailable)), (StatusCode::Error, 0));
}

#[test]
fn bus_errors_are_malfunctions() {
    assert_eq!(bus_outcome(Ok(())), Ok(()));
    assert_eq!(bus_outcome(Err(BusError::Range)), Err(Fault::OperationFailed));
    assert_eq!(bus_outcome(Err(BusError::NoDevice(0x90_0000))), Err(Fault::OperationFailed));
}

#[test]
fn cpu_errors_are_malfunctions() {
    assert_eq!(cpu_outcome(Ok(())), Ok(()));
    assert_eq!(
        cpu_outcome(Err(CpuError::Exception(CpuException::IllegalOpcode))),
        Err(Fault::OperationFailed)
    );
    assert_eq!(cpu_outcome(Err(CpuError::Bus(BusError::Alignment))), Err(Fault::OperationFailed));
}

#[test]
fn receiver_refusal_is_flow_control() {
    assert_eq!(receiver_outcome(Ok(())), Ok(()));
    assert_eq!(
        receiver_outcome(Err(DuartError::ReceiverNotReady)),
        Err(Fault::ReceiverNotReady)
    );
    assert_eq!(
        translate(&receiver_outcome(Err(DuartError::ReceiverNotReady))),
        StatusCode::Busy
    );
}

#[test]
fn step_outcomes_map_to_success_or_malfunction() {
    assert_eq!(step_outcome(Some(Ok(()))), Ok(()));
    assert_eq!(
        step_outcome(Some(Err(CpuError::Exception(CpuException::PrivilegedOpcode)))),
        Err(Fault::OperationFailed)
    );
    assert_eq!(step_outcome(Some(Err(CpuError::Bus(BusError::Range)))), Err(Fault::OperationFailed));
    assert_eq!(step_outcome(None), Err(Fault::OperationFailed));
}

#[test]
fn step_report_carries_the_program_counter_only_with_a_malfunction() {
    assert_eq!(step_report(Some(Ok(())), 0x1234), (Ok(()), 0));
    assert_eq!(
        step_report(Some(Err(CpuError::Exception(CpuException::IllegalOpcode))), 0x1234),
        (Err(Fault::OperationFailed), 0x1234)
    );
    assert_eq!(step_report(None, 0xd924), (Err(Fault::OperationFailed), 0xd924));
}
