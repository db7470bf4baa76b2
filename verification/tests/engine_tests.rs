use ql_label::engine::{completion_step, run_completion, CompletionState, CompletionStep};
use ql_label::error::Error;
use ql_label::{PrinterError, Status};

/// A status frame with the given status-type and phase codes and clear
/// error bytes.
fn status_of(status_type: u8, phase: u8) -> Status {
    let mut buf = [0u8; 32];
    buf[18] = status_type;
    buf[19] = phase;
    Status::from_buf(buf)
}

/// A status frame carrying a hardware fault in the first error byte.
fn faulty_status(err1: u8) -> Status {
    let mut buf = [0u8; 32];
    buf[8] = err1;
    buf[18] = 0x06;
    buf[19] = 0x01;
    Status::from_buf(buf)
}

const PRINTING_PHASE_CHANGE: (u8, u8) = (0x06, 0x01);
const PRINTING_COMPLETED: (u8, u8) = (0x01, 0x01);
const RECEIVING_COMPLETED: (u8, u8) = (0x01, 0x00);
const RECEIVING_PHASE_CHANGE: (u8, u8) = (0x06, 0x00);

#[test]
fn test_completion_confirmed_after_re_read() {
    // Printing/PhaseChange, Printing/Completed, Receiving/Completed: the
    // completion report triggers one confirmation re-read, which sees the
    // receiving phase and ends the job successfully.
    let statuses: Vec<Status> = [
        PRINTING_PHASE_CHANGE,
        PRINTING_COMPLETED,
        RECEIVING_COMPLETED,
    ]
    .iter()
    .map(|&(t, p)| status_of(t, p))
    .collect();
    assert_eq!(run_completion(&statuses), Ok(()));
}

#[test]
fn test_completion_direct_phase_change() {
    let statuses = vec![status_of(RECEIVING_PHASE_CHANGE.0, RECEIVING_PHASE_CHANGE.1)];
    assert_eq!(run_completion(&statuses), Ok(()));
}

#[test]
fn test_completion_times_out_within_budget() {
    // a device that never reaches the receiving phase exhausts the
    // attempt budget
    let statuses: Vec<Status> = (0..200)
        .map(|_| status_of(PRINTING_PHASE_CHANGE.0, PRINTING_PHASE_CHANGE.1))
        .collect();
    assert_eq!(run_completion(&statuses), Err(Error::PrintTimeout));
}

#[test]
fn test_completion_read_starvation() {
    // fewer statuses than the loop needs stands for a device that stopped
    // answering
    let statuses: Vec<Status> = Vec::new();
    assert_eq!(run_completion(&statuses), Err(Error::ReadStatusTimeout));
}

#[test]
fn test_completion_aborts_on_fault() {
    let statuses = vec![
        status_of(PRINTING_PHASE_CHANGE.0, PRINTING_PHASE_CHANGE.1),
        faulty_status(0x01),
    ];
    assert_eq!(
        run_completion(&statuses),
        Err(Error::PrinterError(PrinterError::NoMedia))
    );
}

#[test]
fn test_completion_aborts_on_error_status_type() {
    let mut buf = [0u8; 32];
    buf[18] = 0x02; // error status-type with clear error bytes
    let statuses = vec![Status::from_buf(buf)];
    assert_eq!(
        run_completion(&statuses),
        Err(Error::PrinterError(PrinterError::UnknownError(0, 0)))
    );
}

#[test]
fn test_completion_failed_confirmation_then_success() {
    // the confirmation re-read still sees the printing phase, so the loop
    // falls back to monitoring and succeeds on a later phase change
    let statuses: Vec<Status> = [
        PRINTING_COMPLETED,
        PRINTING_PHASE_CHANGE,
        RECEIVING_PHASE_CHANGE,
    ]
    .iter()
    .map(|&(t, p)| status_of(t, p))
    .collect();
    assert_eq!(run_completion(&statuses), Ok(()));
}

#[test]
fn test_completion_step_transitions() {
    let monitoring = CompletionState::Monitoring;
    let completed = status_of(PRINTING_COMPLETED.0, PRINTING_COMPLETED.1);
    assert_eq!(
        completion_step(monitoring, &completed),
        CompletionStep::Continue(CompletionState::Confirming)
    );
    let still_printing = status_of(PRINTING_PHASE_CHANGE.0, PRINTING_PHASE_CHANGE.1);
    assert_eq!(
        completion_step(CompletionState::Confirming, &still_printing),
        CompletionStep::Continue(CompletionState::Monitoring)
    );
    let receiving = status_of(RECEIVING_COMPLETED.0, RECEIVING_COMPLETED.1);
    assert_eq!(
        completion_step(CompletionState::Confirming, &receiving),
        CompletionStep::Finished
    );
}
