//! The completion-polling state machine run after the last page is sent.
//!
//! The device reports completion asynchronously: the engine polls status
//! frames until the device is back in the receiving phase, aborting at
//! once on any reported fault and giving up after a fixed attempt budget.
//! The decisions are pure functions of the decoded statuses; the caller
//! owns the transport, performs each read, and hands the frames in.

use vstd::prelude::*;

use crate::error::Error;
use crate::status::{Phase, Status, StatusType};

verus! {

/// The attempt budget of the completion-polling loop.
pub const MAX_COMPLETION_ATTEMPTS: u32 = 100;

/// Where the completion-polling loop stands.
#[derive(Debug, Clone, Copy, PartialEq, Eq, Structural)]
pub enum CompletionState {
    /// Watching for completion or a fault.
    Monitoring,
    /// A completion report arrived while still printing; the next status
    /// is a confirmation re-read expected to show the receiving phase.
    Confirming,
}

/// What one observed status means for the loop.
#[derive(Debug, Clone, Copy, PartialEq, Eq, Structural)]
pub enum CompletionStep {
    /// Keep polling, in the given state.
    Continue(CompletionState),
    /// The job completed and the device is receiving again.
    Finished,
    /// A fault was reported; polling stops at once.
    Abort(Error),
}

/// What one status decides.
///
/// While monitoring: any non-clear error condition or an error status-type
/// aborts; completed-while-printing asks for a confirmation re-read; a
/// phase change to receiving finishes; everything else, a later status
/// must settle.  A confirmation read finishes on the receiving phase and
/// otherwise falls back to monitoring.
pub open spec fn completion_step_spec(state: CompletionState, st: Status) -> CompletionStep {
    match state {
        CompletionState::Monitoring => {
            if !st.error.is_no_error_spec() {
                CompletionStep::Abort(Error::PrinterError(st.error))
            } else if st.status_type == StatusType::Error {
                CompletionStep::Abort(Error::PrinterError(st.error))
            } else if st.status_type == StatusType::Completed && st.phase == Phase::Printing {
                CompletionStep::Continue(CompletionState::Confirming)
            } else if st.status_type == StatusType::PhaseChange && st.phase == Phase::Receiving {
                CompletionStep::Finished
            } else {
                CompletionStep::Continue(CompletionState::Monitoring)
            }
        }
        CompletionState::Confirming => {
            if st.phase == Phase::Receiving {
                CompletionStep::Finished
            } else {
                CompletionStep::Continue(CompletionState::Monitoring)
            }
        }
    }
}

/// Take one step of the completion-polling state machine.
pub fn completion_step(state: CompletionState, status: &Status) -> (r: CompletionStep)
    ensures
        r == completion_step_spec(state, *status),
{
    match state {
        CompletionState::Monitoring => {
            if !status.error.is_no_error() {
                CompletionStep::Abort(Error::PrinterError(status.error))
            } else if status.status_type == StatusType::Error {
                CompletionStep::Abort(Error::PrinterError(status.error))
            } else if status.status_type == StatusType::Completed && status.phase
                == Phase::Printing {
                CompletionStep::Continue(CompletionState::Confirming)
            } else if status.status_type == StatusType::PhaseChange && status.phase
                == Phase::Receiving {
                CompletionStep::Finished
            } else {
                CompletionStep::Continue(CompletionState::Monitoring)
            }
        }
        CompletionState::Confirming => {
            if status.phase == Phase::Receiving {
                CompletionStep::Finished
            } else {
                CompletionStep::Continue(CompletionState::Monitoring)
            }
        }
    }
}

/// What a sequence of observed statuses resolves to.
///
/// Each status feeds one step; a confirmation re-read spends no attempt,
/// every return to monitoring spends one, and the budget running out
/// yields `PrintTimeout`.  A sequence exhausted before any resolution
/// stands for a device that stopped answering: `ReadStatusTimeout`.
pub open spec fn completion_outcome(sts: Seq<Status>, state: CompletionState, attempts: int) -> Result<(), Error>
    decreases sts.len(),
{
    if sts.len() == 0 {
        Err(Error::ReadStatusTimeout)
    } else {
        let rest = sts.subrange(1, sts.len() as int);
        match completion_step_spec(state, sts[0]) {
            CompletionStep::Finished => Ok(()),
            CompletionStep::Abort(e) => Err(e),
            CompletionStep::Continue(next) => match next {
                CompletionState::Confirming => completion_outcome(
                    rest,
                    CompletionState::Confirming,
                    attempts,
                ),
                CompletionState::Monitoring => {
                    if attempts + 1 >= MAX_COMPLETION_ATTEMPTS {
                        Err(Error::PrintTimeout)
                    } else {
                        completion_outcome(rest, CompletionState::Monitoring, attempts + 1)
                    }
                },
            },
        }
    }
}

/// Run the completion-polling state machine over a sequence of decoded
/// statuses, from the first read after the eject command on.
pub fn run_completion(statuses: &Vec<Status>) -> (r: Result<(), Error>)
    ensures
        r == completion_outcome(statuses@, CompletionState::Monitoring, 0),
{
    let ghost all = statuses@;
    let mut idx: usize = 0;
    let mut attempts: u32 = 0;
    let mut state = CompletionState::Monitoring;

    proof {
        assert(all.subrange(0, all.len() as int) =~= all);
    }

    loop
        invariant
            all == statuses@,
            idx <= all.len(),
            attempts < MAX_COMPLETION_ATTEMPTS,
            completion_outcome(all.subrange(idx as int, all.len() as int), state, attempts as int)
                == completion_outcome(all, CompletionState::Monitoring, 0),
        decreases all.len() - idx,
    {
        let ghost suffix = all.subrange(idx as int, all.len() as int);
        if idx >= statuses.len() {
            proof {
                assert(suffix.len() == 0);
            }
            return Err(Error::ReadStatusTimeout);
        }
        let st = statuses[idx];
        proof {
            assert(suffix[0] == all[idx as int]);
            assert(suffix.subrange(1, suffix.len() as int) =~= all.subrange(
                idx + 1,
                all.len() as int,
            ));
        }
        idx += 1;
        match completion_step(state, &st) {
            CompletionStep::Finished => {
                return Ok(());
            }
            CompletionStep::Abort(e) => {
                return Err(e);
            }
            CompletionStep::Continue(next) => {
                match next {
                    CompletionState::Confirming => {
                        state = CompletionState::Confirming;
                    }
                    CompletionState::Monitoring => {
                        if attempts + 1 >= MAX_COMPLETION_ATTEMPTS {
                            return Err(Error::PrintTimeout);
                        }
                        attempts += 1;
                        state = CompletionState::Monitoring;
                    }
                }
            }
        }
    }
}

} // verus!
