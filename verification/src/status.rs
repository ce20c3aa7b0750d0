//! States, signals and the error taxonomy of the stream core.
//!
//! The read loop owns a readable descriptor and runs once per readiness
//! wait.  Everything the loop can observe in one iteration, and every
//! way it can end, is named here, together with the two mappings that
//! the consumer side relies on: the close reason shown by `poll` and
//! the verdict that `join` reports.

use vstd::prelude::*;

verus! {

/// A request sent from the consumer-facing handle to the read loop.
#[derive(Clone, Copy, PartialEq, Eq, Structural, Debug)]
pub enum Signal {
    Stop,
}

/// What a non-blocking check of the stop-signal channel found.
#[derive(Clone, Copy, PartialEq, Eq, Structural, Debug)]
pub enum SignalCheck {
    /// A stop request was queued.
    Requested,
    /// Nothing was queued; the handle is still attached.
    Quiet,
    /// The sending half is gone without a stop request.
    Disconnected,
}

/// What one bounded wait on the readiness source reported.
#[derive(Clone, Copy, PartialEq, Eq, Structural, Debug)]
pub enum Readiness {
    /// The descriptor has data to read.
    Readable,
    /// The remote end of the pipe was closed.
    HungUp,
    /// The wait timed out with nothing to report.
    TimedOut,
}

/// What one read from the descriptor returned once the readiness
/// source reported data.
#[derive(Debug)]
pub enum ReadEvent {
    /// The bytes read; a read of zero bytes means "nothing new" and
    /// is not by itself a hang-up.
    Bytes(Vec<u8>),
    /// The read failed with the given OS error code.
    Failed(i32),
}

/// Why a stream ended for good.
///
/// `HangUp` is the normal end of stream for a child process that has
/// exited; `OutputChannelClosed` means the consumer went away first and
/// the loop quit rather than read into the void.  Only `IoFailure` and
/// `SignalChannelClosed` mark a genuine fault.
#[derive(Clone, Copy, PartialEq, Eq, Structural, Debug)]
pub enum StreamError {
    /// The remote end of the pipe closed; end of stream.
    HangUp,
    /// A read failed with the given OS error code.
    IoFailure(i32),
    /// The stop-signal sender was dropped without ever signalling.
    SignalChannelClosed,
    /// The consumer dropped its receiver while the loop still ran.
    OutputChannelClosed,
}

/// How the read loop came to rest: stopped on request, or ended by one
/// of the terminal conditions.
#[derive(Clone, Copy, PartialEq, Eq, Structural, Debug)]
pub enum ExitStatus {
    /// A stop request was observed; the loop exited cleanly.
    Stopped,
    /// The loop ended on a terminal condition of its own.
    Errored(StreamError),
}

/// The lifecycle of one stream core instance.
///
/// `Running` until a terminal condition; `Stopping` between observing a
/// stop request and announcing the exit; `Stopped` and `Errored` are
/// terminal.
#[derive(Clone, Copy, PartialEq, Eq, Structural, Debug)]
pub enum LoopState {
    Running,
    Stopping,
    Stopped,
    Errored(StreamError),
}

/// The three-way close reason shown to the consumer by `poll`, enough
/// to decide whether the end of the stream is worth reporting.
#[derive(Clone, Copy, PartialEq, Eq, Structural, Debug)]
pub enum CloseReason {
    /// Closed after an explicit stop request.
    Stopped,
    /// The remote end closed the pipe; ordinary end of stream.
    HungUp,
    /// An internal failure ended the stream.
    Errored,
}

/// What `join` reports once the background context has finished.
#[derive(Clone, Copy, PartialEq, Eq, Structural, Debug)]
pub enum JoinError {
    /// The background context terminated abnormally.
    Panicked,
    /// The loop recorded a genuine fault.
    Errored(StreamError),
}

/// The close reason under which an exit status is shown by `poll`.
pub open spec fn close_reason_of(status: ExitStatus) -> CloseReason {
    match status {
        ExitStatus::Stopped => CloseReason::Stopped,
        ExitStatus::Errored(e) => match e {
            StreamError::HangUp => CloseReason::HungUp,
            _ => CloseReason::Errored,
        },
    }
}

/// The verdict `join` owes for a loop that ended with `status`.
///
/// A requested stop and a hang-up are success; so is the quiet exit
/// after the consumer dropped its receiver, which is expected during
/// ordinary shutdown.  An OS read failure and a dropped signal sender
/// are faults and are propagated.
pub open spec fn join_of(status: ExitStatus) -> Result<(), JoinError> {
    match status {
        ExitStatus::Stopped => Ok(()),
        ExitStatus::Errored(e) => match e {
            StreamError::HangUp => Ok(()),
            StreamError::OutputChannelClosed => Ok(()),
            _ => Err(JoinError::Errored(e)),
        },
    }
}

/// Maps an exit status to the close reason `poll` shows for it.
pub fn close_reason(status: ExitStatus) -> (r: CloseReason)
    ensures
        r == close_reason_of(status),
{
    match status {
        ExitStatus::Stopped => CloseReason::Stopped,
        ExitStatus::Errored(StreamError::HangUp) => CloseReason::HungUp,
        ExitStatus::Errored(_) => CloseReason::Errored,
    }
}

/// Turns the outcome of joining the background context into the
/// consumer's verdict.  `None` stands for a context that panicked
/// rather than returning an exit status.
pub fn join_verdict(outcome: Option<ExitStatus>) -> (r: Result<(), JoinError>)
    ensures
        outcome is None ==> r == Err::<(), JoinError>(JoinError::Panicked),
        outcome matches Some(status) ==> r == join_of(status),
{
    match outcome {
        None => Err(JoinError::Panicked),
        Some(ExitStatus::Stopped) => Ok(()),
        Some(ExitStatus::Errored(StreamError::HangUp)) => Ok(()),
        Some(ExitStatus::Errored(StreamError::OutputChannelClosed)) => Ok(()),
        Some(ExitStatus::Errored(e)) => Err(JoinError::Errored(e)),
    }
}

} // verus!
