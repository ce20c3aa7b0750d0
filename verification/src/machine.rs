//! The stream core's state machine.
//!
//! One `StreamCore` stands behind each background read loop.  Its
//! methods are the decisions of one loop iteration, in the fixed
//! order the design prescribes: check the stop signal, wait on the
//! readiness source, read once, forward the chunk.  The phase field
//! makes that order part of the contract: each step may only be taken
//! from the phase the previous step established.  The ghost view also
//! carries every chunk delivered so far, in order, so callers can
//! reason about the whole delivery history.

use vstd::prelude::*;

use crate::status::{ExitStatus, LoopState, ReadEvent, Readiness, SignalCheck, StreamError};

verus! {

/// Where in the fixed per-iteration order the loop stands.
#[derive(Clone, Copy, PartialEq, Eq, Structural, Debug)]
pub enum Phase {
    /// About to check the stop-signal channel.
    CheckSignal,
    /// About to wait on the readiness source.
    AwaitReadiness,
    /// About to read once from the descriptor.
    ReadPipe,
    /// About to forward the chunk just read.
    ForwardChunk,
}

/// Whether the loop goes on after a step, or must exit and announce.
#[derive(Clone, Copy, PartialEq, Eq, Structural, Debug)]
pub enum Flow {
    /// Carry on with the iteration (or the next one).
    Proceed,
    /// A terminal condition was recorded; announce the exit.
    Exit,
}

/// What to do after the readiness wait.
#[derive(Clone, Copy, PartialEq, Eq, Structural, Debug)]
pub enum ReadGate {
    /// Data is available; read now.
    ReadNow,
    /// Nothing to report; start the next iteration.
    Idle,
    /// A terminal condition was recorded; announce the exit.
    Exit,
}

/// What to do after a read.
#[derive(Debug)]
pub enum ReadStep {
    /// Bytes were read; forward them as one chunk.
    Forward(Vec<u8>),
    /// The read returned zero bytes; start the next iteration.
    Idle,
    /// A terminal condition was recorded; announce the exit.
    Exit,
}

/// The mathematical state of a stream core: lifecycle state, position
/// within the iteration, the chunks delivered so far in order, and
/// the chunk read but not yet forwarded, if any.
pub struct CoreView {
    pub state: LoopState,
    pub phase: Phase,
    pub delivered: Seq<Seq<u8>>,
    pub pending: Option<Seq<u8>>,
}

/// The decision half of one background read loop.
///
/// The loop's environment — signal channel, readiness source,
/// descriptor, output channel — reports what it observed; the core
/// decides, step by step and in the fixed order, what follows.  Once
/// the state leaves `Running` no step applies any more and no further
/// chunk is ever recorded as delivered.
pub struct StreamCore {
    state: LoopState,
    phase: Phase,
    delivered: Ghost<Seq<Seq<u8>>>,
    pending: Ghost<Option<Seq<u8>>>,
}

impl View for StreamCore {
    type V = CoreView;

    closed spec fn view(&self) -> CoreView {
        CoreView {
            state: self.state,
            phase: self.phase,
            delivered: self.delivered@,
            pending: self.pending@,
        }
    }
}

impl StreamCore {
    /// A fresh core: running, at the top of its first iteration, with
    /// nothing delivered.
    pub fn new() -> (core: StreamCore)
        ensures
            core@.state is Running,
            core@.phase is CheckSignal,
            core@.delivered == Seq::<Seq<u8>>::empty(),
            core@.pending is None,
    {
        StreamCore {
            state: LoopState::Running,
            phase: Phase::CheckSignal,
            delivered: Ghost(Seq::empty()),
            pending: Ghost(None),
        }
    }

    /// Step one: act on what the non-blocking check of the stop-signal
    /// channel found.  A queued stop request wins over everything else
    /// in the iteration; a sender dropped without a stop request is an
    /// abnormal loss of the handle and ends the loop as a fault.
    pub fn observe_signal(&mut self, check: SignalCheck) -> (flow: Flow)
        requires
            old(self)@.state is Running,
            old(self)@.phase is CheckSignal,
        ensures
            final(self)@.delivered == old(self)@.delivered,
            final(self)@.pending == old(self)@.pending,
            check is Quiet ==> final(self)@.state is Running && final(self)@.phase
                is AwaitReadiness && flow is Proceed,
            check is Requested ==> final(self)@.state is Stopping && flow is Exit,
            check is Disconnected ==> final(self)@.state == LoopState::Errored(
                StreamError::SignalChannelClosed,
            ) && flow is Exit,
    {
        match check {
            SignalCheck::Quiet => {
                self.phase = Phase::AwaitReadiness;
                Flow::Proceed
            },
            SignalCheck::Requested => {
                self.state = LoopState::Stopping;
                Flow::Exit
            },
            SignalCheck::Disconnected => {
                self.state = LoopState::Errored(StreamError::SignalChannelClosed);
                Flow::Exit
            },
        }
    }

    /// Step two: act on the bounded readiness wait.  A timeout merely
    /// bounds how stale the next stop check can be and starts the next
    /// iteration; a hang-up is the end of the stream.
    pub fn observe_readiness(&mut self, ready: Readiness) -> (gate: ReadGate)
        requires
            old(self)@.state is Running,
            old(self)@.phase is AwaitReadiness,
        ensures
            final(self)@.delivered == old(self)@.delivered,
            final(self)@.pending == old(self)@.pending,
            ready is TimedOut ==> final(self)@.state is Running && final(self)@.phase
                is CheckSignal && gate is Idle,
            ready is Readable ==> final(self)@.state is Running && final(self)@.phase is ReadPipe
                && gate is ReadNow,
            ready is HungUp ==> final(self)@.state == LoopState::Errored(StreamError::HangUp)
                && gate is Exit,
    {
        match ready {
            Readiness::TimedOut => {
                self.phase = Phase::CheckSignal;
                ReadGate::Idle
            },
            Readiness::Readable => {
                self.phase = Phase::ReadPipe;
                ReadGate::ReadNow
            },
            Readiness::HungUp => {
                self.state = LoopState::Errored(StreamError::HangUp);
                ReadGate::Exit
            },
        }
    }

    /// Step three: act on one read from the descriptor.  Zero bytes
    /// mean "nothing new"; any bytes become the pending chunk, handed
    /// back for forwarding; a failed read ends the loop as a fault.
    pub fn observe_read(&mut self, outcome: ReadEvent) -> (step: ReadStep)
        requires
            old(self)@.state is Running,
            old(self)@.phase is ReadPipe,
        ensures
            final(self)@.delivered == old(self)@.delivered,
            outcome matches ReadEvent::Bytes(v) ==> v@.len() == 0 ==> final(self)@.state
                is Running && final(self)@.phase is CheckSignal
                && final(self)@.pending == old(self)@.pending && step is Idle,
            outcome matches ReadEvent::Bytes(v) ==> v@.len() > 0 ==> final(self)@.state is Running
                && final(self)@.phase is ForwardChunk && final(self)@.pending == Some(v@)
                && (step matches ReadStep::Forward(c) && c@ == v@),
            outcome matches ReadEvent::Failed(code) ==> final(self)@.state == LoopState::Errored(
                StreamError::IoFailure(code),
            ) && final(self)@.pending == old(self)@.pending && step is Exit,
    {
        match outcome {
            ReadEvent::Bytes(chunk) => {
                if chunk.len() == 0 {
                    self.phase = Phase::CheckSignal;
                    ReadStep::Idle
                } else {
                    self.phase = Phase::ForwardChunk;
                    self.pending = Ghost(Some(chunk@));
                    ReadStep::Forward(chunk)
                }
            },
            ReadEvent::Failed(code) => {
                self.state = LoopState::Errored(StreamError::IoFailure(code));
                ReadStep::Exit
            },
        }
    }

    /// Step four: record the outcome of forwarding the pending chunk.
    /// An accepted send is a delivery; a refused one means the
    /// consumer dropped its receiver, and the loop exits quietly
    /// rather than keep reading into the void.
    pub fn observe_send(&mut self, chunk: Ghost<Seq<u8>>, accepted: bool) -> (flow: Flow)
        requires
            old(self)@.state is Running,
            old(self)@.phase is ForwardChunk,
            old(self)@.pending == Some(chunk@),
        ensures
            accepted ==> final(self)@.state is Running && final(self)@.phase is CheckSignal
                && final(self)@.delivered == old(self)@.delivered.push(chunk@)
                && final(self)@.pending is None && flow is Proceed,
            !accepted ==> final(self)@.state == LoopState::Errored(
                StreamError::OutputChannelClosed,
            ) && final(self)@.delivered == old(self)@.delivered && flow is Exit,
    {
        if accepted {
            self.phase = Phase::CheckSignal;
            self.delivered = Ghost(self.delivered@.push(chunk@));
            self.pending = Ghost(None);
            Flow::Proceed
        } else {
            self.state = LoopState::Errored(StreamError::OutputChannelClosed);
            Flow::Exit
        }
    }

    /// Settles the exit once a step reported `Exit`: a loop that saw a
    /// stop request comes to rest in `Stopped` and reports a graceful
    /// stop; an errored loop keeps and reports its recorded reason.
    pub fn finish(&mut self) -> (status: ExitStatus)
        requires
            old(self)@.state is Stopping || old(self)@.state matches LoopState::Errored(_),
        ensures
            final(self)@.delivered == old(self)@.delivered,
            final(self)@.pending == old(self)@.pending,
            old(self)@.state is Stopping ==> final(self)@.state is Stopped && status
                == ExitStatus::Stopped,
            old(self)@.state matches LoopState::Errored(e) ==> final(self)@.state == old(self)@.state
                && status == ExitStatus::Errored(e),
    {
        match self.state {
            LoopState::Stopping => {
                self.state = LoopState::Stopped;
                ExitStatus::Stopped
            },
            LoopState::Errored(e) => ExitStatus::Errored(e),
            _ => {
                proof {
                    assert(false);
                }
                ExitStatus::Stopped
            },
        }
    }

    /// Whether the loop is still running; the environment checks this
    /// before handing the core another observation.
    pub fn is_running(&self) -> (running: bool)
        ensures
            running == (self@.state is Running),
    {
        matches!(self.state, LoopState::Running)
    }

    /// The position within the iteration that the next step must come
    /// from.
    pub fn phase(&self) -> (phase: Phase)
        ensures
            phase == self@.phase,
    {
        self.phase
    }
}

} // verus!
