//! The two endpoints of one stream core instance.
//!
//! `CorePort` is held by the background read loop: it checks the
//! stop-signal channel, forwards chunks, and announces the exit.
//! `StreamHandle` is held by the consumer: a poll that never blocks,
//! and an idempotent stop request.  The chunk channel between them is
//! unbounded by design — the producer is never blocked, and the
//! consumer drains at its own pace without losing anything.

use vstd::prelude::*;

use crate::channel::{new_channel, send, try_recv, ChannelPoll};
use crate::chunk::append_bytes;
use crate::machine::{Flow, StreamCore};
use crate::status::{
    close_reason,
    close_reason_of,
    CloseReason,
    ExitStatus,
    LoopState,
    Signal,
    SignalCheck,
    StreamError,
};

use std::sync::mpsc::Receiver;
use std::sync::mpsc::Sender;

verus! {

/// One message on the chunk channel: a chunk of bytes in read order,
/// or the final announcement that the loop has come to rest.
#[derive(Debug)]
pub enum StreamItem {
    /// One chunk, exactly as one read produced it.
    Bytes(Vec<u8>),
    /// The loop's exit status; nothing follows it.
    End(ExitStatus),
}

/// What one `poll` call yielded.
#[derive(Debug, PartialEq)]
pub enum PollStatus {
    /// Nothing queued right now; the stream may still produce more.
    Empty,
    /// The oldest queued chunk.
    Chunk(Vec<u8>),
    /// The stream is over, for the reason given; every later poll
    /// repeats it.
    Closed(CloseReason),
}

/// The loop-side endpoint: the sending half of the chunk channel and
/// the receiving half of the stop-signal channel.
pub struct CorePort {
    chunk_tx: Sender<StreamItem>,
    signal_rx: Receiver<Signal>,
}

/// The consumer-facing handle: the receiving half of the chunk
/// channel, the stop-signal sender, and the close reason once one was
/// observed.  Its view is that recorded close reason.
pub struct StreamHandle {
    receiver: Receiver<StreamItem>,
    stop_tx: Sender<Signal>,
    closed: Option<CloseReason>,
}

impl View for StreamHandle {
    type V = Option<CloseReason>;

    closed spec fn view(&self) -> Option<CloseReason> {
        self.closed
    }
}

/// What a receive attempt on the stop-signal channel means for the
/// loop: any queued signal is a stop request, silence means carry
/// on, and a vanished sender is the abnormal loss of the handle.
pub fn classify_signal(outcome: ChannelPoll<Signal>) -> (check: SignalCheck)
    ensures
        outcome matches ChannelPoll::Item(_) ==> check == SignalCheck::Requested,
        outcome is Pending ==> check == SignalCheck::Quiet,
        outcome is Disconnected ==> check == SignalCheck::Disconnected,
{
    match outcome {
        ChannelPoll::Item(Signal::Stop) => SignalCheck::Requested,
        ChannelPoll::Pending => SignalCheck::Quiet,
        ChannelPoll::Disconnected => SignalCheck::Disconnected,
    }
}

/// What a receive attempt on the chunk channel means for the
/// consumer: the answer `poll` owes, and the close reason to record
/// from now on, if any.  A chunk passes through untouched; the
/// loop's announcement closes the stream under its reason; a channel
/// found disconnected without an announcement means the background
/// context died abnormally.
pub fn interpret_poll(outcome: ChannelPoll<StreamItem>) -> (verdict: (
    PollStatus,
    Option<CloseReason>,
))
    ensures
        match outcome {
            ChannelPoll::Item(StreamItem::Bytes(chunk)) => verdict == (
                PollStatus::Chunk(chunk),
                None::<CloseReason>,
            ),
            ChannelPoll::Item(StreamItem::End(status)) => verdict == (
                PollStatus::Closed(close_reason_of(status)),
                Some(close_reason_of(status)),
            ),
            ChannelPoll::Pending => verdict == (PollStatus::Empty, None::<CloseReason>),
            ChannelPoll::Disconnected => verdict == (
                PollStatus::Closed(CloseReason::Errored),
                Some(CloseReason::Errored),
            ),
        },
{
    match outcome {
        ChannelPoll::Item(StreamItem::Bytes(chunk)) => (PollStatus::Chunk(chunk), None),
        ChannelPoll::Item(StreamItem::End(status)) => {
            let reason = close_reason(status);
            (PollStatus::Closed(reason), Some(reason))
        },
        ChannelPoll::Pending => (PollStatus::Empty, None),
        ChannelPoll::Disconnected => (
            PollStatus::Closed(CloseReason::Errored),
            Some(CloseReason::Errored),
        ),
    }
}

/// Creates the two endpoints of a fresh stream core instance: the
/// consumer's handle and the port the background read loop drives.
pub fn open_stream() -> (endpoints: (StreamHandle, CorePort))
    ensures
        endpoints.0@ is None,
{
    let (chunk_tx, chunk_rx) = new_channel();
    let (stop_tx, signal_rx) = new_channel();
    (StreamHandle { receiver: chunk_rx, stop_tx, closed: None }, CorePort { chunk_tx, signal_rx })
}

impl CorePort {
    /// One non-blocking check of the stop-signal channel, fed to the
    /// core as the first step of the iteration.  What the channel
    /// held decides between carrying on, a graceful stop, and the
    /// abnormal loss of the handle.
    pub fn poll_signal(&self, core: &mut StreamCore) -> (flow: Flow)
        requires
            old(core)@.state is Running,
            old(core)@.phase is CheckSignal,
        ensures
            final(core)@.delivered == old(core)@.delivered,
            final(core)@.pending == old(core)@.pending,
            flow is Proceed ==> final(core)@.state is Running && final(core)@.phase
                is AwaitReadiness,
            flow is Exit ==> final(core)@.state is Stopping || final(core)@.state
                == LoopState::Errored(StreamError::SignalChannelClosed),
    {
        let check = classify_signal(try_recv(&self.signal_rx));
        core.observe_signal(check)
    }

    /// Forwards one freshly read chunk on the chunk channel and
    /// records the outcome in the core: an accepted send is a
    /// delivery, a refused one means the consumer is gone and the
    /// loop must exit.
    pub fn forward(&self, core: &mut StreamCore, chunk: Vec<u8>) -> (flow: Flow)
        requires
            old(core)@.state is Running,
            old(core)@.phase is ForwardChunk,
            old(core)@.pending == Some(chunk@),
        ensures
            flow is Proceed ==> final(core)@.state is Running && final(core)@.phase is CheckSignal
                && final(core)@.delivered == old(core)@.delivered.push(chunk@)
                && final(core)@.pending is None,
            flow is Exit ==> final(core)@.state == LoopState::Errored(
                StreamError::OutputChannelClosed,
            ) && final(core)@.delivered == old(core)@.delivered,
    {
        let ghost snapshot = chunk@;
        let accepted = match send(&self.chunk_tx, StreamItem::Bytes(chunk)) {
            Ok(()) => true,
            Err(_) => false,
        };
        core.observe_send(Ghost(snapshot), accepted)
    }

    /// Announces the loop's exit on the chunk channel — the one
    /// message after which nothing follows — and hands the exit
    /// status back for the background context to return.  Consumes
    /// the port, so the channel disconnects right after the
    /// announcement.
    pub fn announce(self, core: &mut StreamCore) -> (status: ExitStatus)
        requires
            old(core)@.state is Stopping || old(core)@.state matches LoopState::Errored(_),
        ensures
            final(core)@.delivered == old(core)@.delivered,
            old(core)@.state is Stopping ==> status == ExitStatus::Stopped && final(core)@.state
                is Stopped,
            old(core)@.state matches LoopState::Errored(e) ==> status == ExitStatus::Errored(e)
                && final(core)@.state == old(core)@.state,
    {
        let status = core.finish();
        let _ = send(&self.chunk_tx, StreamItem::End(status));
        status
    }
}

impl StreamHandle {
    /// Never blocks: yields at most one queued chunk per call, or the
    /// close reason once the loop's announcement has been drained —
    /// and from then on, that same close reason forever.
    pub fn poll(&mut self) -> (status: PollStatus)
        ensures
            old(self)@ matches Some(reason) ==> status == PollStatus::Closed(reason)
                && final(self)@ == old(self)@,
            old(self)@ is None ==> match status {
                PollStatus::Empty => final(self)@ is None,
                PollStatus::Chunk(_) => final(self)@ is None,
                PollStatus::Closed(reason) => final(self)@ == Some(reason),
            },
    {
        match self.closed {
            Some(reason) => PollStatus::Closed(reason),
            None => {
                let (status, closed) = interpret_poll(try_recv(&self.receiver));
                self.closed = closed;
                status
            },
        }
    }

    /// Requests a graceful stop.  Idempotent, and a stop sent to a
    /// core that has already exited is a no-op success, so there is
    /// nothing to fail; the call does not wait for the background
    /// context either — that is what `join` is for.
    pub fn stop(&self) {
        let _ = send(&self.stop_tx, Signal::Stop);
    }

    /// Drains up to `max_chunks` queued chunks into `display`,
    /// appending their bytes in arrival order, and stops early on an
    /// empty queue or on the stream's close.  Bounds the work one
    /// frame of the consumer's loop spends here; what is left over
    /// carries to the next frame.  Returns the close reason if one
    /// has been observed, this frame or earlier.
    pub fn drain_frame(&mut self, display: &mut Vec<u8>, max_chunks: usize) -> (closed: Option<
        CloseReason,
    >)
        ensures
            final(display)@.len() >= old(display)@.len(),
            final(display)@.take(old(display)@.len() as int) == old(display)@,
            closed == final(self)@,
            old(self)@ matches Some(_) ==> final(display)@ == old(display)@
                && final(self)@ == old(self)@,
    {
        let ghost shown = display@;
        let ghost opened = self@;
        let mut polled: usize = 0;
        loop
            invariant
                polled <= max_chunks,
                display@.len() >= shown.len(),
                display@.take(shown.len() as int) == shown,
                opened matches Some(_) ==> display@ == shown && self@ == opened,
            ensures
                display@.len() >= shown.len(),
                display@.take(shown.len() as int) == shown,
                opened matches Some(_) ==> display@ == shown && self@ == opened,
            decreases max_chunks - polled,
        {
            if polled >= max_chunks {
                break ;
            }
            match self.poll() {
                PollStatus::Chunk(chunk) => {
                    let ghost before = display@;
                    append_bytes(display, &chunk);
                    proof {
                        assert(display@.take(shown.len() as int) =~= before.take(
                            shown.len() as int,
                        ));
                    }
                },
                PollStatus::Empty => {
                    break ;
                },
                PollStatus::Closed(_) => {
                    break ;
                },
            }
            polled = polled + 1;
        }
        self.closed
    }
}

} // verus!
