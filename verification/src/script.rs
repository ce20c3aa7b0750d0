//! Scripted runs of the read loop, and the delivery laws.
//!
//! A `LoopEnv` records everything the environment can show one loop
//! iteration: what the stop-signal check found, what the readiness
//! wait reported, what a read would return, and whether the consumer
//! still holds its receiver.  `run_script` replays a whole script
//! against a `StreamCore`, iteration by iteration in the fixed order,
//! and its contract pins the chunks delivered and the exit taken to
//! the spec-level trace functions.  The proof functions below state
//! the laws of that trace: order preservation, prompt stops, hang-up
//! surfacing, the dropped-receiver exit, and no loss under
//! backpressure.

use vstd::prelude::*;

use crate::chunk::{joined, lemma_joined_split};
use crate::machine::{Flow, ReadGate, ReadStep, StreamCore};
use crate::status::{
    close_reason_of,
    join_of,
    CloseReason,
    ExitStatus,
    JoinError,
    ReadEvent,
    Readiness,
    SignalCheck,
    StreamError,
};

verus! {

/// Everything the environment shows one iteration of the read loop.
#[derive(Debug)]
pub struct LoopEnv {
    /// What the non-blocking check of the stop-signal channel found.
    pub signal: SignalCheck,
    /// What the bounded readiness wait reported.
    pub ready: Readiness,
    /// What a read would return, consulted only after `Readable`.
    pub read: ReadEvent,
    /// Whether the consumer still holds its receiver, so that a
    /// forwarded chunk is accepted.
    pub consumer_alive: bool,
}

/// The chunk an iteration delivers to the consumer, if any: bytes
/// were read and the forward was accepted.
pub open spec fn iter_chunk(env: LoopEnv) -> Option<Seq<u8>> {
    if env.signal is Quiet && env.ready is Readable && (env.read matches ReadEvent::Bytes(v)
        && v@.len() > 0) && env.consumer_alive {
        match env.read {
            ReadEvent::Bytes(v) => Some(v@),
            ReadEvent::Failed(_) => None,
        }
    } else {
        None
    }
}

/// The data an iteration reads off the descriptor, delivered or not.
pub open spec fn iter_data(env: LoopEnv) -> Option<Seq<u8>> {
    if env.signal is Quiet && env.ready is Readable && (env.read matches ReadEvent::Bytes(v)
        && v@.len() > 0) {
        match env.read {
            ReadEvent::Bytes(v) => Some(v@),
            ReadEvent::Failed(_) => None,
        }
    } else {
        None
    }
}

/// How an iteration ends the loop, if it does, following the fixed
/// order: stop signal first, then readiness, then the read, then the
/// forward.
pub open spec fn iter_exit(env: LoopEnv) -> Option<ExitStatus> {
    if env.signal is Requested {
        Some(ExitStatus::Stopped)
    } else if env.signal is Disconnected {
        Some(ExitStatus::Errored(StreamError::SignalChannelClosed))
    } else if env.ready is HungUp {
        Some(ExitStatus::Errored(StreamError::HangUp))
    } else if env.ready is Readable {
        match env.read {
            ReadEvent::Failed(code) => Some(ExitStatus::Errored(StreamError::IoFailure(code))),
            ReadEvent::Bytes(v) => if v@.len() > 0 && !env.consumer_alive {
                Some(ExitStatus::Errored(StreamError::OutputChannelClosed))
            } else {
                None
            },
        }
    } else {
        None
    }
}

/// The chunks a script delivers, in order, up to the loop's exit.
pub open spec fn script_delivered(script: Seq<LoopEnv>) -> Seq<Seq<u8>>
    decreases script.len(),
{
    if script.len() == 0 {
        Seq::empty()
    } else if iter_exit(script[0]) is Some {
        Seq::empty()
    } else {
        match iter_chunk(script[0]) {
            Some(chunk) => seq![chunk] + script_delivered(script.drop_first()),
            None => script_delivered(script.drop_first()),
        }
    }
}

/// The data a script reads off the descriptor, in order, up to the
/// loop's exit: the bytes the other end wrote, in the splits the
/// reads happened to take.
pub open spec fn script_data(script: Seq<LoopEnv>) -> Seq<Seq<u8>>
    decreases script.len(),
{
    if script.len() == 0 {
        Seq::empty()
    } else if iter_exit(script[0]) is Some {
        Seq::empty()
    } else {
        match iter_data(script[0]) {
            Some(chunk) => seq![chunk] + script_data(script.drop_first()),
            None => script_data(script.drop_first()),
        }
    }
}

/// The exit a script drives the loop to, if any: the first
/// iteration's exit, in script order.
pub open spec fn script_exit(script: Seq<LoopEnv>) -> Option<ExitStatus>
    decreases script.len(),
{
    if script.len() == 0 {
        None
    } else if iter_exit(script[0]) is Some {
        iter_exit(script[0])
    } else {
        script_exit(script.drop_first())
    }
}

/// The outcome of replaying a script: the chunks delivered in order,
/// and the exit status if the loop exited within the script.
#[derive(Debug)]
pub struct ScriptRun {
    pub delivered: Vec<Vec<u8>>,
    pub exit: Option<ExitStatus>,
}

/// Replays a script against a fresh stream core, one iteration per
/// entry and each iteration in the fixed order, collecting what a
/// live consumer would receive.  The run delivers exactly the trace
/// of the script and exits exactly as the script's first terminal
/// event dictates.
pub fn run_script(script: Vec<LoopEnv>) -> (run: ScriptRun)
    ensures
        run.delivered@.map_values(|c: Vec<u8>| c@) == script_delivered(script@),
        run.exit == script_exit(script@),
{
    let ghost full = script@;
    let mut rest = script;
    let mut core = StreamCore::new();
    let mut delivered: Vec<Vec<u8>> = Vec::new();
    let mut exit: Option<ExitStatus> = None;

    while exit.is_none() && rest.len() > 0
        invariant
            exit is None ==> core@.state is Running && core@.phase is CheckSignal
                && core@.pending is None,
            exit is None ==> script_delivered(full) == delivered@.map_values(|c: Vec<u8>| c@)
                + script_delivered(rest@),
            exit is None ==> script_exit(full) == script_exit(rest@),
            exit matches Some(status) ==> script_exit(full) == Some(status)
                && script_delivered(full) == delivered@.map_values(|c: Vec<u8>| c@),
            core@.delivered == delivered@.map_values(|c: Vec<u8>| c@),
        decreases rest.len(),
    {
        let ghost before_rest = rest@;
        let ghost done = delivered@.map_values(|c: Vec<u8>| c@);
        let env = rest.remove(0);
        proof {
            assert(env == before_rest[0]);
            assert(rest@ =~= before_rest.drop_first());
        }
        let LoopEnv { signal, ready, read, consumer_alive } = env;

        match core.observe_signal(signal) {
            Flow::Exit => {
                exit = Some(core.finish());
            },
            Flow::Proceed => {
                match core.observe_readiness(ready) {
                    ReadGate::Exit => {
                        exit = Some(core.finish());
                    },
                    ReadGate::Idle => {},
                    ReadGate::ReadNow => {
                        match core.observe_read(read) {
                            ReadStep::Exit => {
                                exit = Some(core.finish());
                            },
                            ReadStep::Idle => {},
                            ReadStep::Forward(chunk) => {
                                let ghost snapshot = chunk@;
                                if consumer_alive {
                                    let _ = core.observe_send(Ghost(snapshot), true);
                                    delivered.push(chunk);
                                    proof {
                                        assert(delivered@.map_values(|c: Vec<u8>| c@) =~= done.push(
                                            snapshot,
                                        ));
                                        assert(iter_chunk(env) == Some(snapshot));
                                        assert(done + (seq![snapshot] + script_delivered(rest@))
                                            =~= done.push(snapshot) + script_delivered(rest@));
                                    }
                                } else {
                                    let _ = core.observe_send(Ghost(snapshot), false);
                                    exit = Some(core.finish());
                                }
                            },
                        }
                    },
                }
            },
        }
        proof {
            match exit {
                Some(status) => {
                    assert(iter_exit(env) == Some(status));
                    assert(script_delivered(before_rest) == Seq::<Seq<u8>>::empty());
                    assert(done + Seq::<Seq<u8>>::empty() =~= done);
                },
                None => {},
            }
        }
    }
    proof {
        if exit is None {
            assert(rest@.len() == 0);
            assert(script_delivered(rest@) == Seq::<Seq<u8>>::empty());
            assert(delivered@.map_values(|c: Vec<u8>| c@) + Seq::<Seq<u8>>::empty()
                =~= delivered@.map_values(|c: Vec<u8>| c@));
        }
    }
    ScriptRun { delivered, exit }
}

/// The loop exits exactly at the first terminal event of the script.
pub proof fn lemma_first_exit(script: Seq<LoopEnv>, i: int)
    requires
        0 <= i < script.len(),
        forall|j: int| 0 <= j < i ==> iter_exit(#[trigger] script[j]) is None,
        iter_exit(script[i]) is Some,
    ensures
        script_exit(script) == iter_exit(script[i]),
    decreases i,
{
    if i > 0 {
        let tail = script.drop_first();
        assert forall|j: int| 0 <= j < i - 1 implies iter_exit(#[trigger] tail[j]) is None by {
            assert(tail[j] == script[j + 1]);
        }
        assert(tail[i - 1] == script[i]);
        lemma_first_exit(tail, i - 1);
    }
}

/// Nothing is delivered from the exiting iteration on.
pub proof fn lemma_delivery_stops_at_exit(script: Seq<LoopEnv>, i: int)
    requires
        0 <= i < script.len(),
        forall|j: int| 0 <= j < i ==> iter_exit(#[trigger] script[j]) is None,
        iter_exit(script[i]) is Some,
    ensures
        script_delivered(script) == script_delivered(script.take(i)),
    decreases i,
{
    if i == 0 {
        assert(script.take(0) =~= Seq::<LoopEnv>::empty());
    } else {
        let tail = script.drop_first();
        assert forall|j: int| 0 <= j < i - 1 implies iter_exit(#[trigger] tail[j]) is None by {
            assert(tail[j] == script[j + 1]);
        }
        assert(tail[i - 1] == script[i]);
        lemma_delivery_stops_at_exit(tail, i - 1);
        assert(script.take(i)[0] == script[0]);
        assert(script.take(i).drop_first() =~= tail.take(i - 1));
    }
}

/// Order preservation: with the consumer attached throughout, the
/// loop delivers exactly the chunks it read, in read order — so the
/// delivered bytes, concatenated, are the bytes written to the pipe,
/// whatever splits the reads happened to take.
pub proof fn lemma_order_preservation(script: Seq<LoopEnv>)
    requires
        forall|i: int| 0 <= i < script.len() ==> (#[trigger] script[i]).consumer_alive,
    ensures
        script_delivered(script) == script_data(script),
        joined(script_delivered(script)) == joined(script_data(script)),
    decreases script.len(),
{
    if script.len() > 0 {
        assert(script[0].consumer_alive);
        assert(iter_chunk(script[0]) == iter_data(script[0]));
        let tail = script.drop_first();
        assert forall|i: int| 0 <= i < tail.len() implies (#[trigger] tail[i]).consumer_alive by {
            assert(tail[i] == script[i + 1]);
        }
        lemma_order_preservation(tail);
    }
}

/// A stop request is honoured promptly: the iteration that first
/// finds one ends the loop then and there, with a graceful stop, and
/// nothing else is delivered afterwards.  This bounds the latency of
/// `stop` by a single readiness-wait timeout.
pub proof fn lemma_stop_observed_promptly(script: Seq<LoopEnv>, i: int)
    requires
        0 <= i < script.len(),
        forall|j: int| 0 <= j < i ==> iter_exit(#[trigger] script[j]) is None,
        script[i].signal is Requested,
    ensures
        script_exit(script) == Some(ExitStatus::Stopped),
        script_delivered(script) == script_delivered(script.take(i)),
        join_of(ExitStatus::Stopped) == Ok::<(), JoinError>(()),
{
    lemma_first_exit(script, i);
    lemma_delivery_stops_at_exit(script, i);
}

/// A core stopped on its very first iteration delivers nothing at
/// all and exits gracefully.
pub proof fn lemma_immediate_stop(script: Seq<LoopEnv>)
    requires
        script.len() > 0,
        script[0].signal is Requested,
    ensures
        script_exit(script) == Some(ExitStatus::Stopped),
        script_delivered(script) == Seq::<Seq<u8>>::empty(),
        join_of(ExitStatus::Stopped) == Ok::<(), JoinError>(()),
{
}

/// Hang-up surfacing: when the first terminal event is the remote
/// end closing the pipe, the loop ends with the hang-up status, the
/// consumer sees the `HungUp` close reason, and `join` reports
/// success — a hang-up is a normal end of stream, not a failure.
pub proof fn lemma_hangup_surfaces(script: Seq<LoopEnv>, i: int)
    requires
        0 <= i < script.len(),
        forall|j: int| 0 <= j < i ==> iter_exit(#[trigger] script[j]) is None,
        script[i].signal is Quiet,
        script[i].ready is HungUp,
    ensures
        script_exit(script) == Some(ExitStatus::Errored(StreamError::HangUp)),
        close_reason_of(ExitStatus::Errored(StreamError::HangUp)) == CloseReason::HungUp,
        join_of(ExitStatus::Errored(StreamError::HangUp)) == Ok::<(), JoinError>(()),
{
    lemma_first_exit(script, i);
}

/// A dropped consumer is observed: when a forward first fails
/// because the receiver is gone, the loop exits with the quiet
/// `OutputChannelClosed` status rather than keep reading, and `join`
/// treats that exit as success.
pub proof fn lemma_dropped_receiver_exits(script: Seq<LoopEnv>, i: int)
    requires
        0 <= i < script.len(),
        forall|j: int| 0 <= j < i ==> iter_exit(#[trigger] script[j]) is None,
        script[i].signal is Quiet,
        script[i].ready is Readable,
        script[i].read matches ReadEvent::Bytes(v) && v@.len() > 0,
        !script[i].consumer_alive,
    ensures
        script_exit(script) == Some(ExitStatus::Errored(StreamError::OutputChannelClosed)),
        join_of(ExitStatus::Errored(StreamError::OutputChannelClosed)) == Ok::<(), JoinError>(()),
{
    lemma_first_exit(script, i);
}

/// No data loss under backpressure: however long the consumer lets
/// chunks queue up, what it has already observed and what still
/// waits, concatenated in order, are exactly the full delivery.
pub proof fn lemma_no_loss_under_backpressure(delivered: Seq<Seq<u8>>, polled: int)
    requires
        0 <= polled <= delivered.len(),
    ensures
        joined(delivered.take(polled)) + joined(delivered.skip(polled)) == joined(delivered),
{
    lemma_joined_split(delivered, polled);
}

} // verus!
