//! Scripted runs of the read loop: the state machine replayed over
//! fixed environments, checking delivery and exit against the spec.

use germ::script::{run_script, LoopEnv};
use germ::status::{ExitStatus, ReadEvent, Readiness, SignalCheck, StreamError};

fn quiet_read(bytes: &[u8]) -> LoopEnv {
    LoopEnv {
        signal: SignalCheck::Quiet,
        ready: Readiness::Readable,
        read: ReadEvent::Bytes(bytes.to_vec()),
        consumer_alive: true,
    }
}

fn quiet_timeout() -> LoopEnv {
    LoopEnv {
        signal: SignalCheck::Quiet,
        ready: Readiness::TimedOut,
        read: ReadEvent::Bytes(Vec::new()),
        consumer_alive: true,
    }
}

#[test]
fn delivery_preserves_order_and_content() {
    let script = vec![
        quiet_read(b"hel"),
        quiet_timeout(),
        quiet_read(b"lo, "),
        quiet_read(b""),
        quiet_read(b"world\n"),
    ];
    let run = run_script(script);
    assert_eq!(run.exit, None);
    assert_eq!(
        run.delivered,
        vec![b"hel".to_vec(), b"lo, ".to_vec(), b"world\n".to_vec()]
    );
    let flat: Vec<u8> = run.delivered.concat();
    assert_eq!(flat, b"hello, world\n".to_vec());
}

#[test]
fn immediate_stop_delivers_nothing() {
    let script = vec![
        LoopEnv {
            signal: SignalCheck::Requested,
            ready: Readiness::Readable,
            read: ReadEvent::Bytes(b"never seen".to_vec()),
            consumer_alive: true,
        },
        quiet_read(b"also never seen"),
    ];
    let run = run_script(script);
    assert_eq!(run.exit, Some(ExitStatus::Stopped));
    assert!(run.delivered.is_empty());
}

#[test]
fn stop_wins_over_data_in_the_same_iteration() {
    // The fixed order checks the stop signal before reading, so the
    // stop is honoured even while data is ready.
    let script = vec![
        quiet_read(b"first"),
        LoopEnv {
            signal: SignalCheck::Requested,
            ready: Readiness::Readable,
            read: ReadEvent::Bytes(b"second".to_vec()),
            consumer_alive: true,
        },
    ];
    let run = run_script(script);
    assert_eq!(run.exit, Some(ExitStatus::Stopped));
    assert_eq!(run.delivered, vec![b"first".to_vec()]);
}

#[test]
fn hangup_ends_the_run() {
    let script = vec![
        quiet_read(b"tail"),
        LoopEnv {
            signal: SignalCheck::Quiet,
            ready: Readiness::HungUp,
            read: ReadEvent::Bytes(Vec::new()),
            consumer_alive: true,
        },
        quiet_read(b"beyond the end"),
    ];
    let run = run_script(script);
    assert_eq!(run.exit, Some(ExitStatus::Errored(StreamError::HangUp)));
    assert_eq!(run.delivered, vec![b"tail".to_vec()]);
}

#[test]
fn read_failure_carries_its_code() {
    let script = vec![
        quiet_timeout(),
        LoopEnv {
            signal: SignalCheck::Quiet,
            ready: Readiness::Readable,
            read: ReadEvent::Failed(32),
            consumer_alive: true,
        },
    ];
    let run = run_script(script);
    assert_eq!(
        run.exit,
        Some(ExitStatus::Errored(StreamError::IoFailure(32)))
    );
    assert!(run.delivered.is_empty());
}

#[test]
fn disconnected_signal_sender_is_a_fault() {
    let script = vec![LoopEnv {
        signal: SignalCheck::Disconnected,
        ready: Readiness::TimedOut,
        read: ReadEvent::Bytes(Vec::new()),
        consumer_alive: true,
    }];
    let run = run_script(script);
    assert_eq!(
        run.exit,
        Some(ExitStatus::Errored(StreamError::SignalChannelClosed))
    );
    assert!(run.delivered.is_empty());
}

#[test]
fn dead_consumer_ends_the_run_quietly() {
    let script = vec![
        quiet_read(b"delivered"),
        LoopEnv {
            signal: SignalCheck::Quiet,
            ready: Readiness::Readable,
            read: ReadEvent::Bytes(b"refused".to_vec()),
            consumer_alive: false,
        },
        quiet_read(b"never reached"),
    ];
    let run = run_script(script);
    assert_eq!(
        run.exit,
        Some(ExitStatus::Errored(StreamError::OutputChannelClosed))
    );
    assert_eq!(run.delivered, vec![b"delivered".to_vec()]);
}

#[test]
fn a_run_without_terminal_events_keeps_running() {
    let script = vec![quiet_timeout(), quiet_timeout(), quiet_read(b"")];
    let run = run_script(script);
    assert_eq!(run.exit, None);
    assert!(run.delivered.is_empty());
}
