//! Scenarios over the real channel plumbing: one stream core driven
//! by hand through its port, observed through the consumer handle.

use germ::channel::ChannelPoll;
use germ::machine::{Flow, ReadGate, ReadStep, StreamCore};
use germ::status::{
    join_verdict, CloseReason, ExitStatus, JoinError, ReadEvent, Readiness, Signal, SignalCheck,
    StreamError,
};
use germ::stream::{classify_signal, interpret_poll, open_stream, PollStatus, StreamItem};

/// Drives one full, successful iteration that forwards `bytes`.
fn forward_chunk(port: &germ::stream::CorePort, core: &mut StreamCore, bytes: &[u8]) {
    assert!(matches!(port.poll_signal(core), Flow::Proceed));
    assert!(matches!(
        core.observe_readiness(Readiness::Readable),
        ReadGate::ReadNow
    ));
    match core.observe_read(ReadEvent::Bytes(bytes.to_vec())) {
        ReadStep::Forward(chunk) => {
            assert_eq!(chunk, bytes.to_vec());
            assert!(matches!(port.forward(core, chunk), Flow::Proceed));
        }
        _ => panic!("a non-empty read must ask for a forward"),
    }
}

#[test]
fn hello_world_then_hangup() {
    let (mut handle, port) = open_stream();
    let mut core = StreamCore::new();

    forward_chunk(&port, &mut core, b"hello, world\n");

    // The remote end closes the pipe: the loop exits with a hang-up.
    assert!(matches!(port.poll_signal(&mut core), Flow::Proceed));
    assert!(matches!(
        core.observe_readiness(Readiness::HungUp),
        ReadGate::Exit
    ));
    let status = port.announce(&mut core);
    assert_eq!(status, ExitStatus::Errored(StreamError::HangUp));

    // The consumer drains the chunk, then sees the hang-up, forever.
    let mut collected: Vec<u8> = Vec::new();
    loop {
        match handle.poll() {
            PollStatus::Chunk(chunk) => collected.extend_from_slice(&chunk),
            PollStatus::Empty => continue,
            PollStatus::Closed(reason) => {
                assert_eq!(reason, CloseReason::HungUp);
                break;
            }
        }
    }
    assert_eq!(collected, b"hello, world\n".to_vec());
    assert_eq!(handle.poll(), PollStatus::Closed(CloseReason::HungUp));

    // A hang-up is a normal end of stream, not a failure.
    assert_eq!(join_verdict(Some(status)), Ok(()));
}

#[test]
fn stop_before_anything_is_read() {
    let (handle, port) = open_stream();
    let mut core = StreamCore::new();

    handle.stop();

    // The very next signal check observes the stop and exits.
    assert!(matches!(port.poll_signal(&mut core), Flow::Exit));
    let status = port.announce(&mut core);
    assert_eq!(status, ExitStatus::Stopped);
    assert_eq!(join_verdict(Some(status)), Ok(()));

    // No chunk was ever produced.
    let mut handle = handle;
    assert_eq!(handle.poll(), PollStatus::Closed(CloseReason::Stopped));
}

#[test]
fn stop_is_idempotent() {
    let (handle, port) = open_stream();
    let mut core = StreamCore::new();

    handle.stop();
    handle.stop();
    assert!(matches!(port.poll_signal(&mut core), Flow::Exit));
    let status = port.announce(&mut core);
    assert_eq!(status, ExitStatus::Stopped);

    // Stopping a core that has already exited is a quiet no-op.
    handle.stop();
    handle.stop();
}

#[test]
fn dropped_receiver_ends_the_loop() {
    let (handle, port) = open_stream();
    let mut core = StreamCore::new();

    forward_chunk(&port, &mut core, b"one");

    assert!(matches!(port.poll_signal(&mut core), Flow::Proceed));
    assert!(matches!(
        core.observe_readiness(Readiness::Readable),
        ReadGate::ReadNow
    ));
    match core.observe_read(ReadEvent::Bytes(b"two".to_vec())) {
        ReadStep::Forward(chunk) => {
            // The consumer goes away between the read and the forward:
            // the forward is refused and the loop must exit quietly.
            drop(handle);
            assert!(matches!(port.forward(&mut core, chunk), Flow::Exit));
        }
        _ => panic!("a non-empty read must ask for a forward"),
    }
    let status = port.announce(&mut core);
    assert_eq!(status, ExitStatus::Errored(StreamError::OutputChannelClosed));
    assert_eq!(join_verdict(Some(status)), Ok(()));
}

#[test]
fn signal_sender_dropped_is_a_fault() {
    let (handle, port) = open_stream();
    let mut core = StreamCore::new();

    // The handle is destroyed without any stop request.
    drop(handle);

    assert!(matches!(port.poll_signal(&mut core), Flow::Exit));
    let status = port.announce(&mut core);
    assert_eq!(status, ExitStatus::Errored(StreamError::SignalChannelClosed));
    assert_eq!(
        join_verdict(Some(status)),
        Err(JoinError::Errored(StreamError::SignalChannelClosed))
    );
}

#[test]
fn backpressure_loses_nothing() {
    let (mut handle, port) = open_stream();
    let mut core = StreamCore::new();

    // The consumer stops polling while five chunks arrive.
    let chunks: [&[u8]; 5] = [b"a", b"bb", b"ccc", b"dd", b"e"];
    for chunk in chunks.iter() {
        forward_chunk(&port, &mut core, chunk);
    }

    // On resume, every chunk is still there, in order.
    for chunk in chunks.iter() {
        match handle.poll() {
            PollStatus::Chunk(got) => assert_eq!(&got, chunk),
            other => panic!("expected a queued chunk, got {:?}", other),
        }
    }
    assert_eq!(handle.poll(), PollStatus::Empty);
}

#[test]
fn drain_frame_bounds_work_per_frame() {
    let (mut handle, port) = open_stream();
    let mut core = StreamCore::new();

    forward_chunk(&port, &mut core, b"ab");
    forward_chunk(&port, &mut core, b"cd");
    forward_chunk(&port, &mut core, b"ef");

    let mut display: Vec<u8> = Vec::new();
    // A frame that may take at most two chunks leaves the third.
    assert_eq!(handle.drain_frame(&mut display, 2), None);
    assert_eq!(display, b"abcd".to_vec());
    // The next frame picks up the rest.
    assert_eq!(handle.drain_frame(&mut display, 2), None);
    assert_eq!(display, b"abcdef".to_vec());
}

#[test]
fn drain_frame_reports_the_close() {
    let (mut handle, port) = open_stream();
    let mut core = StreamCore::new();

    forward_chunk(&port, &mut core, b"tail");
    assert!(matches!(port.poll_signal(&mut core), Flow::Proceed));
    assert!(matches!(
        core.observe_readiness(Readiness::HungUp),
        ReadGate::Exit
    ));
    port.announce(&mut core);

    let mut display: Vec<u8> = Vec::new();
    let closed = handle.drain_frame(&mut display, 16);
    assert_eq!(display, b"tail".to_vec());
    assert_eq!(closed, Some(CloseReason::HungUp));
    // Once closed, a frame appends nothing more.
    let closed_again = handle.drain_frame(&mut display, 16);
    assert_eq!(display, b"tail".to_vec());
    assert_eq!(closed_again, Some(CloseReason::HungUp));
}

#[test]
fn poll_never_blocks() {
    let (mut handle, _port) = open_stream();

    // Polls against an idle producer return promptly: a thousand
    // calls stay far under any blocking wait.
    let started = std::time::Instant::now();
    for _ in 0..1000 {
        assert_eq!(handle.poll(), PollStatus::Empty);
    }
    assert!(started.elapsed() < std::time::Duration::from_millis(500));
}

#[test]
fn zero_byte_read_is_not_hangup() {
    let (mut handle, port) = open_stream();
    let mut core = StreamCore::new();

    assert!(matches!(port.poll_signal(&mut core), Flow::Proceed));
    assert!(matches!(
        core.observe_readiness(Readiness::Readable),
        ReadGate::ReadNow
    ));
    // A read of zero bytes forwards nothing and the loop goes on.
    assert!(matches!(
        core.observe_read(ReadEvent::Bytes(Vec::new())),
        ReadStep::Idle
    ));
    assert!(core.is_running());
    assert_eq!(handle.poll(), PollStatus::Empty);
}

#[test]
fn read_failure_is_reported_with_its_code() {
    let (mut handle, port) = open_stream();
    let mut core = StreamCore::new();

    assert!(matches!(port.poll_signal(&mut core), Flow::Proceed));
    assert!(matches!(
        core.observe_readiness(Readiness::Readable),
        ReadGate::ReadNow
    ));
    assert!(matches!(
        core.observe_read(ReadEvent::Failed(5)),
        ReadStep::Exit
    ));
    let status = port.announce(&mut core);
    assert_eq!(status, ExitStatus::Errored(StreamError::IoFailure(5)));
    assert_eq!(handle.poll(), PollStatus::Closed(CloseReason::Errored));
    assert_eq!(
        join_verdict(Some(status)),
        Err(JoinError::Errored(StreamError::IoFailure(5)))
    );
}

#[test]
fn join_verdict_on_a_panicked_context() {
    assert_eq!(join_verdict(None), Err(JoinError::Panicked));
}

#[test]
fn signal_outcomes_classify_exactly() {
    assert_eq!(
        classify_signal(ChannelPoll::Item(Signal::Stop)),
        SignalCheck::Requested
    );
    assert_eq!(classify_signal(ChannelPoll::Pending), SignalCheck::Quiet);
    assert_eq!(
        classify_signal(ChannelPoll::Disconnected),
        SignalCheck::Disconnected
    );
}

#[test]
fn poll_outcomes_interpret_exactly() {
    let (status, closed) = interpret_poll(ChannelPoll::Item(StreamItem::Bytes(b"x".to_vec())));
    assert_eq!(status, PollStatus::Chunk(b"x".to_vec()));
    assert_eq!(closed, None);

    let (status, closed) = interpret_poll(ChannelPoll::Item(StreamItem::End(ExitStatus::Stopped)));
    assert_eq!(status, PollStatus::Closed(CloseReason::Stopped));
    assert_eq!(closed, Some(CloseReason::Stopped));

    let (status, closed) = interpret_poll(ChannelPoll::Item(StreamItem::End(
        ExitStatus::Errored(StreamError::HangUp),
    )));
    assert_eq!(status, PollStatus::Closed(CloseReason::HungUp));
    assert_eq!(closed, Some(CloseReason::HungUp));

    let (status, closed) = interpret_poll(ChannelPoll::Pending);
    assert_eq!(status, PollStatus::Empty);
    assert_eq!(closed, None);

    let (status, closed) = interpret_poll(ChannelPoll::Disconnected);
    assert_eq!(status, PollStatus::Closed(CloseReason::Errored));
    assert_eq!(closed, Some(CloseReason::Errored));
}
