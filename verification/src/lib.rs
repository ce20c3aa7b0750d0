//! A non-blocking, cancellable background byte-stream reader.
//!
//! The library drains one end of an OS pipe on a dedicated background
//! context and hands the bytes, chunk by chunk and in read order, to a
//! consumer that must never be blocked.  The heart of the crate is the
//! `machine` module: the read loop's state machine, verified against
//! the fixed per-iteration order of its transitions.  The `stream`
//! module holds the channel plumbing between the background context
//! and the consumer-facing handle; `script` replays the state machine
//! over scripted runs and proves the delivery laws; `chunk` holds the
//! byte-level helpers; `text`, `input` and `config` model the
//! surrounding terminal application's plain data.

pub mod status;

pub mod chunk;

pub mod machine;

pub mod channel;

pub mod stream;

pub mod script;

mod strings;

pub mod text;

pub mod input;

pub mod config;

