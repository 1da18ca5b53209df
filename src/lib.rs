//! Asynchronous duplex named-pipe communication: the decision core.
//!
//! The library holds the data structures and state machines of a named-pipe
//! connection: the double-buffer channel, the recycling pool of waitable
//! events, the per-connection I/O engine, the line reader, and the
//! server-side slot lifecycle. Operating-system calls are made by the caller,
//! which hands their outcomes back as plain values.
pub mod buffer;
pub mod os;
pub mod channel;
pub mod event;
pub mod pipe;
pub mod runtime;
pub mod server_pipe;
pub mod server;
pub mod client;
