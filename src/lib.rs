//! Supervision of a backend worker process: the readiness handshake over its
//! output, the shared connection state, the stop path and the bounded wait
//! for the worker to come up; and the records of the text store beside it.

pub mod connection;
pub mod handshake;
pub mod model;
pub mod supervisor;
pub mod text;
