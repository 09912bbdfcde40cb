//! Supervision of a backend worker process: port choice, launch arguments,
//! health hysteresis, crash handling and serialized restarts, written as a
//! verified state machine that an asynchronous host drives.
pub mod laws;
pub mod port;
pub mod status;
pub mod supervisor;
pub mod text;
