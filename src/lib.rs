//! Audio-capture coordination: a bounded capture buffer fed from a real-time
//! callback, and the command processor that drives one recording session.
pub mod buffer;
pub mod devices;
pub mod processor;
pub mod protocol;
