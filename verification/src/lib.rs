//! Serial port I/O for mio: the state machines behind a completion-based (COM) serial port.
//!
//! A port is driven by overlapped reads and writes whose completions arrive through an event
//! loop. Everything that decides what happens next lives here: what a caller is told, which
//! operation is issued, which readiness is published, and how long the memory of an
//! operation has to live. The calls into the operating system are made by the driver around
//! this library, which performs the steps it is handed and reports their outcomes.

pub mod binding;
pub mod error;
pub mod from_raw_arc;
pub mod ready;
pub mod windows;

pub use windows::Serial;
