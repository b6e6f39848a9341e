//! Periodic-sampling telemetry core for a temperature monitor: timer planning,
//! a software millisecond clock, tick decimation, a single-slot mailbox between
//! the interrupt context and the main loop, and the line format sent to the
//! host; with the host recorder's line handling and the Morse transmitter's
//! encoding and stepping.

pub mod timer;
pub mod clock;
pub mod scheduler;
pub mod mailbox;
pub mod sensor;
pub mod monitor;
pub mod format;
pub mod recorder;
pub mod morse;
