//! Driver for the DRV2605L haptic motor controller.
//!
//! The chip is reached over a bus of one-byte registers. The driver changes its mode,
//! fills and plays its waveform sequence, calibrates it for the motor, and renders a
//! heartbeat, either from two effects of the on-chip library or as amplitudes in real-time
//! playback.
//!
//! Every operation is a [`sequencer::Task`]: it says, one request at a time, what to write,
//! what to read and how long to wait, and takes the reply to each request before it names
//! the next. [`operations`] holds the plan of each operation. [`blocking::Drv2605l`] runs
//! the tasks on a [`transport::Transport`]; a runner that suspends instead of blocking
//! runs the same tasks and so sends the same requests in the same order. [`trace`] says
//! what a run looks like from the bus, and [`laws`] proves what follows for each
//! operation.

pub mod blocking;
pub mod common;
pub mod heartbeat;
pub mod laws;
pub mod operations;
pub mod registers;
pub mod sequencer;
pub mod trace;
pub mod transport;

pub use blocking::Drv2605l;
pub use common::{Effect, Error, Library, Mode, MotorType, DRV2605L_ADDR};
pub use heartbeat::HeartbeatPattern;
pub use sequencer::{Operation, Request, Task};
pub use transport::Transport;
