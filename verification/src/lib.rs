//! A task supervisor: each user-defined task is an external program launched
//! and relaunched according to its trigger policy, watched by a per-task
//! guard state machine, and coordinated by a scheduler that owns the
//! directory of live guards and the task repository.
//!
//! The guard and scheduler are modelled as explicit state machines: every
//! transition is an ordinary function from the current state and an incoming
//! event to the next state plus a list of effects (kill a process, launch one,
//! record an exit code). The asynchronous shell that performs those effects
//! lives outside this crate and hands the results back as further events.

mod clock;
pub mod config;
pub mod error;
pub mod guard;
pub mod jsonio;
pub mod launch;
pub mod record;
pub mod sched;
pub mod store;
pub mod suspend;
pub mod task;

pub use error::Error;
pub use error::ErrorKind;
