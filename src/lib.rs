//! Graceful-shutdown coordination for a process made of several monitored
//! tasks: the bookkeeping of task registrations and cleanup actions, and the
//! decisions of the terminal wait, as verified functions.

pub mod laws;
pub mod registry;
pub mod status;
pub mod wait;

pub use registry::{RegistryModel, TaskKind, TaskRegistration, TaskRegistry};
pub use status::{AbortOutcome, AborterStatus};
pub use wait::{AbortWait, WaitAction, WaitEvent, WaitModel};
pub use laws::{
    lemma_all_cleanups_run_then_return, lemma_cleanups_in_registration_order,
    lemma_first_race_event_decides, lemma_hanging_cleanup_blocks_return,
};
