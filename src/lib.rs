//! Controller-side orchestration of a parasite injected into a running
//! process: the lifecycle state machine, the synchronous call protocol with
//! its argument buffer, the remote syscall path, and the text sink that
//! drains the parasite's log pipe.

pub mod ctl;
pub mod error;
pub mod laws;
pub mod log_bridge;

