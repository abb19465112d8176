//! Crash reporting and liveness monitoring for a long-running interactive
//! application.
//!
//! The crate holds the decisions of two subsystems and proves each of them
//! against a contract: what a failure handler does with an uncaught failure,
//! and how a watchdog concludes that the main thread has stopped servicing
//! its task queue. Terminating the process, touching files and delivering
//! signals are left to the embedding program, which acts on the values that
//! the functions here return.

pub mod release_channel;
pub mod text;
pub mod version;
pub mod frames;
pub mod capture;
pub mod snapshot;
pub mod panic_report;
pub mod panic_counter;
pub mod panic_hook;
pub mod platform;
pub mod watchdog;
pub mod os_release;
pub mod system_specs;
