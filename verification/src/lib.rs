//! Detects the running Linux distribution from host-provided data and plans
//! the package-manager workflow that refreshes and upgrades its packages.
//!
//! The library itself performs no I/O: callers read the release file and the
//! marker paths, hand their findings to [`detect`], and drive the workflow of
//! [`workflow::WorkflowRun`] by spawning each command it asks for and
//! reporting the outcome back.

pub mod detect;
pub mod workflow;
