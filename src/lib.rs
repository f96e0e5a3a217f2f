//! Supervisor library for a desktop shell that launches, probes, restarts and
//! stops a long-running backend worker process.
pub mod text;
pub mod launch;
pub mod readiness;
pub mod supervisor;
pub mod spawn;
pub mod endpoint;
pub mod tray;
pub mod locale;
pub mod flags;
pub mod bridge;
