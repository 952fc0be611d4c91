//! Supervision of a long-running worker process beside a desktop shell:
//! launch arguments, the output pump's per-event decisions, and the lifecycle
//! router that guarantees the worker is killed at most once.

pub mod error;
pub mod launch;
pub mod pump;
pub mod router;
pub mod slot;
mod text;
pub mod tray;
pub mod update;
