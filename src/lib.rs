//! Re-invokes the build orchestrator so that each compiler invocation it
//! makes comes back through this tool, which rewrites the optimisation and
//! debug-info flags according to the selected bake mode.
pub mod channel;
pub mod modes;
pub mod runner;
pub mod sanitize;
pub mod text;
