//! Startup logic of a stdio-driven language server: the startup
//! configuration, the plan for the diagnostic-logging pipeline, and the
//! retry decisions of the cooperative standard-input adapter.
pub mod config;
pub mod input;
pub mod logging;
