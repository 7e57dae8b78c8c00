//! Coordination core of a desktop task tool: a supervised worker spoken to
//! over a line protocol, a notification bus that coalesces bursts of change
//! notices, and a file watcher that ignores echoes of the tool's own writes.

pub mod activity_logger;
pub mod clock;
pub mod commands;
pub mod database;
pub mod errors;
pub mod file_watcher;
pub mod host;
pub mod ipc_socket;
pub mod json;
pub mod paths;
pub mod script_text;
pub mod settings;
pub mod sidecar;
pub mod task_json;
pub mod terminal;
pub mod text;
pub mod token_tracker;
pub mod window;
