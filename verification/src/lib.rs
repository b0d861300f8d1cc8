//! Watch-rebuild-restart logic for a Cargo development server: command-line
//! flag forwarding, target resolution, artifact discovery and the supervisor's
//! decisions, each with a verified contract.
pub mod text;
pub mod cli;
pub mod error;
pub mod project;
pub mod json;
pub mod builder;
pub mod supervisor;
pub mod watcher;
pub mod server;
