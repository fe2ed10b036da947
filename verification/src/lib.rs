//! Management of a local proxy binary: installing a release archive without
//! touching the user's configuration, and starting, stopping and watching the
//! one process that runs it.

pub mod alternate;
pub mod archive;
pub mod auth;
pub mod copilot;
pub mod error;
pub mod extract;
pub mod install;
pub mod listing;
pub mod names;
pub mod paths;
pub mod process;
pub mod state;
pub mod text;
pub mod tray;
pub mod version;
