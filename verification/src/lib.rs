//! The verified core of the agenthub service: its configuration and the
//! values derived from it, start-up checks and the configuration report,
//! the daemon's task phases and instance lock, the database's place, the checks and error
//! mapping of the team, loop and upload endpoints, the pending WebAuthn
//! ceremonies and login decisions, and the command line's error report.
use vstd::prelude::*;

pub mod text;
pub mod paths;
pub mod api_error;
pub mod config;
pub mod config_lists;
pub mod config_laws;
pub mod startup;
pub mod daemon_tasks;
pub mod daemon_lock;
pub mod daemon_binary;
pub mod history;
pub mod database;
pub mod auth;
pub mod team_errors;
pub mod team_tasks;
pub mod loops;
pub mod uploads;
pub mod actor_context;
pub mod mailbox;
pub mod cli_error;

verus! {

} // verus!
