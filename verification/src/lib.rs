//! Supervisor for a fixed set of three locally installed server processes:
//! a web server, a script-execution gateway, and a database server.
//!
//! The crate holds the verified core: the per-service state machine, the
//! launch/stop/health decisions, the runtime binary locator, and the
//! configuration emitters. Everything that touches the operating system
//! (spawning, killing and polling processes, reading directories, writing
//! files) lives outside the library and talks to it through plain values:
//! the library hands out launch plans and receives the outcomes.

pub mod downloader;
pub mod errors;
pub mod generator;
pub mod launcher;
pub mod locator;
pub mod manager;
pub mod mariadb;
pub mod ports;
pub mod service;
pub mod settings;
pub mod text;

use vstd::prelude::*;

verus! {

/// The application's shared state: the one supervisor. Callers serialise
/// access to it; every operation on a service holds it for the operation's
/// full duration.
pub struct AppState {
    pub process_manager: manager::ProcessManager,
}

impl AppState {
    pub fn new() -> (r: AppState)
        ensures
            r.process_manager.spec_initial(),
            r.process_manager.wf(),
    {
        AppState { process_manager: manager::ProcessManager::new() }
    }
}

} // verus!
