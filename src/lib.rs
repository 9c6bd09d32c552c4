//! Session controller for a terminal client of a remote orchestration service.
//!
//! The library holds every decision of a session: which screen and page are
//! shown, which modal owns the keyboard, which item of each resource list is
//! selected, and in which order the remote resources are fetched. Whatever
//! touches the terminal or the network is done by the caller, which hands the
//! outcome back as plain values.

pub mod error;
pub mod models;
pub mod state;
pub mod text;
pub mod session;
pub mod plan;
pub mod forms;
pub mod actions;
pub mod modal;
pub mod keys;
pub mod laws;
