//! The state of a gateway's configuration: how it is loaded, what is applied, and what is reported
//! of it.
//!
//! - [`load_status`] is a channel that carries the outcome of local config loads to status queries;
//!   [`load_history`] states what holds of every sequence of loads.
//! - [`local_client`] loads the local config and reloads it on changes; [`client_history`] states
//!   what holds of it, whatever happens. [`shared_client`] is such a client with any number of
//!   owners.
//! - [`self_workload`] finds the gateway's own workload and holds up readiness meanwhile.
//! - [`state_manager`] sets all of this up at start.
//! - [`hash`] and [`equivalence`] identify and compare config texts.

pub mod client_history;
pub mod clock;
pub mod equivalence;
pub mod hash;
pub mod load_history;
pub mod load_status;
pub mod local_client;
pub mod self_workload;
pub mod shared_client;
pub mod state_manager;
pub mod text;
