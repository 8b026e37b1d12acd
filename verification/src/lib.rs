//! Connection manager for AmneziaWG tunnels: the verified core.
//!
//! The terminal front end lives outside this crate; it performs the I/O
//! (directory listings, file reads, spawning `awg-quick`) and feeds the
//! results to the state machines and decision functions defined here.
pub mod header;
pub mod text;
pub mod paths;
pub mod layout;
pub mod list_state;
pub mod file_explorer;
pub mod explorer_laws;
pub mod vpn_manager;
pub mod app;
pub mod app_laws;
pub mod vpn_laws;
