//! Selection of a firewall backend for container networking.
//!
//! A backend is named by the caller or by the environment; the name is
//! matched without regard to case against a closed set, and the backend
//! it names is handed back ready for use, or an error says why not.

pub mod bus;
pub mod error;
pub mod firewall;
pub mod fwnone;
pub mod internal_types;
pub mod laws;
pub mod text;
