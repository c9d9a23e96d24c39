//! Request planning and reply handling for a client of a cloud quantum-computing
//! REST service.
//!
//! The crate performs no I/O. For every remote operation it offers one function
//! that describes the single request to send and one function that turns whatever
//! came back into the value handed to the caller: a list of backend names, a JSON
//! string, or an error whose message tells which stage failed.

pub mod backends;
pub mod backends_api;
pub mod config;
pub mod error;
pub mod guarantees;
pub mod instances;
pub mod json;
pub mod listing;
pub mod models;
pub mod operation;
pub mod reply;
pub mod request;
pub mod sessions;
pub mod text;
