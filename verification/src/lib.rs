//! A single-slot hand-off of an opaque credential payload from a main
//! application window to a transient auxiliary "quick copy" window, together
//! with the decision logic that drives the auxiliary window's lifecycle.
//!
//! The library owns the hand-off slot and every decision of the Open /
//! FetchPending / Close protocol. Host window operations (destroying a stale
//! window, creating the auxiliary window, broadcasting the closure event) are
//! carried out by the embedding layer, which feeds their outcomes back into
//! the controller.

pub mod controller;
pub mod errors;
pub mod laws;
pub mod model;
pub mod slot;
