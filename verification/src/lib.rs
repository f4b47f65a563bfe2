//! Role-based access control and governance engine.
//!
//! The library decides who may act as administrator, what role a principal
//! holds, whether a principal may perform an operation requiring a given
//! role, and how administrative authority is transferred or shared.  All
//! state lives in an explicit `AccessControlModule` aggregate, so every
//! decision is a verified function from state and inputs to the next state
//! and a result.  External collaborators (the persistent store, the clock,
//! the membership-balance service, the audit channel) are supplied by the
//! host as plain values.

pub mod types;
pub mod errors;
pub mod model;
pub mod engine;
pub mod laws;
pub mod common_types;
