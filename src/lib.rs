//! Subscriber sign-up service core: per-request correlation, explicit span
//! trees, a process-scoped event sink, and the decisions of the sign-up and
//! health-check handlers.

pub mod attributes;
pub mod correlation;
pub mod health_check;
pub mod persistence;
pub mod sink;
mod sources;
pub mod span;
pub mod subscriptions;
