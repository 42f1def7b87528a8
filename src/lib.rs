//! Execution tracing core: span identifiers, the request-scoped span
//! collector, the span tree it produces, and the boundary check that turns
//! inbound request metadata into an execution context.

pub mod ids;
pub mod span;
pub mod collector;
pub mod boundary;
pub mod adapters;
pub mod api;
