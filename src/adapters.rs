//! Adapters for upstream integrations: configuration policies, telemetry
//! and governance events, and canonical schemas. Each holds its state as
//! plain values; the host supplies clocks and shares adapters under locks.

pub mod config_manager;
pub mod observatory;
pub mod schema_registry;
