//! Protocol plugin registry and point dispatch for an edge gateway.
//!
//! Drivers are registered by protocol name, point reads and writes are routed
//! to the driver that owns the point's device, and the last known value of
//! each point is kept in a shadow cache.
pub mod model;
pub mod error;
pub mod registry;
pub mod shadow;
pub mod loader;
pub mod dispatch;
pub mod plugin;

