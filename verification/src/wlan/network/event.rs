//! Events about networks.

pub mod autopilot;
pub mod pinger;
pub mod waiter;
