//! The operators: what the supervisor knows about adapters and networks, and
//! what it has chosen among them.

pub mod acm;
pub mod event;
pub mod interface;
pub mod network;
