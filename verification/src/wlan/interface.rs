//! Adapters: the ones present, and the one in use.

pub mod chosen;
pub mod error;
pub mod event;
pub mod list;

pub use error::Error;
