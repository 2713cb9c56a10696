//! Supervision logic for a host that must stay on an Internet-capable Wi-Fi network.
//!
//! The library holds the decisions: which adapter to use, which network to join,
//! when the host counts as alive, and what to do next after every notification,
//! connection attempt or echo reply. It performs no I/O of its own.

pub mod cfg;
pub mod error;
pub mod log;
pub mod pinger;
pub mod state;
pub mod supervisor;
pub mod util;
pub mod win;
pub mod wlan;

pub use pinger::{Monitor, Pinger, Step};
pub use state::{DeadReason, State};
