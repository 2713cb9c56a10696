//! Plain-value counterparts of what the operating system's wireless service reports and accepts.

pub mod error;
pub mod guid;
pub mod wlan;

pub use error::{NativeError, NativeResult, SUCCESS};
