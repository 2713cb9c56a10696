//! The auto configuration module of the wireless service.

pub mod notification;

pub use notification::Notification;
