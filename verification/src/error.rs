//! Failures of the supervisor's own making.

use vstd::prelude::*;

verus! {

/// A record that the supervisor cannot use.
#[derive(Debug, Clone, Copy, PartialEq, Eq, Structural)]
pub enum Error {
    /// A notification came from another source than the auto configuration module.
    NotAnAcmNotification,
}

/// Why the configuration could not be brought in.
#[derive(Debug, Clone, PartialEq, Eq)]
pub enum RwError {
    /// The file could not be read; the text says why.
    ReadError(String),
    /// The file does not hold a configuration; the text says why.
    DeserializeError(String),
}

/// The outcome of reading a record.
pub type Result<T> = std::result::Result<T, Error>;

} // verus!
