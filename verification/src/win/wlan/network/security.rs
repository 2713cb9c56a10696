//! How a network protects itself.

pub mod auth;
pub mod cipher;

pub use auth::Authentication;
pub use cipher::Encryption;

use vstd::prelude::*;

verus! {

/// The protection that a network announces.
#[derive(Debug, Clone, Copy, PartialEq, Eq, Structural)]
pub struct Security {
    pub enabled: bool,
    pub auth: Authentication,
    pub cipher: Encryption,
}

} // verus!
