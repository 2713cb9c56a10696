//! The wireless service: adapters, networks and notifications.

pub mod acm;
pub mod interface;
pub mod network;
pub mod notification;

pub use interface::Interface;
pub use network::Network;

use crate::win::error::{NativeError, NativeResult, SUCCESS};
use crate::win::wlan::acm::notification::Code;
use crate::win::wlan::network::Profile;
use vstd::prelude::*;

verus! {

/// The version of the service interface that a client asks for.
#[derive(Debug, Clone, Copy, PartialEq, Eq, Structural)]
pub enum ClientVersion {
    /// The interface of the oldest systems that have the service.
    First,
    /// The interface of every later system.
    Second,
}

impl ClientVersion {
    /// The value that the wireless service numbers `n`, if there is one.
    pub open spec fn numbered(n: u32) -> Option<ClientVersion> {
        if n == 1 {
            Some(ClientVersion::First)
        } else if n == 2 {
            Some(ClientVersion::Second)
        } else {
            None
        }
    }

    /// The number that the wireless service gives this value.
    pub open spec fn number(self) -> int {
        match self {
            ClientVersion::First => 1,
            ClientVersion::Second => 2,
        }
    }

    /// Reads a number of the wireless service; `None` for a number it does not define.
    pub fn from_u32(n: u32) -> (value: Option<ClientVersion>)
        ensures
            value == ClientVersion::numbered(n),
    {
        if n == 1 {
            Some(ClientVersion::First)
        } else if n == 2 {
            Some(ClientVersion::Second)
        } else {
            None
        }
    }

    /// The number that the wireless service gives this value.
    pub fn to_u32(&self) -> (n: u32)
        ensures
            n == self.number(),
            ClientVersion::numbered(n) == Some(*self),
    {
        match self {
            ClientVersion::First => 1,
            ClientVersion::Second => 2,
        }
    }
}

/// A request to the service that ends with a notification.
#[derive(Debug, Clone, Copy, PartialEq, Eq, Structural)]
pub enum Operation {
    Scan,
    Connect,
    Disconnect,
}

impl Operation {
    /// What a notification says of a pending request: that it succeeded,
    /// that it failed, or nothing.
    pub open spec fn verdict(self, code: Code) -> Option<bool> {
        match self {
            Operation::Scan => if code == Code::ScanComplete {
                Some(true)
            } else if code == Code::ScanFail {
                Some(false)
            } else {
                None
            },
            Operation::Connect => if code == Code::ConnectionComplete {
                Some(true)
            } else if code == Code::ConnectionAttemptFail {
                Some(false)
            } else {
                None
            },
            Operation::Disconnect => if code == Code::Disconnected {
                Some(true)
            } else if code == Code::ConnectionAttemptFail {
                Some(false)
            } else {
                None
            },
        }
    }

    /// What a notification says of a pending request: `Some(true)` when it
    /// succeeded, `Some(false)` when it failed, `None` when the notification
    /// says nothing of it and waiting goes on.
    pub fn settles(&self, code: &Code) -> (verdict: Option<bool>)
        ensures
            verdict == self.verdict(*code),
    {
        match self {
            Operation::Scan => match code {
                Code::ScanComplete => Some(true),
                Code::ScanFail => Some(false),
                _ => None,
            },
            Operation::Connect => match code {
                Code::ConnectionComplete => Some(true),
                Code::ConnectionAttemptFail => Some(false),
                _ => None,
            },
            Operation::Disconnect => match code {
                Code::Disconnected => Some(true),
                Code::ConnectionAttemptFail => Some(false),
                _ => None,
            },
        }
    }

    /// How many seconds to wait for a notification each time before the
    /// request counts as failed.
    pub fn timeout_secs(&self) -> (seconds: u64)
        ensures
            seconds == match self {
                Operation::Scan => 4u64,
                _ => 5u64,
            },
    {
        match self {
            Operation::Scan => 4,
            _ => 5,
        }
    }
}

/// Reads the code with which the service answers a call.
pub fn native_result(code: u32) -> (read: NativeResult<()>)
    requires
        code == SUCCESS || NativeError::numbered(code) is Some,
    ensures
        code == SUCCESS ==> read is Ok,
        code != SUCCESS ==> (read matches Err(e) && NativeError::numbered(code) == Some(e)),
{
    if code == SUCCESS {
        return Ok(());
    }
    match NativeError::from_u32(code) {
        Some(e) => Err(e),
        None => Ok(()),
    }
}

/// Tells whether the adapter stores a profile, from what reading the profile
/// gave: it does unless the service said that it found none.
pub fn profile_exists(found: &NativeResult<Profile>) -> (yes: bool)
    ensures
        yes == !(found matches Err(e) && e == NativeError::NotFound),
{
    match found {
        Err(NativeError::NotFound) => false,
        _ => true,
    }
}

} // verus!
