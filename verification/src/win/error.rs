//! Failures reported by the wireless service.

use vstd::prelude::*;

verus! {

/// A failure reported by the wireless service, by its system error code.
#[derive(Debug, Clone, Copy, PartialEq, Eq, Structural)]
pub enum NativeError {
    /// The caller lacks the rights for the operation.
    AccessDenied,
    /// The service could not allocate what the operation needs.
    NotEnoughMemory,
    /// An argument was refused.
    InvalidParameter,
    /// The adapter, network or profile named does not exist.
    NotFound,
    /// Too many sessions are open on the service.
    RemoteSessionLimitExceeded,
}

impl NativeError {
    /// The value that the wireless service numbers `n`, if there is one.
    pub open spec fn numbered(n: u32) -> Option<NativeError> {
        if n == 5 {
            Some(NativeError::AccessDenied)
        } else if n == 8 {
            Some(NativeError::NotEnoughMemory)
        } else if n == 87 {
            Some(NativeError::InvalidParameter)
        } else if n == 1168 {
            Some(NativeError::NotFound)
        } else if n == 1220 {
            Some(NativeError::RemoteSessionLimitExceeded)
        } else {
            None
        }
    }

    /// The number that the wireless service gives this value.
    pub open spec fn number(self) -> int {
        match self {
            NativeError::AccessDenied => 5,
            NativeError::NotEnoughMemory => 8,
            NativeError::InvalidParameter => 87,
            NativeError::NotFound => 1168,
            NativeError::RemoteSessionLimitExceeded => 1220,
        }
    }

    /// Reads a number of the wireless service; `None` for a number it does not define.
    pub fn from_u32(n: u32) -> (value: Option<NativeError>)
        ensures
            value == NativeError::numbered(n),
    {
        if n == 5 {
            Some(NativeError::AccessDenied)
        } else if n == 8 {
            Some(NativeError::NotEnoughMemory)
        } else if n == 87 {
            Some(NativeError::InvalidParameter)
        } else if n == 1168 {
            Some(NativeError::NotFound)
        } else if n == 1220 {
            Some(NativeError::RemoteSessionLimitExceeded)
        } else {
            None
        }
    }

    /// The number that the wireless service gives this value.
    pub fn to_u32(&self) -> (n: u32)
        ensures
            n == self.number(),
            NativeError::numbered(n) == Some(*self),
    {
        match self {
            NativeError::AccessDenied => 5,
            NativeError::NotEnoughMemory => 8,
            NativeError::InvalidParameter => 87,
            NativeError::NotFound => 1168,
            NativeError::RemoteSessionLimitExceeded => 1220,
        }
    }
}

/// A failure of the binding to the operating system.
#[derive(Debug, Clone, Copy, PartialEq, Eq, Structural)]
pub enum Error {
    /// The wireless service reported a failure.
    Native(NativeError),
}

/// The outcome of a call into the wireless service.
pub type NativeResult<T> = Result<T, NativeError>;

/// The code with which the wireless service reports success.
pub const SUCCESS: u32 = 0;

} // verus!
