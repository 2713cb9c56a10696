//! Authentication algorithms.

use vstd::prelude::*;

verus! {

/// How stations prove themselves to a network.
#[derive(Debug, Clone, Copy, PartialEq, Eq, Structural)]
pub enum Authentication {
    Open,
    SharedKey,
    Wpa,
    WpaPsk,
    WpaNone,
    Rsna,
    RsnaPsk,
    Wpa3,
    Wpa3Sae,
    Owe,
    Wpa3Ent,
    IhvStart,
    IhvEnd,
}

impl Authentication {
    /// The value that the wireless service numbers `n`, if there is one.
    pub open spec fn numbered(n: i32) -> Option<Authentication> {
        if n == 1 {
            Some(Authentication::Open)
        } else if n == 2 {
            Some(Authentication::SharedKey)
        } else if n == 3 {
            Some(Authentication::Wpa)
        } else if n == 4 {
            Some(Authentication::WpaPsk)
        } else if n == 5 {
            Some(Authentication::WpaNone)
        } else if n == 6 {
            Some(Authentication::Rsna)
        } else if n == 7 {
            Some(Authentication::RsnaPsk)
        } else if n == 8 {
            Some(Authentication::Wpa3)
        } else if n == 9 {
            Some(Authentication::Wpa3Sae)
        } else if n == 10 {
            Some(Authentication::Owe)
        } else if n == 11 {
            Some(Authentication::Wpa3Ent)
        } else if n == -2147483648 {
            Some(Authentication::IhvStart)
        } else if n == -1 {
            Some(Authentication::IhvEnd)
        } else {
            None
        }
    }

    /// The number that the wireless service gives this value.
    pub open spec fn number(self) -> int {
        match self {
            Authentication::Open => 1,
            Authentication::SharedKey => 2,
            Authentication::Wpa => 3,
            Authentication::WpaPsk => 4,
            Authentication::WpaNone => 5,
            Authentication::Rsna => 6,
            Authentication::RsnaPsk => 7,
            Authentication::Wpa3 => 8,
            Authentication::Wpa3Sae => 9,
            Authentication::Owe => 10,
            Authentication::Wpa3Ent => 11,
            Authentication::IhvStart => -2147483648,
            Authentication::IhvEnd => -1,
        }
    }

    /// Reads a number of the wireless service; `None` for a number it does not define.
    pub fn from_i32(n: i32) -> (value: Option<Authentication>)
        ensures
            value == Authentication::numbered(n),
    {
        if n == 1 {
            Some(Authentication::Open)
        } else if n == 2 {
            Some(Authentication::SharedKey)
        } else if n == 3 {
            Some(Authentication::Wpa)
        } else if n == 4 {
            Some(Authentication::WpaPsk)
        } else if n == 5 {
            Some(Authentication::WpaNone)
        } else if n == 6 {
            Some(Authentication::Rsna)
        } else if n == 7 {
            Some(Authentication::RsnaPsk)
        } else if n == 8 {
            Some(Authentication::Wpa3)
        } else if n == 9 {
            Some(Authentication::Wpa3Sae)
        } else if n == 10 {
            Some(Authentication::Owe)
        } else if n == 11 {
            Some(Authentication::Wpa3Ent)
        } else if n == -2147483648 {
            Some(Authentication::IhvStart)
        } else if n == -1 {
            Some(Authentication::IhvEnd)
        } else {
            None
        }
    }

    /// The number that the wireless service gives this value.
    pub fn to_i32(&self) -> (n: i32)
        ensures
            n == self.number(),
            Authentication::numbered(n) == Some(*self),
    {
        match self {
            Authentication::Open => 1,
            Authentication::SharedKey => 2,
            Authentication::Wpa => 3,
            Authentication::WpaPsk => 4,
            Authentication::WpaNone => 5,
            Authentication::Rsna => 6,
            Authentication::RsnaPsk => 7,
            Authentication::Wpa3 => 8,
            Authentication::Wpa3Sae => 9,
            Authentication::Owe => 10,
            Authentication::Wpa3Ent => 11,
            Authentication::IhvStart => -2147483648,
            Authentication::IhvEnd => -1,
        }
    }
}

impl Authentication {
    /// Reads the authentication algorithm that the service reports.
    pub fn from_dot11_auth_algorithm(auth_algo: i32) -> (value: Authentication)
        requires
            Authentication::numbered(auth_algo) is Some,
        ensures
            Authentication::numbered(auth_algo) == Some(value),
    {
        match Authentication::from_i32(auth_algo) {
            Some(value) => value,
            None => Authentication::Open,
        }
    }
}

} // verus!
