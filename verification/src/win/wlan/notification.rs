//! Sources of notifications.

use vstd::prelude::*;

verus! {

/// The part of the wireless service that a notification comes from.
#[derive(Debug, Clone, Copy, PartialEq, Eq, Structural)]
pub enum Source {
    /// No source at all.
    NoSource,
    Onex,
    /// The auto configuration module.
    Acm,
    Msm,
    Security,
    Ihv,
    Hnwk,
    All,
}

impl Source {
    /// The value that the wireless service numbers `n`, if there is one.
    pub open spec fn numbered(n: u32) -> Option<Source> {
        if n == 0 {
            Some(Source::NoSource)
        } else if n == 4 {
            Some(Source::Onex)
        } else if n == 8 {
            Some(Source::Acm)
        } else if n == 16 {
            Some(Source::Msm)
        } else if n == 32 {
            Some(Source::Security)
        } else if n == 64 {
            Some(Source::Ihv)
        } else if n == 128 {
            Some(Source::Hnwk)
        } else if n == 65535 {
            Some(Source::All)
        } else {
            None
        }
    }

    /// The number that the wireless service gives this value.
    pub open spec fn number(self) -> int {
        match self {
            Source::NoSource => 0,
            Source::Onex => 4,
            Source::Acm => 8,
            Source::Msm => 16,
            Source::Security => 32,
            Source::Ihv => 64,
            Source::Hnwk => 128,
            Source::All => 65535,
        }
    }

    /// Reads a number of the wireless service; `None` for a number it does not define.
    pub fn from_u32(n: u32) -> (value: Option<Source>)
        ensures
            value == Source::numbered(n),
    {
        if n == 0 {
            Some(Source::NoSource)
        } else if n == 4 {
            Some(Source::Onex)
        } else if n == 8 {
            Some(Source::Acm)
        } else if n == 16 {
            Some(Source::Msm)
        } else if n == 32 {
            Some(Source::Security)
        } else if n == 64 {
            Some(Source::Ihv)
        } else if n == 128 {
            Some(Source::Hnwk)
        } else if n == 65535 {
            Some(Source::All)
        } else {
            None
        }
    }

    /// The number that the wireless service gives this value.
    pub fn to_u32(&self) -> (n: u32)
        ensures
            n == self.number(),
            Source::numbered(n) == Some(*self),
    {
        match self {
            Source::NoSource => 0,
            Source::Onex => 4,
            Source::Acm => 8,
            Source::Msm => 16,
            Source::Security => 32,
            Source::Ihv => 64,
            Source::Hnwk => 128,
            Source::All => 65535,
        }
    }
}

} // verus!
