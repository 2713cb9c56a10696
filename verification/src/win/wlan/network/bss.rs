//! Kinds of service set.

use vstd::prelude::*;

verus! {

/// The kind of service set that a network forms.
#[derive(Debug, Clone, Copy, PartialEq, Eq, Structural)]
pub enum Bss {
    /// Stations around an access point.
    Infrastructure,
    /// Stations among themselves, with no access point.
    Independent,
    /// Either kind.
    Any,
}

impl Bss {
    /// The value that the wireless service numbers `n`, if there is one.
    pub open spec fn numbered(n: i32) -> Option<Bss> {
        if n == 1 {
            Some(Bss::Infrastructure)
        } else if n == 2 {
            Some(Bss::Independent)
        } else if n == 3 {
            Some(Bss::Any)
        } else {
            None
        }
    }

    /// The number that the wireless service gives this value.
    pub open spec fn number(self) -> int {
        match self {
            Bss::Infrastructure => 1,
            Bss::Independent => 2,
            Bss::Any => 3,
        }
    }

    /// Reads a number of the wireless service; `None` for a number it does not define.
    pub fn from_i32(n: i32) -> (value: Option<Bss>)
        ensures
            value == Bss::numbered(n),
    {
        if n == 1 {
            Some(Bss::Infrastructure)
        } else if n == 2 {
            Some(Bss::Independent)
        } else if n == 3 {
            Some(Bss::Any)
        } else {
            None
        }
    }

    /// The number that the wireless service gives this value.
    pub fn to_i32(&self) -> (n: i32)
        ensures
            n == self.number(),
            Bss::numbered(n) == Some(*self),
    {
        match self {
            Bss::Infrastructure => 1,
            Bss::Independent => 2,
            Bss::Any => 3,
        }
    }
}

impl Bss {
    /// Reads the kind of service set that the service reports.
    pub fn from_dot11_bss_type(bss: i32) -> (value: Bss)
        requires
            Bss::numbered(bss) is Some,
        ensures
            Bss::numbered(bss) == Some(value),
    {
        match Bss::from_i32(bss) {
            Some(value) => value,
            None => Bss::Any,
        }
    }

    /// The number under which the service knows this kind of service set.
    pub fn to_dot11_bss_type(&self) -> (n: i32)
        ensures
            n == self.number(),
            Bss::numbered(n) == Some(*self),
    {
        self.to_i32()
    }
}

} // verus!
