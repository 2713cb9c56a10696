//! Physical layers.

use vstd::prelude::*;

verus! {

/// The physical layer that a network uses.
#[derive(Debug, Clone, Copy, PartialEq, Eq, Structural)]
pub enum Type {
    Any,
    Fhss,
    Dsss,
    IrBaseBand,
    Ofdm,
    Hrdsss,
    Erp,
    Ht,
    Vht,
    Dmg,
    He,
    Eht,
    IhvStart,
    IhvEnd,
}

impl Type {
    /// The value that the wireless service numbers `n`, if there is one.
    pub open spec fn numbered(n: i32) -> Option<Type> {
        if n == 0 {
            Some(Type::Any)
        } else if n == 1 {
            Some(Type::Fhss)
        } else if n == 2 {
            Some(Type::Dsss)
        } else if n == 3 {
            Some(Type::IrBaseBand)
        } else if n == 4 {
            Some(Type::Ofdm)
        } else if n == 5 {
            Some(Type::Hrdsss)
        } else if n == 6 {
            Some(Type::Erp)
        } else if n == 7 {
            Some(Type::Ht)
        } else if n == 8 {
            Some(Type::Vht)
        } else if n == 9 {
            Some(Type::Dmg)
        } else if n == 10 {
            Some(Type::He)
        } else if n == 11 {
            Some(Type::Eht)
        } else if n == -2147483648 {
            Some(Type::IhvStart)
        } else if n == -1 {
            Some(Type::IhvEnd)
        } else {
            None
        }
    }

    /// The number that the wireless service gives this value.
    pub open spec fn number(self) -> int {
        match self {
            Type::Any => 0,
            Type::Fhss => 1,
            Type::Dsss => 2,
            Type::IrBaseBand => 3,
            Type::Ofdm => 4,
            Type::Hrdsss => 5,
            Type::Erp => 6,
            Type::Ht => 7,
            Type::Vht => 8,
            Type::Dmg => 9,
            Type::He => 10,
            Type::Eht => 11,
            Type::IhvStart => -2147483648,
            Type::IhvEnd => -1,
        }
    }

    /// Reads a number of the wireless service; `None` for a number it does not define.
    pub fn from_i32(n: i32) -> (value: Option<Type>)
        ensures
            value == Type::numbered(n),
    {
        if n == 0 {
            Some(Type::Any)
        } else if n == 1 {
            Some(Type::Fhss)
        } else if n == 2 {
            Some(Type::Dsss)
        } else if n == 3 {
            Some(Type::IrBaseBand)
        } else if n == 4 {
            Some(Type::Ofdm)
        } else if n == 5 {
            Some(Type::Hrdsss)
        } else if n == 6 {
            Some(Type::Erp)
        } else if n == 7 {
            Some(Type::Ht)
        } else if n == 8 {
            Some(Type::Vht)
        } else if n == 9 {
            Some(Type::Dmg)
        } else if n == 10 {
            Some(Type::He)
        } else if n == 11 {
            Some(Type::Eht)
        } else if n == -2147483648 {
            Some(Type::IhvStart)
        } else if n == -1 {
            Some(Type::IhvEnd)
        } else {
            None
        }
    }

    /// The number that the wireless service gives this value.
    pub fn to_i32(&self) -> (n: i32)
        ensures
            n == self.number(),
            Type::numbered(n) == Some(*self),
    {
        match self {
            Type::Any => 0,
            Type::Fhss => 1,
            Type::Dsss => 2,
            Type::IrBaseBand => 3,
            Type::Ofdm => 4,
            Type::Hrdsss => 5,
            Type::Erp => 6,
            Type::Ht => 7,
            Type::Vht => 8,
            Type::Dmg => 9,
            Type::He => 10,
            Type::Eht => 11,
            Type::IhvStart => -2147483648,
            Type::IhvEnd => -1,
        }
    }
}

impl Type {
    /// Reads the physical layer that the service reports.
    pub fn from_dot11_phy_type(phy: i32) -> (value: Type)
        requires
            Type::numbered(phy) is Some,
        ensures
            Type::numbered(phy) == Some(value),
    {
        match Type::from_i32(phy) {
            Some(value) => value,
            None => Type::Any,
        }
    }
}

} // verus!
