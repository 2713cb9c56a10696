//! Cipher algorithms.

use vstd::prelude::*;

verus! {

/// How a network enciphers its frames.
#[derive(Debug, Clone, Copy, PartialEq, Eq, Structural)]
pub enum Encryption {
    /// Frames are sent in the clear.
    NoEncryption,
    Wep40,
    Tkip,
    Ccmp,
    Wep104,
    Bip,
    Gcmp,
    Gcmp256,
    Ccmp256,
    BipGmac128,
    BipGmac256,
    BipCmac256,
    WpaUseGroup,
    /// The group cipher of a robust security network. The service reports it under the number of `WpaUseGroup`, so no number reads as this value.
    RsnUseGroup,
    Wep,
    IhvStart,
    IhvEnd,
}

impl Encryption {
    /// The value that the wireless service numbers `n`, if there is one.
    pub open spec fn numbered(n: i32) -> Option<Encryption> {
        if n == 0 {
            Some(Encryption::NoEncryption)
        } else if n == 1 {
            Some(Encryption::Wep40)
        } else if n == 2 {
            Some(Encryption::Tkip)
        } else if n == 4 {
            Some(Encryption::Ccmp)
        } else if n == 5 {
            Some(Encryption::Wep104)
        } else if n == 6 {
            Some(Encryption::Bip)
        } else if n == 8 {
            Some(Encryption::Gcmp)
        } else if n == 9 {
            Some(Encryption::Gcmp256)
        } else if n == 10 {
            Some(Encryption::Ccmp256)
        } else if n == 11 {
            Some(Encryption::BipGmac128)
        } else if n == 12 {
            Some(Encryption::BipGmac256)
        } else if n == 13 {
            Some(Encryption::BipCmac256)
        } else if n == 256 {
            Some(Encryption::WpaUseGroup)
        } else if n == 257 {
            Some(Encryption::Wep)
        } else if n == -2147483648 {
            Some(Encryption::IhvStart)
        } else if n == -1 {
            Some(Encryption::IhvEnd)
        } else {
            None
        }
    }

    /// Reads a number of the wireless service; `None` for a number it does not define.
    pub fn from_i32(n: i32) -> (value: Option<Encryption>)
        ensures
            value == Encryption::numbered(n),
    {
        if n == 0 {
            Some(Encryption::NoEncryption)
        } else if n == 1 {
            Some(Encryption::Wep40)
        } else if n == 2 {
            Some(Encryption::Tkip)
        } else if n == 4 {
            Some(Encryption::Ccmp)
        } else if n == 5 {
            Some(Encryption::Wep104)
        } else if n == 6 {
            Some(Encryption::Bip)
        } else if n == 8 {
            Some(Encryption::Gcmp)
        } else if n == 9 {
            Some(Encryption::Gcmp256)
        } else if n == 10 {
            Some(Encryption::Ccmp256)
        } else if n == 11 {
            Some(Encryption::BipGmac128)
        } else if n == 12 {
            Some(Encryption::BipGmac256)
        } else if n == 13 {
            Some(Encryption::BipCmac256)
        } else if n == 256 {
            Some(Encryption::WpaUseGroup)
        } else if n == 257 {
            Some(Encryption::Wep)
        } else if n == -2147483648 {
            Some(Encryption::IhvStart)
        } else if n == -1 {
            Some(Encryption::IhvEnd)
        } else {
            None
        }
    }
}

impl Encryption {
    /// Reads the cipher algorithm that the service reports.
    pub fn from_dot11_cipher_algorithm(cipher: i32) -> (value: Encryption)
        requires
            Encryption::numbered(cipher) is Some,
        ensures
            Encryption::numbered(cipher) == Some(value),
    {
        match Encryption::from_i32(cipher) {
            Some(value) => value,
            None => Encryption::NoEncryption,
        }
    }
}

} // verus!
