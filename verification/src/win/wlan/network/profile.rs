//! Connection profiles, as the supervisor thinks of them.

pub mod raw;

use crate::win::wlan::network::{Network, NetworkView};
use vstd::prelude::*;

verus! {

/// Whether the adapter's hardware address is randomised on this network.
#[derive(Debug, Clone, Copy, PartialEq, Eq, Structural)]
pub struct Mac {
    pub randomization: bool,
}

impl Default for Mac {
    fn default() -> (mac: Self)
        ensures
            !mac.randomization,
    {
        Mac { randomization: false }
    }
}

/// What kind of network the profile is for, and who starts connecting.
#[derive(Debug, Clone, Copy, PartialEq, Eq, Structural)]
pub struct Connection {
    pub kind: raw::ConnectionType,
    pub mode: raw::ConnectionMode,
}

/// The secret that opens a network.
#[derive(Debug, Clone, PartialEq, Eq)]
pub struct Key {
    pub kind: raw::KeyType,
    pub is_encrypted: bool,
    pub content: String,
}

/// What a key is, apart from how its text is stored.
pub struct KeyView {
    pub kind: raw::KeyType,
    pub is_encrypted: bool,
    pub content: Seq<char>,
}

impl View for Key {
    type V = KeyView;

    open spec fn view(&self) -> KeyView {
        KeyView { kind: self.kind, is_encrypted: self.is_encrypted, content: self.content@ }
    }
}

/// The key that a pass phrase makes, as the user typed it: not encrypted.
pub open spec fn plain_key(password: Seq<char>) -> KeyView {
    KeyView { kind: raw::KeyType::PassPhrase, is_encrypted: false, content: password }
}

impl Key {
    /// A pass phrase as the user typed it: not encrypted.
    pub fn from_plain(password: &str) -> (key: Key)
        ensures
            key@ == plain_key(password@),
    {
        Key { kind: raw::KeyType::PassPhrase, is_encrypted: false, content: password.to_owned() }
    }
}

/// How the profile authenticates and enciphers, and with what secret.
#[derive(Debug, Clone, PartialEq, Eq)]
pub struct Security {
    pub auth: raw::Authentication,
    pub cipher: raw::Encryption,
    pub key: Option<Key>,
}

/// A stored description of how to join a network.
#[derive(Debug, Clone, PartialEq, Eq)]
pub struct Profile {
    pub name: String,
    pub ssid: String,
    pub connection: Connection,
    pub auto_switch: Option<bool>,
    pub security: Security,
    pub mac: Mac,
}

/// What a profile is, apart from how its texts are stored.
pub struct ProfileView {
    pub name: Seq<char>,
    pub ssid: Seq<char>,
    pub connection: Connection,
    pub auto_switch: Option<bool>,
    pub auth: raw::Authentication,
    pub cipher: raw::Encryption,
    pub key: Option<KeyView>,
    pub mac: Mac,
}

impl View for Profile {
    type V = ProfileView;

    open spec fn view(&self) -> ProfileView {
        ProfileView {
            name: self.name@,
            ssid: self.ssid@,
            connection: self.connection,
            auto_switch: self.auto_switch,
            auth: self.security.auth,
            cipher: self.security.cipher,
            key: match self.security.key {
                Some(key) => Some(key@),
                None => None,
            },
            mac: self.mac,
        }
    }
}

/// The network's kind, authentication and cipher each have a form that a
/// profile can state.
pub open spec fn has_profile_form(network: NetworkView) -> bool {
    &&& raw::ConnectionType::of_bss(network.bss) is Some
    &&& raw::Authentication::of_network_auth(network.security.auth) is Some
    &&& raw::Encryption::of_network_cipher(network.security.cipher) is Some
}

/// The profile that joins `network` with `key`: named after the network,
/// connecting by hand, never switching away by itself, with the network's
/// own protection and no randomised hardware address.
pub open spec fn written_for(network: NetworkView, key: Option<KeyView>) -> ProfileView {
    ProfileView {
        name: network.ssid,
        ssid: network.ssid,
        connection: Connection {
            kind: raw::ConnectionType::of_bss(network.bss).unwrap(),
            mode: raw::ConnectionMode::Manual,
        },
        auto_switch: Some(false),
        auth: raw::Authentication::of_network_auth(network.security.auth).unwrap(),
        cipher: raw::Encryption::of_network_cipher(network.security.cipher).unwrap(),
        key,
        mac: Mac { randomization: false },
    }
}

/// What an optional key is, apart from how its text is stored.
pub open spec fn key_view(key: Option<Key>) -> Option<KeyView> {
    match key {
        Some(key) => Some(key@),
        None => None,
    }
}

impl Network {
    /// Tells whether a profile can be written for this network.
    pub fn profile_supported(&self) -> (yes: bool)
        ensures
            yes == has_profile_form(self@),
    {
        let kind = match self.bss {
            crate::win::wlan::network::Bss::Infrastructure
            | crate::win::wlan::network::Bss::Independent => true,
            _ => false,
        };
        let auth = match self.security.auth {
            crate::win::wlan::network::Authentication::Open
            | crate::win::wlan::network::Authentication::WpaPsk
            | crate::win::wlan::network::Authentication::RsnaPsk
            | crate::win::wlan::network::Authentication::Wpa3Sae => true,
            _ => false,
        };
        let cipher = match self.security.cipher {
            crate::win::wlan::network::Encryption::NoEncryption
            | crate::win::wlan::network::Encryption::Ccmp
            | crate::win::wlan::network::Encryption::Wep => true,
            _ => false,
        };
        kind && auth && cipher
    }

    /// Writes the profile that joins this network with `key`.
    pub fn to_profile(self, key: Option<Key>) -> (profile: Profile)
        requires
            has_profile_form(self@),
        ensures
            profile@ == written_for(self@, key_view(key)),
    {
        Profile::from_network(self, key)
    }
}

impl Profile {
    /// Writes the profile that joins `network` with `key`.
    pub fn from_network(network: Network, key: Option<Key>) -> (profile: Profile)
        requires
            has_profile_form(network@),
        ensures
            profile@ == written_for(network@, key_view(key)),
    {
        Profile {
            name: network.ssid.clone(),
            ssid: network.ssid,
            connection: Connection {
                kind: raw::ConnectionType::from_bss(network.bss),
                mode: raw::ConnectionMode::default(),
            },
            auto_switch: Some(false),
            security: Security {
                auth: raw::Authentication::from_network_auth(network.security.auth),
                cipher: raw::Encryption::from_network_cipher(network.security.cipher),
                key,
            },
            mac: Mac::default(),
        }
    }

    /// The profile says what `raw` says, field by field.
    pub open spec fn reads(&self, raw: raw::WLANProfile) -> bool {
        &&& self.name == raw.name
        &&& self.ssid == raw.ssid_config.ssid.name
        &&& self.connection.kind == raw.connection_type
        &&& self.connection.mode == raw.connection_mode
        &&& self.auto_switch == raw.auto_switch
        &&& self.security.auth == raw.msm.security.auth_encryption.authentication
        &&& self.security.cipher == raw.msm.security.auth_encryption.encryption
        &&& match raw.msm.security.shared_key {
            Some(shared) => self.security.key matches Some(key) && key.kind == shared.key_type
                && key.is_encrypted == shared.protected && key.content == shared.key_material,
            None => self.security.key is None,
        }
        &&& self.mac.randomization == raw.mac_randomization.enable_randomization
    }

    /// Reads a profile from the form in which the service stores it.
    pub fn from_raw(raw: raw::WLANProfile) -> (profile: Profile)
        ensures
            profile.reads(raw),
    {
        Profile {
            name: raw.name,
            ssid: raw.ssid_config.ssid.name,
            connection: Connection { kind: raw.connection_type, mode: raw.connection_mode },
            auto_switch: raw.auto_switch,
            security: Security {
                auth: raw.msm.security.auth_encryption.authentication,
                cipher: raw.msm.security.auth_encryption.encryption,
                key: match raw.msm.security.shared_key {
                    Some(key) => Some(
                        Key {
                            kind: key.key_type,
                            is_encrypted: key.protected,
                            content: key.key_material,
                        },
                    ),
                    None => None,
                },
            },
            mac: Mac { randomization: raw.mac_randomization.enable_randomization },
        }
    }

    /// Writes the profile in the form in which the service stores it.
    pub fn to_raw(self) -> (raw: raw::WLANProfile)
        ensures
            raw.writes(self),
    {
        raw::WLANProfile::from_friendly(self)
    }
}

} // verus!
