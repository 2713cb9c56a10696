//! Connection profiles, in the form in which the service stores them.

use crate::util::hex::{encode_upper, upper_hex};
use crate::util::text::same;
use crate::win::wlan::network;
use crate::win::wlan::network::profile::Profile;
use crate::win::wlan::network::Bss;
use vstd::prelude::*;
use vstd::string::*;
use vstd::utf8::encode_utf8;

verus! {

/// The name space of the profile document.
pub const XMLNS_PROFILE_V1: &'static str = "http://www.microsoft.com/networking/WLAN/profile/v1";

/// The name space of the part on hardware address randomisation.
pub const XMLNS_PROFILE_V3: &'static str = "http://www.microsoft.com/networking/WLAN/profile/v3";

/// How stations prove themselves, as a profile states it.
#[derive(Debug, Clone, Copy, PartialEq, Eq, Structural)]
pub enum Authentication {
    /// The network has no password.
    Open,
    Shared,
    WPA,
    WPAPSK,
    WPA2,
    /// A personal network of the second generation.
    WPA2PSK,
    WPA3,
    WPA3ENT192,
    WPA3ENT,
    /// A personal network of the third generation.
    WPA3SAE,
    OWE,
}

impl Authentication {
    /// The form in which a profile states the authentication that a network
    /// announces, for those that have one.
    pub open spec fn of_network_auth(auth: network::Authentication) -> Option<Authentication> {
        match auth {
            network::Authentication::Open => Some(Authentication::Open),
            network::Authentication::WpaPsk => Some(Authentication::WPAPSK),
            network::Authentication::RsnaPsk => Some(Authentication::WPA2PSK),
            network::Authentication::Wpa3Sae => Some(Authentication::WPA3SAE),
            _ => None,
        }
    }

    /// States the authentication that a network announces.
    pub fn from_network_auth(auth: network::Authentication) -> (stated: Authentication)
        requires
            Authentication::of_network_auth(auth) is Some,
        ensures
            Some(stated) == Authentication::of_network_auth(auth),
    {
        match auth {
            network::Authentication::Open => Authentication::Open,
            network::Authentication::WpaPsk => Authentication::WPAPSK,
            network::Authentication::RsnaPsk => Authentication::WPA2PSK,
            _ => Authentication::WPA3SAE,
        }
    }
}

/// How frames are enciphered, as a profile states it.
#[derive(Debug, Clone, Copy, PartialEq, Eq, Structural)]
pub enum Encryption {
    /// Frames are sent in the clear.
    NoEncryption,
    /// The oldest cipher, used with `Authentication::Open`.
    WEP,
    TKIP,
    AES,
    GCMP256,
}

impl Encryption {
    /// The form in which a profile states the cipher that a network
    /// announces, for those that have one.
    pub open spec fn of_network_cipher(cipher: network::Encryption) -> Option<Encryption> {
        match cipher {
            network::Encryption::NoEncryption => Some(Encryption::NoEncryption),
            network::Encryption::Ccmp => Some(Encryption::AES),
            network::Encryption::Wep => Some(Encryption::WEP),
            _ => None,
        }
    }

    /// States the cipher that a network announces.
    pub fn from_network_cipher(cipher: network::Encryption) -> (stated: Encryption)
        requires
            Encryption::of_network_cipher(cipher) is Some,
        ensures
            Some(stated) == Encryption::of_network_cipher(cipher),
    {
        match cipher {
            network::Encryption::NoEncryption => Encryption::NoEncryption,
            network::Encryption::Ccmp => Encryption::AES,
            _ => Encryption::WEP,
        }
    }
}

/// What kind of secret a key is.
#[derive(Debug, Clone, Copy, PartialEq, Eq, Structural)]
pub enum KeyType {
    NetworkKey,
    PassPhrase,
}

/// The kind of service set that a profile is for.
#[derive(Debug, Clone, Copy, PartialEq, Eq, Structural)]
pub enum ConnectionType {
    /// Stations among themselves.
    IBSS,
    /// Stations around an access point.
    ESS,
}

impl ConnectionType {
    /// The form in which a profile states a kind of service set, for the two
    /// kinds that a profile can be for.
    pub open spec fn of_bss(bss: Bss) -> Option<ConnectionType> {
        match bss {
            Bss::Infrastructure => Some(ConnectionType::ESS),
            Bss::Independent => Some(ConnectionType::IBSS),
            Bss::Any => None,
        }
    }

    /// States the kind of service set that the service reports by number.
    pub fn from_dot11_bss_type(bss: i32) -> (stated: ConnectionType)
        requires
            Bss::numbered(bss) matches Some(kind) && ConnectionType::of_bss(kind) is Some,
        ensures
            Some(stated) == ConnectionType::of_bss(Bss::numbered(bss).unwrap()),
    {
        if bss == 1 {
            ConnectionType::ESS
        } else {
            ConnectionType::IBSS
        }
    }

    /// States a kind of service set.
    pub fn from_bss(bss: Bss) -> (stated: ConnectionType)
        requires
            ConnectionType::of_bss(bss) is Some,
        ensures
            Some(stated) == ConnectionType::of_bss(bss),
    {
        match bss {
            Bss::Infrastructure => ConnectionType::ESS,
            _ => ConnectionType::IBSS,
        }
    }
}

/// Who starts connecting: the service by itself, or the user.
#[derive(Debug, Clone, Copy, PartialEq, Eq, Structural)]
pub enum ConnectionMode {
    Auto,
    Manual,
}

impl Default for ConnectionMode {
    fn default() -> (mode: Self)
        ensures
            mode == ConnectionMode::Manual,
    {
        ConnectionMode::Manual
    }
}

impl Authentication {
    /// The word for this value in a profile document.
    pub open spec fn word(self) -> Seq<char> {
        match self {
            Authentication::Open => "open"@,
            Authentication::Shared => "shared"@,
            Authentication::WPA => "WPA"@,
            Authentication::WPAPSK => "WPAPSK"@,
            Authentication::WPA2 => "WPA2"@,
            Authentication::WPA2PSK => "WPA2PSK"@,
            Authentication::WPA3 => "WPA3"@,
            Authentication::WPA3ENT192 => "WPA3ENT192"@,
            Authentication::WPA3ENT => "WPA3ENT"@,
            Authentication::WPA3SAE => "WPA3SAE"@,
            Authentication::OWE => "OWE"@,
        }
    }

    /// The value that a word of a profile document stands for, if it stands for one.
    pub open spec fn worded(word: Seq<char>) -> Option<Authentication> {
        if word == "open"@ {
            Some(Authentication::Open)
        } else if word == "shared"@ {
            Some(Authentication::Shared)
        } else if word == "WPA"@ {
            Some(Authentication::WPA)
        } else if word == "WPAPSK"@ {
            Some(Authentication::WPAPSK)
        } else if word == "WPA2"@ {
            Some(Authentication::WPA2)
        } else if word == "WPA2PSK"@ {
            Some(Authentication::WPA2PSK)
        } else if word == "WPA3"@ {
            Some(Authentication::WPA3)
        } else if word == "WPA3ENT192"@ {
            Some(Authentication::WPA3ENT192)
        } else if word == "WPA3ENT"@ {
            Some(Authentication::WPA3ENT)
        } else if word == "WPA3SAE"@ {
            Some(Authentication::WPA3SAE)
        } else if word == "OWE"@ {
            Some(Authentication::OWE)
        } else {
            None
        }
    }

    /// The word for this value in a profile document.
    pub fn to_str(&self) -> (word: &'static str)
        ensures
            word@ == self.word(),
    {
        match self {
            Authentication::Open => "open",
            Authentication::Shared => "shared",
            Authentication::WPA => "WPA",
            Authentication::WPAPSK => "WPAPSK",
            Authentication::WPA2 => "WPA2",
            Authentication::WPA2PSK => "WPA2PSK",
            Authentication::WPA3 => "WPA3",
            Authentication::WPA3ENT192 => "WPA3ENT192",
            Authentication::WPA3ENT => "WPA3ENT",
            Authentication::WPA3SAE => "WPA3SAE",
            Authentication::OWE => "OWE",
        }
    }

    /// Reads a word of a profile document.
    pub fn from_word(word: &str) -> (value: Option<Authentication>)
        ensures
            value == Authentication::worded(word@),
    {
        if same(word, "open") {
            Some(Authentication::Open)
        } else if same(word, "shared") {
            Some(Authentication::Shared)
        } else if same(word, "WPA") {
            Some(Authentication::WPA)
        } else if same(word, "WPAPSK") {
            Some(Authentication::WPAPSK)
        } else if same(word, "WPA2") {
            Some(Authentication::WPA2)
        } else if same(word, "WPA2PSK") {
            Some(Authentication::WPA2PSK)
        } else if same(word, "WPA3") {
            Some(Authentication::WPA3)
        } else if same(word, "WPA3ENT192") {
            Some(Authentication::WPA3ENT192)
        } else if same(word, "WPA3ENT") {
            Some(Authentication::WPA3ENT)
        } else if same(word, "WPA3SAE") {
            Some(Authentication::WPA3SAE)
        } else if same(word, "OWE") {
            Some(Authentication::OWE)
        } else {
            None
        }
    }
}

impl Encryption {
    /// The word for this value in a profile document.
    pub open spec fn word(self) -> Seq<char> {
        match self {
            Encryption::NoEncryption => "none"@,
            Encryption::WEP => "WEP"@,
            Encryption::TKIP => "TKIP"@,
            Encryption::AES => "AES"@,
            Encryption::GCMP256 => "GCMP256"@,
        }
    }

    /// The value that a word of a profile document stands for, if it stands for one.
    pub open spec fn worded(word: Seq<char>) -> Option<Encryption> {
        if word == "none"@ {
            Some(Encryption::NoEncryption)
        } else if word == "WEP"@ {
            Some(Encryption::WEP)
        } else if word == "TKIP"@ {
            Some(Encryption::TKIP)
        } else if word == "AES"@ {
            Some(Encryption::AES)
        } else if word == "GCMP256"@ {
            Some(Encryption::GCMP256)
        } else {
            None
        }
    }

    /// The word for this value in a profile document.
    pub fn to_str(&self) -> (word: &'static str)
        ensures
            word@ == self.word(),
    {
        match self {
            Encryption::NoEncryption => "none",
            Encryption::WEP => "WEP",
            Encryption::TKIP => "TKIP",
            Encryption::AES => "AES",
            Encryption::GCMP256 => "GCMP256",
        }
    }

    /// Reads a word of a profile document.
    pub fn from_word(word: &str) -> (value: Option<Encryption>)
        ensures
            value == Encryption::worded(word@),
    {
        if same(word, "none") {
            Some(Encryption::NoEncryption)
        } else if same(word, "WEP") {
            Some(Encryption::WEP)
        } else if same(word, "TKIP") {
            Some(Encryption::TKIP)
        } else if same(word, "AES") {
            Some(Encryption::AES)
        } else if same(word, "GCMP256") {
            Some(Encryption::GCMP256)
        } else {
            None
        }
    }
}

impl KeyType {
    /// The word for this value in a profile document.
    pub open spec fn word(self) -> Seq<char> {
        match self {
            KeyType::NetworkKey => "networkKey"@,
            KeyType::PassPhrase => "passPhrase"@,
        }
    }

    /// The value that a word of a profile document stands for, if it stands for one.
    pub open spec fn worded(word: Seq<char>) -> Option<KeyType> {
        if word == "networkKey"@ {
            Some(KeyType::NetworkKey)
        } else if word == "passPhrase"@ {
            Some(KeyType::PassPhrase)
        } else {
            None
        }
    }

    /// The word for this value in a profile document.
    pub fn to_str(&self) -> (word: &'static str)
        ensures
            word@ == self.word(),
    {
        match self {
            KeyType::NetworkKey => "networkKey",
            KeyType::PassPhrase => "passPhrase",
        }
    }

    /// Reads a word of a profile document.
    pub fn from_word(word: &str) -> (value: Option<KeyType>)
        ensures
            value == KeyType::worded(word@),
    {
        if same(word, "networkKey") {
            Some(KeyType::NetworkKey)
        } else if same(word, "passPhrase") {
            Some(KeyType::PassPhrase)
        } else {
            None
        }
    }
}

impl ConnectionType {
    /// The word for this value in a profile document.
    pub open spec fn word(self) -> Seq<char> {
        match self {
            ConnectionType::IBSS => "IBSS"@,
            ConnectionType::ESS => "ESS"@,
        }
    }

    /// The value that a word of a profile document stands for, if it stands for one.
    pub open spec fn worded(word: Seq<char>) -> Option<ConnectionType> {
        if word == "IBSS"@ {
            Some(ConnectionType::IBSS)
        } else if word == "ESS"@ {
            Some(ConnectionType::ESS)
        } else {
            None
        }
    }

    /// The word for this value in a profile document.
    pub fn to_str(&self) -> (word: &'static str)
        ensures
            word@ == self.word(),
    {
        match self {
            ConnectionType::IBSS => "IBSS",
            ConnectionType::ESS => "ESS",
        }
    }

    /// Reads a word of a profile document.
    pub fn from_word(word: &str) -> (value: Option<ConnectionType>)
        ensures
            value == ConnectionType::worded(word@),
    {
        if same(word, "IBSS") {
            Some(ConnectionType::IBSS)
        } else if same(word, "ESS") {
            Some(ConnectionType::ESS)
        } else {
            None
        }
    }
}

impl ConnectionMode {
    /// The word for this value in a profile document.
    pub open spec fn word(self) -> Seq<char> {
        match self {
            ConnectionMode::Auto => "auto"@,
            ConnectionMode::Manual => "manual"@,
        }
    }

    /// The value that a word of a profile document stands for, if it stands for one.
    pub open spec fn worded(word: Seq<char>) -> Option<ConnectionMode> {
        if word == "auto"@ {
            Some(ConnectionMode::Auto)
        } else if word == "manual"@ {
            Some(ConnectionMode::Manual)
        } else {
            None
        }
    }

    /// The word for this value in a profile document.
    pub fn to_str(&self) -> (word: &'static str)
        ensures
            word@ == self.word(),
    {
        match self {
            ConnectionMode::Auto => "auto",
            ConnectionMode::Manual => "manual",
        }
    }

    /// Reads a word of a profile document.
    pub fn from_word(word: &str) -> (value: Option<ConnectionMode>)
        ensures
            value == ConnectionMode::worded(word@),
    {
        if same(word, "auto") {
            Some(ConnectionMode::Auto)
        } else if same(word, "manual") {
            Some(ConnectionMode::Manual)
        } else {
            None
        }
    }
}
/// The part of a profile on hardware address randomisation.
#[derive(Debug, Clone, PartialEq, Eq)]
pub struct MacRandomization {
    pub xmlns: String,
    pub enable_randomization: bool,
}

impl Default for MacRandomization {
    fn default() -> (part: Self)
        ensures
            part.xmlns@ == XMLNS_PROFILE_V3@,
            !part.enable_randomization,
    {
        MacRandomization { xmlns: XMLNS_PROFILE_V3.to_owned(), enable_randomization: false }
    }
}

/// The secret of a profile.
#[derive(Debug, Clone, PartialEq, Eq)]
pub struct SharedKey {
    pub key_type: KeyType,
    pub protected: bool,
    pub key_material: String,
}

/// Authentication and cipher together.
#[derive(Debug, Clone, Copy, PartialEq, Eq, Structural)]
pub struct AuthEncryption {
    pub authentication: Authentication,
    pub encryption: Encryption,
    pub use_one_x: bool,
}

impl AuthEncryption {
    /// What a personal network of the second generation uses.
    pub fn wpa2psk_aes() -> (pair: AuthEncryption)
        ensures
            pair == (AuthEncryption {
                authentication: Authentication::WPA2PSK,
                encryption: Encryption::AES,
                use_one_x: false,
            }),
    {
        AuthEncryption {
            authentication: Authentication::WPA2PSK,
            encryption: Encryption::AES,
            use_one_x: false,
        }
    }
}

/// The security part of a profile.
#[derive(Debug, Clone, PartialEq, Eq)]
pub struct Security {
    pub auth_encryption: AuthEncryption,
    pub shared_key: Option<SharedKey>,
}

/// The part of a profile that the media-specific module reads.
#[derive(Debug, Clone, PartialEq, Eq)]
pub struct MSM {
    pub security: Security,
}

/// The name of a network, as text and as the hexadecimal of its bytes.
#[derive(Debug, Clone, PartialEq, Eq)]
pub struct SSID {
    pub hex: String,
    pub name: String,
}

impl SSID {
    /// The name together with the upper-case hexadecimal of its bytes.
    pub fn from_string(string: String) -> (ssid: SSID)
        ensures
            ssid.name == string,
            ssid.hex@ == upper_hex(encode_utf8(string@)),
    {
        SSID { hex: encode_upper(string.as_str()), name: string }
    }
}

/// The part of a profile that names the network.
#[derive(Debug, Clone, PartialEq, Eq)]
pub struct SSIDConfig {
    pub ssid: SSID,
}

impl SSIDConfig {
    /// The part that names the network `string`.
    pub fn from_string(string: String) -> (config: SSIDConfig)
        ensures
            config.ssid.name == string,
            config.ssid.hex@ == upper_hex(encode_utf8(string@)),
    {
        SSIDConfig { ssid: SSID::from_string(string) }
    }
}

/// A profile in the form in which the service stores it.
#[derive(Debug, Clone, PartialEq, Eq)]
pub struct WLANProfile {
    pub xmlns: String,
    pub name: String,
    pub ssid_config: SSIDConfig,
    pub connection_type: ConnectionType,
    pub connection_mode: ConnectionMode,
    pub auto_switch: Option<bool>,
    pub msm: MSM,
    pub mac_randomization: MacRandomization,
}

impl WLANProfile {
    /// The stored form says what `friendly` says, field by field, under the
    /// two name spaces of the profile document, with the hexadecimal of the
    /// network's name beside the name, and without port-based authentication.
    pub open spec fn writes(&self, friendly: Profile) -> bool {
        &&& self.xmlns@ == XMLNS_PROFILE_V1@
        &&& self.name == friendly.name
        &&& self.ssid_config.ssid.hex@ == upper_hex(encode_utf8(friendly.ssid@))
        &&& self.ssid_config.ssid.name == friendly.ssid
        &&& self.connection_type == friendly.connection.kind
        &&& self.connection_mode == friendly.connection.mode
        &&& self.auto_switch == friendly.auto_switch
        &&& self.msm.security.auth_encryption == (AuthEncryption {
            authentication: friendly.security.auth,
            encryption: friendly.security.cipher,
            use_one_x: false,
        })
        &&& match friendly.security.key {
            Some(key) => self.msm.security.shared_key matches Some(shared) && shared.key_type
                == key.kind && shared.protected == key.is_encrypted && shared.key_material
                == key.content,
            None => self.msm.security.shared_key is None,
        }
        &&& self.mac_randomization.xmlns@ == XMLNS_PROFILE_V3@
        &&& self.mac_randomization.enable_randomization == friendly.mac.randomization
    }

    /// Reads the stored form.
    pub fn to_friendly(self) -> (friendly: Profile)
        ensures
            friendly.reads(self),
    {
        Profile::from_raw(self)
    }

    /// Writes `friendly` in the stored form.
    pub fn from_friendly(friendly: Profile) -> (raw: WLANProfile)
        ensures
            raw.writes(friendly),
    {
        WLANProfile {
            xmlns: XMLNS_PROFILE_V1.to_owned(),
            name: friendly.name,
            ssid_config: SSIDConfig {
                ssid: SSID { hex: encode_upper(friendly.ssid.as_str()), name: friendly.ssid },
            },
            connection_type: friendly.connection.kind,
            connection_mode: friendly.connection.mode,
            auto_switch: friendly.auto_switch,
            msm: MSM {
                security: Security {
                    auth_encryption: AuthEncryption {
                        authentication: friendly.security.auth,
                        encryption: friendly.security.cipher,
                        use_one_x: false,
                    },
                    shared_key: match friendly.security.key {
                        Some(key) => Some(
                            SharedKey {
                                key_type: key.kind,
                                protected: key.is_encrypted,
                                key_material: key.content,
                            },
                        ),
                        None => None,
                    },
                },
            },
            mac_randomization: MacRandomization {
                xmlns: XMLNS_PROFILE_V3.to_owned(),
                enable_randomization: friendly.mac.randomization,
            },
        }
    }
}

} // verus!
