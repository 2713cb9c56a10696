//! Networks that an adapter can hear.

pub mod bss;
pub mod phy;
pub mod profile;
pub mod security;

pub use bss::Bss;
pub use profile::Profile;
pub use security::{Authentication, Encryption, Security};

use vstd::prelude::*;

verus! {

/// Why a network cannot be joined.
#[derive(Debug, Clone, Copy, PartialEq, Eq, Structural)]
pub enum UnconnectableReason {
    /// The service gave no reason that the supervisor knows.
    Unknown,
}

/// The fields of the service's record of a network in range, as plain values:
/// the texts decoded, the enumerations still as numbers.
#[derive(Debug, Clone, PartialEq, Eq)]
pub struct AvailableNetwork {
    pub profile_name: String,
    pub ssid: String,
    pub bss_type: i32,
    pub number_of_bssids: u32,
    pub connectable: bool,
    pub phy_types: Vec<i32>,
    pub signal_quality: u32,
    pub security_enabled: bool,
    pub auth_algorithm: i32,
    pub cipher_algorithm: i32,
}

impl AvailableNetwork {
    /// Every number of the record is one that the supervisor can read.
    pub open spec fn readable(&self) -> bool {
        &&& Bss::numbered(self.bss_type) is Some
        &&& Authentication::numbered(self.auth_algorithm) is Some
        &&& Encryption::numbered(self.cipher_algorithm) is Some
        &&& forall|i: int|
            0 <= i < self.phy_types@.len() ==> phy::Type::numbered(#[trigger] self.phy_types@[i]) is Some
    }

    /// Tells whether every number of the record is one that the supervisor can read.
    pub fn is_readable(&self) -> (yes: bool)
        ensures
            yes == self.readable(),
    {
        if Bss::from_i32(self.bss_type).is_none() || Authentication::from_i32(
            self.auth_algorithm,
        ).is_none() || Encryption::from_i32(self.cipher_algorithm).is_none() {
            return false;
        }
        let mut i: usize = 0;
        while i < self.phy_types.len()
            invariant
                i <= self.phy_types@.len(),
                forall|j: int|
                    0 <= j < i ==> phy::Type::numbered(#[trigger] self.phy_types@[j]) is Some,
            decreases self.phy_types@.len() - i,
        {
            if phy::Type::from_i32(self.phy_types[i]).is_none() {
                return false;
            }
            i = i + 1;
        }
        true
    }
}

/// A network in range of an adapter. Networks are told apart by their SSID.
#[derive(Debug, PartialEq, Eq)]
pub struct Network {
    /// The name of the stored profile for this network, if the service names one.
    pub profile: Option<String>,
    pub ssid: String,
    pub bss: Bss,
    pub bssids: u32,
    pub connectable: bool,
    pub unconnectable_reason: Option<UnconnectableReason>,
    pub phys: Vec<phy::Type>,
    pub signal_quality: u32,
    pub security: Security,
}

/// What a network is, apart from how its texts and lists are stored.
pub struct NetworkView {
    pub profile: Option<Seq<char>>,
    pub ssid: Seq<char>,
    pub bss: Bss,
    pub bssids: u32,
    pub connectable: bool,
    pub unconnectable_reason: Option<UnconnectableReason>,
    pub phys: Seq<phy::Type>,
    pub signal_quality: u32,
    pub security: Security,
}

impl View for Network {
    type V = NetworkView;

    open spec fn view(&self) -> NetworkView {
        NetworkView {
            profile: match self.profile {
                Some(profile) => Some(profile@),
                None => None,
            },
            ssid: self.ssid@,
            bss: self.bss,
            bssids: self.bssids,
            connectable: self.connectable,
            unconnectable_reason: self.unconnectable_reason,
            phys: self.phys@,
            signal_quality: self.signal_quality,
            security: self.security,
        }
    }
}

impl Clone for Network {
    fn clone(&self) -> (copy: Self)
        ensures
            copy@ == self@,
    {
        let phys = self.phys.clone();
        assert(phys@ =~= self.phys@);
        Network {
            profile: match &self.profile {
                Some(profile) => Some(profile.clone()),
                None => None,
            },
            ssid: self.ssid.clone(),
            bss: self.bss,
            bssids: self.bssids,
            connectable: self.connectable,
            unconnectable_reason: self.unconnectable_reason,
            phys,
            signal_quality: self.signal_quality,
            security: self.security,
        }
    }
}

/// The physical layers numbered by `numbers`, in order.
pub open spec fn phys_numbered(numbers: Seq<i32>) -> Seq<phy::Type> {
    Seq::new(numbers.len(), |i: int| phy::Type::numbered(numbers[i]).unwrap())
}

impl Network {
    /// The network is what the record `network` says: it has a profile name
    /// exactly when the record's is not empty, and a reason for being
    /// unconnectable exactly when it is not connectable.
    pub open spec fn reads(&self, network: AvailableNetwork) -> bool {
        &&& self.profile == if network.profile_name@.len() == 0 {
            None
        } else {
            Some(network.profile_name)
        }
        &&& self.ssid == network.ssid
        &&& Some(self.bss) == Bss::numbered(network.bss_type)
        &&& self.bssids == network.number_of_bssids
        &&& self.connectable == network.connectable
        &&& self.unconnectable_reason == if network.connectable {
            None
        } else {
            Some(UnconnectableReason::Unknown)
        }
        &&& self.phys@ == phys_numbered(network.phy_types@)
        &&& self.signal_quality == network.signal_quality
        &&& self.security.enabled == network.security_enabled
        &&& Some(self.security.auth) == Authentication::numbered(network.auth_algorithm)
        &&& Some(self.security.cipher) == Encryption::numbered(network.cipher_algorithm)
    }

    fn read(network: &AvailableNetwork) -> (read: Network)
        requires
            network.readable(),
        ensures
            read.reads(*network),
    {
        let mut phys: Vec<phy::Type> = Vec::new();
        let mut i: usize = 0;
        while i < network.phy_types.len()
            invariant
                i <= network.phy_types@.len(),
                network.readable(),
                phys@ == phys_numbered(network.phy_types@.take(i as int)),
            decreases network.phy_types@.len() - i,
        {
            phys.push(phy::Type::from_dot11_phy_type(network.phy_types[i]));
            assert(phys@ =~= phys_numbered(network.phy_types@.take(i + 1)));
            i = i + 1;
        }
        assert(network.phy_types@.take(i as int) =~= network.phy_types@);
        let profile = if network.profile_name.as_str().is_empty() {
            None
        } else {
            Some(network.profile_name.clone())
        };
        Network {
            profile,
            ssid: network.ssid.clone(),
            bss: Bss::from_dot11_bss_type(network.bss_type),
            bssids: network.number_of_bssids,
            connectable: network.connectable,
            unconnectable_reason: if network.connectable {
                None
            } else {
                Some(UnconnectableReason::Unknown)
            },
            phys,
            signal_quality: network.signal_quality,
            security: Security {
                enabled: network.security_enabled,
                auth: Authentication::from_dot11_auth_algorithm(network.auth_algorithm),
                cipher: Encryption::from_dot11_cipher_algorithm(network.cipher_algorithm),
            },
        }
    }

    /// Reads the service's record of a network in range.
    pub fn from_wlan_available_network(network: AvailableNetwork) -> (read: Network)
        requires
            network.readable(),
        ensures
            read.reads(network),
    {
        Network::read(&network)
    }

    /// Reads the service's records of the networks in range, in order.
    pub fn from_wlan_available_network_list(networks: &[AvailableNetwork]) -> (read: Vec<Network>)
        requires
            forall|i: int| 0 <= i < networks@.len() ==> (#[trigger] networks@[i]).readable(),
        ensures
            read@.len() == networks@.len(),
            forall|i: int| 0 <= i < read@.len() ==> (#[trigger] read@[i]).reads(networks@[i]),
    {
        let mut read: Vec<Network> = Vec::new();
        let mut i: usize = 0;
        while i < networks.len()
            invariant
                i <= networks@.len(),
                read@.len() == i,
                forall|j: int| 0 <= j < networks@.len() ==> (#[trigger] networks@[j]).readable(),
                forall|j: int| 0 <= j < i ==> (#[trigger] read@[j]).reads(networks@[j]),
            decreases networks@.len() - i,
        {
            read.push(Network::read(&networks[i]));
            i = i + 1;
        }
        read
    }
}

} // verus!
