//! The user's configuration: what to ping, which adapters to prefer, which networks to join.

use vstd::prelude::*;

verus! {

/// A network that the supervisor may join.
#[derive(Debug, PartialEq, Eq)]
pub struct WiFiNetwork {
    pub ssid: String,
    pub password: Option<String>,
}

impl Clone for WiFiNetwork {
    fn clone(&self) -> (copy: Self)
        ensures
            copy == *self,
    {
        WiFiNetwork {
            ssid: self.ssid.clone(),
            password: match &self.password {
                Some(password) => Some(password.clone()),
                None => None,
            },
        }
    }
}

/// How often to scan for networks.
#[derive(Debug, Clone, Copy, PartialEq, Eq, Structural)]
pub struct WiFiScan {
    pub interval_ms: u64,
}

impl Default for WiFiScan {
    fn default() -> (scan: Self)
        ensures
            scan.interval_ms == 30000,
    {
        WiFiScan { interval_ms: 30000 }
    }
}

/// How to rank the networks that can be joined.
#[derive(Debug, Clone, Copy, PartialEq, Eq, Structural)]
pub enum WiFiPriority {
    /// In the order of the configuration.
    List,
    /// Strongest signal first.
    SignalStrength,
}

/// What is wrong with the Wi-Fi section.
#[derive(Debug, Clone, Copy, PartialEq, Eq, Structural)]
pub enum WiFiInvalidReason {
    /// No network is listed.
    NoNetworks,
}

/// The Wi-Fi section: the networks that may be joined.
#[derive(Debug, Clone, PartialEq, Eq)]
pub struct WiFi {
    pub networks: Vec<WiFiNetwork>,
    pub priority: WiFiPriority,
    pub scan: WiFiScan,
}

impl WiFi {
    /// The section lists at least one network.
    pub open spec fn valid(&self) -> bool {
        self.networks@.len() > 0
    }

    /// Checks the section, and says everything that is wrong with it.
    pub fn is_valid(&self) -> (checked: Result<(), Vec<WiFiInvalidReason>>)
        ensures
            checked is Ok <==> self.valid(),
            checked matches Err(reasons) ==> reasons@ == seq![WiFiInvalidReason::NoNetworks],
    {
        let mut reasons: Vec<WiFiInvalidReason> = Vec::new();
        if self.networks.is_empty() {
            reasons.push(WiFiInvalidReason::NoNetworks);
        }
        if reasons.is_empty() {
            Ok(())
        } else {
            assert(reasons@ =~= seq![WiFiInvalidReason::NoNetworks]);
            Err(reasons)
        }
    }
}

impl Default for WiFi {
    fn default() -> (wifi: Self)
        ensures
            wifi.networks@.len() == 0,
            wifi.priority == WiFiPriority::SignalStrength,
            wifi.scan.interval_ms == 30000,
    {
        WiFi {
            networks: Vec::new(),
            priority: WiFiPriority::SignalStrength,
            scan: WiFiScan::default(),
        }
    }
}

/// The adapters section: textual identifiers of adapters, most preferred first.
#[derive(Debug, Clone, PartialEq, Eq)]
pub struct Interfaces {
    pub priority: Vec<String>,
}

impl Default for Interfaces {
    fn default() -> (interfaces: Self)
        ensures
            interfaces.priority@.len() == 0,
    {
        Interfaces { priority: Vec::new() }
    }
}

/// Which of a host name's addresses to ping.
#[derive(Debug, Clone, Copy, PartialEq, Eq, Structural)]
pub enum DomainsMode {
    /// Only the first address that the resolver gives.
    FirstIpFromEach,
    /// Every address that the resolver gives.
    AllIpsFromEach,
}

/// The host names to ping.
#[derive(Debug, Clone, PartialEq, Eq)]
pub struct Domains {
    pub list: Vec<String>,
    pub mode: DomainsMode,
}

/// The ping section.
#[derive(Debug, Clone, PartialEq, Eq)]
pub struct Ping {
    pub domains: Domains,
    pub timeout_ms: u32,
    pub interval_ms: u64,
    pub max_errors: u32,
}

impl Default for Ping {
    fn default() -> (ping: Self)
        ensures
            ping.domains.list@.len() == 3,
            ping.domains.list@[0]@ == "google.com"@,
            ping.domains.list@[1]@ == "amazon.com"@,
            ping.domains.list@[2]@ == "microsoft.com"@,
            ping.domains.mode == DomainsMode::FirstIpFromEach,
            ping.timeout_ms == 1500,
            ping.interval_ms == 1000,
            ping.max_errors == 3,
    {
        let mut list: Vec<String> = Vec::new();
        list.push("google.com".to_owned());
        list.push("amazon.com".to_owned());
        list.push("microsoft.com".to_owned());
        Ping {
            domains: Domains { list, mode: DomainsMode::FirstIpFromEach },
            timeout_ms: 1500,
            interval_ms: 1000,
            max_errors: 3,
        }
    }
}

/// What is wrong with a configuration, section by section.
#[derive(Debug, Clone, PartialEq, Eq)]
pub enum ConfigInvalidReason {
    /// The Wi-Fi section is wrong, for these reasons.
    WiFi(Vec<WiFiInvalidReason>),
}

/// Everything that is wrong with a configuration.
#[derive(Debug, Clone, PartialEq, Eq)]
pub struct ConfigInvalidReasons {
    pub reasons: Vec<ConfigInvalidReason>,
}

/// The whole configuration.
#[derive(Debug, Clone, PartialEq, Eq)]
pub struct Config {
    pub ping: Ping,
    pub interfaces: Interfaces,
    pub wifi: WiFi,
}

impl Config {
    /// Every section is valid.
    pub open spec fn valid(&self) -> bool {
        self.wifi.valid()
    }

    /// Checks every section, and says everything that is wrong.
    pub fn is_valid(&self) -> (checked: Result<(), ConfigInvalidReasons>)
        ensures
            checked is Ok <==> self.valid(),
            checked matches Err(found) ==> {
                &&& found.reasons@.len() == 1
                &&& found.reasons@[0] matches ConfigInvalidReason::WiFi(wifi)
                &&& wifi@ == seq![WiFiInvalidReason::NoNetworks]
            },
    {
        let mut reasons: Vec<ConfigInvalidReason> = Vec::new();
        if let Err(wifi_reasons) = self.wifi.is_valid() {
            reasons.push(ConfigInvalidReason::WiFi(wifi_reasons));
        }
        if reasons.is_empty() {
            Ok(())
        } else {
            Err(ConfigInvalidReasons { reasons })
        }
    }
}

impl Default for Config {
    fn default() -> (config: Self)
        ensures
            config.ping.domains.list@.len() == 3,
            config.ping.domains.list@[0]@ == "google.com"@,
            config.ping.domains.list@[1]@ == "amazon.com"@,
            config.ping.domains.list@[2]@ == "microsoft.com"@,
            config.ping.domains.mode == DomainsMode::FirstIpFromEach,
            config.ping.timeout_ms == 1500,
            config.ping.interval_ms == 1000,
            config.ping.max_errors == 3,
            config.interfaces.priority@.len() == 0,
            config.wifi.networks@.len() == 0,
            config.wifi.priority == WiFiPriority::SignalStrength,
            config.wifi.scan.interval_ms == 30000,
            !config.valid(),
    {
        Config { ping: Ping::default(), interfaces: Interfaces::default(), wifi: WiFi::default() }
    }
}

} // verus!
