use wifu::win::wlan::network::profile::raw::{
    AuthEncryption, Authentication, ConnectionMode, ConnectionType, Encryption, KeyType,
    MacRandomization, SSIDConfig, WLANProfile, MSM, SSID, XMLNS_PROFILE_V1, XMLNS_PROFILE_V3,
};
use wifu::win::wlan::network::profile::{Connection, Key, Mac, Profile, Security};
use wifu::win::wlan::network::{self, AvailableNetwork, Bss, UnconnectableReason};
use wifu::win::wlan::Network;

fn live(ssid: &str, auth: network::Authentication, cipher: network::Encryption) -> Network {
    Network {
        profile: None,
        ssid: ssid.to_string(),
        bss: Bss::Infrastructure,
        bssids: 2,
        connectable: true,
        unconnectable_reason: None,
        phys: vec![network::phy::Type::Ht, network::phy::Type::Vht],
        signal_quality: 99,
        security: network::Security { enabled: true, auth, cipher },
    }
}

fn home() -> Network {
    live("Home", network::Authentication::RsnaPsk, network::Encryption::Ccmp)
}

fn home_profile() -> Profile {
    Profile {
        name: "Home".to_string(),
        ssid: "Home".to_string(),
        connection: Connection { kind: ConnectionType::ESS, mode: ConnectionMode::Manual },
        auto_switch: Some(false),
        security: Security {
            auth: Authentication::WPA2PSK,
            cipher: Encryption::AES,
            key: Some(Key { kind: KeyType::PassPhrase, is_encrypted: false, content: "p".to_string() }),
        },
        mac: Mac { randomization: false },
    }
}

#[test]
fn a_plain_key_is_an_unencrypted_pass_phrase() {
    let key = Key::from_plain("p");
    assert_eq!(key, Key { kind: KeyType::PassPhrase, is_encrypted: false, content: "p".to_string() });
    assert_eq!(Key::from_plain("").content, "");
}

#[test]
fn a_profile_is_written_for_a_network() {
    assert!(home().profile_supported());
    assert_eq!(home().to_profile(Some(Key::from_plain("p"))), home_profile());
    assert_eq!(Profile::from_network(home(), Some(Key::from_plain("p"))), home_profile());
}

#[test]
fn a_profile_for_an_open_network_has_no_key() {
    let cafe = live("Cafe", network::Authentication::Open, network::Encryption::NoEncryption);
    let profile = cafe.to_profile(None);
    assert_eq!(profile.security.auth, Authentication::Open);
    assert_eq!(profile.security.cipher, Encryption::NoEncryption);
    assert_eq!(profile.security.key, None);
    assert_eq!(profile.name, "Cafe");
    assert_eq!(profile.ssid, "Cafe");
}

#[test]
fn an_ad_hoc_network_gets_a_profile_of_its_kind() {
    let mut peer = live("Peer", network::Authentication::WpaPsk, network::Encryption::Wep);
    peer.bss = Bss::Independent;
    let profile = peer.to_profile(None);
    assert_eq!(profile.connection.kind, ConnectionType::IBSS);
    assert_eq!(profile.security.auth, Authentication::WPAPSK);
    assert_eq!(profile.security.cipher, Encryption::WEP);
}

#[test]
fn protection_without_a_profile_form_is_told_apart() {
    assert!(!live("E", network::Authentication::Rsna, network::Encryption::Ccmp).profile_supported());
    assert!(!live("T", network::Authentication::RsnaPsk, network::Encryption::Tkip).profile_supported());
    let mut any = home();
    any.bss = Bss::Any;
    assert!(!any.profile_supported());
    assert!(live("S", network::Authentication::Wpa3Sae, network::Encryption::Ccmp).profile_supported());
}

#[test]
fn the_forms_of_authentication_cipher_and_kind() {
    assert_eq!(Authentication::from_network_auth(network::Authentication::Open), Authentication::Open);
    assert_eq!(Authentication::from_network_auth(network::Authentication::WpaPsk), Authentication::WPAPSK);
    assert_eq!(Authentication::from_network_auth(network::Authentication::RsnaPsk), Authentication::WPA2PSK);
    assert_eq!(Authentication::from_network_auth(network::Authentication::Wpa3Sae), Authentication::WPA3SAE);
    assert_eq!(Encryption::from_network_cipher(network::Encryption::NoEncryption), Encryption::NoEncryption);
    assert_eq!(Encryption::from_network_cipher(network::Encryption::Ccmp), Encryption::AES);
    assert_eq!(Encryption::from_network_cipher(network::Encryption::Wep), Encryption::WEP);
    assert_eq!(ConnectionType::from_bss(Bss::Infrastructure), ConnectionType::ESS);
    assert_eq!(ConnectionType::from_bss(Bss::Independent), ConnectionType::IBSS);
    assert_eq!(ConnectionType::from_dot11_bss_type(1), ConnectionType::ESS);
    assert_eq!(ConnectionType::from_dot11_bss_type(2), ConnectionType::IBSS);
    assert_eq!(ConnectionMode::default(), ConnectionMode::Manual);
}

#[test]
fn the_stored_form_carries_the_hexadecimal_of_the_name() {
    let raw = home_profile().to_raw();
    assert_eq!(raw.xmlns, XMLNS_PROFILE_V1);
    assert_eq!(raw.xmlns, "http://www.microsoft.com/networking/WLAN/profile/v1");
    assert_eq!(raw.name, "Home");
    assert_eq!(raw.ssid_config.ssid.name, "Home");
    assert_eq!(raw.ssid_config.ssid.hex, "486F6D65");
    assert_eq!(raw.connection_type, ConnectionType::ESS);
    assert_eq!(raw.connection_mode, ConnectionMode::Manual);
    assert_eq!(raw.auto_switch, Some(false));
    assert_eq!(raw.msm.security.auth_encryption, AuthEncryption::wpa2psk_aes());
    let shared = raw.msm.security.shared_key.unwrap();
    assert_eq!(shared.key_type, KeyType::PassPhrase);
    assert!(!shared.protected);
    assert_eq!(shared.key_material, "p");
    assert_eq!(raw.mac_randomization.xmlns, XMLNS_PROFILE_V3);
    assert_eq!(raw.mac_randomization.xmlns, "http://www.microsoft.com/networking/WLAN/profile/v3");
    assert!(!raw.mac_randomization.enable_randomization);
}

#[test]
fn the_stored_form_reads_back_as_the_profile() {
    assert_eq!(home_profile().to_raw().to_friendly(), home_profile());
    assert_eq!(Profile::from_raw(WLANProfile::from_friendly(home_profile())), home_profile());
    let mut open = home_profile();
    open.security.key = None;
    open.auto_switch = None;
    open.mac.randomization = true;
    let raw = WLANProfile::from_friendly(Profile::from_raw(WLANProfile::from_friendly(open)));
    assert_eq!(raw.msm.security.shared_key, None);
    assert_eq!(raw.auto_switch, None);
    assert!(raw.mac_randomization.enable_randomization);
}

#[test]
fn names_are_written_in_upper_case_hexadecimal_byte_by_byte() {
    assert_eq!(SSID::from_string("Hello world!".to_string()).hex, "48656C6C6F20776F726C6421");
    assert_eq!(SSID::from_string("\u{e9}".to_string()).hex, "C3A9");
    assert_eq!(SSID::from_string(String::new()).hex, "");
    let named = SSIDConfig::from_string("kz".to_string());
    assert_eq!(named.ssid, SSID { hex: "6B7A".to_string(), name: "kz".to_string() });
}

#[test]
fn the_usual_pair_of_a_personal_network() {
    assert_eq!(
        AuthEncryption::wpa2psk_aes(),
        AuthEncryption { authentication: Authentication::WPA2PSK, encryption: Encryption::AES, use_one_x: false }
    );
}

#[test]
fn randomisation_is_off_by_default() {
    assert_eq!(
        MacRandomization::default(),
        MacRandomization { xmlns: XMLNS_PROFILE_V3.to_string(), enable_randomization: false }
    );
    assert_eq!(Mac::default(), Mac { randomization: false });
}

#[test]
fn the_words_of_a_profile_document() {
    assert_eq!(Authentication::Open.to_str(), "open");
    assert_eq!(Authentication::Shared.to_str(), "shared");
    assert_eq!(Authentication::WPA2PSK.to_str(), "WPA2PSK");
    assert_eq!(Authentication::WPA3ENT192.to_str(), "WPA3ENT192");
    assert_eq!(Encryption::NoEncryption.to_str(), "none");
    assert_eq!(Encryption::AES.to_str(), "AES");
    assert_eq!(KeyType::NetworkKey.to_str(), "networkKey");
    assert_eq!(KeyType::PassPhrase.to_str(), "passPhrase");
    assert_eq!(ConnectionType::ESS.to_str(), "ESS");
    assert_eq!(ConnectionType::IBSS.to_str(), "IBSS");
    assert_eq!(ConnectionMode::Auto.to_str(), "auto");
    assert_eq!(ConnectionMode::Manual.to_str(), "manual");
}

#[test]
fn words_are_read_back() {
    for value in [
        Authentication::Open,
        Authentication::Shared,
        Authentication::WPA,
        Authentication::WPAPSK,
        Authentication::WPA2,
        Authentication::WPA2PSK,
        Authentication::WPA3,
        Authentication::WPA3ENT192,
        Authentication::WPA3ENT,
        Authentication::WPA3SAE,
        Authentication::OWE,
    ] {
        assert_eq!(Authentication::from_word(value.to_str()), Some(value));
    }
    for value in [Encryption::NoEncryption, Encryption::WEP, Encryption::TKIP, Encryption::AES, Encryption::GCMP256] {
        assert_eq!(Encryption::from_word(value.to_str()), Some(value));
    }
    assert_eq!(KeyType::from_word("passPhrase"), Some(KeyType::PassPhrase));
    assert_eq!(KeyType::from_word("networkKey"), Some(KeyType::NetworkKey));
    assert_eq!(ConnectionType::from_word("ESS"), Some(ConnectionType::ESS));
    assert_eq!(ConnectionMode::from_word("auto"), Some(ConnectionMode::Auto));
    assert_eq!(Authentication::from_word("OPEN"), None);
    assert_eq!(Encryption::from_word("None"), None);
    assert_eq!(KeyType::from_word(""), None);
    assert_eq!(ConnectionType::from_word("ess"), None);
    assert_eq!(ConnectionMode::from_word("Manual"), None);
}

fn record(profile_name: &str, connectable: bool) -> AvailableNetwork {
    AvailableNetwork {
        profile_name: profile_name.to_string(),
        ssid: "Home".to_string(),
        bss_type: 1,
        number_of_bssids: 3,
        connectable,
        phy_types: vec![7, 8, -1],
        signal_quality: 42,
        security_enabled: true,
        auth_algorithm: 7,
        cipher_algorithm: 4,
    }
}

#[test]
fn a_record_of_a_network_is_read() {
    let read = Network::from_wlan_available_network(record("Home", true));
    assert_eq!(read.profile, Some("Home".to_string()));
    assert_eq!(read.ssid, "Home");
    assert_eq!(read.bss, Bss::Infrastructure);
    assert_eq!(read.bssids, 3);
    assert!(read.connectable);
    assert_eq!(read.unconnectable_reason, None);
    assert_eq!(
        read.phys,
        vec![network::phy::Type::Ht, network::phy::Type::Vht, network::phy::Type::IhvEnd]
    );
    assert_eq!(read.signal_quality, 42);
    assert_eq!(
        read.security,
        network::Security {
            enabled: true,
            auth: network::Authentication::RsnaPsk,
            cipher: network::Encryption::Ccmp
        }
    );
}

#[test]
fn an_empty_profile_name_means_no_profile() {
    assert_eq!(Network::from_wlan_available_network(record("", true)).profile, None);
}

#[test]
fn a_network_that_cannot_be_joined_has_a_reason() {
    let read = Network::from_wlan_available_network(record("", false));
    assert!(!read.connectable);
    assert_eq!(read.unconnectable_reason, Some(UnconnectableReason::Unknown));
}

#[test]
fn records_are_read_in_order() {
    let mut second = record("", false);
    second.ssid = "Other".to_string();
    let records = vec![record("Home", true), second];
    assert!(records.iter().all(|r| r.is_readable()));
    let read = Network::from_wlan_available_network_list(&records);
    assert_eq!(read.len(), 2);
    assert_eq!(read[0].ssid, "Home");
    assert_eq!(read[1].ssid, "Other");
    assert!(Network::from_wlan_available_network_list(&[]).is_empty());
}

#[test]
fn a_record_with_an_unknown_number_is_not_readable() {
    let mut odd = record("", true);
    odd.cipher_algorithm = 3;
    assert!(!odd.is_readable());
    let mut bad_phy = record("", true);
    bad_phy.phy_types.push(12);
    assert!(!bad_phy.is_readable());
    let mut bad_kind = record("", true);
    bad_kind.bss_type = 0;
    assert!(!bad_kind.is_readable());
    let mut bad_auth = record("", true);
    bad_auth.auth_algorithm = 12;
    assert!(!bad_auth.is_readable());
}

#[test]
fn a_network_is_cloned_whole() {
    let mut network = home();
    network.profile = Some("Home".to_string());
    assert_eq!(network.clone(), network);
}

#[test]
fn the_parts_of_the_stored_form_are_plain_records() {
    let raw = home_profile().to_raw();
    let rebuilt = WLANProfile {
        xmlns: XMLNS_PROFILE_V1.to_string(),
        name: "Home".to_string(),
        ssid_config: SSIDConfig::from_string("Home".to_string()),
        connection_type: ConnectionType::ESS,
        connection_mode: ConnectionMode::Manual,
        auto_switch: Some(false),
        msm: MSM {
            security: wifu::win::wlan::network::profile::raw::Security {
                auth_encryption: AuthEncryption::wpa2psk_aes(),
                shared_key: Some(wifu::win::wlan::network::profile::raw::SharedKey {
                    key_type: KeyType::PassPhrase,
                    protected: false,
                    key_material: "p".to_string(),
                }),
            },
        },
        mac_randomization: MacRandomization::default(),
    };
    assert_eq!(raw, rebuilt);
}
