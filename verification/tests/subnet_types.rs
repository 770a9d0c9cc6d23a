use netvisor::subnet_type::{Entity, Style, SubnetType};

fn classify(name: &str) -> SubnetType {
    SubnetType::from_interface_name(name)
}

#[test]
fn docker_interfaces_are_bridges() {
    assert_eq!(classify("docker0"), SubnetType::DockerBridge);
    assert_eq!(classify("docker"), SubnetType::DockerBridge);
    assert_eq!(classify("br-1a2b3c4d5e6f"), SubnetType::DockerBridge);
    assert_eq!(classify("BR-ABCDEF"), SubnetType::DockerBridge);
}

#[test]
fn bridge_prefix_needs_alphanumeric_rest() {
    assert_eq!(classify("br-"), SubnetType::Unknown);
    assert_eq!(classify("br-ab_cd"), SubnetType::Unknown);
    assert_eq!(classify("docker_gwbridge"), SubnetType::Unknown);
}

#[test]
fn vpn_interfaces_are_tunnels() {
    for name in ["tun0", "utun3", "wg0", "tap1", "ppp0", "vpn", "WG7"] {
        assert_eq!(classify(name), SubnetType::VpnTunnel, "{}", name);
    }
}

#[test]
fn wireless_guest_iot_dmz_management_storage() {
    assert_eq!(classify("wlan0"), SubnetType::WiFi);
    assert_eq!(classify("wifi1"), SubnetType::WiFi);
    assert_eq!(classify("wl0"), SubnetType::WiFi);
    assert_eq!(classify("guest"), SubnetType::Guest);
    assert_eq!(classify("iot2"), SubnetType::IoT);
    assert_eq!(classify("dmz"), SubnetType::Dmz);
    assert_eq!(classify("mgmt0"), SubnetType::Management);
    assert_eq!(classify("ipmi"), SubnetType::Management);
    assert_eq!(classify("bmc1"), SubnetType::Management);
    assert_eq!(classify("iscsi0"), SubnetType::Storage);
    assert_eq!(classify("san1"), SubnetType::Storage);
    assert_eq!(classify("storage"), SubnetType::Storage);
}

#[test]
fn ethernet_interfaces_are_lan() {
    for name in ["eth0", "ETH1", "en0", "eno1", "enp3s0", "ens33", "eth"] {
        assert_eq!(classify(name), SubnetType::Lan, "{}", name);
    }
}

#[test]
fn pattern_must_be_followed_by_digit_or_end() {
    assert_eq!(classify("wlp2s0"), SubnetType::Unknown);
    assert_eq!(classify("ethernet"), SubnetType::Unknown);
    assert_eq!(classify("lo"), SubnetType::Unknown);
    assert_eq!(classify(""), SubnetType::Unknown);
    assert_eq!(classify("guestnet"), SubnetType::Unknown);
}

#[test]
fn earlier_rules_win() {
    // "tun0" also starts with nothing of the later rules; "docker0" would
    // never reach the LAN rule.
    assert_eq!(classify("tap0"), SubnetType::VpnTunnel);
    assert_eq!(classify("wl1"), SubnetType::WiFi);
}

#[test]
fn classification_ignores_case_on_concrete_names() {
    assert_eq!(classify("WLAN0"), classify("wlan0"));
    assert_eq!(classify("Docker0"), classify("docker0"));
    assert_eq!(classify("EnP3S0"), SubnetType::Lan);
    for name in ["br-0a1B", "TUN3", "wl1", "Guest", "iot", "DMZ0", "Mgmt", "SAN", "eth0", "xyz"] {
        assert_eq!(classify(&name.to_ascii_uppercase()), classify(name));
        assert_eq!(classify(&name.to_ascii_lowercase()), classify(name));
    }
}

#[test]
fn match_interface_names_lowercases_first() {
    assert!(SubnetType::match_interface_names(&["eth"], "ETH0"));
    assert!(!SubnetType::match_interface_names(&["eth"], "ethx"));
    assert!(SubnetType::match_interface_names(&["x", "br-"], "br-0f"));
    assert!(!SubnetType::match_interface_names(&[], "eth0"));
}

#[test]
fn from_lowercase_name_skips_lowercasing() {
    let name: Vec<char> = "ETH0".chars().collect();
    assert_eq!(SubnetType::from_lowercase_name(&name), SubnetType::Unknown);
    let name: Vec<char> = "eth0".chars().collect();
    assert_eq!(SubnetType::from_lowercase_name(&name), SubnetType::Lan);
}

#[test]
fn names_and_descriptions() {
    assert_eq!(SubnetType::VpnTunnel.name(), "VPN");
    assert_eq!(SubnetType::DockerBridge.name(), "Docker Bridge");
    assert_eq!(SubnetType::NoSubnet.name(), "No Subnet");
    assert_eq!(SubnetType::Dmz.description(), "Demilitarized zone");
    assert_eq!(SubnetType::Unknown.description(), "Unknown network type");
    assert_eq!(SubnetType::NoSubnet.id(), "None");
    assert_eq!(SubnetType::VpnTunnel.id(), "VpnTunnel");
}

#[test]
fn colors_and_icons() {
    assert!(matches!(SubnetType::Internet.color(), Style::Named("blue")));
    assert!(matches!(SubnetType::Lan.color(), Style::OfEntity(Entity::Subnet)));
    assert!(matches!(SubnetType::DockerBridge.color(), Style::OfEntity(Entity::Virtualization)));
    assert!(matches!(SubnetType::Guest.icon(), Style::Named("User")));
    assert!(matches!(SubnetType::Storage.icon(), Style::OfEntity(Entity::Storage)));
}

#[test]
fn scan_eligibility() {
    assert!(!SubnetType::Internet.metadata().network_scan_discovery_eligible);
    assert!(!SubnetType::Remote.metadata().network_scan_discovery_eligible);
    assert!(!SubnetType::DockerBridge.metadata().network_scan_discovery_eligible);
    assert!(SubnetType::Lan.metadata().network_scan_discovery_eligible);
    assert!(SubnetType::NoSubnet.metadata().network_scan_discovery_eligible);
}

#[test]
fn all_types_in_order_and_default() {
    let all = SubnetType::all();
    assert_eq!(
        all,
        vec![
            SubnetType::Internet,
            SubnetType::Remote,
            SubnetType::Gateway,
            SubnetType::VpnTunnel,
            SubnetType::Dmz,
            SubnetType::Lan,
            SubnetType::WiFi,
            SubnetType::IoT,
            SubnetType::Guest,
            SubnetType::DockerBridge,
            SubnetType::Management,
            SubnetType::Storage,
            SubnetType::Unknown,
            SubnetType::NoSubnet,
        ]
    );
    assert_eq!(SubnetType::default(), SubnetType::NoSubnet);
}
