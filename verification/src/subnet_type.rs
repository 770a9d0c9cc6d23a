//! Subnet types and the rules that classify a network interface by its name.

use vstd::prelude::*;

use crate::text::{chars_of, lower_text, to_lowercase};

verus! {

/// The kind of network a subnet belongs to.
#[derive(Debug, Clone, Copy, PartialEq, Eq, Structural, Hash)]
pub enum SubnetType {
    Internet,
    Remote,
    Gateway,
    VpnTunnel,
    Dmz,
    Lan,
    WiFi,
    IoT,
    Guest,
    DockerBridge,
    Management,
    Storage,
    Unknown,
    NoSubnet,
}

pub open spec fn is_ascii_digit(c: char) -> bool {
    '0' <= c && c <= '9'
}

pub open spec fn is_ascii_alphanumeric(c: char) -> bool {
    ||| is_ascii_digit(c)
    ||| ('a' <= c && c <= 'z')
    ||| ('A' <= c && c <= 'Z')
}

/// The pattern that names Docker bridges (`br-` followed by a hex id).
pub open spec fn bridge_pattern() -> Seq<char> {
    seq!['b', 'r', '-']
}

/// Whether the (already lower-cased) interface name `name` matches `pattern`.
///
/// A name matches when it starts with the pattern and what follows is
/// either nothing or begins with an ASCII digit; for the bridge pattern
/// `br-` what follows must instead be a non-empty run of ASCII alphanumerics.
pub open spec fn matches_pattern(name: Seq<char>, pattern: Seq<char>) -> bool {
    let rest = name.skip(pattern.len() as int);
    &&& pattern.is_prefix_of(name)
    &&& if pattern == bridge_pattern() {
        rest.len() > 0 && forall|i: int| 0 <= i < rest.len() ==> is_ascii_alphanumeric(#[trigger] rest[i])
    } else {
        rest.len() == 0 || is_ascii_digit(rest[0])
    }
}

/// Whether `name` matches at least one of `patterns`.
pub open spec fn matches_any(name: Seq<char>, patterns: Seq<Seq<char>>) -> bool {
    exists|i: int| 0 <= i < patterns.len() && #[trigger] matches_pattern(name, patterns[i])
}

pub open spec fn str_views(patterns: Seq<&str>) -> Seq<Seq<char>> {
    patterns.map_values(|p: &str| p@)
}

fn is_digit(c: char) -> (r: bool)
    ensures
        r == is_ascii_digit(c),
{
    '0' <= c && c <= '9'
}

fn is_alphanumeric(c: char) -> (r: bool)
    ensures
        r == is_ascii_alphanumeric(c),
{
    ('0' <= c && c <= '9') || ('a' <= c && c <= 'z') || ('A' <= c && c <= 'Z')
}

/// Decides `matches_pattern` on character sequences.
pub fn name_matches_pattern(name: &Vec<char>, pattern: &Vec<char>) -> (r: bool)
    ensures
        r == matches_pattern(name@, pattern@),
{
    let n = name.len();
    let p = pattern.len();
    if p > n {
        return false;
    }
    let mut i: usize = 0;
    while i < p
        invariant
            p == pattern@.len(),
            n == name@.len(),
            p <= n,
            i <= p,
            forall|k: int| 0 <= k < i ==> name@[k] == pattern@[k],
        decreases p - i,
    {
        if name[i] != pattern[i] {
            return false;
        }
        i = i + 1;
    }
    let ghost rest = name@.skip(p as int);
    assert(pattern@.is_prefix_of(name@));
    let is_bridge = p == 3 && pattern[0] == 'b' && pattern[1] == 'r' && pattern[2] == '-';
    assert(is_bridge == (pattern@ == bridge_pattern())) by {
        if pattern@ == bridge_pattern() {
            assert(pattern@[0] == 'b' && pattern@[1] == 'r' && pattern@[2] == '-');
        }
        if is_bridge {
            assert(pattern@ =~= bridge_pattern());
        }
    }
    if is_bridge {
        if n == p {
            return false;
        }
        let mut j: usize = p;
        while j < n
            invariant
                p <= j <= n,
                n == name@.len(),
                p == pattern@.len(),
                pattern@ == bridge_pattern(),
                pattern@.is_prefix_of(name@),
                rest == name@.skip(p as int),
                forall|k: int| 0 <= k < j - p ==> is_ascii_alphanumeric(#[trigger] rest[k]),
            decreases n - j,
        {
            if !is_alphanumeric(name[j]) {
                assert(rest[j - p] == name@[j as int]);
                assert(!is_ascii_alphanumeric(rest[j - p]));
                return false;
            }
            assert(rest[j - p] == name@[j as int]);
            j = j + 1;
        }
        true
    } else {
        if n == p {
            true
        } else {
            assert(rest[0] == name@[p as int]);
            is_digit(name[p])
        }
    }
}

/// Decides whether the lower-cased `name` matches any of `patterns`.
pub fn name_matches_any(patterns: &[&str], name: &Vec<char>) -> (r: bool)
    ensures
        r == matches_any(name@, str_views(patterns@)),
{
    let ghost views = str_views(patterns@);
    let mut i: usize = 0;
    while i < patterns.len()
        invariant
            i <= patterns@.len(),
            views == str_views(patterns@),
            forall|k: int| 0 <= k < i ==> !#[trigger] matches_pattern(name@, views[k]),
        decreases patterns@.len() - i,
    {
        let pattern = chars_of(patterns[i]);
        if name_matches_pattern(name, &pattern) {
            assert(matches_pattern(name@, views[i as int]));
            return true;
        }
        i = i + 1;
    }
    false
}

impl SubnetType {
    /// Whether `interface_name`, lower-cased, matches one of `patterns`.
    pub fn match_interface_names(patterns: &[&str], interface_name: &str) -> (r: bool)
        ensures
            r == matches_any(lower_text(interface_name@), str_views(patterns@)),
    {
        let lower = to_lowercase(interface_name);
        let name = chars_of(lower.as_str());
        name_matches_any(patterns, &name)
    }
}


pub open spec fn docker_patterns() -> Seq<Seq<char>> { seq!["docker"@, "br-"@] }

pub open spec fn vpn_patterns() -> Seq<Seq<char>> {
    seq!["tun"@, "utun"@, "wg"@, "tap"@, "ppp"@, "vpn"@]
}

pub open spec fn wifi_patterns() -> Seq<Seq<char>> { seq!["wlan"@, "wifi"@, "wl"@] }

pub open spec fn guest_patterns() -> Seq<Seq<char>> { seq!["guest"@] }

pub open spec fn iot_patterns() -> Seq<Seq<char>> { seq!["iot"@] }

pub open spec fn dmz_patterns() -> Seq<Seq<char>> { seq!["dmz"@] }

pub open spec fn management_patterns() -> Seq<Seq<char>> { seq!["mgmt"@, "ipmi"@, "bmc"@] }

pub open spec fn storage_patterns() -> Seq<Seq<char>> { seq!["iscsi"@, "san"@, "storage"@] }

pub open spec fn lan_patterns() -> Seq<Seq<char>> { seq!["eth"@, "en"@, "eno"@, "enp"@, "ens"@] }

/// The subnet type of a lower-cased interface name: the first rule, in this
/// order, whose patterns the name matches decides; names that match none are
/// `Unknown`.
pub open spec fn classify(name: Seq<char>) -> SubnetType {
    if matches_any(name, docker_patterns()) {
        SubnetType::DockerBridge
    } else if matches_any(name, vpn_patterns()) {
        SubnetType::VpnTunnel
    } else if matches_any(name, wifi_patterns()) {
        SubnetType::WiFi
    } else if matches_any(name, guest_patterns()) {
        SubnetType::Guest
    } else if matches_any(name, iot_patterns()) {
        SubnetType::IoT
    } else if matches_any(name, dmz_patterns()) {
        SubnetType::Dmz
    } else if matches_any(name, management_patterns()) {
        SubnetType::Management
    } else if matches_any(name, storage_patterns()) {
        SubnetType::Storage
    } else if matches_any(name, lan_patterns()) {
        SubnetType::Lan
    } else {
        SubnetType::Unknown
    }
}

impl SubnetType {
    /// Classifies an interface name that is already lower-cased.
    pub fn from_lowercase_name(name: &Vec<char>) -> (r: SubnetType)
        ensures
            r == classify(name@),
    {
        let docker: &[&str] = &["docker", "br-"];
        assert(str_views(docker@) =~= docker_patterns());
        if name_matches_any(docker, name) {
            return SubnetType::DockerBridge;
        }
        let vpn: &[&str] = &["tun", "utun", "wg", "tap", "ppp", "vpn"];
        assert(str_views(vpn@) =~= vpn_patterns());
        if name_matches_any(vpn, name) {
            return SubnetType::VpnTunnel;
        }
        let wifi: &[&str] = &["wlan", "wifi", "wl"];
        assert(str_views(wifi@) =~= wifi_patterns());
        if name_matches_any(wifi, name) {
            return SubnetType::WiFi;
        }
        let guest: &[&str] = &["guest"];
        assert(str_views(guest@) =~= guest_patterns());
        if name_matches_any(guest, name) {
            return SubnetType::Guest;
        }
        let iot: &[&str] = &["iot"];
        assert(str_views(iot@) =~= iot_patterns());
        if name_matches_any(iot, name) {
            return SubnetType::IoT;
        }
        let dmz: &[&str] = &["dmz"];
        assert(str_views(dmz@) =~= dmz_patterns());
        if name_matches_any(dmz, name) {
            return SubnetType::Dmz;
        }
        let management: &[&str] = &["mgmt", "ipmi", "bmc"];
        assert(str_views(management@) =~= management_patterns());
        if name_matches_any(management, name) {
            return SubnetType::Management;
        }
        let storage: &[&str] = &["iscsi", "san", "storage"];
        assert(str_views(storage@) =~= storage_patterns());
        if name_matches_any(storage, name) {
            return SubnetType::Storage;
        }
        let lan: &[&str] = &["eth", "en", "eno", "enp", "ens"];
        assert(str_views(lan@) =~= lan_patterns());
        if name_matches_any(lan, name) {
            return SubnetType::Lan;
        }
        SubnetType::Unknown
    }

    /// Classifies a network interface by its name, ignoring case.
    pub fn from_interface_name(interface_name: &str) -> (r: SubnetType)
        ensures
            r == classify(lower_text(interface_name@)),
    {
        let lower = to_lowercase(interface_name);
        let name = chars_of(lower.as_str());
        Self::from_lowercase_name(&name)
    }
}


/// A catalogue entity whose color and icon other items reuse.
#[derive(Debug, Clone, Copy, PartialEq, Eq, Structural, Hash)]
pub enum Entity {
    Discovery,
    Subnet,
    Gateway,
    Vpn,
    IoT,
    Virtualization,
    Storage,
}

/// Where a color or an icon comes from: a fixed name, or the one that a
/// catalogue entity uses.
#[derive(Debug, Clone, Copy)]
pub enum Style {
    Named(&'static str),
    OfEntity(Entity),
}

/// Metadata that the catalogue publishes for each subnet type.
#[derive(Debug, Clone, Copy, PartialEq, Eq, Structural)]
pub struct SubnetTypeMetadata {
    pub network_scan_discovery_eligible: bool,
}

pub open spec fn spec_id(t: SubnetType) -> Seq<char> {
    match t {
        SubnetType::Internet => "Internet"@,
        SubnetType::Remote => "Remote"@,
        SubnetType::Gateway => "Gateway"@,
        SubnetType::VpnTunnel => "VpnTunnel"@,
        SubnetType::Dmz => "Dmz"@,
        SubnetType::Lan => "Lan"@,
        SubnetType::WiFi => "WiFi"@,
        SubnetType::IoT => "IoT"@,
        SubnetType::Guest => "Guest"@,
        SubnetType::DockerBridge => "DockerBridge"@,
        SubnetType::Management => "Management"@,
        SubnetType::Storage => "Storage"@,
        SubnetType::Unknown => "Unknown"@,
        SubnetType::NoSubnet => "None"@,
    }
}

pub open spec fn spec_color(t: SubnetType) -> Style {
    match t {
        SubnetType::Internet => Style::Named("blue"),
        SubnetType::Remote => Style::OfEntity(Entity::Subnet),
        SubnetType::Gateway => Style::OfEntity(Entity::Gateway),
        SubnetType::VpnTunnel => Style::OfEntity(Entity::Vpn),
        SubnetType::Dmz => Style::Named("rose"),
        SubnetType::Lan => Style::OfEntity(Entity::Subnet),
        SubnetType::IoT => Style::OfEntity(Entity::IoT),
        SubnetType::Guest => Style::Named("green"),
        SubnetType::WiFi => Style::Named("teal"),
        SubnetType::Management => Style::Named("gray"),
        SubnetType::DockerBridge => Style::OfEntity(Entity::Virtualization),
        SubnetType::Storage => Style::OfEntity(Entity::Storage),
        SubnetType::Unknown => Style::Named("gray"),
        SubnetType::NoSubnet => Style::Named("gray"),
    }
}

impl SubnetType {
    /// The identifier of the type: the name of its variant.
    pub fn id(&self) -> (r: &'static str)
        ensures
            r@ == spec_id(*self),
    {
        match self {
            SubnetType::Internet => "Internet",
            SubnetType::Remote => "Remote",
            SubnetType::Gateway => "Gateway",
            SubnetType::VpnTunnel => "VpnTunnel",
            SubnetType::Dmz => "Dmz",
            SubnetType::Lan => "Lan",
            SubnetType::WiFi => "WiFi",
            SubnetType::IoT => "IoT",
            SubnetType::Guest => "Guest",
            SubnetType::DockerBridge => "DockerBridge",
            SubnetType::Management => "Management",
            SubnetType::Storage => "Storage",
            SubnetType::Unknown => "Unknown",
            SubnetType::NoSubnet => "None",
        }
    }

    pub fn color(&self) -> (r: Style)
        ensures
            r == spec_color(*self),
    {
        match self {
            SubnetType::Internet => Style::Named("blue"),
            SubnetType::Remote => Style::OfEntity(Entity::Subnet),
            SubnetType::Gateway => Style::OfEntity(Entity::Gateway),
            SubnetType::VpnTunnel => Style::OfEntity(Entity::Vpn),
            SubnetType::Dmz => Style::Named("rose"),
            SubnetType::Lan => Style::OfEntity(Entity::Subnet),
            SubnetType::IoT => Style::OfEntity(Entity::IoT),
            SubnetType::Guest => Style::Named("green"),
            SubnetType::WiFi => Style::Named("teal"),
            SubnetType::Management => Style::Named("gray"),
            SubnetType::DockerBridge => Style::OfEntity(Entity::Virtualization),
            SubnetType::Storage => Style::OfEntity(Entity::Storage),
            SubnetType::Unknown => Style::Named("gray"),
            SubnetType::NoSubnet => Style::Named("gray"),
        }
    }
}

pub open spec fn spec_icon(t: SubnetType) -> Style {
    match t {
        SubnetType::Internet => Style::Named("Globe"),
        SubnetType::Remote => Style::OfEntity(Entity::Subnet),
        SubnetType::Gateway => Style::OfEntity(Entity::Gateway),
        SubnetType::VpnTunnel => Style::OfEntity(Entity::Vpn),
        SubnetType::Dmz => Style::OfEntity(Entity::Subnet),
        SubnetType::Lan => Style::OfEntity(Entity::Subnet),
        SubnetType::IoT => Style::OfEntity(Entity::IoT),
        SubnetType::Guest => Style::Named("User"),
        SubnetType::WiFi => Style::Named("WiFi"),
        SubnetType::Management => Style::Named("ServerCog"),
        SubnetType::DockerBridge => Style::Named("Box"),
        SubnetType::Storage => Style::OfEntity(Entity::Storage),
        SubnetType::Unknown => Style::OfEntity(Entity::Subnet),
        SubnetType::NoSubnet => Style::OfEntity(Entity::Subnet),
    }
}

pub open spec fn spec_name(t: SubnetType) -> Seq<char> {
    match t {
        SubnetType::Internet => "Internet"@,
        SubnetType::Remote => "Remote"@,
        SubnetType::Gateway => "Gateway"@,
        SubnetType::VpnTunnel => "VPN"@,
        SubnetType::Dmz => "DMZ"@,
        SubnetType::Lan => "LAN"@,
        SubnetType::IoT => "IoT"@,
        SubnetType::Guest => "Guest"@,
        SubnetType::WiFi => "WiFi"@,
        SubnetType::Management => "Management"@,
        SubnetType::DockerBridge => "Docker Bridge"@,
        SubnetType::Storage => "Storage"@,
        SubnetType::Unknown => "Unknown"@,
        SubnetType::NoSubnet => "No Subnet"@,
    }
}

pub open spec fn spec_description(t: SubnetType) -> Seq<char> {
    match t {
        SubnetType::Internet => "Internet"@,
        SubnetType::Remote => "Remote network"@,
        SubnetType::Gateway => "Gateway subnet"@,
        SubnetType::VpnTunnel => "Virtual private network"@,
        SubnetType::Dmz => "Demilitarized zone"@,
        SubnetType::Lan => "Local area network"@,
        SubnetType::IoT => "Internet of things"@,
        SubnetType::Guest => "Guest network"@,
        SubnetType::WiFi => "WiFi network"@,
        SubnetType::Management => "Management network"@,
        SubnetType::DockerBridge => "Docker bridge network"@,
        SubnetType::Storage => "Storage network"@,
        SubnetType::Unknown => "Unknown network type"@,
        SubnetType::NoSubnet => "No Subnet"@,
    }
}

/// Subnets of these types are not offered for network-scan discovery.
pub open spec fn spec_scan_eligible(t: SubnetType) -> bool {
    !(t == SubnetType::Remote || t == SubnetType::Internet || t == SubnetType::DockerBridge)
}

/// Every subnet type, in declaration order.
pub open spec fn all_subnet_types() -> Seq<SubnetType> {
    seq![
        SubnetType::Internet,
        SubnetType::Remote,
        SubnetType::Gateway,
        SubnetType::VpnTunnel,
        SubnetType::Dmz,
        SubnetType::Lan,
        SubnetType::WiFi,
        SubnetType::IoT,
        SubnetType::Guest,
        SubnetType::DockerBridge,
        SubnetType::Management,
        SubnetType::Storage,
        SubnetType::Unknown,
        SubnetType::NoSubnet,
    ]
}

impl SubnetType {
    pub fn icon(&self) -> (r: Style)
        ensures
            r == spec_icon(*self),
    {
        match self {
            SubnetType::Internet => Style::Named("Globe"),
            SubnetType::Remote => Style::OfEntity(Entity::Subnet),
            SubnetType::Gateway => Style::OfEntity(Entity::Gateway),
            SubnetType::VpnTunnel => Style::OfEntity(Entity::Vpn),
            SubnetType::Dmz => Style::OfEntity(Entity::Subnet),
            SubnetType::Lan => Style::OfEntity(Entity::Subnet),
            SubnetType::IoT => Style::OfEntity(Entity::IoT),
            SubnetType::Guest => Style::Named("User"),
            SubnetType::WiFi => Style::Named("WiFi"),
            SubnetType::Management => Style::Named("ServerCog"),
            SubnetType::DockerBridge => Style::Named("Box"),
            SubnetType::Storage => Style::OfEntity(Entity::Storage),
            SubnetType::Unknown => Style::OfEntity(Entity::Subnet),
            SubnetType::NoSubnet => Style::OfEntity(Entity::Subnet),
        }
    }

    /// The display name of the type.
    pub fn name(&self) -> (r: &'static str)
        ensures
            r@ == spec_name(*self),
    {
        match self {
            SubnetType::Internet => "Internet",
            SubnetType::Remote => "Remote",
            SubnetType::Gateway => "Gateway",
            SubnetType::VpnTunnel => "VPN",
            SubnetType::Dmz => "DMZ",
            SubnetType::Lan => "LAN",
            SubnetType::IoT => "IoT",
            SubnetType::Guest => "Guest",
            SubnetType::WiFi => "WiFi",
            SubnetType::Management => "Management",
            SubnetType::DockerBridge => "Docker Bridge",
            SubnetType::Storage => "Storage",
            SubnetType::Unknown => "Unknown",
            SubnetType::NoSubnet => "No Subnet",
        }
    }

    pub fn description(&self) -> (r: &'static str)
        ensures
            r@ == spec_description(*self),
    {
        match self {
            SubnetType::Internet => "Internet",
            SubnetType::Remote => "Remote network",
            SubnetType::Gateway => "Gateway subnet",
            SubnetType::VpnTunnel => "Virtual private network",
            SubnetType::Dmz => "Demilitarized zone",
            SubnetType::Lan => "Local area network",
            SubnetType::IoT => "Internet of things",
            SubnetType::Guest => "Guest network",
            SubnetType::WiFi => "WiFi network",
            SubnetType::Management => "Management network",
            SubnetType::DockerBridge => "Docker bridge network",
            SubnetType::Storage => "Storage network",
            SubnetType::Unknown => "Unknown network type",
            SubnetType::NoSubnet => "No Subnet",
        }
    }

    /// The metadata published for this type.
    pub fn metadata(&self) -> (r: SubnetTypeMetadata)
        ensures
            r.network_scan_discovery_eligible == spec_scan_eligible(*self),
    {
        let network_scan_discovery_eligible = match self {
            SubnetType::Remote | SubnetType::Internet | SubnetType::DockerBridge => false,
            _ => true,
        };
        SubnetTypeMetadata { network_scan_discovery_eligible }
    }

    /// All subnet types, in the order in which they are declared.
    pub fn all() -> (r: Vec<SubnetType>)
        ensures
            r@ == all_subnet_types(),
    {
        let r = vec![
            SubnetType::Internet,
            SubnetType::Remote,
            SubnetType::Gateway,
            SubnetType::VpnTunnel,
            SubnetType::Dmz,
            SubnetType::Lan,
            SubnetType::WiFi,
            SubnetType::IoT,
            SubnetType::Guest,
            SubnetType::DockerBridge,
            SubnetType::Management,
            SubnetType::Storage,
            SubnetType::Unknown,
            SubnetType::NoSubnet,
        ];
        assert(r@ =~= all_subnet_types());
        r
    }
}

impl Default for SubnetType {
    /// The type of an interface that has no subnet.
    fn default() -> (r: SubnetType)
        ensures
            r == SubnetType::NoSubnet,
    {
        SubnetType::NoSubnet
    }
}
} // verus!
