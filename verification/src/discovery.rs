//! Discovery kinds, and the provenance that discovered entities carry.

use vstd::prelude::*;

use crate::subnet_type::{Entity, Style};

verus! {

/// How a discovered host is named when it reports no name of its own.
#[derive(Debug, Clone, Copy, PartialEq, Eq, Structural, Hash)]
pub enum HostNamingFallback {
    Ip,
    BestService,
}

impl Default for HostNamingFallback {
    fn default() -> (r: HostNamingFallback)
        ensures
            r == HostNamingFallback::BestService,
    {
        HostNamingFallback::BestService
    }
}

/// A kind of discovery run, with its parameters.
#[derive(Debug, PartialEq, Eq, Hash)]
pub enum DiscoveryType {
    /// The daemon reports its own host.
    SelfReport { host_id: u128 },
    /// A scan of the given subnets; `None` scans every subnet that the
    /// daemon has an interface on.
    Network { subnet_ids: Option<Vec<u128>>, host_naming_fallback: HostNamingFallback },
    /// A scan of the Docker containers on a host.
    Docker { host_id: u128, host_naming_fallback: HostNamingFallback },
}

/// The abstract value of a discovery kind.
pub ghost enum DiscoveryKind {
    SelfReport { host_id: u128 },
    Network { subnet_ids: Option<Seq<u128>>, host_naming_fallback: HostNamingFallback },
    Docker { host_id: u128, host_naming_fallback: HostNamingFallback },
}

impl View for DiscoveryType {
    type V = DiscoveryKind;

    open spec fn view(&self) -> DiscoveryKind {
        match self {
            DiscoveryType::SelfReport { host_id } => DiscoveryKind::SelfReport { host_id: *host_id },
            DiscoveryType::Network { subnet_ids, host_naming_fallback } => DiscoveryKind::Network {
                subnet_ids: match subnet_ids {
                    Some(v) => Some(v@),
                    None => None,
                },
                host_naming_fallback: *host_naming_fallback,
            },
            DiscoveryType::Docker { host_id, host_naming_fallback } => DiscoveryKind::Docker {
                host_id: *host_id,
                host_naming_fallback: *host_naming_fallback,
            },
        }
    }
}

pub fn clone_ids(v: &Vec<u128>) -> (r: Vec<u128>)
    ensures
        r@ == v@,
{
    let mut out: Vec<u128> = Vec::new();
    for i in 0..v.len()
        invariant
            out@ == v@.take(i as int),
    {
        out.push(v[i]);
        assert(out@ =~= v@.take(i + 1));
    }
    assert(v@.take(v@.len() as int) =~= v@);
    out
}

impl Clone for DiscoveryType {
    fn clone(&self) -> (r: Self)
        ensures
            r@ == self@,
    {
        match self {
            DiscoveryType::SelfReport { host_id } => DiscoveryType::SelfReport { host_id: *host_id },
            DiscoveryType::Network { subnet_ids, host_naming_fallback } => {
                let ids = match subnet_ids {
                    Some(v) => Some(clone_ids(v)),
                    None => None,
                };
                DiscoveryType::Network { subnet_ids: ids, host_naming_fallback: *host_naming_fallback }
            },
            DiscoveryType::Docker { host_id, host_naming_fallback } => DiscoveryType::Docker {
                host_id: *host_id,
                host_naming_fallback: *host_naming_fallback,
            },
        }
    }
}

pub open spec fn spec_discovery_id(t: DiscoveryKind) -> Seq<char> {
    match t {
        DiscoveryKind::SelfReport { .. } => "SelfReport"@,
        DiscoveryKind::Network { .. } => "Network"@,
        DiscoveryKind::Docker { .. } => "Docker"@,
    }
}

pub open spec fn spec_discovery_description(t: DiscoveryKind) -> Seq<char> {
    match t {
        DiscoveryKind::Docker { .. } => "Discover Docker containers and their configurations on the daemon's host"@,
        DiscoveryKind::Network { .. } => "Scan network subnets to discover hosts, open ports, and running services"@,
        DiscoveryKind::SelfReport { .. } => "The daemon reports its own host configuration and network details"@,
    }
}

impl DiscoveryType {
    /// The identifier of the kind: the name of its variant.
    pub fn id(&self) -> (r: &'static str)
        ensures
            r@ == spec_discovery_id(self@),
    {
        match self {
            DiscoveryType::SelfReport { .. } => "SelfReport",
            DiscoveryType::Network { .. } => "Network",
            DiscoveryType::Docker { .. } => "Docker",
        }
    }

    /// The display name, which is the identifier.
    pub fn name(&self) -> (r: &'static str)
        ensures
            r@ == spec_discovery_id(self@),
    {
        self.id()
    }

    pub fn description(&self) -> (r: &'static str)
        ensures
            r@ == spec_discovery_description(self@),
    {
        match self {
            DiscoveryType::Docker { .. } => "Discover Docker containers and their configurations on the daemon's host",
            DiscoveryType::Network { .. } => "Scan network subnets to discover hosts, open ports, and running services",
            DiscoveryType::SelfReport { .. } => "The daemon reports its own host configuration and network details",
        }
    }

    /// One discovery of each kind, with default parameters (the nil host,
    /// every subnet, the default naming fallback), in declaration order.
    pub fn all() -> (r: Vec<DiscoveryType>)
        ensures
            r@.len() == 3,
            r@[0]@ == (DiscoveryKind::SelfReport { host_id: 0 }),
            r@[1]@ == (DiscoveryKind::Network {
                subnet_ids: None,
                host_naming_fallback: HostNamingFallback::BestService,
            }),
            r@[2]@ == (DiscoveryKind::Docker {
                host_id: 0,
                host_naming_fallback: HostNamingFallback::BestService,
            }),
    {
        vec![
            DiscoveryType::SelfReport { host_id: 0 },
            DiscoveryType::Network { subnet_ids: None, host_naming_fallback: HostNamingFallback::default() },
            DiscoveryType::Docker { host_id: 0, host_naming_fallback: HostNamingFallback::default() },
        ]
    }

    /// Every kind of discovery shares the color of the discovery entity.
    pub fn color(&self) -> (r: Style)
        ensures
            r == Style::OfEntity(Entity::Discovery),
    {
        Style::OfEntity(Entity::Discovery)
    }

    /// Every kind of discovery shares the icon of the discovery entity.
    pub fn icon(&self) -> (r: Style)
        ensures
            r == Style::OfEntity(Entity::Discovery),
    {
        Style::OfEntity(Entity::Discovery)
    }
}

/// What a discovery run recorded about an entity that it found.
#[derive(Debug)]
pub struct DiscoveryMetadata {
    pub discovery_type: DiscoveryType,
}

pub ghost struct DiscoveryMetadataView {
    pub discovery_type: DiscoveryKind,
}

impl View for DiscoveryMetadata {
    type V = DiscoveryMetadataView;

    open spec fn view(&self) -> DiscoveryMetadataView {
        DiscoveryMetadataView { discovery_type: self.discovery_type@ }
    }
}

impl Clone for DiscoveryMetadata {
    fn clone(&self) -> (r: Self)
        ensures
            r@ == self@,
    {
        DiscoveryMetadata { discovery_type: self.discovery_type.clone() }
    }
}

/// Where an entity came from.
#[derive(Debug)]
pub enum EntitySource {
    /// Entered by a user.
    Manual,
    /// Created by the system itself.
    System,
    /// Found by discovery runs, one metadata entry per run.
    Discovery { metadata: Vec<DiscoveryMetadata> },
}

/// The abstract value of an entity's provenance.
pub ghost enum SourceView {
    Manual,
    System,
    Discovery { metadata: Seq<DiscoveryMetadataView> },
}

pub open spec fn metadata_views(metadata: Seq<DiscoveryMetadata>) -> Seq<DiscoveryMetadataView> {
    metadata.map_values(|m: DiscoveryMetadata| m@)
}

impl View for EntitySource {
    type V = SourceView;

    open spec fn view(&self) -> SourceView {
        match self {
            EntitySource::Manual => SourceView::Manual,
            EntitySource::System => SourceView::System,
            EntitySource::Discovery { metadata } => SourceView::Discovery {
                metadata: metadata_views(metadata@),
            },
        }
    }
}

impl Clone for EntitySource {
    fn clone(&self) -> (r: Self)
        ensures
            r@ == self@,
    {
        match self {
            EntitySource::Manual => EntitySource::Manual,
            EntitySource::System => EntitySource::System,
            EntitySource::Discovery { metadata } => {
                let mut out: Vec<DiscoveryMetadata> = Vec::new();
                for i in 0..metadata.len()
                    invariant
                        out@.len() == i,
                        forall|k: int| 0 <= k < i ==> #[trigger] out@[k]@ == metadata@[k]@,
                {
                    let item = metadata[i].clone();
                    out.push(item);
                }
                assert(metadata_views(out@) =~= metadata_views(metadata@));
                EntitySource::Discovery { metadata: out }
            },
        }
    }
}

} // verus!
