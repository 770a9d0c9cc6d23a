use netvisor::discovery::{DiscoveryType, HostNamingFallback};
use netvisor::service_definitions::{
    DockerSwarm, HpPrinter, NasDevice, OpnSense, Pattern, PortBase, Portainer, ServiceCategory,
    ServiceDefinition, TransportProtocol,
};
use netvisor::subnet_type::{Entity, Style};

#[test]
fn discovery_kinds_describe_themselves() {
    let docker = DiscoveryType::Docker { host_id: 1, host_naming_fallback: HostNamingFallback::Ip };
    assert_eq!(docker.id(), "Docker");
    assert_eq!(docker.name(), "Docker");
    assert_eq!(
        docker.description(),
        "Discover Docker containers and their configurations on the daemon's host"
    );
    let own = DiscoveryType::SelfReport { host_id: 1 };
    assert_eq!(own.id(), "SelfReport");
    assert_eq!(own.description(), "The daemon reports its own host configuration and network details");
    let scan = DiscoveryType::Network { subnet_ids: Some(vec![1, 2]), host_naming_fallback: HostNamingFallback::BestService };
    assert_eq!(scan.name(), "Network");
    assert!(matches!(scan.color(), Style::OfEntity(Entity::Discovery)));
    assert!(matches!(scan.icon(), Style::OfEntity(Entity::Discovery)));
    assert_eq!(scan.clone(), scan);
}

#[test]
fn default_naming_fallback_is_best_service() {
    assert_eq!(HostNamingFallback::default(), HostNamingFallback::BestService);
}

#[test]
fn one_discovery_of_each_kind() {
    let all = DiscoveryType::all();
    assert_eq!(all.len(), 3);
    assert_eq!(all[0], DiscoveryType::SelfReport { host_id: 0 });
    assert_eq!(
        all[1],
        DiscoveryType::Network { subnet_ids: None, host_naming_fallback: HostNamingFallback::BestService }
    );
    assert_eq!(
        all[2],
        DiscoveryType::Docker { host_id: 0, host_naming_fallback: HostNamingFallback::BestService }
    );
}

#[test]
fn docker_swarm_definition() {
    let d = DockerSwarm;
    assert_eq!(d.name(), "Docker Swarm");
    assert_eq!(d.description(), "Docker native clustering and orchestration");
    assert_eq!(d.category(), ServiceCategory::Virtualization);
    assert!(d.logo_url().ends_with("docker.svg"));
    match d.discovery_pattern() {
        Pattern::AllOf(parts) => {
            assert_eq!(parts.len(), 2);
            assert!(matches!(parts[0], Pattern::Port(PortBase::Custom { number: 2377, protocol: TransportProtocol::Tcp })));
            assert!(matches!(parts[1], Pattern::Port(PortBase::Custom { number: 7946, protocol: TransportProtocol::Tcp })));
        },
        other => panic!("unexpected {:?}", other),
    }
}

#[test]
fn hp_printer_definition() {
    let d = HpPrinter;
    assert_eq!(d.name(), "Hp Printer");
    assert_eq!(d.description(), "An HP Printer");
    assert_eq!(d.category(), ServiceCategory::Printer);
    assert!(d.logo_needs_white_background());
    assert!(d.logo_url().ends_with("hp.svg"));
    match d.discovery_pattern() {
        Pattern::AllOf(parts) => {
            assert_eq!(parts.len(), 2);
            match &parts[0] {
                Pattern::AnyOf(pages) => {
                    assert_eq!(pages.len(), 6);
                    assert!(matches!(pages[0], Pattern::Endpoint(PortBase::Http, "", "LaserJet")));
                    assert!(matches!(pages[5], Pattern::Endpoint(PortBase::HttpAlt, "", "OfficeJet")));
                },
                other => panic!("unexpected {:?}", other),
            }
            match &parts[1] {
                Pattern::AnyOf(ports) => {
                    assert_eq!(ports.len(), 3);
                    assert!(matches!(ports[2], Pattern::Port(PortBase::LdpUdp)));
                },
                other => panic!("unexpected {:?}", other),
            }
        },
        other => panic!("unexpected {:?}", other),
    }
}

#[test]
fn nas_opnsense_portainer_definitions() {
    assert_eq!(NasDevice.name(), "Nas Device");
    assert_eq!(NasDevice.description(), "A generic network storage devices");
    assert_eq!(NasDevice.category(), ServiceCategory::Storage);
    assert!(NasDevice.is_generic());
    assert!(matches!(NasDevice.discovery_pattern(), Pattern::Port(PortBase::Nfs)));
    assert_eq!(OpnSense.name(), "OPNsense");
    assert_eq!(OpnSense.category(), ServiceCategory::NetworkSecurity);
    assert!(matches!(OpnSense.discovery_pattern(), Pattern::Endpoint(PortBase::Http, "/", "opnsense")));
    assert!(OpnSense.logo_url().ends_with("opnsense.svg"));
    assert_eq!(Portainer.name(), "Portainer");
    assert_eq!(Portainer.description(), "Container management web interface");
    assert_eq!(Portainer.category(), ServiceCategory::Virtualization);
    assert!(Portainer.logo_url().ends_with("portainer.svg"));
    match Portainer.discovery_pattern() {
        Pattern::AllOf(parts) => {
            assert!(matches!(parts[0], Pattern::Endpoint(PortBase::Custom { number: 9443, .. }, "/#!/auth", "portainer")));
            assert!(matches!(&parts[1], Pattern::AnyOf(ports) if ports.len() == 2));
        },
        other => panic!("unexpected {:?}", other),
    }
    assert_eq!(PortBase::new_tcp(22), PortBase::Custom { number: 22, protocol: TransportProtocol::Tcp });
}
