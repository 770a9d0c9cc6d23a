use netvisor::discovery::{DiscoveryMetadata, DiscoveryType, EntitySource, HostNamingFallback};
use netvisor::entity::{prepare_for_create, SqlValue, StorableEntity};
use netvisor::subnet::{
    decide_create, delete_start, delete_step, detach_subnet, updates_for, CreateOutcome, DeleteAction,
    DeleteEvent, DeleteStage, HostInterfaces, Interface, IpCidr, Subnet, SubnetBase, SubnetCreateError,
    SubnetService,
};
use netvisor::subnet_type::SubnetType;

fn cidr(a: u8, prefix_len: u8) -> IpCidr {
    IpCidr::V4 { address: u32::from_be_bytes([192, 168, a, 0]), prefix_len }
}

fn docker_source(host_id: u128) -> EntitySource {
    EntitySource::Discovery {
        metadata: vec![DiscoveryMetadata {
            discovery_type: DiscoveryType::Docker {
                host_id,
                host_naming_fallback: HostNamingFallback::BestService,
            },
        }],
    }
}

fn network_scan_source() -> EntitySource {
    EntitySource::Discovery {
        metadata: vec![DiscoveryMetadata {
            discovery_type: DiscoveryType::Network {
                subnet_ids: None,
                host_naming_fallback: HostNamingFallback::Ip,
            },
        }],
    }
}

fn base(c: IpCidr, source: EntitySource) -> SubnetBase {
    SubnetBase {
        name: "lan".to_string(),
        network_id: 7,
        source,
        cidr: c,
        subnet_type: SubnetType::Lan,
        description: None,
    }
}

fn stored(id: u128, c: IpCidr, source: EntitySource) -> Subnet {
    Subnet { id, created_at: 10, updated_at: 20, base: base(c, source) }
}

#[test]
fn new_subnets_get_an_identity() {
    let s = Subnet::new(base(cidr(1, 24), EntitySource::Manual));
    assert_ne!(s.id, 0);
    assert_eq!(s.created_at, s.updated_at);
    assert_eq!((s.id >> 76) & 0xf, 4);
    let t = Subnet::new(base(cidr(1, 24), EntitySource::Manual));
    assert_ne!(s.id, t.id);
}

#[test]
fn preparation_replaces_only_nil_ids() {
    let fresh = prepare_for_create(stored(0, cidr(1, 24), EntitySource::Manual));
    assert_ne!(fresh.id, 0);
    assert_eq!(fresh.base.cidr, cidr(1, 24));
    let kept = prepare_for_create(stored(42, cidr(1, 24), EntitySource::Manual));
    assert_eq!(kept.id, 42);
    assert_eq!(kept.created_at, 10);
    assert_eq!(kept.updated_at, 20);
}

#[test]
fn preparing_twice_changes_nothing_more() {
    let once = prepare_for_create(stored(0, cidr(1, 24), EntitySource::Manual));
    let id = once.id;
    let created = once.created_at;
    let twice = prepare_for_create(once);
    assert_eq!(twice.id, id);
    assert_eq!(twice.created_at, created);
}

#[test]
fn unknown_range_is_inserted() {
    let existing = vec![stored(1, cidr(2, 24), EntitySource::Manual)];
    let candidate = base(cidr(3, 24), EntitySource::Manual);
    assert_eq!(decide_create(&candidate, &existing), Ok(CreateOutcome::Insert));
}

#[test]
fn same_range_manual_is_reused() {
    let existing = vec![
        stored(1, cidr(2, 24), EntitySource::Manual),
        stored(2, cidr(3, 24), EntitySource::Manual),
    ];
    let candidate = base(cidr(3, 24), EntitySource::Manual);
    assert_eq!(decide_create(&candidate, &existing), Ok(CreateOutcome::ReuseExisting(1)));
}

#[test]
fn only_first_same_range_is_considered() {
    let existing = vec![
        stored(1, cidr(3, 24), EntitySource::System),
        stored(2, cidr(3, 24), EntitySource::Manual),
    ];
    let candidate = base(cidr(3, 24), EntitySource::Manual);
    assert_eq!(decide_create(&candidate, &existing), Ok(CreateOutcome::Insert));
}

#[test]
fn system_subnets_are_never_merged_concretely() {
    let existing = vec![stored(1, cidr(3, 24), EntitySource::Manual)];
    assert_eq!(
        decide_create(&base(cidr(3, 24), EntitySource::System), &existing),
        Ok(CreateOutcome::Insert)
    );
    let existing = vec![stored(1, cidr(3, 24), EntitySource::System)];
    assert_eq!(
        decide_create(&base(cidr(3, 24), network_scan_source()), &existing),
        Ok(CreateOutcome::Insert)
    );
}

#[test]
fn docker_bridges_of_the_same_host_are_merged() {
    let existing = vec![stored(1, cidr(17, 16), docker_source(5))];
    let candidate = base(cidr(17, 16), docker_source(5));
    assert_eq!(decide_create(&candidate, &existing), Ok(CreateOutcome::ReuseExisting(0)));
}

#[test]
fn docker_bridges_of_other_hosts_are_kept_apart_concretely() {
    let existing = vec![stored(1, cidr(17, 16), docker_source(5))];
    let candidate = base(cidr(17, 16), docker_source(6));
    assert_eq!(decide_create(&candidate, &existing), Ok(CreateOutcome::Insert));
}

#[test]
fn network_scans_merge_with_any_discovery() {
    let existing = vec![stored(1, cidr(17, 16), docker_source(5))];
    let candidate = base(cidr(17, 16), network_scan_source());
    assert_eq!(decide_create(&candidate, &existing), Ok(CreateOutcome::ReuseExisting(0)));
    let existing = vec![stored(1, cidr(17, 16), network_scan_source())];
    let candidate = base(cidr(17, 16), docker_source(9));
    assert_eq!(decide_create(&candidate, &existing), Ok(CreateOutcome::ReuseExisting(0)));
}

#[test]
fn discovered_subnet_without_metadata_is_an_error() {
    let existing = vec![stored(1, cidr(17, 16), docker_source(5))];
    let candidate = base(cidr(17, 16), EntitySource::Discovery { metadata: vec![] });
    let decision = decide_create(&candidate, &existing);
    assert_eq!(decision, Err(SubnetCreateError::MissingDiscoveryMetadata));
    assert_eq!(
        SubnetCreateError::MissingDiscoveryMetadata.message(),
        "Error comparing discovered subnets during creation: subnet missing discovery metadata"
    );
    let no_match = vec![stored(1, cidr(18, 16), docker_source(5))];
    assert_eq!(decide_create(&candidate, &no_match), Ok(CreateOutcome::Insert));
}

#[test]
fn plan_create_prepares_and_decides() {
    let existing = vec![stored(1, cidr(2, 24), EntitySource::Manual)];
    let (subnet, outcome) =
        SubnetService::<(), ()>::plan_create(stored(0, cidr(2, 24), EntitySource::Manual), &existing)
            .unwrap();
    assert_ne!(subnet.id, 0);
    assert_eq!(outcome, CreateOutcome::ReuseExisting(0));
    let err = SubnetService::<(), ()>::plan_create(
        stored(3, cidr(2, 24), EntitySource::Discovery { metadata: vec![] }),
        &vec![stored(1, cidr(2, 24), network_scan_source())],
    );
    assert!(matches!(err, Err(SubnetCreateError::MissingDiscoveryMetadata)));
}

#[test]
fn service_keeps_its_handles() {
    let service = SubnetService::new("subnets", "hosts");
    assert_eq!(*service.storage(), "subnets");
    assert_eq!(*service.host_service(), "hosts");
}

#[test]
fn detaching_removes_only_that_subnet() {
    let interfaces = vec![
        Interface { subnet_id: 1, details: "a" },
        Interface { subnet_id: 2, details: "b" },
        Interface { subnet_id: 1, details: "c" },
    ];
    let (kept, changed) = detach_subnet(interfaces, 1);
    assert!(changed);
    assert_eq!(kept.len(), 1);
    assert_eq!(kept[0].details, "b");
    let (kept, changed) = detach_subnet(vec![Interface { subnet_id: 2, details: 0u8 }], 1);
    assert!(!changed);
    assert_eq!(kept.len(), 1);
}

#[test]
fn subnet_columns_and_values() {
    let s = Subnet {
        id: 9,
        created_at: 1,
        updated_at: 2,
        base: SubnetBase {
            name: "dmz".to_string(),
            network_id: 3,
            source: EntitySource::System,
            cidr: cidr(4, 24),
            subnet_type: SubnetType::Dmz,
            description: Some("edge".to_string()),
        },
    };
    let (columns, values) = s.to_params();
    assert_eq!(
        columns,
        vec!["id", "name", "description", "cidr", "source", "subnet_type", "network_id", "created_at", "updated_at"]
    );
    assert_eq!(values.len(), 9);
    assert!(matches!(values[0], SqlValue::Uuid(9)));
    assert!(matches!(&values[1], SqlValue::String(n) if n == "dmz"));
    assert!(matches!(&values[2], SqlValue::OptionalString(Some(d)) if d == "edge"));
    assert!(matches!(values[5], SqlValue::SubnetType(SubnetType::Dmz)));
    assert!(matches!(values[6], SqlValue::Uuid(3)));
    assert!(matches!(values[8], SqlValue::Timestamp(2)));
    assert_eq!(Subnet::table_name(), "subnets");
}

#[test]
fn updating_the_time_keeps_the_rest() {
    let mut s = stored(5, cidr(1, 24), EntitySource::Manual);
    s.set_updated_at(99);
    assert_eq!(s.updated_at(), 99);
    assert_eq!(s.created_at(), 10);
    assert_eq!(s.id(), 5);
    assert_eq!(s.get_base().cidr, cidr(1, 24));
}

fn host(host_id: u128, subnets: &[u128]) -> HostInterfaces<u8> {
    HostInterfaces {
        host_id,
        interfaces: subnets.iter().map(|&subnet_id| Interface { subnet_id, details: 0 }).collect(),
    }
}

#[test]
fn only_hosts_on_the_subnet_are_rewritten() {
    let updates = updates_for(vec![host(1, &[5, 6]), host(2, &[6]), host(3, &[5])], 5);
    assert_eq!(updates.len(), 2);
    assert_eq!(updates[0].host_id, 1);
    assert_eq!(updates[0].interfaces.len(), 1);
    assert_eq!(updates[0].interfaces[0].subnet_id, 6);
    assert_eq!(updates[1].host_id, 3);
    assert!(updates[1].interfaces.is_empty());
}

#[test]
fn deleting_a_subnet_rewrites_its_hosts_then_deletes() {
    let (stage, action): (DeleteStage, DeleteAction<u8>) = delete_start();
    assert_eq!(stage, DeleteStage::AwaitSubnet);
    assert!(matches!(action, DeleteAction::LookupSubnet));
    let found = stored(5, cidr(1, 24), EntitySource::Manual);
    let (stage, action) = delete_step(stage, DeleteEvent::<u8>::SubnetFound(Ok(Some(found))), 5);
    assert_eq!(stage, DeleteStage::AwaitHosts);
    assert!(matches!(action, DeleteAction::ListHosts { network_id: 7 }));
    let (stage, action) = delete_step(stage, DeleteEvent::Hosts(Ok(vec![host(1, &[5, 6]), host(2, &[6])])), 5);
    assert_eq!(stage, DeleteStage::AwaitHostWrites);
    match action {
        DeleteAction::WriteHosts { updates } => {
            assert_eq!(updates.len(), 1);
            assert_eq!(updates[0].host_id, 1);
        },
        other => panic!("unexpected action {:?}", other),
    }
    let (stage, action) = delete_step(stage, DeleteEvent::<u8>::HostsWritten(Ok(())), 5);
    assert_eq!(stage, DeleteStage::AwaitDelete);
    assert!(matches!(action, DeleteAction::DeleteSubnet));
    let (stage, action) = delete_step(stage, DeleteEvent::<u8>::Deleted(Ok(())), 5);
    assert_eq!(stage, DeleteStage::Finished);
    assert!(matches!(action, DeleteAction::Respond { result: Ok(()) }));
}

#[test]
fn deleting_without_hosts_on_it_goes_straight_to_the_delete() {
    let (_, action) = delete_step(DeleteStage::AwaitHosts, DeleteEvent::Hosts(Ok(vec![host(1, &[6])])), 5);
    assert!(matches!(action, DeleteAction::DeleteSubnet));
}

#[test]
fn deleting_a_missing_subnet_or_failing_a_write_stops() {
    let (stage, action) = delete_step(DeleteStage::AwaitSubnet, DeleteEvent::<u8>::SubnetFound(Ok(None)), 5);
    assert_eq!(stage, DeleteStage::Finished);
    match action {
        DeleteAction::Respond { result: Err(m) } => assert_eq!(m, "Subnet not found"),
        other => panic!("unexpected action {:?}", other),
    }
    let (stage, action) =
        delete_step(DeleteStage::AwaitHostWrites, DeleteEvent::<u8>::HostsWritten(Err("down".to_string())), 5);
    assert_eq!(stage, DeleteStage::Finished);
    match action {
        DeleteAction::Respond { result: Err(m) } => assert_eq!(m, "down"),
        other => panic!("unexpected action {:?}", other),
    }
    let (_, action) =
        delete_step(DeleteStage::AwaitSubnet, DeleteEvent::<u8>::SubnetFound(Err("db".to_string())), 5);
    assert!(matches!(action, DeleteAction::Respond { result: Err(m) } if m == "db"));
}
