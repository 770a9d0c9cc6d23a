use netvisor::daemon::{port_from_column, Daemon, DaemonBase, DaemonCapabilities, IpAddress};
use netvisor::discovery::EntitySource;
use netvisor::entity::{SqlValue, StorableEntity};
use netvisor::group::{Group, GroupBase, GroupService};
use netvisor::network::{network_ids, Network, NetworkBase};

#[test]
fn a_new_network_is_named_and_not_default() {
    let b = NetworkBase::new(5);
    assert_eq!(b.name, "My Network");
    assert_eq!(b.user_id, 5);
    assert!(!b.is_default);
    let n = Network::new(b);
    assert_ne!(n.id, 0);
    assert_eq!(n.created_at, n.updated_at);
    // Creation times are nanoseconds since the epoch: after 2020.
    assert!(n.created_at > 1_577_836_800_000_000_000);
    assert_eq!(Network::table_name(), "networks");
}

#[test]
fn network_display_and_columns() {
    let n = Network {
        id: 0x0102030405060708090a0b0c0d0e0f10,
        created_at: 1,
        updated_at: 2,
        base: NetworkBase { name: "Home".to_string(), user_id: 9, is_default: true },
    };
    assert_eq!(n.display_text(), "Home: 01020304-0506-0708-090a-0b0c0d0e0f10");
    let (columns, values) = n.to_params();
    assert_eq!(columns, vec!["id", "created_at", "updated_at", "name", "user_id", "is_default"]);
    assert!(matches!(values[4], SqlValue::Uuid(9)));
    assert!(matches!(values[5], SqlValue::Bool(true)));
    assert_eq!(network_ids(&vec![n]), vec![0x0102030405060708090a0b0c0d0e0f10]);
}

#[test]
fn group_display() {
    let g = Group {
        id: 1,
        created_at: 0,
        updated_at: 0,
        base: GroupBase {
            name: "Web".to_string(),
            network_id: 2,
            description: None,
            group_type: (),
            source: EntitySource::Manual,
            color: "blue".to_string(),
        },
    };
    assert_eq!(g.display_text(), "Group Web: 00000000-0000-0000-0000-000000000001");
    let service = GroupService::new(7u8);
    assert_eq!(*service.storage(), 7);
}

#[test]
fn daemon_columns_and_port() {
    let d = Daemon {
        id: 1,
        created_at: 2,
        updated_at: 3,
        base: DaemonBase {
            network_id: 4,
            host_id: 5,
            ip: IpAddress::V4(0x0a000001),
            port: 60073,
            capabilities: DaemonCapabilities { has_docker_socket: true, interfaced_subnet_ids: vec![6] },
            last_seen: 7,
        },
    };
    let (columns, values) = d.to_params();
    assert_eq!(
        columns,
        vec!["id", "created_at", "updated_at", "last_seen", "network_id", "host_id", "capabilities", "port", "ip"]
    );
    assert!(matches!(values[3], SqlValue::Timestamp(7)));
    assert!(matches!(&values[6], SqlValue::DaemonCapabilities(c) if c.interfaced_subnet_ids == vec![6]));
    assert!(matches!(values[7], SqlValue::U16(60073)));
    assert!(matches!(values[8], SqlValue::IpAddr(IpAddress::V4(0x0a000001))));
    assert_eq!(Daemon::table_name(), "daemons");
    assert_eq!(port_from_column(65535), 65535);
    let fresh = Daemon::new(d.get_base());
    assert_ne!(fresh.id, 0);
    assert_eq!(fresh.base.port, 60073);
}
