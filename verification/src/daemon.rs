//! Daemons: the agents that run discovery on a network.

use vstd::prelude::*;

use crate::discovery::clone_ids;
use crate::entity::{column_names, sql_views, SqlValue, SqlValueView, StorableEntity};
use crate::ids::{new_id, now_nanos};

verus! {

/// An IP address.
#[derive(Debug, Clone, Copy, PartialEq, Eq, Structural, Hash)]
pub enum IpAddress {
    V4(u32),
    V6(u128),
}

/// What a daemon can do on its host.
#[derive(Debug)]
pub struct DaemonCapabilities {
    pub has_docker_socket: bool,
    pub interfaced_subnet_ids: Vec<u128>,
}

pub ghost struct CapabilitiesView {
    pub has_docker_socket: bool,
    pub interfaced_subnet_ids: Seq<u128>,
}

impl View for DaemonCapabilities {
    type V = CapabilitiesView;

    open spec fn view(&self) -> CapabilitiesView {
        CapabilitiesView {
            has_docker_socket: self.has_docker_socket,
            interfaced_subnet_ids: self.interfaced_subnet_ids@,
        }
    }
}

impl Clone for DaemonCapabilities {
    fn clone(&self) -> (r: Self)
        ensures
            r@ == self@,
    {
        DaemonCapabilities {
            has_docker_socket: self.has_docker_socket,
            interfaced_subnet_ids: clone_ids(&self.interfaced_subnet_ids),
        }
    }
}


/// The data of a daemon that a client supplies.
#[derive(Debug)]
pub struct DaemonBase {
    pub network_id: u128,
    pub host_id: u128,
    pub ip: IpAddress,
    pub port: u16,
    pub capabilities: DaemonCapabilities,
    /// When the daemon was last heard from, in nanoseconds since the Unix
    /// epoch.
    pub last_seen: i128,
}

pub ghost struct DaemonBaseView {
    pub network_id: u128,
    pub host_id: u128,
    pub ip: IpAddress,
    pub port: u16,
    pub capabilities: CapabilitiesView,
    pub last_seen: i128,
}

impl View for DaemonBase {
    type V = DaemonBaseView;

    open spec fn view(&self) -> DaemonBaseView {
        DaemonBaseView {
            network_id: self.network_id,
            host_id: self.host_id,
            ip: self.ip,
            port: self.port,
            capabilities: self.capabilities@,
            last_seen: self.last_seen,
        }
    }
}

impl Clone for DaemonBase {
    fn clone(&self) -> (r: Self)
        ensures
            r@ == self@,
    {
        DaemonBase {
            network_id: self.network_id,
            host_id: self.host_id,
            ip: self.ip,
            port: self.port,
            capabilities: self.capabilities.clone(),
            last_seen: self.last_seen,
        }
    }
}

/// A stored daemon.
#[derive(Debug)]
pub struct Daemon {
    pub id: u128,
    pub created_at: i128,
    pub updated_at: i128,
    pub base: DaemonBase,
}

pub ghost struct DaemonView {
    pub id: u128,
    pub created_at: i128,
    pub updated_at: i128,
    pub base: DaemonBaseView,
}

impl View for Daemon {
    type V = DaemonView;

    open spec fn view(&self) -> DaemonView {
        DaemonView {
            id: self.id,
            created_at: self.created_at,
            updated_at: self.updated_at,
            base: self.base@,
        }
    }
}

pub open spec fn daemon_columns() -> Seq<Seq<char>> {
    seq![
        "id"@,
        "created_at"@,
        "updated_at"@,
        "last_seen"@,
        "network_id"@,
        "host_id"@,
        "capabilities"@,
        "port"@,
        "ip"@,
    ]
}

pub open spec fn daemon_values(d: DaemonView) -> Seq<SqlValueView> {
    seq![
        SqlValueView::Uuid(d.id),
        SqlValueView::Timestamp(d.created_at),
        SqlValueView::Timestamp(d.updated_at),
        SqlValueView::Timestamp(d.base.last_seen),
        SqlValueView::Uuid(d.base.network_id),
        SqlValueView::Uuid(d.base.host_id),
        SqlValueView::DaemonCapabilities(d.base.capabilities),
        SqlValueView::U16(d.base.port),
        SqlValueView::IpAddr(d.base.ip),
    ]
}

/// The value that a daemon's column holds, found by the column's name.
pub open spec fn daemon_column_value(d: DaemonView, column: Seq<char>) -> Option<SqlValueView> {
    if column == "id"@ {
        Some(SqlValueView::Uuid(d.id))
    } else if column == "created_at"@ {
        Some(SqlValueView::Timestamp(d.created_at))
    } else if column == "updated_at"@ {
        Some(SqlValueView::Timestamp(d.updated_at))
    } else if column == "last_seen"@ {
        Some(SqlValueView::Timestamp(d.base.last_seen))
    } else if column == "network_id"@ {
        Some(SqlValueView::Uuid(d.base.network_id))
    } else if column == "host_id"@ {
        Some(SqlValueView::Uuid(d.base.host_id))
    } else if column == "capabilities"@ {
        Some(SqlValueView::DaemonCapabilities(d.base.capabilities))
    } else if column == "port"@ {
        Some(SqlValueView::U16(d.base.port))
    } else if column == "ip"@ {
        Some(SqlValueView::IpAddr(d.base.ip))
    } else {
        None
    }
}

impl StorableEntity for Daemon {
    type BaseData = DaemonBase;

    open spec fn spec_id(&self) -> u128 {
        self.id
    }

    open spec fn spec_base(&self) -> DaemonBaseView {
        self.base@
    }

    open spec fn spec_created_at(&self) -> i128 {
        self.created_at
    }

    open spec fn spec_updated_at(&self) -> i128 {
        self.updated_at
    }

    open spec fn spec_table_name() -> Seq<char> {
        "daemons"@
    }

    fn table_name() -> (r: &'static str) {
        "daemons"
    }

    fn get_base(&self) -> (r: DaemonBase) {
        self.base.clone()
    }

    fn new(base: DaemonBase) -> (r: Self)
        ensures
            r.base == base,
    {
        let now = now_nanos();
        Daemon { id: new_id(), created_at: now, updated_at: now, base }
    }

    fn id(&self) -> (r: u128) {
        self.id
    }

    fn created_at(&self) -> (r: i128) {
        self.created_at
    }

    fn updated_at(&self) -> (r: i128) {
        self.updated_at
    }

    fn set_updated_at(&mut self, time: i128)
        ensures
            final(self).base == old(self).base,
    {
        self.updated_at = time;
    }

    fn to_params(&self) -> (r: (Vec<&'static str>, Vec<SqlValue>))
        ensures
            column_names(r.0@) == daemon_columns(),
            sql_views(r.1@) == daemon_values(self@),
            r.0@.len() == r.1@.len(),
            forall|k: int| 0 <= k < r.0@.len() ==> daemon_column_value(self@, #[trigger] r.0@[k]@) == Some(r.1@[k]@),
    {
        let columns = vec![
            "id",
            "created_at",
            "updated_at",
            "last_seen",
            "network_id",
            "host_id",
            "capabilities",
            "port",
            "ip",
        ];
        let values = vec![
            SqlValue::Uuid(self.id),
            SqlValue::Timestamp(self.created_at),
            SqlValue::Timestamp(self.updated_at),
            SqlValue::Timestamp(self.base.last_seen),
            SqlValue::Uuid(self.base.network_id),
            SqlValue::Uuid(self.base.host_id),
            SqlValue::DaemonCapabilities(self.base.capabilities.clone()),
            SqlValue::U16(self.base.port),
            SqlValue::IpAddr(self.base.ip),
        ];
        assert(column_names(columns@) =~= daemon_columns());
        assert(sql_views(values@) =~= daemon_values(self@));
        proof {
            crate::laws::daemon_columns_hold_their_fields(self@);
            assert forall|k: int| 0 <= k < columns@.len() implies daemon_column_value(self@, #[trigger] columns@[k]@) == Some(
                values@[k]@,
            ) by {
                assert(column_names(columns@)[k] == columns@[k]@);
                assert(sql_views(values@)[k] == values@[k]@);
            }
        }
        (columns, values)
    }
}

/// The port of a daemon as it comes back from its stored column.
pub fn port_from_column(stored: i32) -> (r: u16)
    requires
        0 <= stored <= u16::MAX,
    ensures
        r == stored,
{
    stored as u16
}
} // verus!
