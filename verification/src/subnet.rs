//! Subnets: their data, how they are stored, and the rules that decide
//! whether a subnet being created duplicates one that exists.

use vstd::prelude::*;

use crate::discovery::{metadata_views, DiscoveryKind, DiscoveryType, EntitySource, SourceView};
use crate::entity::{
    clone_opt_string, column_names, opt_text, prepare_for_create, prepared_for_create, sql_views,
    SqlValue, SqlValueView, StorableEntity,
};
use crate::ids::{is_random_uuid, new_id, now_nanos, NIL_ID};
use crate::subnet_type::SubnetType;

verus! {

/// An IP network: an address and the length of its network prefix.
#[derive(Debug, Clone, Copy, PartialEq, Eq, Structural, Hash)]
#[allow(inconsistent_fields)]
pub enum IpCidr {
    V4 { address: u32, prefix_len: u8 },
    V6 { address: u128, prefix_len: u8 },
}

/// The data of a subnet that a client supplies.
#[derive(Debug)]
pub struct SubnetBase {
    pub name: String,
    pub network_id: u128,
    pub source: EntitySource,
    pub cidr: IpCidr,
    pub subnet_type: SubnetType,
    pub description: Option<String>,
}

pub ghost struct SubnetBaseView {
    pub name: Seq<char>,
    pub network_id: u128,
    pub source: SourceView,
    pub cidr: IpCidr,
    pub subnet_type: SubnetType,
    pub description: Option<Seq<char>>,
}

impl View for SubnetBase {
    type V = SubnetBaseView;

    open spec fn view(&self) -> SubnetBaseView {
        SubnetBaseView {
            name: self.name@,
            network_id: self.network_id,
            source: self.source@,
            cidr: self.cidr,
            subnet_type: self.subnet_type,
            description: opt_text(self.description),
        }
    }
}

impl Clone for SubnetBase {
    fn clone(&self) -> (r: Self)
        ensures
            r@ == self@,
    {
        SubnetBase {
            name: self.name.clone(),
            network_id: self.network_id,
            source: self.source.clone(),
            cidr: self.cidr,
            subnet_type: self.subnet_type,
            description: clone_opt_string(&self.description),
        }
    }
}

/// A stored subnet.
#[derive(Debug)]
pub struct Subnet {
    pub id: u128,
    pub created_at: i128,
    pub updated_at: i128,
    pub base: SubnetBase,
}

pub ghost struct SubnetView {
    pub id: u128,
    pub created_at: i128,
    pub updated_at: i128,
    pub base: SubnetBaseView,
}

impl View for Subnet {
    type V = SubnetView;

    open spec fn view(&self) -> SubnetView {
        SubnetView {
            id: self.id,
            created_at: self.created_at,
            updated_at: self.updated_at,
            base: self.base@,
        }
    }
}

impl Clone for Subnet {
    fn clone(&self) -> (r: Self)
        ensures
            r@ == self@,
    {
        Subnet {
            id: self.id,
            created_at: self.created_at,
            updated_at: self.updated_at,
            base: self.base.clone(),
        }
    }
}

pub open spec fn subnet_columns() -> Seq<Seq<char>> {
    seq![
        "id"@,
        "name"@,
        "description"@,
        "cidr"@,
        "source"@,
        "subnet_type"@,
        "network_id"@,
        "created_at"@,
        "updated_at"@,
    ]
}

pub open spec fn subnet_values(s: SubnetView) -> Seq<SqlValueView> {
    seq![
        SqlValueView::Uuid(s.id),
        SqlValueView::String(s.base.name),
        SqlValueView::OptionalString(s.base.description),
        SqlValueView::IpCidr(s.base.cidr),
        SqlValueView::EntitySource(s.base.source),
        SqlValueView::SubnetType(s.base.subnet_type),
        SqlValueView::Uuid(s.base.network_id),
        SqlValueView::Timestamp(s.created_at),
        SqlValueView::Timestamp(s.updated_at),
    ]
}

/// The value that a subnet's column holds, found by the column's name.
pub open spec fn subnet_column_value(s: SubnetView, column: Seq<char>) -> Option<SqlValueView> {
    if column == "id"@ {
        Some(SqlValueView::Uuid(s.id))
    } else if column == "name"@ {
        Some(SqlValueView::String(s.base.name))
    } else if column == "description"@ {
        Some(SqlValueView::OptionalString(s.base.description))
    } else if column == "cidr"@ {
        Some(SqlValueView::IpCidr(s.base.cidr))
    } else if column == "source"@ {
        Some(SqlValueView::EntitySource(s.base.source))
    } else if column == "subnet_type"@ {
        Some(SqlValueView::SubnetType(s.base.subnet_type))
    } else if column == "network_id"@ {
        Some(SqlValueView::Uuid(s.base.network_id))
    } else if column == "created_at"@ {
        Some(SqlValueView::Timestamp(s.created_at))
    } else if column == "updated_at"@ {
        Some(SqlValueView::Timestamp(s.updated_at))
    } else {
        None
    }
}

impl StorableEntity for Subnet {
    type BaseData = SubnetBase;

    open spec fn spec_id(&self) -> u128 {
        self.id
    }

    open spec fn spec_base(&self) -> SubnetBaseView {
        self.base@
    }

    open spec fn spec_created_at(&self) -> i128 {
        self.created_at
    }

    open spec fn spec_updated_at(&self) -> i128 {
        self.updated_at
    }

    open spec fn spec_table_name() -> Seq<char> {
        "subnets"@
    }

    fn table_name() -> (r: &'static str) {
        "subnets"
    }

    fn get_base(&self) -> (r: SubnetBase) {
        self.base.clone()
    }

    fn new(base: SubnetBase) -> (r: Self)
        ensures
            r.base == base,
    {
        let now = now_nanos();
        Subnet { id: new_id(), created_at: now, updated_at: now, base }
    }

    fn id(&self) -> (r: u128) {
        self.id
    }

    fn created_at(&self) -> (r: i128) {
        self.created_at
    }

    fn updated_at(&self) -> (r: i128) {
        self.updated_at
    }

    fn set_updated_at(&mut self, time: i128)
        ensures
            final(self).base == old(self).base,
    {
        self.updated_at = time;
    }

    fn to_params(&self) -> (r: (Vec<&'static str>, Vec<SqlValue>))
        ensures
            column_names(r.0@) == subnet_columns(),
            sql_views(r.1@) == subnet_values(self@),
            r.0@.len() == r.1@.len(),
            forall|k: int| 0 <= k < r.0@.len() ==> subnet_column_value(self@, #[trigger] r.0@[k]@) == Some(r.1@[k]@),
    {
        let copy = self.clone();
        let Subnet { id, created_at, updated_at, base } = copy;
        let SubnetBase { name, network_id, source, cidr, subnet_type, description } = base;
        let columns = vec![
            "id",
            "name",
            "description",
            "cidr",
            "source",
            "subnet_type",
            "network_id",
            "created_at",
            "updated_at",
        ];
        let values = vec![
            SqlValue::Uuid(id),
            SqlValue::String(name),
            SqlValue::OptionalString(description),
            SqlValue::IpCidr(cidr),
            SqlValue::EntitySource(source),
            SqlValue::SubnetType(subnet_type),
            SqlValue::Uuid(network_id),
            SqlValue::Timestamp(created_at),
            SqlValue::Timestamp(updated_at),
        ];
        assert(column_names(columns@) =~= subnet_columns());
        assert(sql_views(values@) =~= subnet_values(self@));
        proof {
            crate::laws::subnet_columns_hold_their_fields(self@);
            assert forall|k: int| 0 <= k < columns@.len() implies subnet_column_value(self@, #[trigger] columns@[k]@) == Some(
                values@[k]@,
            ) by {
                assert(column_names(columns@)[k] == columns@[k]@);
                assert(sql_views(values@)[k] == values@[k]@);
            }
        }
        (columns, values)
    }
}


/// What a subnet being created turns into.
#[derive(Debug, Clone, Copy, PartialEq, Eq, Structural)]
pub enum CreateOutcome {
    /// An existing subnet, at this index of the subnets of the network,
    /// stands for it: that one is returned and nothing is stored.
    ReuseExisting(usize),
    /// The subnet is stored as a new one.
    Insert,
}

/// Why a subnet cannot be created.
#[derive(Debug, Clone, Copy, PartialEq, Eq, Structural)]
pub enum SubnetCreateError {
    /// A discovered subnet arrived without the metadata of the run that
    /// found it, so it cannot be compared with a discovered duplicate.
    MissingDiscoveryMetadata,
}

impl SubnetCreateError {
    pub fn message(&self) -> (r: &'static str)
        ensures
            r@ == "Error comparing discovered subnets during creation: subnet missing discovery metadata"@,
    {
        "Error comparing discovered subnets during creation: subnet missing discovery metadata"
    }
}

pub open spec fn subnet_views(subnets: Seq<Subnet>) -> Seq<SubnetView> {
    subnets.map_values(|s: Subnet| s@)
}

/// Two subnets are the same when they cover the same address range.
pub open spec fn same_range(a: SubnetBaseView, b: SubnetBaseView) -> bool {
    a.cidr == b.cidr
}

/// `i` is the first of `existing` that covers the same range as `candidate`.
pub open spec fn is_first_same_range(candidate: SubnetBaseView, existing: Seq<SubnetView>, i: int) -> bool {
    &&& 0 <= i < existing.len()
    &&& same_range(existing[i].base, candidate)
    &&& forall|j: int| 0 <= j < i ==> !same_range(#[trigger] existing[j].base, candidate)
}

/// Two discovery runs agree on their origin unless both are Docker scans of
/// different hosts.
pub open spec fn same_docker_host(found_by: DiscoveryKind, other: DiscoveryKind) -> bool {
    match found_by {
        DiscoveryKind::Docker { host_id: a, .. } => match other {
            DiscoveryKind::Docker { host_id: b, .. } => a == b,
            _ => true,
        },
        _ => true,
    }
}

/// Whether an existing subnet with the given source stands for a new one
/// with the given source; `None` when they cannot be compared.
///
/// Two discovered subnets are merged when the run that found the new one
/// agrees on its origin with one of the runs that found the existing one
/// (Docker bridges share default ranges, so bridges of different hosts are
/// kept apart). System subnets are never merged with anything; all other
/// pairs are.
pub open spec fn reuse_existing(existing: SourceView, candidate: SourceView) -> Option<bool> {
    match existing {
        SourceView::Discovery { metadata: found } => match candidate {
            SourceView::Discovery { metadata } => if metadata.len() > 0 {
                Some(
                    exists|k: int|
                        0 <= k < found.len() && #[trigger] same_docker_host(
                            metadata[0].discovery_type,
                            found[k].discovery_type,
                        ),
                )
            } else {
                None
            },
            SourceView::System => Some(false),
            SourceView::Manual => Some(true),
        },
        SourceView::System => Some(false),
        SourceView::Manual => match candidate {
            SourceView::System => Some(false),
            _ => Some(true),
        },
    }
}

/// What creating a subnet with data `candidate` in a network whose subnets
/// are `existing` comes to: only the first existing subnet with the same
/// range is considered.
pub open spec fn create_decision(candidate: SubnetBaseView, existing: Seq<SubnetView>) -> Result<
    CreateOutcome,
    SubnetCreateError,
> {
    if exists|i: int| is_first_same_range(candidate, existing, i) {
        let i = choose|i: int| is_first_same_range(candidate, existing, i);
        match reuse_existing(existing[i].base.source, candidate.source) {
            None => Err(SubnetCreateError::MissingDiscoveryMetadata),
            Some(true) => Ok(CreateOutcome::ReuseExisting(i as usize)),
            Some(false) => Ok(CreateOutcome::Insert),
        }
    } else {
        Ok(CreateOutcome::Insert)
    }
}

fn same_docker_host_exec(found_by: &DiscoveryType, other: &DiscoveryType) -> (r: bool)
    ensures
        r == same_docker_host(found_by@, other@),
{
    match found_by {
        DiscoveryType::Docker { host_id: a, .. } => match other {
            DiscoveryType::Docker { host_id: b, .. } => *a == *b,
            _ => true,
        },
        _ => true,
    }
}

/// Decides `reuse_existing` for two sources.
#[verifier::spinoff_prover]
pub fn reuse_verdict(existing: &EntitySource, candidate: &EntitySource) -> (r: Option<bool>)
    ensures
        r == reuse_existing(existing@, candidate@),
{
    match existing {
        EntitySource::Discovery { metadata: found } => match candidate {
            EntitySource::Discovery { metadata } => {
                if metadata.len() == 0 {
                    return None;
                }
                let first = &metadata[0].discovery_type;
                let ghost views = metadata_views(found@);
                let mut k: usize = 0;
                while k < found.len()
                    invariant
                        k <= found@.len(),
                        views == metadata_views(found@),
                        metadata@.len() > 0,
                        existing@ == (SourceView::Discovery { metadata: views }),
                        candidate@ == (SourceView::Discovery { metadata: metadata_views(metadata@) }),
                        *first == metadata@[0].discovery_type,
                        forall|j: int| 0 <= j < k ==> !#[trigger] same_docker_host(metadata@[0].discovery_type@, views[j].discovery_type),
                    decreases found@.len() - k,
                {
                    if same_docker_host_exec(first, &found[k].discovery_type) {
                        let ghost m = metadata_views(metadata@);
                        assert(same_docker_host(m[0].discovery_type, views[k as int].discovery_type));
                        assert(exists|j: int| 0 <= j < views.len() && #[trigger] same_docker_host(
                            m[0].discovery_type,
                            views[j].discovery_type,
                        ));
                        return Some(true);
                    }
                    k = k + 1;
                }
                assert(metadata_views(metadata@)[0].discovery_type == metadata@[0].discovery_type@);
                Some(false)
            },
            EntitySource::System => Some(false),
            EntitySource::Manual => Some(true),
        },
        EntitySource::System => Some(false),
        EntitySource::Manual => match candidate {
            EntitySource::System => Some(false),
            _ => Some(true),
        },
    }
}

/// Decides what creating a subnet with data `candidate` comes to, given the
/// subnets that exist in its network.
pub fn decide_create(candidate: &SubnetBase, existing: &Vec<Subnet>) -> (r: Result<
    CreateOutcome,
    SubnetCreateError,
>)
    ensures
        r == create_decision(candidate@, subnet_views(existing@)),
{
    let ghost views = subnet_views(existing@);
    let mut i: usize = 0;
    while i < existing.len()
        invariant
            i <= existing@.len(),
            views == subnet_views(existing@),
            forall|j: int| 0 <= j < i ==> !same_range(#[trigger] views[j].base, candidate@),
        decreases existing@.len() - i,
    {
        if existing[i].base.cidr == candidate.cidr {
            assert(is_first_same_range(candidate@, views, i as int));
            assert forall|j: int| is_first_same_range(candidate@, views, j) implies j == i by {
                if j < i {
                    assert(!same_range(views[j].base, candidate@));
                }
                if j > i {
                    assert(!same_range(views[i as int].base, candidate@));
                }
            }
            let verdict = reuse_verdict(&existing[i].base.source, &candidate.source);
            return match verdict {
                None => Err(SubnetCreateError::MissingDiscoveryMetadata),
                Some(true) => Ok(CreateOutcome::ReuseExisting(i)),
                Some(false) => Ok(CreateOutcome::Insert),
            };
        }
        i = i + 1;
    }
    assert(!exists|j: int| is_first_same_range(candidate@, views, j));
    Ok(CreateOutcome::Insert)
}

/// A network interface of a host, on the subnet `subnet_id`; `details` is
/// the rest of what the host records of it.
#[derive(Debug)]
pub struct Interface<D> {
    pub subnet_id: u128,
    pub details: D,
}

pub open spec fn on_other_subnet<D>(subnet_id: u128) -> spec_fn(Interface<D>) -> bool {
    |i: Interface<D>| i.subnet_id != subnet_id
}

/// Removes from a host's interfaces those on the subnet `subnet_id`.
/// The flag tells whether any was removed, that is, whether the host must
/// be written back.
pub fn detach_subnet<D>(interfaces: Vec<Interface<D>>, subnet_id: u128) -> (r: (Vec<Interface<D>>, bool))
    ensures
        r.0@ == interfaces@.filter(on_other_subnet(subnet_id)),
        r.1 == exists|k: int| 0 <= k < interfaces@.len() && #[trigger] interfaces@[k].subnet_id == subnet_id,
{
    let ghost all = interfaces@;
    let ghost pred = on_other_subnet::<D>(subnet_id);
    let mut kept: Vec<Interface<D>> = Vec::new();
    let mut removed = false;
    for item in it: interfaces.into_iter()
        invariant
            it.seq() == all,
            pred == on_other_subnet::<D>(subnet_id),
            kept@ == all.take(it.index() as int).filter(pred),
            removed == exists|k: int| 0 <= k < it.index() && #[trigger] all[k].subnet_id == subnet_id,
    {
        let ghost i = it.index() as int;
        proof {
            assert(all.take(i + 1).last() == all[i]);
            assert(item == all[i]);
        }
        let ghost before = kept@;
        let ghost current = item;
        assert(pred(current) == (current.subnet_id != subnet_id));
        if item.subnet_id == subnet_id {
            removed = true;
        } else {
            kept.push(item);
        }
        assert(kept@ == all.take(i + 1).filter(pred)) by {
            reveal(Seq::filter);
            assert(all.take(i + 1).drop_last() =~= all.take(i));
            if pred(current) {
                assert(kept@ =~= before.push(current));
            }
        }
    }
    assert(all.take(all.len() as int) =~= all);
    (kept, removed)
}

/// A host, by its identifier, with its network interfaces.
#[derive(Debug)]
pub struct HostInterfaces<D> {
    pub host_id: u128,
    pub interfaces: Vec<Interface<D>>,
}

pub open spec fn hosts_view<D>(hosts: Seq<HostInterfaces<D>>) -> Seq<(u128, Seq<Interface<D>>)> {
    hosts.map_values(|h: HostInterfaces<D>| (h.host_id, h.interfaces@))
}

/// Whether one of `interfaces` is on the subnet `subnet_id`.
pub open spec fn has_interface_on<D>(interfaces: Seq<Interface<D>>, subnet_id: u128) -> bool {
    exists|k: int| 0 <= k < interfaces.len() && #[trigger] interfaces[k].subnet_id == subnet_id
}

/// The hosts that have an interface on the subnet `subnet_id`, in order,
/// each with the interfaces that it keeps once the subnet is gone.
pub open spec fn host_updates<D>(hosts: Seq<(u128, Seq<Interface<D>>)>, subnet_id: u128) -> Seq<
    (u128, Seq<Interface<D>>),
>
    decreases hosts.len(),
{
    if hosts.len() == 0 {
        seq![]
    } else {
        let before = host_updates(hosts.drop_last(), subnet_id);
        let host = hosts.last();
        if has_interface_on(host.1, subnet_id) {
            before.push((host.0, host.1.filter(on_other_subnet(subnet_id))))
        } else {
            before
        }
    }
}

/// The hosts to write back when the subnet `subnet_id` is deleted.
pub fn updates_for<D>(hosts: Vec<HostInterfaces<D>>, subnet_id: u128) -> (r: Vec<HostInterfaces<D>>)
    ensures
        hosts_view(r@) == host_updates(hosts_view(hosts@), subnet_id),
{
    let ghost given = hosts@;
    let ghost all = hosts_view(hosts@);
    let mut out: Vec<HostInterfaces<D>> = Vec::new();
    for host in it: hosts.into_iter()
        invariant
            it.seq() == given,
            all == hosts_view(given),
            hosts_view(out@) == host_updates(all.take(it.index() as int), subnet_id),
    {
        let ghost i = it.index() as int;
        let ghost before = out@;
        proof {
            assert(host == given[i]);
            assert(all.take(i + 1).drop_last() =~= all.take(i));
            assert(all.take(i + 1).last() == (host.host_id, host.interfaces@));
        }
        let HostInterfaces { host_id, interfaces } = host;
        let (kept, changed) = detach_subnet(interfaces, subnet_id);
        if changed {
            let update = HostInterfaces { host_id, interfaces: kept };
            out.push(update);
            assert(hosts_view(out@) =~= hosts_view(before).push((host_id, kept@)));
        }
    }
    assert(all.take(all.len() as int) =~= all);
    out
}

/// Where the deletion of a subnet stands.
#[derive(Debug, Clone, Copy, PartialEq, Eq, Structural)]
pub enum DeleteStage {
    AwaitSubnet,
    AwaitHosts,
    AwaitHostWrites,
    AwaitDelete,
    Finished,
}

/// What came of the last action; errors are the storage's messages.
#[derive(Debug)]
pub enum DeleteEvent<D> {
    /// The subnet that is to be deleted, if it exists.
    SubnetFound(Result<Option<Subnet>, String>),
    /// The hosts of the subnet's network.
    Hosts(Result<Vec<HostInterfaces<D>>, String>),
    /// Whether every host update was written.
    HostsWritten(Result<(), String>),
    Deleted(Result<(), String>),
}

/// What the caller does next.
#[derive(Debug)]
pub enum DeleteAction<D> {
    LookupSubnet,
    ListHosts { network_id: u128 },
    /// Write these hosts back with the interfaces given.
    WriteHosts { updates: Vec<HostInterfaces<D>> },
    DeleteSubnet,
    Respond { result: Result<(), String> },
}

/// Which event each stage waits for.
pub open spec fn delete_expects<D>(stage: DeleteStage, event: DeleteEvent<D>) -> bool {
    match stage {
        DeleteStage::AwaitSubnet => event is SubnetFound,
        DeleteStage::AwaitHosts => event is Hosts,
        DeleteStage::AwaitHostWrites => event is HostsWritten,
        DeleteStage::AwaitDelete => event is Deleted,
        DeleteStage::Finished => false,
    }
}

/// The deletion starts by looking the subnet up.
pub fn delete_start<D>() -> (r: (DeleteStage, DeleteAction<D>))
    ensures
        r.0 == DeleteStage::AwaitSubnet,
        r.1 is LookupSubnet,
{
    (DeleteStage::AwaitSubnet, DeleteAction::LookupSubnet)
}

/// One step of deleting the subnet `subnet_id`: a missing subnet is an
/// error; the hosts of its network that have an interface on it are
/// written back without that interface; only once every write succeeded is
/// the subnet deleted. Every storage error ends the deletion with it.
pub fn delete_step<D>(stage: DeleteStage, event: DeleteEvent<D>, subnet_id: u128) -> (r: (
    DeleteStage,
    DeleteAction<D>,
))
    requires
        delete_expects(stage, event),
    ensures
        match (stage, event) {
            (DeleteStage::AwaitSubnet, DeleteEvent::SubnetFound(Err(e))) => r.0 == DeleteStage::Finished
                && r.1 == DeleteAction::<D>::Respond { result: Err(e) },
            (DeleteStage::AwaitSubnet, DeleteEvent::SubnetFound(Ok(None))) => r.0 == DeleteStage::Finished
                && (r.1 matches DeleteAction::Respond { result: Err(m) } && m@ == "Subnet not found"@),
            (DeleteStage::AwaitSubnet, DeleteEvent::SubnetFound(Ok(Some(subnet)))) => r.0
                == DeleteStage::AwaitHosts && r.1 == DeleteAction::<D>::ListHosts {
                network_id: subnet.base.network_id,
            },
            (DeleteStage::AwaitHosts, DeleteEvent::Hosts(Err(e))) => r.0 == DeleteStage::Finished && r.1
                == DeleteAction::<D>::Respond { result: Err(e) },
            (DeleteStage::AwaitHosts, DeleteEvent::Hosts(Ok(hosts))) => if host_updates(
                hosts_view(hosts@),
                subnet_id,
            ).len() == 0 {
                r.0 == DeleteStage::AwaitDelete && r.1 is DeleteSubnet
            } else {
                r.0 == DeleteStage::AwaitHostWrites && (r.1 matches DeleteAction::WriteHosts { updates }
                    && hosts_view(updates@) == host_updates(hosts_view(hosts@), subnet_id))
            },
            (DeleteStage::AwaitHostWrites, DeleteEvent::HostsWritten(Err(e))) => r.0 == DeleteStage::Finished
                && r.1 == DeleteAction::<D>::Respond { result: Err(e) },
            (DeleteStage::AwaitHostWrites, DeleteEvent::HostsWritten(Ok(()))) => r.0
                == DeleteStage::AwaitDelete && r.1 is DeleteSubnet,
            (DeleteStage::AwaitDelete, DeleteEvent::Deleted(result)) => r.0 == DeleteStage::Finished && r.1
                == DeleteAction::<D>::Respond { result },
            _ => false,
        },
{
    match (stage, event) {
        (DeleteStage::AwaitSubnet, DeleteEvent::SubnetFound(Err(e))) => (
            DeleteStage::Finished,
            DeleteAction::Respond { result: Err(e) },
        ),
        (DeleteStage::AwaitSubnet, DeleteEvent::SubnetFound(Ok(None))) => (
            DeleteStage::Finished,
            DeleteAction::Respond { result: Err(String::from_str("Subnet not found")) },
        ),
        (DeleteStage::AwaitSubnet, DeleteEvent::SubnetFound(Ok(Some(subnet)))) => (
            DeleteStage::AwaitHosts,
            DeleteAction::ListHosts { network_id: subnet.base.network_id },
        ),
        (DeleteStage::AwaitHosts, DeleteEvent::Hosts(Err(e))) => (
            DeleteStage::Finished,
            DeleteAction::Respond { result: Err(e) },
        ),
        (DeleteStage::AwaitHosts, DeleteEvent::Hosts(Ok(hosts))) => {
            let updates = updates_for(hosts, subnet_id);
            if updates.len() == 0 {
                (DeleteStage::AwaitDelete, DeleteAction::DeleteSubnet)
            } else {
                (DeleteStage::AwaitHostWrites, DeleteAction::WriteHosts { updates })
            }
        },
        (DeleteStage::AwaitHostWrites, DeleteEvent::HostsWritten(Err(e))) => (
            DeleteStage::Finished,
            DeleteAction::Respond { result: Err(e) },
        ),
        (DeleteStage::AwaitHostWrites, DeleteEvent::HostsWritten(Ok(()))) => (
            DeleteStage::AwaitDelete,
            DeleteAction::DeleteSubnet,
        ),
        (DeleteStage::AwaitDelete, DeleteEvent::Deleted(result)) => (
            DeleteStage::Finished,
            DeleteAction::Respond { result },
        ),
        _ => {
            assert(false);
            (DeleteStage::Finished, DeleteAction::LookupSubnet)
        },
    }
}

/// The subnet service: subnets in `storage`, and the hosts whose interfaces
/// refer to them in `host_service`.
pub struct SubnetService<S, H> {
    storage: S,
    host_service: H,
}

impl<S, H> SubnetService<S, H> {
    pub closed spec fn spec_storage(&self) -> S {
        self.storage
    }

    pub closed spec fn spec_host_service(&self) -> H {
        self.host_service
    }

    pub fn new(storage: S, host_service: H) -> (r: Self)
        ensures
            r.spec_storage() == storage,
            r.spec_host_service() == host_service,
    {
        SubnetService { storage, host_service }
    }

    pub fn storage(&self) -> (r: &S)
        ensures
            *r == self.spec_storage(),
    {
        &self.storage
    }

    pub fn host_service(&self) -> (r: &H)
        ensures
            *r == self.spec_host_service(),
    {
        &self.host_service
    }

    /// Prepares the creation of `subnet` in a network whose subnets are
    /// `existing`: a subnet sent with the nil identifier gets an identity of
    /// its own, then the duplicate rules decide whether it is stored or an
    /// existing subnet stands for it.
    pub fn plan_create(subnet: Subnet, existing: &Vec<Subnet>) -> (r: Result<(Subnet, CreateOutcome), SubnetCreateError>)
        ensures
            match create_decision(subnet@.base, subnet_views(existing@)) {
                Err(e) => r == Err::<(Subnet, CreateOutcome), SubnetCreateError>(e),
                Ok(o) => r is Ok && r->Ok_0.1 == o && prepared_for_create(subnet, r->Ok_0.0),
            },
    {
        let prepared = prepare_for_create(subnet);
        match decide_create(&prepared.base, existing) {
            Ok(o) => Ok((prepared, o)),
            Err(e) => Err(e),
        }
    }
}
} // verus!
