//! Networks: the top-level containers that a user owns.

use vstd::prelude::*;

use crate::api::concat;
use crate::entity::{column_names, sql_views, SqlValue, SqlValueView, StorableEntity};
use crate::ids::{hyphenated, id_text, new_id, now_nanos};

verus! {

/// The data of a network that a client supplies.
#[derive(Debug)]
pub struct NetworkBase {
    pub name: String,
    pub user_id: u128,
    pub is_default: bool,
}

pub ghost struct NetworkBaseView {
    pub name: Seq<char>,
    pub user_id: u128,
    pub is_default: bool,
}

impl View for NetworkBase {
    type V = NetworkBaseView;

    open spec fn view(&self) -> NetworkBaseView {
        NetworkBaseView { name: self.name@, user_id: self.user_id, is_default: self.is_default }
    }
}

impl Clone for NetworkBase {
    fn clone(&self) -> (r: Self)
        ensures
            r@ == self@,
    {
        NetworkBase { name: self.name.clone(), user_id: self.user_id, is_default: self.is_default }
    }
}

impl NetworkBase {
    /// A user's new network: named "My Network" and not the default one.
    pub fn new(user_id: u128) -> (r: NetworkBase)
        ensures
            r@ == (NetworkBaseView { name: "My Network"@, user_id, is_default: false }),
    {
        NetworkBase { user_id, name: String::from_str("My Network"), is_default: false }
    }
}

/// A stored network.
#[derive(Debug)]
pub struct Network {
    pub id: u128,
    pub created_at: i128,
    pub updated_at: i128,
    pub base: NetworkBase,
}

pub ghost struct NetworkView {
    pub id: u128,
    pub created_at: i128,
    pub updated_at: i128,
    pub base: NetworkBaseView,
}

impl View for Network {
    type V = NetworkView;

    open spec fn view(&self) -> NetworkView {
        NetworkView {
            id: self.id,
            created_at: self.created_at,
            updated_at: self.updated_at,
            base: self.base@,
        }
    }
}

pub open spec fn network_columns() -> Seq<Seq<char>> {
    seq!["id"@, "created_at"@, "updated_at"@, "name"@, "user_id"@, "is_default"@]
}

pub open spec fn network_values(n: NetworkView) -> Seq<SqlValueView> {
    seq![
        SqlValueView::Uuid(n.id),
        SqlValueView::Timestamp(n.created_at),
        SqlValueView::Timestamp(n.updated_at),
        SqlValueView::String(n.base.name),
        SqlValueView::Uuid(n.base.user_id),
        SqlValueView::Bool(n.base.is_default),
    ]
}

/// The value that a network's column holds, found by the column's name.
pub open spec fn network_column_value(n: NetworkView, column: Seq<char>) -> Option<SqlValueView> {
    if column == "id"@ {
        Some(SqlValueView::Uuid(n.id))
    } else if column == "created_at"@ {
        Some(SqlValueView::Timestamp(n.created_at))
    } else if column == "updated_at"@ {
        Some(SqlValueView::Timestamp(n.updated_at))
    } else if column == "name"@ {
        Some(SqlValueView::String(n.base.name))
    } else if column == "user_id"@ {
        Some(SqlValueView::Uuid(n.base.user_id))
    } else if column == "is_default"@ {
        Some(SqlValueView::Bool(n.base.is_default))
    } else {
        None
    }
}

impl StorableEntity for Network {
    type BaseData = NetworkBase;

    open spec fn spec_id(&self) -> u128 {
        self.id
    }

    open spec fn spec_base(&self) -> NetworkBaseView {
        self.base@
    }

    open spec fn spec_created_at(&self) -> i128 {
        self.created_at
    }

    open spec fn spec_updated_at(&self) -> i128 {
        self.updated_at
    }

    open spec fn spec_table_name() -> Seq<char> {
        "networks"@
    }

    fn table_name() -> (r: &'static str) {
        "networks"
    }

    fn get_base(&self) -> (r: NetworkBase) {
        self.base.clone()
    }

    fn new(base: NetworkBase) -> (r: Self)
        ensures
            r.base == base,
    {
        let now = now_nanos();
        Network { base, id: new_id(), created_at: now, updated_at: now }
    }

    fn id(&self) -> (r: u128) {
        self.id
    }

    fn created_at(&self) -> (r: i128) {
        self.created_at
    }

    fn updated_at(&self) -> (r: i128) {
        self.updated_at
    }

    fn set_updated_at(&mut self, time: i128)
        ensures
            final(self).base == old(self).base,
    {
        self.updated_at = time;
    }

    fn to_params(&self) -> (r: (Vec<&'static str>, Vec<SqlValue>))
        ensures
            column_names(r.0@) == network_columns(),
            sql_views(r.1@) == network_values(self@),
            r.0@.len() == r.1@.len(),
            forall|k: int| 0 <= k < r.0@.len() ==> network_column_value(self@, #[trigger] r.0@[k]@) == Some(r.1@[k]@),
    {
        let columns = vec!["id", "created_at", "updated_at", "name", "user_id", "is_default"];
        let values = vec![
            SqlValue::Uuid(self.id),
            SqlValue::Timestamp(self.created_at),
            SqlValue::Timestamp(self.updated_at),
            SqlValue::String(self.base.name.clone()),
            SqlValue::Uuid(self.base.user_id),
            SqlValue::Bool(self.base.is_default),
        ];
        assert(column_names(columns@) =~= network_columns());
        assert(sql_views(values@) =~= network_values(self@));
        proof {
            crate::laws::network_columns_hold_their_fields(self@);
            assert forall|k: int| 0 <= k < columns@.len() implies network_column_value(self@, #[trigger] columns@[k]@) == Some(
                values@[k]@,
            ) by {
                assert(column_names(columns@)[k] == columns@[k]@);
                assert(sql_views(values@)[k] == values@[k]@);
            }
        }
        (columns, values)
    }
}

impl Network {
    /// The text that names the network: its name, a colon and its
    /// identifier.
    pub fn display_text(&self) -> (r: String)
        ensures
            r@ == self.base.name@ + ": "@ + hyphenated(self.id),
    {
        let head = concat(self.base.name.as_str(), ": ");
        let id = id_text(self.id);
        concat(head.as_str(), id.as_str())
    }
}

/// The identifiers of `networks`, in order.
pub fn network_ids(networks: &Vec<Network>) -> (r: Vec<u128>)
    ensures
        r@ == networks@.map_values(|n: Network| n.id),
{
    let mut ids: Vec<u128> = Vec::new();
    for i in 0..networks.len()
        invariant
            ids@ == networks@.take(i as int).map_values(|n: Network| n.id),
    {
        ids.push(networks[i].id);
        assert(ids@ =~= networks@.take(i + 1).map_values(|n: Network| n.id));
    }
    assert(networks@.take(networks@.len() as int) =~= networks@);
    ids
}

} // verus!
