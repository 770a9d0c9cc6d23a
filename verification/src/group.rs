//! Groups of hosts and services; what makes up a group is its group type,
//! which this library carries without looking into.

use vstd::prelude::*;

use crate::api::concat;
use crate::discovery::EntitySource;
use crate::ids::{hyphenated, id_text};

verus! {

/// The data of a group that a client supplies.
#[derive(Debug)]
pub struct GroupBase<G> {
    pub name: String,
    pub network_id: u128,
    pub description: Option<String>,
    pub group_type: G,
    pub source: EntitySource,
    pub color: String,
}

/// A stored group.
#[derive(Debug)]
pub struct Group<G> {
    pub id: u128,
    pub created_at: i128,
    pub updated_at: i128,
    pub base: GroupBase<G>,
}

impl<G> Group<G> {
    /// The text that names the group: "Group", its name, a colon and its
    /// identifier.
    pub fn display_text(&self) -> (r: String)
        ensures
            r@ == "Group "@ + self.base.name@ + ": "@ + hyphenated(self.id),
    {
        let head = concat("Group ", self.base.name.as_str());
        let middle = concat(head.as_str(), ": ");
        let id = id_text(self.id);
        concat(middle.as_str(), id.as_str())
    }
}

/// The group service: groups in `group_storage`.
pub struct GroupService<S> {
    group_storage: S,
}

impl<S> GroupService<S> {
    pub closed spec fn spec_storage(&self) -> S {
        self.group_storage
    }

    pub fn new(group_storage: S) -> (r: Self)
        ensures
            r.spec_storage() == group_storage,
    {
        GroupService { group_storage }
    }

    pub fn storage(&self) -> (r: &S)
        ensures
            *r == self.spec_storage(),
    {
        &self.group_storage
    }
}

} // verus!
