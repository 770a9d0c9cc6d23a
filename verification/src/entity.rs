//! The common shape of stored entities and of the values they are stored as.

use vstd::prelude::*;

use crate::daemon::{CapabilitiesView, DaemonCapabilities, IpAddress};
use crate::discovery::{EntitySource, SourceView};
use crate::ids::{is_random_uuid, NIL_ID};
use crate::subnet::IpCidr;
use crate::subnet_type::SubnetType;

verus! {

/// The abstract value of an optional string.
pub open spec fn opt_text(o: Option<String>) -> Option<Seq<char>> {
    match o {
        Some(s) => Some(s@),
        None => None,
    }
}

pub fn clone_opt_string(o: &Option<String>) -> (r: Option<String>)
    ensures
        opt_text(r) == opt_text(*o),
{
    match o {
        Some(s) => Some(s.clone()),
        None => None,
    }
}

/// A value bound to a column when an entity is written to storage.
#[derive(Debug)]
pub enum SqlValue {
    Uuid(u128),
    String(String),
    OptionalString(Option<String>),
    IpCidr(IpCidr),
    EntitySource(EntitySource),
    SubnetType(SubnetType),
    Timestamp(i128),
    Bool(bool),
    U16(u16),
    IpAddr(IpAddress),
    DaemonCapabilities(DaemonCapabilities),
}

pub ghost enum SqlValueView {
    Uuid(u128),
    String(Seq<char>),
    OptionalString(Option<Seq<char>>),
    IpCidr(IpCidr),
    EntitySource(SourceView),
    SubnetType(SubnetType),
    Timestamp(i128),
    Bool(bool),
    U16(u16),
    IpAddr(IpAddress),
    DaemonCapabilities(CapabilitiesView),
}

impl View for SqlValue {
    type V = SqlValueView;

    open spec fn view(&self) -> SqlValueView {
        match self {
            SqlValue::Uuid(v) => SqlValueView::Uuid(*v),
            SqlValue::String(v) => SqlValueView::String(v@),
            SqlValue::OptionalString(v) => SqlValueView::OptionalString(opt_text(*v)),
            SqlValue::IpCidr(v) => SqlValueView::IpCidr(*v),
            SqlValue::EntitySource(v) => SqlValueView::EntitySource(v@),
            SqlValue::SubnetType(v) => SqlValueView::SubnetType(*v),
            SqlValue::Timestamp(v) => SqlValueView::Timestamp(*v),
            SqlValue::Bool(v) => SqlValueView::Bool(*v),
            SqlValue::U16(v) => SqlValueView::U16(*v),
            SqlValue::IpAddr(v) => SqlValueView::IpAddr(*v),
            SqlValue::DaemonCapabilities(v) => SqlValueView::DaemonCapabilities(v@),
        }
    }
}

pub open spec fn sql_views(values: Seq<SqlValue>) -> Seq<SqlValueView> {
    values.map_values(|v: SqlValue| v@)
}

pub open spec fn column_names(columns: Seq<&'static str>) -> Seq<Seq<char>> {
    columns.map_values(|c: &'static str| c@)
}

/// An entity that is kept in a table of its own: an identifier, creation
/// and update times, and the data that a client supplies.
pub trait StorableEntity: Sized {
    type BaseData: View;

    spec fn spec_id(&self) -> u128;

    spec fn spec_base(&self) -> <Self::BaseData as View>::V;

    spec fn spec_created_at(&self) -> i128;

    spec fn spec_updated_at(&self) -> i128;

    spec fn spec_table_name() -> Seq<char>;

    fn table_name() -> (r: &'static str)
        ensures
            r@ == Self::spec_table_name(),
    ;

    fn get_base(&self) -> (r: Self::BaseData)
        ensures
            r@ == self.spec_base(),
    ;

    /// A new entity with a fresh random identifier, created and updated now.
    fn new(base: Self::BaseData) -> (r: Self)
        ensures
            r.spec_base() == base@,
            is_random_uuid(r.spec_id()),
            r.spec_created_at() == r.spec_updated_at(),
    ;

    fn id(&self) -> (r: u128)
        ensures
            r == self.spec_id(),
    ;

    fn created_at(&self) -> (r: i128)
        ensures
            r == self.spec_created_at(),
    ;

    fn updated_at(&self) -> (r: i128)
        ensures
            r == self.spec_updated_at(),
    ;

    fn set_updated_at(&mut self, time: i128)
        ensures
            final(self).spec_updated_at() == time,
            final(self).spec_id() == old(self).spec_id(),
            final(self).spec_base() == old(self).spec_base(),
            final(self).spec_created_at() == old(self).spec_created_at(),
    ;

    /// The column names and the values bound to them, one for one.
    fn to_params(&self) -> (r: (Vec<&'static str>, Vec<SqlValue>))
        ensures
            r.0@.len() == r.1@.len(),
    ;
}

/// What an entity becomes before it is first stored: one that a client sent
/// with the nil identifier is replaced by a new entity, with a fresh
/// identifier and times, built from the same data; any other is kept.
pub open spec fn prepared_for_create<T: StorableEntity>(before: T, after: T) -> bool {
    if before.spec_id() == NIL_ID {
        &&& after.spec_base() == before.spec_base()
        &&& is_random_uuid(after.spec_id())
        &&& after.spec_created_at() == after.spec_updated_at()
    } else {
        after == before
    }
}

/// Gives an entity that a client created (with the nil identifier) an
/// identity of its own; leaves any other entity as it is.
pub fn prepare_for_create<T: StorableEntity>(entity: T) -> (r: T)
    ensures
        prepared_for_create(entity, r),
{
    if entity.id() == NIL_ID {
        T::new(entity.get_base())
    } else {
        entity
    }
}

} // verus!
