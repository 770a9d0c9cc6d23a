//! The decisions of the generic create/read/update/delete handlers and of
//! the server-wide endpoints.

use vstd::prelude::*;

use crate::api::{concat, error_view, ApiError, ApiErrorKind, ApiErrorView};
use crate::daemon::Daemon;
use crate::entity::{opt_text, StorableEntity};
use crate::ids::{hyphenated, id_text};
use crate::network::Network;
use crate::subnet::Subnet;

verus! {

/// An entity that the generic handlers serve.
pub trait CrudHandlers: StorableEntity {
    /// The entity's name in error messages, such as `Network`.
    spec fn spec_entity_name() -> Seq<char>;

    /// Why the entity may not be written, if anything forbids it.
    spec fn spec_validation(&self) -> Option<Seq<char>>;

    /// The entity's name in error messages.
    fn entity_name() -> (r: &'static str)
        ensures
            r@ == Self::spec_entity_name(),
    ;

    /// Checks an entity before it is created or updated.
    fn validate(&self) -> (r: Result<(), String>)
        ensures
            r is Ok <==> self.spec_validation() is None,
            r matches Err(reason) ==> self.spec_validation() == Some(reason@),
    ;
}

impl CrudHandlers for Subnet {
    open spec fn spec_entity_name() -> Seq<char> {
        "Subnet"@
    }

    /// Every subnet is accepted.
    open spec fn spec_validation(&self) -> Option<Seq<char>> {
        None
    }

    fn entity_name() -> (r: &'static str) {
        "Subnet"
    }

    fn validate(&self) -> (r: Result<(), String>) {
        Ok(())
    }
}

impl CrudHandlers for Network {
    open spec fn spec_entity_name() -> Seq<char> {
        "Network"@
    }

    /// Every network is accepted.
    open spec fn spec_validation(&self) -> Option<Seq<char>> {
        None
    }

    fn entity_name() -> (r: &'static str) {
        "Network"
    }

    fn validate(&self) -> (r: Result<(), String>) {
        Ok(())
    }
}

impl CrudHandlers for Daemon {
    open spec fn spec_entity_name() -> Seq<char> {
        "Daemon"@
    }

    /// Every daemon is accepted.
    open spec fn spec_validation(&self) -> Option<Seq<char>> {
        None
    }

    fn entity_name() -> (r: &'static str) {
        "Daemon"
    }

    fn validate(&self) -> (r: Result<(), String>) {
        Ok(())
    }
}

/// The check that the create and update handlers make first: an entity
/// that fails validation is answered with a bad request naming the entity
/// and the reason, and nothing is written.
pub fn check_entity<T: CrudHandlers>(entity: &T) -> (r: Result<(), ApiError>)
    ensures
        entity.spec_validation() is None ==> r is Ok,
        entity.spec_validation() matches Some(reason) ==> (r matches Err(e) && e@ == error_view(
            ApiErrorKind::BadRequest,
            T::spec_entity_name() + " validation failed: "@ + reason,
        )),
{
    match entity.validate() {
        Ok(()) => Ok(()),
        Err(reason) => Err(validation_failed(T::entity_name(), reason.as_str())),
    }
}

/// The answer to an entity that fails validation.
pub fn validation_failed(entity_name: &str, reason: &str) -> (r: ApiError)
    ensures
        r@ == error_view(ApiErrorKind::BadRequest, entity_name@ + " validation failed: "@ + reason@),
{
    let head = concat(entity_name, " validation failed: ");
    let message = concat(head.as_str(), reason);
    ApiError::bad_request(message.as_str())
}

/// The message that a missing entity is reported with.
pub open spec fn not_found_message(entity_name: Seq<char>, id: u128) -> Seq<char> {
    entity_name + " '"@ + hyphenated(id) + "' not found"@
}

/// The answer to a request for an entity that does not exist.
pub fn not_found(entity_name: &str, id: u128) -> (r: ApiError)
    ensures
        r@ == error_view(ApiErrorKind::NotFound, not_found_message(entity_name@, id)),
{
    let id = id_text(id);
    let head = concat(entity_name, " '");
    let middle = concat(head.as_str(), id.as_str());
    let message = concat(middle.as_str(), "' not found");
    ApiError::not_found(message.as_str())
}

/// The entity that a lookup found, or the not-found answer.
pub fn require_found<T>(found: Option<T>, entity_name: &str, id: u128) -> (r: Result<T, ApiError>)
    ensures
        found matches Some(t) ==> r == Ok::<T, ApiError>(t),
        found is None ==> (r matches Err(e) && e@ == error_view(
            ApiErrorKind::NotFound,
            not_found_message(entity_name@, id),
        )),
{
    match found {
        Some(t) => Ok(t),
        None => Err(not_found(entity_name, id)),
    }
}

/// Who made a request.
#[derive(Debug, Clone, Copy, PartialEq, Eq, Structural)]
pub enum AuthenticatedEntity {
    /// A signed-in user.
    User(u128),
    /// A daemon, on behalf of its network.
    Daemon(u128),
}

/// Which networks' subnets a request may list.
#[derive(Debug)]
pub enum SubnetScope {
    /// Exactly these networks.
    Networks(Vec<u128>),
    /// The networks that this user owns.
    NetworksOfUser(u128),
}

/// A daemon sees its own network's subnets; a user those of all the
/// networks they own.
pub fn subnet_scope(entity: AuthenticatedEntity) -> (r: SubnetScope)
    ensures
        match entity {
            AuthenticatedEntity::Daemon(network_id) => (r matches SubnetScope::Networks(ids) && ids@
                == seq![network_id]),
            AuthenticatedEntity::User(user_id) => (r matches SubnetScope::NetworksOfUser(u) && u
                == user_id),
        },
{
    match entity {
        AuthenticatedEntity::Daemon(network_id) => {
            let ids = vec![network_id];
            assert(ids@ =~= seq![network_id]);
            SubnetScope::Networks(ids)
        },
        AuthenticatedEntity::User(user_id) => SubnetScope::NetworksOfUser(user_id),
    }
}

/// The settings of the server that the public configuration reveals.
#[derive(Debug)]
pub struct ServerConfig {
    pub server_port: u16,
    pub disable_registration: bool,
    pub oidc_client_id: Option<String>,
    pub oidc_client_secret: Option<String>,
    pub oidc_issuer_url: Option<String>,
    pub oidc_provider_name: Option<String>,
    pub oidc_redirect_url: Option<String>,
}

/// The configuration that clients may read without signing in.
#[derive(Debug)]
pub struct PublicConfigResponse {
    pub server_port: u16,
    pub disable_registration: bool,
    pub oidc_enabled: bool,
    pub oidc_provider_name: String,
}

/// OIDC is enabled when every one of its five settings is present.
pub open spec fn oidc_enabled(c: ServerConfig) -> bool {
    &&& c.oidc_client_id is Some
    &&& c.oidc_client_secret is Some
    &&& c.oidc_issuer_url is Some
    &&& c.oidc_provider_name is Some
    &&& c.oidc_redirect_url is Some
}

/// The public configuration of a server.
pub fn public_config(config: &ServerConfig) -> (r: PublicConfigResponse)
    ensures
        r.server_port == config.server_port,
        r.disable_registration == config.disable_registration,
        r.oidc_enabled == oidc_enabled(*config),
        r.oidc_provider_name@ == match opt_text(config.oidc_provider_name) {
            Some(name) => name,
            None => "OIDC Provider"@,
        },
{
    let oidc_enabled = config.oidc_client_id.is_some() && config.oidc_client_secret.is_some()
        && config.oidc_issuer_url.is_some() && config.oidc_provider_name.is_some()
        && config.oidc_redirect_url.is_some();
    let oidc_provider_name = match &config.oidc_provider_name {
        Some(name) => name.clone(),
        None => String::from_str("OIDC Provider"),
    };
    PublicConfigResponse {
        server_port: config.server_port,
        disable_registration: config.disable_registration,
        oidc_enabled,
        oidc_provider_name,
    }
}

/// The answer of the health check.
pub fn health_message() -> (r: String)
    ensures
        r@ == "Netvisor Server Running"@,
{
    String::from_str("Netvisor Server Running")
}

} // verus!
