use netvisor::api::{ApiError, ApiErrorKind};
use netvisor::auth::{
    authorize_start, authorize_step, check_registration, require_signed_in, require_user,
    session_delete_failed, session_read_failed, session_save_failed, unlink_failed,
    update_credentials, AuthorizeAction, AuthorizeEvent, AuthorizeRequest, AuthorizeStage,
};
use netvisor::cli::{Cli, CliArgs};
use netvisor::crud::{
    check_entity, health_message, not_found, public_config, require_found, subnet_scope, validation_failed,
    AuthenticatedEntity, CrudHandlers, ServerConfig, SubnetScope,
};
use netvisor::daemon_discovery::{
    accept_discovery, cancel_outcome, check_cancellable, clears_task_after_run, runner_for,
    DaemonDiscoveryRequest, RunnerPlan,
};
use netvisor::discovery::{DiscoveryType, HostNamingFallback};
use netvisor::network::Network;
use netvisor::subnet::Subnet;
use netvisor::user::{User, UserBase};

const ID: u128 = 0x550e8400_e29b_41d4_a716_446655440000;

fn alice() -> User {
    User {
        id: 3,
        created_at: 0,
        updated_at: 0,
        base: UserBase {
            email: "alice@example.com".to_string(),
            password_hash: None,
            oidc_subject: None,
            oidc_provider: None,
            oidc_linked_at: None,
        },
    }
}

#[test]
fn error_classes_map_to_status_codes() {
    assert_eq!(ApiError::bad_request("x").status(), 400);
    assert_eq!(ApiError::unauthorized("x").status(), 401);
    assert_eq!(ApiError::forbidden("x").status(), 403);
    assert_eq!(ApiError::not_found("x").status(), 404);
    assert_eq!(ApiError::conflict("x").status(), 409);
    assert_eq!(ApiError::internal_error("x").status(), 500);
}

#[test]
fn validation_and_not_found_messages() {
    let e = validation_failed(Subnet::entity_name(), "bad cidr");
    assert_eq!(e.kind, ApiErrorKind::BadRequest);
    assert_eq!(e.message, "Subnet validation failed: bad cidr");
    let e = not_found(Network::entity_name(), ID);
    assert_eq!(e.kind, ApiErrorKind::NotFound);
    assert_eq!(e.message, "Network '550e8400-e29b-41d4-a716-446655440000' not found");
    assert!(Subnet { id: 1, created_at: 0, updated_at: 0, base: netvisor::subnet::SubnetBase {
        name: String::new(), network_id: 0, source: netvisor::discovery::EntitySource::Manual,
        cidr: netvisor::subnet::IpCidr::V4 { address: 0, prefix_len: 0 },
        subnet_type: netvisor::subnet_type::SubnetType::Lan, description: None } }.validate().is_ok());
    assert_eq!(Network::entity_name(), "Network");
    assert_eq!(netvisor::daemon::Daemon::entity_name(), "Daemon");
}

#[test]
fn valid_entities_pass_the_check() {
    let network = <Network as netvisor::entity::StorableEntity>::new(netvisor::network::NetworkBase::new(4));
    assert!(check_entity(&network).is_ok());
}

#[test]
fn require_found_passes_entities_through() {
    assert_eq!(require_found(Some(5u8), "groups", 1).unwrap(), 5);
    let e = require_found::<u8>(None, "groups", 0).unwrap_err();
    assert_eq!(e.message, "groups '00000000-0000-0000-0000-000000000000' not found");
}

#[test]
fn scope_of_subnet_listing() {
    assert!(matches!(subnet_scope(AuthenticatedEntity::Daemon(4)), SubnetScope::Networks(ids) if ids == vec![4]));
    assert!(matches!(subnet_scope(AuthenticatedEntity::User(9)), SubnetScope::NetworksOfUser(9)));
}

fn config(all: bool, name: Option<&str>) -> ServerConfig {
    let some = |s: &str| if all { Some(s.to_string()) } else { None };
    ServerConfig {
        server_port: 60072,
        disable_registration: true,
        oidc_client_id: some("id"),
        oidc_client_secret: some("secret"),
        oidc_issuer_url: some("https://issuer"),
        oidc_provider_name: name.map(|n| n.to_string()),
        oidc_redirect_url: Some("https://cb".to_string()),
    }
}

#[test]
fn public_configuration() {
    let c = public_config(&config(true, Some("Keycloak")));
    assert_eq!(c.server_port, 60072);
    assert!(c.disable_registration);
    assert!(c.oidc_enabled);
    assert_eq!(c.oidc_provider_name, "Keycloak");
    let c = public_config(&config(true, None));
    assert!(!c.oidc_enabled);
    assert_eq!(c.oidc_provider_name, "OIDC Provider");
    let c = public_config(&config(false, Some("X")));
    assert!(!c.oidc_enabled);
    assert_eq!(health_message(), "Netvisor Server Running");
}

#[test]
fn registration_and_session_errors() {
    let e = check_registration(true).unwrap_err();
    assert_eq!(e.kind, ApiErrorKind::Forbidden);
    assert_eq!(e.message, "User registration is disabled");
    assert!(check_registration(false).is_ok());
    assert_eq!(session_save_failed("disk").message, "Failed to save session: disk");
    assert_eq!(session_read_failed("disk").message, "Failed to read session: disk");
    assert_eq!(session_delete_failed("disk").message, "Failed to delete session: disk");
    assert_eq!(unlink_failed("gone").message, "Failed to unlink OIDC: gone");
    assert_eq!(require_signed_in(Some(8)).unwrap(), 8);
    let e = require_signed_in(None).unwrap_err();
    assert_eq!((e.kind, e.message.as_str()), (ApiErrorKind::Unauthorized, "Not authenticated"));
    assert_eq!(require_user(Some(alice())).unwrap().id, 3);
    let e = require_user(None).unwrap_err();
    assert_eq!((e.kind, e.message.as_str()), (ApiErrorKind::NotFound, "User not found"));
}

#[test]
fn credentials_change_only_when_given() {
    let mut u = alice();
    update_credentials(&mut u, None, None);
    assert_eq!(u.base.email, "alice@example.com");
    assert_eq!(u.base.password_hash, None);
    update_credentials(&mut u, Some("$argon2$x".to_string()), None);
    assert_eq!(u.base.password_hash.as_deref(), Some("$argon2$x"));
    update_credentials(&mut u, None, Some("a@b.c".to_string()));
    assert_eq!(u.base.email, "a@b.c");
    assert_eq!(u.base.password_hash.as_deref(), Some("$argon2$x"));
}

fn request(configured: bool, link: Option<bool>, return_url: Option<&str>) -> AuthorizeRequest {
    AuthorizeRequest { oidc_configured: configured, link, return_url: return_url.map(|s| s.to_string()) }
}

#[test]
fn authorize_flow_stores_then_redirects() {
    let req = request(true, None, Some("https://app/back"));
    let (stage, action) = authorize_start(&req);
    assert!(matches!(action, AuthorizeAction::GenerateAuthUrl));
    let (stage, action) = authorize_step(stage, AuthorizeEvent::AuthUrl(Ok("https://idp/auth".to_string())), &req);
    assert!(matches!(action, AuthorizeAction::SavePendingAuth));
    let (stage, action) = authorize_step(stage, AuthorizeEvent::Saved(Ok(())), &req);
    assert!(matches!(action, AuthorizeAction::SaveLinkingFlag { linking: false }));
    let (stage, action) = authorize_step(stage, AuthorizeEvent::Saved(Ok(())), &req);
    assert!(matches!(&action, AuthorizeAction::SaveReturnUrl { return_url } if return_url == "https://app/back"));
    let (stage, action) = authorize_step(stage, AuthorizeEvent::Saved(Ok(())), &req);
    assert!(matches!(stage, AuthorizeStage::Finished));
    assert!(matches!(&action, AuthorizeAction::Respond { result: Ok(url) } if url == "https://idp/auth"));
}

#[test]
fn authorize_flow_failures() {
    let (_, action) = authorize_start(&request(false, None, None));
    assert!(matches!(&action, AuthorizeAction::Respond { result: Err(e) } if e.message == "OIDC not configured"));
    let req = request(true, Some(true), None);
    let (stage, _) = authorize_start(&req);
    let (_, action) = authorize_step(stage, AuthorizeEvent::AuthUrl(Err("dns".to_string())), &req);
    assert!(matches!(&action, AuthorizeAction::Respond { result: Err(e) } if e.message == "Failed to generate auth URL: dns"));
    let (stage, _) = authorize_start(&req);
    let (stage, _) = authorize_step(stage, AuthorizeEvent::AuthUrl(Ok("u".to_string())), &req);
    let (stage, action) = authorize_step(stage, AuthorizeEvent::Saved(Ok(())), &req);
    assert!(matches!(action, AuthorizeAction::SaveLinkingFlag { linking: true }));
    let (_, action) = authorize_step(stage, AuthorizeEvent::Saved(Ok(())), &req);
    assert!(matches!(&action, AuthorizeAction::Respond { result: Err(e) } if e.message == "return_url parameter is required" && e.status() == 400));
    let (stage, _) = authorize_start(&req);
    let (stage, _) = authorize_step(stage, AuthorizeEvent::AuthUrl(Ok("u".to_string())), &req);
    let (_, action) = authorize_step(stage, AuthorizeEvent::Saved(Err("locked".to_string())), &req);
    assert!(matches!(&action, AuthorizeAction::Respond { result: Err(e) } if e.message == "Failed to save session: locked"));
}

#[test]
fn discovery_requests_and_cancellation() {
    let req = DaemonDiscoveryRequest {
        session_id: 12,
        discovery_type: DiscoveryType::Docker { host_id: 1, host_naming_fallback: HostNamingFallback::Ip },
    };
    assert!(matches!(
        runner_for(&req.discovery_type),
        RunnerPlan::DockerScan { host_id: 1, host_naming_fallback: HostNamingFallback::Ip }
    ));
    assert!(matches!(runner_for(&DiscoveryType::SelfReport { host_id: 2 }), RunnerPlan::SelfReport { host_id: 2 }));
    assert!(matches!(
        runner_for(&DiscoveryType::Network { subnet_ids: None, host_naming_fallback: HostNamingFallback::Ip }),
        RunnerPlan::NetworkScan { subnet_ids: None, host_naming_fallback: HostNamingFallback::Ip }
    ));
    match runner_for(&DiscoveryType::Network {
        subnet_ids: Some(vec![7, 9]),
        host_naming_fallback: HostNamingFallback::BestService,
    }) {
        RunnerPlan::NetworkScan { subnet_ids, host_naming_fallback } => {
            assert_eq!(subnet_ids, Some(vec![7, 9]));
            assert_eq!(host_naming_fallback, HostNamingFallback::BestService);
        },
        other => panic!("unexpected runner {:?}", other),
    }
    assert_eq!(accept_discovery(&req).session_id, 12);
    assert!(clears_task_after_run(false));
    assert!(!clears_task_after_run(true));
    assert!(check_cancellable(true).is_ok());
    let e = check_cancellable(false).unwrap_err();
    assert_eq!((e.status(), e.message.as_str()), (409, "Discovery session not currently running"));
    assert_eq!(cancel_outcome(true, 12).unwrap(), 12);
    let e = cancel_outcome(false, 12).unwrap_err();
    assert_eq!((e.status(), e.message.as_str()), (500, "Failed to cancel discovery session"));
}

fn cli(network_id: Option<&str>) -> Cli {
    Cli {
        server_target: Some("10.0.0.1".to_string()),
        server_port: Some(60072),
        network_id: network_id.map(|s| s.to_string()),
        daemon_port: Some(60073),
        host: Some("0.0.0.0".to_string()),
        name: Some("d1".to_string()),
        log_level: None,
        heartbeat_interval: Some(30),
        bind_address: None,
        concurrent_scans: Some(4),
        daemon_api_key: None,
        docker_proxy: None,
    }
}

#[test]
fn command_line_becomes_settings() {
    let args = CliArgs::from(cli(Some("550e8400-e29b-41d4-a716-446655440000")));
    assert_eq!(args.network_id, Some(ID));
    assert_eq!(args.server_target.as_deref(), Some("10.0.0.1"));
    assert_eq!(args.server_port, Some(60072));
    assert_eq!(args.daemon_port, Some(60073));
    assert_eq!(args.heartbeat_interval, Some(30));
    assert_eq!(args.concurrent_scans, Some(4));
    assert_eq!(CliArgs::from(cli(Some("not-a-uuid"))).network_id, None);
    for text in [
        "550e8400e29b41d4a716446655440000",
        "550E8400-E29B-41D4-A716-446655440000",
        "{550e8400-e29b-41d4-a716-446655440000}",
        "URN:uuid:550e8400-e29b-41d4-a716-446655440000",
    ] {
        assert_eq!(CliArgs::from(cli(Some(text))).network_id, Some(ID));
    }
    assert_eq!(CliArgs::from(cli(Some("550e8400+e29b-41d4-a716-446655440000"))).network_id, None);
    assert_eq!(CliArgs::from(cli(Some("550e8400-e29b-41d4-a716-44665544000g"))).network_id, None);
    assert_eq!(CliArgs::from(cli(None)).network_id, None);
}
