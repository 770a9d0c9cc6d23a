//! The daemon's command line and the settings it turns into.

use vstd::prelude::*;

use crate::ids::{parse_id, uuid_text_value};

verus! {

/// The daemon's command-line options, as given.
#[derive(Debug)]
pub struct Cli {
    pub server_target: Option<String>,
    pub server_port: Option<u16>,
    pub network_id: Option<String>,
    pub daemon_port: Option<u16>,
    pub host: Option<String>,
    pub name: Option<String>,
    pub log_level: Option<String>,
    pub heartbeat_interval: Option<u64>,
    pub bind_address: Option<String>,
    pub concurrent_scans: Option<usize>,
    pub daemon_api_key: Option<String>,
    pub docker_proxy: Option<String>,
}

/// The daemon's settings from the command line.
#[derive(Debug)]
pub struct CliArgs {
    pub server_target: Option<String>,
    pub server_port: Option<u16>,
    pub daemon_port: Option<u16>,
    pub name: Option<String>,
    pub bind_address: Option<String>,
    pub network_id: Option<u128>,
    pub log_level: Option<String>,
    pub heartbeat_interval: Option<u64>,
    pub concurrent_scans: Option<usize>,
    pub daemon_api_key: Option<String>,
    pub docker_proxy: Option<String>,
}

/// The network to join: the option's text as a UUID, or none when it is
/// absent or does not parse.
pub open spec fn network_of(network_id: Option<String>) -> Option<u128> {
    match network_id {
        Some(s) => uuid_text_value(s@),
        None => None,
    }
}

/// The settings that the options give: each as it is, but the network,
/// which is parsed; the listen host is not a setting.
pub open spec fn args_of(cli: Cli) -> CliArgs {
    CliArgs {
        server_target: cli.server_target,
        server_port: cli.server_port,
        daemon_port: cli.daemon_port,
        name: cli.name,
        bind_address: cli.bind_address,
        network_id: network_of(cli.network_id),
        log_level: cli.log_level,
        heartbeat_interval: cli.heartbeat_interval,
        concurrent_scans: cli.concurrent_scans,
        daemon_api_key: cli.daemon_api_key,
        docker_proxy: cli.docker_proxy,
    }
}

impl From<Cli> for CliArgs {
    fn from(cli: Cli) -> (r: CliArgs)
        ensures
            r.server_target == cli.server_target,
            r.server_port == cli.server_port,
            r.daemon_port == cli.daemon_port,
            r.name == cli.name,
            r.bind_address == cli.bind_address,
            r.network_id == network_of(cli.network_id),
            r.log_level == cli.log_level,
            r.heartbeat_interval == cli.heartbeat_interval,
            r.concurrent_scans == cli.concurrent_scans,
            r.daemon_api_key == cli.daemon_api_key,
            r.docker_proxy == cli.docker_proxy,
    {
        let network_id = match &cli.network_id {
            Some(s) => parse_id(s.as_str()),
            None => None,
        };
        CliArgs {
            server_target: cli.server_target,
            server_port: cli.server_port,
            daemon_port: cli.daemon_port,
            name: cli.name,
            bind_address: cli.bind_address,
            network_id,
            log_level: cli.log_level,
            heartbeat_interval: cli.heartbeat_interval,
            concurrent_scans: cli.concurrent_scans,
            daemon_api_key: cli.daemon_api_key,
            docker_proxy: cli.docker_proxy,
        }
    }
}

impl vstd::std_specs::convert::FromSpecImpl<Cli> for CliArgs {
    open spec fn obeys_from_spec() -> bool {
        true
    }

    open spec fn from_spec(cli: Cli) -> CliArgs {
        args_of(cli)
    }
}

} // verus!
