//! Decisions of the daemon's discovery endpoints: starting a run and
//! cancelling the current one.

use vstd::prelude::*;

use crate::api::{error_view, ApiError, ApiErrorKind};
use crate::discovery::{clone_ids, DiscoveryKind, DiscoveryType, HostNamingFallback};

verus! {

/// A request from the server to start a discovery run.
#[derive(Debug)]
pub struct DaemonDiscoveryRequest {
    pub session_id: u128,
    pub discovery_type: DiscoveryType,
}

/// The daemon's answer: the session that the run belongs to.
#[derive(Debug, Clone, Copy, PartialEq, Eq, Structural)]
pub struct DaemonDiscoveryResponse {
    pub session_id: u128,
}

/// The discovery runner that carries out a run, with the parameters it is
/// built with.
#[derive(Debug)]
pub enum RunnerPlan {
    /// The daemon reports its own host.
    SelfReport { host_id: u128 },
    /// A scan of the Docker containers on a host.
    DockerScan { host_id: u128, host_naming_fallback: HostNamingFallback },
    /// A scan of the given subnets, or of every interfaced subnet.
    NetworkScan { subnet_ids: Option<Vec<u128>>, host_naming_fallback: HostNamingFallback },
}

pub ghost enum RunnerPlanView {
    SelfReport { host_id: u128 },
    DockerScan { host_id: u128, host_naming_fallback: HostNamingFallback },
    NetworkScan { subnet_ids: Option<Seq<u128>>, host_naming_fallback: HostNamingFallback },
}

impl View for RunnerPlan {
    type V = RunnerPlanView;

    open spec fn view(&self) -> RunnerPlanView {
        match self {
            RunnerPlan::SelfReport { host_id } => RunnerPlanView::SelfReport { host_id: *host_id },
            RunnerPlan::DockerScan { host_id, host_naming_fallback } => RunnerPlanView::DockerScan {
                host_id: *host_id,
                host_naming_fallback: *host_naming_fallback,
            },
            RunnerPlan::NetworkScan { subnet_ids, host_naming_fallback } => RunnerPlanView::NetworkScan {
                subnet_ids: match subnet_ids {
                    Some(v) => Some(v@),
                    None => None,
                },
                host_naming_fallback: *host_naming_fallback,
            },
        }
    }
}

/// The runner of each kind of discovery: the host, the naming fallback and
/// the subnets of the request go to it unchanged.
pub open spec fn spec_runner(kind: DiscoveryKind) -> RunnerPlanView {
    match kind {
        DiscoveryKind::SelfReport { host_id } => RunnerPlanView::SelfReport { host_id },
        DiscoveryKind::Docker { host_id, host_naming_fallback } => RunnerPlanView::DockerScan {
            host_id,
            host_naming_fallback,
        },
        DiscoveryKind::Network { subnet_ids, host_naming_fallback } => RunnerPlanView::NetworkScan {
            subnet_ids,
            host_naming_fallback,
        },
    }
}

/// The runner that a request's kind of discovery is carried out by.
pub fn runner_for(discovery_type: &DiscoveryType) -> (r: RunnerPlan)
    ensures
        r@ == spec_runner(discovery_type@),
{
    match discovery_type {
        DiscoveryType::SelfReport { host_id } => RunnerPlan::SelfReport { host_id: *host_id },
        DiscoveryType::Docker { host_id, host_naming_fallback } => RunnerPlan::DockerScan {
            host_id: *host_id,
            host_naming_fallback: *host_naming_fallback,
        },
        DiscoveryType::Network { subnet_ids, host_naming_fallback } => RunnerPlan::NetworkScan {
            subnet_ids: match subnet_ids {
                Some(v) => Some(clone_ids(v)),
                None => None,
            },
            host_naming_fallback: *host_naming_fallback,
        },
    }
}

/// The answer to a discovery request, once its run is started: the
/// request's session.
pub fn accept_discovery(request: &DaemonDiscoveryRequest) -> (r: DaemonDiscoveryResponse)
    ensures
        r.session_id == request.session_id,
{
    DaemonDiscoveryResponse { session_id: request.session_id }
}

/// Whether a finished run clears the current task: only when it was not
/// cancelled, since the cancellation clears it otherwise.
pub fn clears_task_after_run(cancelled: bool) -> (r: bool)
    ensures
        r == !cancelled,
{
    !cancelled
}

/// A cancellation is only attempted while a run is going on.
pub fn check_cancellable(running: bool) -> (r: Result<(), ApiError>)
    ensures
        running ==> r is Ok,
        !running ==> (r matches Err(e) && e@ == error_view(
            ApiErrorKind::Conflict,
            "Discovery session not currently running"@,
        )),
{
    if running {
        Ok(())
    } else {
        Err(ApiError::conflict("Discovery session not currently running"))
    }
}

/// The answer to a cancellation, given whether the run was signalled.
pub fn cancel_outcome(cancelled: bool, session_id: u128) -> (r: Result<u128, ApiError>)
    ensures
        cancelled ==> r == Ok::<u128, ApiError>(session_id),
        !cancelled ==> (r matches Err(e) && e@ == error_view(
            ApiErrorKind::Internal,
            "Failed to cancel discovery session"@,
        )),
{
    if cancelled {
        Ok(session_id)
    } else {
        Err(ApiError::internal_error("Failed to cancel discovery session"))
    }
}

} // verus!
