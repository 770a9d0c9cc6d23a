//! Properties that hold across the library's operations.

use vstd::prelude::*;

use crate::discovery::{DiscoveryKind, SourceView};
use crate::entity::{prepared_for_create, StorableEntity};
use crate::ids::{random_uuid_is_not_nil, NIL_ID};
use crate::subnet::{
    create_decision, is_first_same_range, same_docker_host, CreateOutcome, Interface,
    on_other_subnet, SubnetBaseView, SubnetView,
};
use crate::subnet_type::{
    bridge_pattern, classify, dmz_patterns, docker_patterns, guest_patterns, iot_patterns,
    is_ascii_alphanumeric, is_ascii_digit, lan_patterns, management_patterns, matches_any,
    matches_pattern, storage_patterns, vpn_patterns, wifi_patterns, SubnetType,
};
use crate::text::{
    ascii_lower_char, ascii_lowercase, ascii_upper_char, ascii_uppercase, is_ascii_text, lower_text,
};
use crate::web::parsed_url;
use crate::oidc::{
    location_text, clean_then, fail_to_return, is_first_seed, link_location, next, ActionView, ContextView, EventView,
    StageView, UserInfoView,
};
use crate::user::UserView;
use crate::daemon::{daemon_column_value, daemon_columns, daemon_values, DaemonView};
use crate::network::{network_column_value, network_columns, network_values, NetworkView};
use crate::subnet::{subnet_column_value, subnet_columns, subnet_values};
use crate::auth::with_credentials;
use crate::cli::{args_of, Cli};
use crate::daemon_discovery::{spec_runner, RunnerPlanView};
use crate::discovery::HostNamingFallback;
use crate::ids::uuid_text_value;
use crate::subnet::{same_range, SubnetCreateError};

verus! {

/// An entity is never stored with the nil identifier: preparation either
/// gives it a fresh identifier or keeps the non-nil one it has.
pub proof fn prepared_entities_have_identity<T: StorableEntity>(before: T, after: T)
    requires
        prepared_for_create(before, after),
    ensures
        after.spec_id() != NIL_ID,
{
    if before.spec_id() == NIL_ID {
        random_uuid_is_not_nil(after.spec_id());
    }
}

/// Preparing an entity a second time leaves it as the first preparation
/// made it.
pub proof fn preparation_is_idempotent<T: StorableEntity>(before: T, once: T, twice: T)
    requires
        prepared_for_create(before, once),
        prepared_for_create(once, twice),
    ensures
        twice == once,
{
    prepared_entities_have_identity(before, once);
}

/// Interface classification ignores the case of ASCII names: two ASCII
/// names that differ only in the case of their letters are classified alike.
pub proof fn classification_ignores_ascii_case(a: Seq<char>, b: Seq<char>)
    requires
        is_ascii_text(a),
        is_ascii_text(b),
        ascii_lowercase(a) == ascii_lowercase(b),
    ensures
        classify(lower_text(a)) == classify(lower_text(b)),
{
}

proof fn ascii_case_round_trip(c: char)
    requires
        (c as u32) < 128,
    ensures
        (ascii_upper_char(c) as u32) < 128,
        (ascii_lower_char(c) as u32) < 128,
        ascii_lower_char(ascii_upper_char(c)) == ascii_lower_char(c),
        ascii_lower_char(ascii_lower_char(c)) == ascii_lower_char(c),
{
}

/// An ASCII interface name, its upper-case form and its lower-case form
/// are classified alike.
pub proof fn upper_and_lower_case_names_classify_alike(name: Seq<char>)
    requires
        is_ascii_text(name),
    ensures
        classify(lower_text(ascii_uppercase(name))) == classify(lower_text(name)),
        classify(lower_text(ascii_lowercase(name))) == classify(lower_text(name)),
{
    let up = ascii_uppercase(name);
    let low = ascii_lowercase(name);
    assert forall|i: int| 0 <= i < name.len() implies {
        &&& (#[trigger] up[i] as u32) < 128
        &&& (low[i] as u32) < 128
        &&& ascii_lower_char(up[i]) == ascii_lower_char(name[i])
        &&& ascii_lower_char(low[i]) == ascii_lower_char(name[i])
    } by {
        ascii_case_round_trip(name[i]);
    }
    assert(is_ascii_text(up));
    assert(is_ascii_text(low)) by {
        assert forall|i: int| 0 <= i < low.len() implies (#[trigger] low[i] as u32) < 128 by {
            assert((up[i] as u32) < 128);
        }
    }
    assert(ascii_lowercase(up) =~= ascii_lowercase(name));
    assert(ascii_lowercase(low) =~= ascii_lowercase(name));
    classification_ignores_ascii_case(up, name);
    classification_ignores_ascii_case(low, name);
}

/// A subnet being created only ever stands for an existing subnet that
/// covers the same address range.
pub proof fn reuse_needs_same_range(candidate: SubnetBaseView, existing: Seq<SubnetView>, i: usize)
    requires
        existing.len() <= usize::MAX,
        create_decision(candidate, existing) == Ok::<CreateOutcome, crate::subnet::SubnetCreateError>(
            CreateOutcome::ReuseExisting(i),
        ),
    ensures
        0 <= i < existing.len(),
        existing[i as int].base.cidr == candidate.cidr,
{
    let k = choose|k: int| is_first_same_range(candidate, existing, k);
    assert(k as usize == i);
}

/// A subnet whose range no existing subnet covers is always stored.
pub proof fn new_ranges_are_inserted(candidate: SubnetBaseView, existing: Seq<SubnetView>)
    requires
        forall|j: int| 0 <= j < existing.len() ==> #[trigger] existing[j].base.cidr != candidate.cidr,
    ensures
        create_decision(candidate, existing) == Ok::<CreateOutcome, crate::subnet::SubnetCreateError>(
            CreateOutcome::Insert,
        ),
{
}

/// System subnets are never merged: neither a new system subnet nor an
/// existing one takes the other's place.
pub proof fn system_subnets_are_never_merged(candidate: SubnetBaseView, existing: Seq<SubnetView>)
    requires
        candidate.source == SourceView::System || forall|j: int|
            0 <= j < existing.len() ==> #[trigger] existing[j].base.source == SourceView::System,
    ensures
        !(create_decision(candidate, existing) matches Ok(CreateOutcome::ReuseExisting(_))),
{
}

/// A Docker scan of the host `host_id`.
pub open spec fn docker_scan_of(kind: DiscoveryKind, host_id: u128) -> bool {
    match kind {
        DiscoveryKind::Docker { host_id: h, .. } => h == host_id,
        _ => false,
    }
}

/// A Docker scan of a host other than `host_id`.
pub open spec fn docker_scan_elsewhere(kind: DiscoveryKind, host_id: u128) -> bool {
    match kind {
        DiscoveryKind::Docker { host_id: h, .. } => h != host_id,
        _ => false,
    }
}

/// Found first by a Docker scan of the host `host_id`.
pub open spec fn found_by_docker_scan_of(source: SourceView, host_id: u128) -> bool {
    match source {
        SourceView::Discovery { metadata } => metadata.len() > 0 && docker_scan_of(
            metadata[0].discovery_type,
            host_id,
        ),
        _ => false,
    }
}

/// Found only by Docker scans of hosts other than `host_id`.
pub open spec fn found_only_elsewhere(source: SourceView, host_id: u128) -> bool {
    match source {
        SourceView::Discovery { metadata } => forall|k: int|
            0 <= k < metadata.len() ==> docker_scan_elsewhere(#[trigger] metadata[k].discovery_type, host_id),
        _ => false,
    }
}

/// Docker bridges of different hosts are never merged: a bridge found by a
/// Docker scan of one host does not take the place of a subnet that only
/// Docker scans of other hosts found, whatever its range.
pub proof fn docker_bridges_of_other_hosts_are_kept_apart(
    candidate: SubnetBaseView,
    existing: Seq<SubnetView>,
    host_id: u128,
)
    requires
        found_by_docker_scan_of(candidate.source, host_id),
        forall|j: int| 0 <= j < existing.len() ==> found_only_elsewhere(#[trigger] existing[j].base.source, host_id),
    ensures
        create_decision(candidate, existing) == Ok::<CreateOutcome, crate::subnet::SubnetCreateError>(
            CreateOutcome::Insert,
        ),
{
    if exists|i: int| is_first_same_range(candidate, existing, i) {
        let i = choose|i: int| is_first_same_range(candidate, existing, i);
        let found = existing[i].base.source->Discovery_metadata;
        let metadata = candidate.source->Discovery_metadata;
        assert(found_only_elsewhere(existing[i].base.source, host_id));
        assert forall|k: int| 0 <= k < found.len() implies !#[trigger] same_docker_host(
            metadata[0].discovery_type,
            found[k].discovery_type,
        ) by {
            assert(docker_scan_elsewhere(found[k].discovery_type, host_id));
        }
    }
}

/// After a subnet is detached from a host, none of the host's interfaces
/// is on it, and every interface on another subnet is still there.
pub proof fn detached_interfaces_leave_the_subnet<D>(interfaces: Seq<Interface<D>>, subnet_id: u128)
    ensures
        forall|k: int|
            0 <= k < interfaces.filter(on_other_subnet(subnet_id)).len() ==> (#[trigger] interfaces.filter(
                on_other_subnet(subnet_id),
            )[k]).subnet_id != subnet_id,
        forall|k: int|
            0 <= k < interfaces.len() && #[trigger] interfaces[k].subnet_id != subnet_id
                ==> interfaces.filter(on_other_subnet(subnet_id)).contains(interfaces[k]),
{
    broadcast use vstd::seq_lib::group_filter_ensures;

    let pred = on_other_subnet::<D>(subnet_id);
    assert forall|k: int|
        0 <= k < interfaces.filter(pred).len() implies (#[trigger] interfaces.filter(pred)[k]).subnet_id
        != subnet_id by {
        assert(pred(interfaces.filter(pred)[k]));
    }
    assert forall|k: int|
        0 <= k < interfaces.len() && #[trigger] interfaces[k].subnet_id != subnet_id implies interfaces.filter(
        pred,
    ).contains(interfaces[k]) by {
        assert(pred(interfaces[k]));
    }
}


/// A callback whose CSRF token differs from the one stored with the
/// pending authentication is refused before the code is exchanged.
pub proof fn mismatched_csrf_is_refused(return_url: Seq<char>, token: Seq<char>, ctx: ContextView, now: i128)
    requires
        token != ctx.state_param,
    ensures
        next(StageView::AwaitPendingAuth { return_url }, EventView::PendingAuth(Some(token)), ctx, now)
            == fail_to_return(return_url, "Invalid security token. Please try again."@),
{
}

/// The callback only reports success once the pending authentication has
/// been removed from the session.
pub proof fn success_only_after_cleanup(stage: StageView, event: EventView, ctx: ContextView, now: i128)
    requires
        next(stage, event, ctx, now).1 matches ActionView::Respond { redirect } && redirect.success,
    ensures
        stage is AwaitCleanup,
{
}

/// Linking never takes over an OIDC identity that is linked to another
/// user: the flow clears the pending authentication and fails.
pub proof fn linking_never_takes_over(
    return_url: Seq<char>,
    info: UserInfoView,
    user_id: u128,
    owner: u128,
    ctx: ContextView,
    now: i128,
)
    requires
        owner != user_id,
    ensures
        next(
            StageView::AwaitLinkedOwner { return_url, info, user_id },
            EventView::UserBySubject(Ok(Some(owner))),
            ctx,
            now,
        ) == clean_then(
            false,
            link_location(
                return_url,
                Some(
                    "This OIDC account is already linked to another user. Please unlink it first or use a different account."@,
                ),
            ),
        ),
{
}

/// The first OIDC sign-in of an unknown identity claims the seed account:
/// the account written is the first seed, with its identifier kept.
pub proof fn first_sign_in_claims_the_seed(
    return_url: Seq<char>,
    info: UserInfoView,
    users: Seq<UserView>,
    i: int,
    ctx: ContextView,
    now: i128,
)
    requires
        is_first_seed(users, i),
    ensures
        next(StageView::AwaitUsers { return_url, info }, EventView::Users(Ok(users)), ctx, now).1 matches ActionView::UpdateUser {
            user,
        } && user.id == users[i].id && user.base.oidc_subject == Some(info.subject),
{
    let k = choose|k: int| is_first_seed(users, k);
    if k < i {
        assert(!crate::oidc::is_seed(users[k]));
    }
    if i < k {
        assert(!crate::oidc::is_seed(users[i]));
    }
}

/// Whether every redirect that the callback flow holds in `stage`, or can
/// still build from its return URL with pairs appended, has a text.
pub open spec fn redirects_render(stage: StageView) -> bool {
    match stage {
        StageView::AwaitSessionUser { return_url, .. } => parsed_url(return_url) is Some,
        StageView::AwaitLinkedOwner { return_url, .. } => parsed_url(return_url) is Some,
        StageView::AwaitLink { return_url } => parsed_url(return_url) is Some,
        StageView::AwaitCleanup { redirect } => location_text(redirect.location) is Some,
        _ => true,
    }
}

/// The callback flow never answers with a redirect that cannot be
/// rendered: the first stage has the property, every step keeps it, and
/// every response's location has a text, so `Location::render` never gives
/// `None` for it.
pub proof fn callback_redirects_always_render(stage: StageView, event: EventView, ctx: ContextView, now: i128)
    requires
        redirects_render(stage),
    ensures
        redirects_render(StageView::AwaitReturnUrl),
        redirects_render(next(stage, event, ctx, now).0),
        next(stage, event, ctx, now).1 matches ActionView::Respond { redirect } ==> location_text(
            redirect.location,
        ) is Some,
{
}

/// A Docker bridge interface, `br-` followed by a non-empty run of ASCII
/// letters and digits, is classified as a Docker bridge.
pub proof fn bridge_interfaces_are_docker(rest: Seq<char>)
    requires
        rest.len() > 0,
        forall|i: int| 0 <= i < rest.len() ==> is_ascii_alphanumeric(#[trigger] rest[i]),
    ensures
        classify("br-"@ + rest) == SubnetType::DockerBridge,
{
    reveal_strlit("br-");
    let name = "br-"@ + rest;
    assert("br-"@ =~= bridge_pattern());
    assert(name.skip(3) =~= rest);
    assert(bridge_pattern().is_prefix_of(name)) by {
        assert(name.take(3) =~= bridge_pattern());
    }
    assert(matches_pattern(name, docker_patterns()[1]));
}

proof fn first_char_rules_out(name: Seq<char>, patterns: Seq<Seq<char>>)
    requires
        name.len() > 0,
        forall|i: int| 0 <= i < patterns.len() ==> (#[trigger] patterns[i]).len() > 0 && patterns[i][0] != name[0],
    ensures
        !matches_any(name, patterns),
{
    assert forall|i: int| 0 <= i < patterns.len() implies !#[trigger] matches_pattern(name, patterns[i]) by {
        if patterns[i].is_prefix_of(name) {
            assert(patterns[i][0] == name[0]);
        }
    }
}

/// An Ethernet interface, `eth` followed by nothing or by a digit, is
/// classified as a LAN: no rule before the LAN rule claims it.
pub proof fn ethernet_interfaces_are_lan(rest: Seq<char>)
    requires
        rest.len() == 0 || is_ascii_digit(rest[0]),
    ensures
        classify("eth"@ + rest) == SubnetType::Lan,
{
    reveal_strlit("docker");
    reveal_strlit("br-");
    reveal_strlit("tun");
    reveal_strlit("utun");
    reveal_strlit("wg");
    reveal_strlit("tap");
    reveal_strlit("ppp");
    reveal_strlit("vpn");
    reveal_strlit("wlan");
    reveal_strlit("wifi");
    reveal_strlit("wl");
    reveal_strlit("guest");
    reveal_strlit("iot");
    reveal_strlit("dmz");
    reveal_strlit("mgmt");
    reveal_strlit("ipmi");
    reveal_strlit("bmc");
    reveal_strlit("iscsi");
    reveal_strlit("san");
    reveal_strlit("storage");
    reveal_strlit("eth");
    let name = "eth"@ + rest;
    assert(name[0] == 'e');
    first_char_rules_out(name, docker_patterns());
    first_char_rules_out(name, vpn_patterns());
    first_char_rules_out(name, wifi_patterns());
    first_char_rules_out(name, guest_patterns());
    first_char_rules_out(name, iot_patterns());
    first_char_rules_out(name, dmz_patterns());
    first_char_rules_out(name, management_patterns());
    first_char_rules_out(name, storage_patterns());
    assert(name.skip(3) =~= rest);
    assert("eth"@.is_prefix_of(name)) by {
        assert(name.take(3) =~= "eth"@);
    }
    assert("eth"@ != bridge_pattern());
    assert(matches_pattern(name, lan_patterns()[0]));
}

/// `i` is the one first existing subnet with the candidate's range.
proof fn first_same_range_is_unique(candidate: SubnetBaseView, existing: Seq<SubnetView>, i: int, j: int)
    requires
        is_first_same_range(candidate, existing, i),
        is_first_same_range(candidate, existing, j),
    ensures
        i == j,
{
    if i < j {
        assert(!same_range(existing[i].base, candidate));
    } else if j < i {
        assert(!same_range(existing[j].base, candidate));
    }
}

/// The host of a Docker scan; no other run has one.
pub open spec fn docker_host(kind: DiscoveryKind) -> Option<u128> {
    match kind {
        DiscoveryKind::Docker { host_id, .. } => Some(host_id),
        _ => None,
    }
}

/// Two runs conflict only when both are Docker scans, of different hosts.
pub open spec fn runs_conflict(a: DiscoveryKind, b: DiscoveryKind) -> bool {
    docker_host(a) is Some && docker_host(b) is Some && docker_host(a) != docker_host(b)
}

/// A subnet with a range that an existing subnet already covers is that
/// existing subnet (the first one with the range) unless the sources
/// forbid it: a system subnet on either side forbids it; two discovered
/// subnets are merged when some run that found the existing one does not
/// conflict with the run that found the new one, and a discovered subnet
/// without its run cannot be compared; every other pair is merged, so a
/// manually entered subnet stands for any new subnet that is not a system
/// subnet, and the other way round.
pub proof fn duplicates_are_merged_unless_the_sources_forbid_it(
    candidate: SubnetBaseView,
    existing: Seq<SubnetView>,
    i: int,
)
    requires
        is_first_same_range(candidate, existing, i),
    ensures
        existing[i].base.source is System || candidate.source is System ==> create_decision(
            candidate,
            existing,
        ) == Ok::<CreateOutcome, SubnetCreateError>(CreateOutcome::Insert),
        !(existing[i].base.source is System) && !(candidate.source is System) && (existing[i].base.source is Manual
            || candidate.source is Manual) ==> create_decision(candidate, existing) == Ok::<
            CreateOutcome,
            SubnetCreateError,
        >(CreateOutcome::ReuseExisting(i as usize)),
        existing[i].base.source matches SourceView::Discovery { metadata: runs } ==> (
        candidate.source matches SourceView::Discovery { metadata } ==> {
            &&& metadata.len() == 0 ==> create_decision(candidate, existing) == Err::<
                CreateOutcome,
                SubnetCreateError,
            >(SubnetCreateError::MissingDiscoveryMetadata)
            &&& metadata.len() > 0 ==> (create_decision(candidate, existing) == if exists|k: int|
                0 <= k < runs.len() && !runs_conflict(metadata[0].discovery_type, #[trigger] runs[k].discovery_type) {
                Ok::<CreateOutcome, SubnetCreateError>(CreateOutcome::ReuseExisting(i as usize))
            } else {
                Ok::<CreateOutcome, SubnetCreateError>(CreateOutcome::Insert)
            })
        }),
{
    assert(exists|j: int| is_first_same_range(candidate, existing, j));
    let j = choose|j: int| is_first_same_range(candidate, existing, j);
    first_same_range_is_unique(candidate, existing, i, j);
    if let SourceView::Discovery { metadata: runs } = existing[i].base.source {
        if let SourceView::Discovery { metadata } = candidate.source {
            if metadata.len() > 0 {
                assert forall|k: int| 0 <= k < runs.len() implies (same_docker_host(
                    metadata[0].discovery_type,
                    runs[k].discovery_type,
                ) <==> !runs_conflict(metadata[0].discovery_type, runs[k].discovery_type)) by {}
            }
        }
    }
}

/// The request's host, where its kind of run has one.
pub open spec fn requested_host(kind: DiscoveryKind) -> Option<u128> {
    match kind {
        DiscoveryKind::SelfReport { host_id } => Some(host_id),
        DiscoveryKind::Docker { host_id, .. } => Some(host_id),
        DiscoveryKind::Network { .. } => None,
    }
}

/// The request's naming fallback, where its kind of run has one.
pub open spec fn requested_fallback(kind: DiscoveryKind) -> Option<HostNamingFallback> {
    match kind {
        DiscoveryKind::SelfReport { .. } => None,
        DiscoveryKind::Docker { host_naming_fallback, .. } => Some(host_naming_fallback),
        DiscoveryKind::Network { host_naming_fallback, .. } => Some(host_naming_fallback),
    }
}

/// The request's subnets, where its kind of run has them.
pub open spec fn requested_subnets(kind: DiscoveryKind) -> Option<Option<Seq<u128>>> {
    match kind {
        DiscoveryKind::Network { subnet_ids, .. } => Some(subnet_ids),
        _ => None,
    }
}

pub open spec fn planned_host(plan: RunnerPlanView) -> Option<u128> {
    match plan {
        RunnerPlanView::SelfReport { host_id } => Some(host_id),
        RunnerPlanView::DockerScan { host_id, .. } => Some(host_id),
        RunnerPlanView::NetworkScan { .. } => None,
    }
}

pub open spec fn planned_fallback(plan: RunnerPlanView) -> Option<HostNamingFallback> {
    match plan {
        RunnerPlanView::SelfReport { .. } => None,
        RunnerPlanView::DockerScan { host_naming_fallback, .. } => Some(host_naming_fallback),
        RunnerPlanView::NetworkScan { host_naming_fallback, .. } => Some(host_naming_fallback),
    }
}

pub open spec fn planned_subnets(plan: RunnerPlanView) -> Option<Option<Seq<u128>>> {
    match plan {
        RunnerPlanView::NetworkScan { subnet_ids, .. } => Some(subnet_ids),
        _ => None,
    }
}

/// Each kind of discovery is run by its own runner, and the runner gets the
/// request's host, naming fallback and subnets unchanged, whatever they are.
pub proof fn runners_get_the_requests_parameters(kind: DiscoveryKind)
    ensures
        kind is SelfReport <==> spec_runner(kind) is SelfReport,
        kind is Docker <==> spec_runner(kind) is DockerScan,
        kind is Network <==> spec_runner(kind) is NetworkScan,
        planned_host(spec_runner(kind)) == requested_host(kind),
        planned_fallback(spec_runner(kind)) == requested_fallback(kind),
        planned_subnets(spec_runner(kind)) == requested_subnets(kind),
{
}

/// Changing the credentials sets the email to the new one whenever one is
/// given and the password hash to the new one whenever one is given, each
/// whatever the other argument is; what is not given, and everything else
/// about the user, stays.
pub proof fn credentials_change_independently(
    user: UserView,
    password_hash: Option<Seq<char>>,
    email: Option<Seq<char>>,
)
    ensures
        email matches Some(e) ==> with_credentials(user, password_hash, email).base.email == e,
        email is None ==> with_credentials(user, password_hash, email).base.email == user.base.email,
        password_hash matches Some(h) ==> with_credentials(user, password_hash, email).base.password_hash
            == Some(h),
        password_hash is None ==> with_credentials(user, password_hash, email).base.password_hash
            == user.base.password_hash,
        with_credentials(user, password_hash, email).id == user.id,
        with_credentials(user, password_hash, email).created_at == user.created_at,
        with_credentials(user, password_hash, email).updated_at == user.updated_at,
        with_credentials(user, password_hash, email).base.oidc_subject == user.base.oidc_subject,
        with_credentials(user, password_hash, email).base.oidc_provider == user.base.oidc_provider,
        with_credentials(user, password_hash, email).base.oidc_linked_at == user.base.oidc_linked_at,
{
}

/// The settings keep every option but the network as it was given, and
/// the network is the option's text read as a UUID.
pub proof fn settings_keep_the_options(cli: Cli)
    ensures
        args_of(cli).server_target == cli.server_target,
        args_of(cli).server_port == cli.server_port,
        args_of(cli).daemon_port == cli.daemon_port,
        args_of(cli).name == cli.name,
        args_of(cli).bind_address == cli.bind_address,
        args_of(cli).log_level == cli.log_level,
        args_of(cli).heartbeat_interval == cli.heartbeat_interval,
        args_of(cli).concurrent_scans == cli.concurrent_scans,
        args_of(cli).daemon_api_key == cli.daemon_api_key,
        args_of(cli).docker_proxy == cli.docker_proxy,
        cli.network_id is None ==> args_of(cli).network_id is None,
        cli.network_id matches Some(s) ==> args_of(cli).network_id == uuid_text_value(s@),
{
}

/// A daemon is written with every column holding the field of its name:
/// one column per field, each named once, the network in `network_id` and
/// the host in `host_id`.
pub proof fn daemon_columns_hold_their_fields(d: DaemonView)
    ensures
        daemon_columns().len() == 9,
        daemon_values(d).len() == 9,
        forall|k: int|
            0 <= k < 9 ==> daemon_column_value(d, #[trigger] daemon_columns()[k]) == Some(daemon_values(d)[k]),
        forall|k: int, l: int| 0 <= k < l < 9 ==> daemon_columns()[k] != daemon_columns()[l],
{
    reveal_strlit("id");
    reveal_strlit("created_at");
    reveal_strlit("updated_at");
    reveal_strlit("last_seen");
    reveal_strlit("network_id");
    reveal_strlit("host_id");
    reveal_strlit("capabilities");
    reveal_strlit("port");
    reveal_strlit("ip");
    let c = daemon_columns();
    assert forall|k: int, l: int| 0 <= k < l < 9 implies c[k] != c[l] by {
        if c[k] == c[l] {
            assert(c[k].len() == c[l].len());
            assert(c[k][0] == c[l][0]);
            assert(c[k][c[k].len() - 1] == c[l][c[l].len() - 1]);
        }
    }
}

/// A subnet is written with every column holding the field of its name,
/// one column per field, each named once.
pub proof fn subnet_columns_hold_their_fields(s: SubnetView)
    ensures
        subnet_columns().len() == 9,
        subnet_values(s).len() == 9,
        forall|k: int|
            0 <= k < 9 ==> subnet_column_value(s, #[trigger] subnet_columns()[k]) == Some(subnet_values(s)[k]),
        forall|k: int, l: int| 0 <= k < l < 9 ==> subnet_columns()[k] != subnet_columns()[l],
{
    reveal_strlit("id");
    reveal_strlit("name");
    reveal_strlit("description");
    reveal_strlit("cidr");
    reveal_strlit("source");
    reveal_strlit("subnet_type");
    reveal_strlit("network_id");
    reveal_strlit("created_at");
    reveal_strlit("updated_at");
    let c = subnet_columns();
    assert forall|k: int, l: int| 0 <= k < l < 9 implies c[k] != c[l] by {
        if c[k] == c[l] {
            assert(c[k].len() == c[l].len());
            assert(c[k][0] == c[l][0]);
            assert(c[k][c[k].len() - 1] == c[l][c[l].len() - 1]);
        }
    }
}

/// A network is written with every column holding the field of its name,
/// one column per field, each named once.
pub proof fn network_columns_hold_their_fields(n: NetworkView)
    ensures
        network_columns().len() == 6,
        network_values(n).len() == 6,
        forall|k: int|
            0 <= k < 6 ==> network_column_value(n, #[trigger] network_columns()[k]) == Some(network_values(n)[k]),
        forall|k: int, l: int| 0 <= k < l < 6 ==> network_columns()[k] != network_columns()[l],
{
    reveal_strlit("id");
    reveal_strlit("created_at");
    reveal_strlit("updated_at");
    reveal_strlit("name");
    reveal_strlit("user_id");
    reveal_strlit("is_default");
    let c = network_columns();
    assert forall|k: int, l: int| 0 <= k < l < 6 implies c[k] != c[l] by {
        if c[k] == c[l] {
            assert(c[k].len() == c[l].len());
            assert(c[k][0] == c[l][0]);
            assert(c[k][c[k].len() - 1] == c[l][c[l].len() - 1]);
        }
    }
}

} // verus!
