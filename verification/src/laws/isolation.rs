//! How clones of a Compose project are kept apart.

use crate::compose::isolation::{
    ComposeIsolationNameRewritePlan, ComposeIsolationResourceKind, ComposeIsolationSubnetPlan,
};
use crate::config::{ResolvedComposeCloneIsolation, ResolvedComposeCloneIsolationEndpoint};
use crate::error::UpError;
use crate::start::isolation::{
    fixed_names_are_complete, fixed_names_of, is_idle, project_of, ComposeIsolationDaemonSnapshot,
    ComposeIsolationScan,
};
use crate::start::preflight::{
    allows_replacing, begins_isolation, declares, ends_with_endpoints, ends_with_subnets,
    given_before, held_after, isolates, lists_all, lookups_of, named_lookups, remembers,
    ComposeIsolationEndpoints, ComposeIsolationFinding, ComposeIsolationNameRewritePlanInput,
    ComposeIsolationPersistedSubnet, ComposeIsolationPlanInput, ComposeIsolationPlans,
    ComposeIsolationPreflight, ComposeIsolationSubnetPlanInput, IsolationDiscovery,
    IsolationServices, LookupView, NamedComposeIsolation,
};
use crate::start::state_sync::CloneIsolationNetworkRuntimeState;
use crate::text::{opt_view, trimmed, without_leading};
use crate::text_map::{lookup, TextMap};
use vstd::prelude::*;

verus! {

proof fn name_is_looked_up(scan: ComposeIsolationScan, i: int)
    requires
        0 <= i < scan.fixed_names@.len(),
    ensures
        named_lookups(scan, scan.fixed_names@[i].kind).contains(
            LookupView::Named(scan.fixed_names@[i].kind, scan.fixed_names@[i].name@),
        ),
        fixed_names_of(scan.fixed_names@, scan.fixed_names@[i].kind).len() > 0,
{
    let kind = scan.fixed_names@[i].kind;
    let name = scan.fixed_names@[i].name@;
    fixed_names_are_complete(scan.fixed_names@, kind);
    let names = fixed_names_of(scan.fixed_names@, kind);
    assert(names.contains(name));
    let j = choose|j: int| 0 <= j < names.len() && names[j] == name;
    assert(named_lookups(scan, kind)[j] == LookupView::Named(kind, name));
}

/// Every name that the files of a project fix is looked up in Docker as what it
/// is; networks are looked up all together, where one has a fixed name or fixed
/// addresses.
pub proof fn fixed_names_are_looked_up(scan: ComposeIsolationScan, i: int)
    requires
        0 <= i < scan.fixed_names@.len(),
    ensures
        scan.fixed_names@[i].kind is Network ==> lookups_of(scan).contains(LookupView::Networks),
        !(scan.fixed_names@[i].kind is Network) ==> lookups_of(scan).contains(
            LookupView::Named(scan.fixed_names@[i].kind, scan.fixed_names@[i].name@),
        ),
{
    let kind = scan.fixed_names@[i].kind;
    let wanted = LookupView::Named(kind, scan.fixed_names@[i].name@);
    name_is_looked_up(scan, i);
    let all = lookups_of(scan);
    let named = named_lookups(scan, kind);
    let j = choose|j: int| 0 <= j < named.len() && named[j] == wanted;
    let networks: int = if scan.networks@.len() > 0 || fixed_names_of(
        scan.fixed_names@,
        ComposeIsolationResourceKind::Network,
    ).len() > 0 {
        1
    } else {
        0
    };
    let containers = named_lookups(
        scan,
        ComposeIsolationResourceKind::ServiceContainer,
    ).len() as int;
    let volumes = named_lookups(scan, ComposeIsolationResourceKind::Volume).len() as int;
    let configs = named_lookups(scan, ComposeIsolationResourceKind::Config).len() as int;
    if kind is Network {
        assert(all[0] == LookupView::Networks);
    } else if kind is ServiceContainer {
        assert(all[networks + j] == wanted);
    } else if kind is Volume {
        assert(all[networks + containers + j] == wanted);
    } else if kind is Config {
        assert(all[networks + containers + volumes + j] == wanted);
    } else {
        assert(all[networks + containers + volumes + configs + j] == wanted);
    }
}

/// Networks with fixed addresses are looked up too, and a project that fixes
/// nothing looks nothing up.
pub proof fn fixed_addresses_are_looked_up(scan: ComposeIsolationScan)
    ensures
        scan.networks@.len() > 0 ==> lookups_of(scan).contains(LookupView::Networks),
        scan.networks@.len() == 0 && scan.fixed_names@.len() == 0 ==> lookups_of(scan).len() == 0,
{
    if scan.networks@.len() > 0 {
        assert(lookups_of(scan)[0] == LookupView::Networks);
    }
}

/// What Docker holds goes unasked only where the files fix no name and no
/// network, and no variable is to be rewritten.
pub proof fn idle_projects_fix_nothing(
    scan: ComposeIsolationScan,
    isolation: ResolvedComposeCloneIsolation,
)
    ensures
        scan.fixed_names@.len() > 0 ==> !is_idle(scan, isolation),
        scan.networks@.len() > 0 ==> !is_idle(scan, isolation),
        isolation.enabled && isolation.endpoints@.len() > 0 ==> !is_idle(scan, isolation),
        scan.fixed_names@.len() == 0 && scan.networks@.len() == 0 && !isolation.enabled ==> is_idle(
            scan,
            isolation,
        ),
        scan.fixed_names@.len() == 0 && scan.networks@.len() == 0 && isolation.endpoints@.len()
            == 0 ==> is_idle(scan, isolation),
{
}

/// The project that labels name: what stands under
/// `com.docker.compose.project`, without white space around it and unless
/// nothing is left.
pub proof fn labels_name_the_project(labels: Option<TextMap<String>>)
    ensures
        project_of(labels) is Some <==> {
            &&& labels is Some
            &&& lookup(labels->0@, "com.docker.compose.project"@) is Some
            &&& trimmed(lookup(labels->0@, "com.docker.compose.project"@)->0@).len() > 0
        },
        project_of(labels) is Some ==> project_of(labels)->0 == trimmed(
            lookup(labels->0@, "com.docker.compose.project"@)->0@,
        ),
{
}

/// What Docker told of, as it is held: a network, a container, or another
/// resource.
pub open spec fn kind_found(found: IsolationDiscovery) -> ComposeIsolationResourceKind {
    match found {
        IsolationDiscovery::Network(_) => ComposeIsolationResourceKind::Network,
        IsolationDiscovery::Container { .. } => ComposeIsolationResourceKind::ServiceContainer,
        IsolationDiscovery::Resource { kind, .. } => kind,
    }
}

/// The name that Docker told, a container's without the slash in front.
pub open spec fn name_told(found: IsolationDiscovery) -> Option<Seq<char>> {
    match found {
        IsolationDiscovery::Network(told) => opt_view(told.name),
        IsolationDiscovery::Container { container, .. } => if container.name is Some {
            Some(without_leading(container.name->0@, '/'))
        } else {
            None
        },
        IsolationDiscovery::Resource { resource, .. } => opt_view(resource.name),
    }
}

/// The name that was looked up.
pub open spec fn name_asked(found: IsolationDiscovery) -> Option<Seq<char>> {
    match found {
        IsolationDiscovery::Network(_) => None,
        IsolationDiscovery::Container { requested_name, .. } => Some(requested_name@),
        IsolationDiscovery::Resource { requested_name, .. } => Some(requested_name@),
    }
}

/// The labels that Docker told.
pub open spec fn labels_told(found: IsolationDiscovery) -> Option<TextMap<String>> {
    match found {
        IsolationDiscovery::Network(told) => told.labels,
        IsolationDiscovery::Container { container, .. } => if container.config is Some {
            container.config->0.labels
        } else {
            None
        },
        IsolationDiscovery::Resource { resource, .. } => resource.labels,
    }
}

/// The name that something found is held under: the one that Docker told,
/// without white space around it; where nothing is left of it, the one that was
/// looked up.
pub open spec fn name_held(found: IsolationDiscovery) -> Option<Seq<char>> {
    if name_told(found) is Some && trimmed(name_told(found)->0).len() > 0 {
        Some(trimmed(name_told(found)->0))
    } else {
        name_asked(found)
    }
}

/// All that Docker told of is held, with its kind, its name and the project
/// that it belongs to; only a network without a name is left out.
pub proof fn all_that_is_found_is_held(found: Seq<IsolationDiscovery>, i: int) -> (r: int)
    requires
        0 <= i < found.len(),
        name_held(found[i]) is Some,
    ensures
        0 <= r < held_after(found).resources.len(),
        held_after(found).resources[r].kind == kind_found(found[i]),
        held_after(found).resources[r].name == name_held(found[i])->0,
        held_after(found).resources[r].compose_project == project_of(labels_told(found[i])),
    decreases found.len(),
{
    let front = found.drop_last();
    let before = held_after(front).resources;
    let after = held_after(found).resources;
    if i < front.len() {
        assert(front[i] == found[i]);
        let r = all_that_is_found_is_held(front, i);
        assert(after[r] == before[r]);
        r
    } else {
        after.len() - 1
    }
}

/// Every network with a name is held, with what Docker told of it.
pub proof fn found_networks_are_held(found: Seq<IsolationDiscovery>, i: int) -> (n: int)
    requires
        0 <= i < found.len(),
        found[i] is Network,
        name_held(found[i]) is Some,
    ensures
        0 <= n < held_after(found).networks.len(),
        ({
            let held = held_after(found).networks[n];
            let told = found[i]->Network_0;
            let label = lookup(told.labels->0@, "com.docker.compose.network"@);
            &&& held.name == trimmed(told.name->0@)
            &&& held.compose_project == project_of(told.labels)
            &&& held.compose_network is Some <==> told.labels is Some && label is Some && trimmed(
                label->0@,
            ).len() > 0
            &&& held.compose_network is Some ==> held.compose_network->0 == trimmed(label->0@)
            &&& held.scope == told.scope
            &&& told.ipam is Some ==> held.ipam_driver == told.ipam->0.driver
            &&& told.ipam is Some ==> held.ipam_configs == told.ipam->0.config@
            &&& told.ipam is None ==> held.ipam_driver is None && held.ipam_configs.len() == 0
            &&& held.has_attached_containers <==> told.containers@.len() > 0
        }),
    decreases found.len(),
{
    let front = found.drop_last();
    let before = held_after(front).networks;
    let after = held_after(found).networks;
    if i < front.len() {
        assert(front[i] == found[i]);
        let n = found_networks_are_held(front, i);
        assert(after[n] == before[n]);
        n
    } else {
        after.len() - 1
    }
}

/// Nothing is held that Docker did not tell of.
pub proof fn all_that_is_held_was_found(found: Seq<IsolationDiscovery>, r: int) -> (i: int)
    requires
        0 <= r < held_after(found).resources.len(),
    ensures
        0 <= i < found.len(),
        name_held(found[i]) is Some,
        held_after(found).resources[r].kind == kind_found(found[i]),
        held_after(found).resources[r].name == name_held(found[i])->0,
        held_after(found).resources[r].compose_project == project_of(labels_told(found[i])),
    decreases found.len(),
{
    let front = found.drop_last();
    let before = held_after(front).resources;
    let after = held_after(found).resources;
    if r < before.len() {
        assert(after[r] == before[r]);
        let i = all_that_is_held_was_found(front, r);
        assert(front[i] == found[i]);
        i
    } else {
        found.len() - 1
    }
}

/// Every network that was given addresses at an earlier start comes back with
/// the subnet that was asked for and the one that was given.
pub proof fn given_subnets_come_back(networks: Seq<CloneIsolationNetworkRuntimeState>, n: int)
    requires
        0 <= n < networks.len(),
    ensures
        given_before(networks).len() == networks.len(),
        given_before(networks)[n].network == networks[n].network,
        given_before(networks)[n].requested_subnet == networks[n].requested_subnet,
        given_before(networks)[n].planned_subnet == networks[n].planned_subnet,
{
}

/// The names of a project are planned from what its files fix, with the
/// settings of the configuration, and its files are then read as renamed.
pub proof fn names_are_planned_as_configured<S: IsolationServices>(
    services: &S,
    model: &String,
    project_name: &String,
    workspace_id: &String,
    isolation: ResolvedComposeCloneIsolation,
    outcome: ComposeIsolationPreflight,
)
    requires
        begins_isolation(services, model, project_name, workspace_id, isolation, outcome),
        outcome is Lookup,
    ensures
        exists|scan: ComposeIsolationScan, input: ComposeIsolationNameRewritePlanInput|
            {
                &&& #[trigger] call_ensures(
                    S::scan_compose_isolation,
                    (services, model, project_name),
                    scan,
                )
                &&& #[trigger] call_ensures(
                    S::plan_compose_isolation_name_rewrites,
                    (services, &input),
                    outcome->Lookup_0.name_rewrite_plan,
                )
                &&& call_ensures(
                    S::apply_compose_isolation_name_rewrites,
                    (services, &scan, &outcome->Lookup_0.name_rewrite_plan),
                    outcome->Lookup_0.scan,
                )
                &&& input.model@ == model@
                &&& *input.scan == scan
                &&& input.workspace_id@ == workspace_id@
                &&& input.enabled == isolation.enabled
                &&& input.rewrite_container_names == isolation.names.rewrite_container_names
                &&& input.rewrite_resource_names == isolation.names.rewrite_resource_names
                &&& scan.fixed_names@.len() > 0 || scan.networks@.len() > 0 || isolation.enabled
                    && isolation.endpoints@.len() > 0
            },
{
    let scan = choose|scan: ComposeIsolationScan| #[trigger]
        call_ensures(S::scan_compose_isolation, (services, model, project_name), scan)
            && !is_idle(scan, isolation) && exists|
            names: ComposeIsolationNameRewritePlan,
            after: ComposeIsolationScan,
        |
            {
                &&& #[trigger] call_ensures(
                    S::plan_compose_isolation_name_rewrites,
                    (
                        services,
                        &(ComposeIsolationNameRewritePlanInput {
                            model,
                            scan: &scan,
                            workspace_id,
                            enabled: isolation.enabled,
                            rewrite_container_names: isolation.names.rewrite_container_names,
                            rewrite_resource_names: isolation.names.rewrite_resource_names,
                        }),
                    ),
                    names,
                )
                &&& #[trigger] call_ensures(
                    S::apply_compose_isolation_name_rewrites,
                    (services, &scan, &names),
                    after,
                )
                &&& outcome == ComposeIsolationPreflight::Lookup(
                    NamedComposeIsolation { name_rewrite_plan: names, scan: after },
                )
            };
    let input = ComposeIsolationNameRewritePlanInput {
        model,
        scan: &scan,
        workspace_id,
        enabled: isolation.enabled,
        rewrite_container_names: isolation.names.rewrite_container_names,
        rewrite_resource_names: isolation.names.rewrite_resource_names,
    };
    assert(call_ensures(
        S::plan_compose_isolation_name_rewrites,
        (services, &input),
        outcome->Lookup_0.name_rewrite_plan,
    ));
}

/// Whether addresses are asked for as the configuration says, for this project
/// and workspace, around what Docker holds and with what was given before.
pub open spec fn asks_for_subnets(
    input: ComposeIsolationSubnetPlanInput,
    model: Seq<char>,
    project_name: Seq<char>,
    workspace_id: Seq<char>,
    isolation: ResolvedComposeCloneIsolation,
    scan: ComposeIsolationScan,
    daemon: ComposeIsolationDaemonSnapshot,
    remembered: Seq<CloneIsolationNetworkRuntimeState>,
    rebuild: bool,
) -> bool {
    &&& input.model@ == model
    &&& input.project_name@ == project_name
    &&& input.workspace_id@ == workspace_id
    &&& *input.scan == scan
    &&& *input.daemon == daemon
    &&& input.state@.len() == remembered.len()
    &&& forall|n: int|
        0 <= n < remembered.len() ==> {
            &&& (#[trigger] input.state@[n]).network == remembered[n].network
            &&& input.state@[n].requested_subnet == remembered[n].requested_subnet
            &&& input.state@[n].planned_subnet == remembered[n].planned_subnet
        }
    &&& input.enabled == isolation.enabled
    &&& input.relocation == isolation.networks.relocation
    &&& *input.subnet_pool == isolation.networks.subnet_pool
    &&& input.subnet_prefix == isolation.networks.subnet_prefix
    &&& input.rebuild == rebuild
}

/// Whether all that stands against a start was looked at and let pass: what was
/// found on the project as it is started, and what was found on its variables.
pub open spec fn passes_the_check<S: IsolationServices>(
    services: &S,
    project_name: Seq<char>,
    scan: ComposeIsolationScan,
    daemon: ComposeIsolationDaemonSnapshot,
    endpoints: ComposeIsolationEndpoints,
) -> bool {
    exists|
        after: ComposeIsolationScan,
        input: ComposeIsolationPlanInput,
        found: Vec<ComposeIsolationFinding>,
        all: Vec<ComposeIsolationFinding>,
        check: Result<(), UpError>,
    |
        {
            &&& #[trigger] call_ensures(
                S::apply_compose_isolation_subnet_plan,
                (services, &scan, &endpoints.subnet_plan),
                after,
            )
            &&& #[trigger] call_ensures(S::plan_compose_isolation, (services, &input), found)
            &&& input.project_name@ == project_name
            &&& *input.scan == after
            &&& *input.daemon == daemon
            &&& all@ == found@ + endpoints.findings@
            &&& #[trigger] call_ensures(
                S::validate_compose_isolation_diagnostics,
                (services, &all),
                check,
            )
            &&& check is Ok
        }
}

/// Whether variables were planned for a project and its addresses: those of the
/// configuration, and none where clones are not kept apart.
pub open spec fn plans_endpoints<S: IsolationServices>(
    services: &S,
    model: &String,
    scan: ComposeIsolationScan,
    isolation: ResolvedComposeCloneIsolation,
    subnets: ComposeIsolationSubnetPlan,
    endpoints: ComposeIsolationEndpoints,
) -> bool {
    exists|
        declarations: Vec<ResolvedComposeCloneIsolationEndpoint>,
        planned: Result<ComposeIsolationEndpoints, UpError>,
    |
        {
            &&& #[trigger] call_ensures(
                S::plan_compose_isolation_endpoints,
                (services, model, &scan, &declarations, subnets),
                planned,
            )
            &&& planned == Ok::<ComposeIsolationEndpoints, UpError>(endpoints)
            &&& isolation.enabled ==> declarations@ == isolation.endpoints@
            &&& !isolation.enabled ==> declarations@.len() == 0
        }
}

/// A clone is started only with names that were planned before, addresses that
/// were asked for as configured, and variables that follow them; Compose must be
/// able to replace lists where addresses move, and nothing found may stand
/// against the start.
pub proof fn clones_are_kept_apart<S: IsolationServices>(
    services: &S,
    model: &String,
    project_name: &String,
    workspace_id: &String,
    isolation: ResolvedComposeCloneIsolation,
    named: NamedComposeIsolation,
    daemon: &ComposeIsolationDaemonSnapshot,
    remembered: Seq<CloneIsolationNetworkRuntimeState>,
    rebuild: bool,
    outcome: Result<ComposeIsolationPlans, UpError>,
) -> (told: (ComposeIsolationSubnetPlan, ComposeIsolationEndpoints))
    requires
        isolates(
            services,
            model,
            project_name,
            workspace_id,
            isolation,
            named,
            daemon,
            remembered,
            rebuild,
            outcome,
        ),
        outcome is Ok,
    ensures
        outcome->Ok_0.names == named.name_rewrite_plan,
        outcome->Ok_0.subnets == told.1.subnet_plan,
        outcome->Ok_0.endpoints == told.1.plan,
        exists|
            input: ComposeIsolationSubnetPlanInput,
            planned: Result<ComposeIsolationSubnetPlan, UpError>,
        |
            {
                &&& #[trigger] call_ensures(
                    S::plan_compose_isolation_subnets,
                    (services, &input),
                    planned,
                )
                &&& planned == Ok::<ComposeIsolationSubnetPlan, UpError>(told.0)
                &&& asks_for_subnets(
                    input,
                    model@,
                    project_name@,
                    workspace_id@,
                    isolation,
                    named.scan,
                    *daemon,
                    remembered,
                    rebuild,
                )
            },
        told.0.allocations@.len() > 0 ==> exists|tag: Result<(), UpError>| #[trigger]
            call_ensures(S::ensure_compose_override_tag, (services,), tag) && tag is Ok,
        plans_endpoints(services, model, named.scan, isolation, told.0, told.1),
        passes_the_check(services, project_name@, named.scan, *daemon, told.1),
{
    let (state, planned) = choose|
        state: Vec<ComposeIsolationPersistedSubnet>,
        subnets: Result<ComposeIsolationSubnetPlan, UpError>,
    |
        {
            &&& #[trigger] remembers(state, remembered)
            &&& #[trigger] call_ensures(
                S::plan_compose_isolation_subnets,
                (
                    services,
                    &(ComposeIsolationSubnetPlanInput {
                        model,
                        project_name,
                        workspace_id,
                        scan: &named.scan,
                        daemon,
                        state: &state,
                        enabled: isolation.enabled,
                        relocation: isolation.networks.relocation,
                        subnet_pool: &isolation.networks.subnet_pool,
                        subnet_prefix: isolation.networks.subnet_prefix,
                        rebuild,
                    }),
                ),
                subnets,
            )
            &&& match subnets {
                Err(error) => outcome == Err::<ComposeIsolationPlans, UpError>(error),
                Ok(subnets) => ends_with_subnets(
                    services,
                    model,
                    project_name,
                    isolation,
                    named,
                    daemon,
                    subnets,
                    outcome,
                ),
            }
        };
    let input = ComposeIsolationSubnetPlanInput {
        model,
        project_name,
        workspace_id,
        scan: &named.scan,
        daemon,
        state: &state,
        enabled: isolation.enabled,
        relocation: isolation.networks.relocation,
        subnet_pool: &isolation.networks.subnet_pool,
        subnet_prefix: isolation.networks.subnet_prefix,
        rebuild,
    };
    assert(call_ensures(S::plan_compose_isolation_subnets, (services, &input), planned));
    let subnets = planned->Ok_0;
    assert forall|n: int| 0 <= n < remembered.len() implies {
        &&& (#[trigger] input.state@[n]).network == remembered[n].network
        &&& input.state@[n].requested_subnet == remembered[n].requested_subnet
        &&& input.state@[n].planned_subnet == remembered[n].planned_subnet
    } by {
        given_subnets_come_back(remembered, n);
    }
    assert(asks_for_subnets(
        input,
        model@,
        project_name@,
        workspace_id@,
        isolation,
        named.scan,
        *daemon,
        remembered,
        rebuild,
    ));
    let tag = choose|tag: Result<(), UpError>| #[trigger]
        allows_replacing(services, subnets, tag) && tag is Ok;
    let (declarations, answer) = choose|
        declarations: Vec<ResolvedComposeCloneIsolationEndpoint>,
        endpoints: Result<ComposeIsolationEndpoints, UpError>,
    |
        {
            &&& #[trigger] declares(isolation, declarations)
            &&& #[trigger] call_ensures(
                S::plan_compose_isolation_endpoints,
                (services, model, &named.scan, &declarations, subnets),
                endpoints,
            )
            &&& endpoints is Ok
            &&& ends_with_endpoints(
                services,
                project_name,
                named,
                daemon,
                endpoints->Ok_0,
                outcome,
            )
        };
    let endpoints = answer->Ok_0;
    assert(call_ensures(
        S::plan_compose_isolation_endpoints,
        (services, model, &named.scan, &declarations, subnets),
        answer,
    ));
    assert(answer == Ok::<ComposeIsolationEndpoints, UpError>(endpoints));
    assert(!isolation.enabled ==> declarations@.len() == 0);
    assert(plans_endpoints(services, model, named.scan, isolation, subnets, endpoints));
    let (after, found, all, check) = choose|
        after: ComposeIsolationScan,
        found: Vec<ComposeIsolationFinding>,
        all: Vec<ComposeIsolationFinding>,
        check: Result<(), UpError>,
    |
        {
            &&& #[trigger] call_ensures(
                S::apply_compose_isolation_subnet_plan,
                (services, &named.scan, &endpoints.subnet_plan),
                after,
            )
            &&& #[trigger] call_ensures(
                S::plan_compose_isolation,
                (services, &(ComposeIsolationPlanInput { project_name, scan: &after, daemon })),
                found,
            )
            &&& #[trigger] lists_all(all, found, endpoints.findings)
            &&& #[trigger] call_ensures(
                S::validate_compose_isolation_diagnostics,
                (services, &all),
                check,
            )
            &&& check is Ok
        };
    let looked_at = ComposeIsolationPlanInput { project_name, scan: &after, daemon };
    assert(call_ensures(S::plan_compose_isolation, (services, &looked_at), found));
    (subnets, endpoints)
}

} // verus!
