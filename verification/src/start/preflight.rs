//! How a clone of a Compose project is kept apart before it is started.

use crate::compose::isolation::{
    ComposeIsolationEndpointPlan, ComposeIsolationNameRewritePlan, ComposeIsolationResourceKind,
    ComposeIsolationSubnetPlan,
};
use crate::config::{ResolvedComposeCloneIsolation, ResolvedComposeCloneIsolationEndpoint};
use crate::error::UpError;
use crate::start::inspect::ContainerInspect;
use crate::start::isolation::{
    add_compose_isolation_container, add_compose_isolation_network,
    add_compose_isolation_swarm_resource, adds_network, adds_resource,
    compose_isolation_endpoint_declarations, compose_isolation_is_idle,
    compose_isolation_needs_networks, fixed_names_of, fixed_resource_names, ipam_configs_of,
    is_idle, label_text, project_of, told_name, ComposeIsolationDaemonSnapshot,
    ComposeIsolationDockerIpamConfig, ComposeIsolationDockerNetwork,
    ComposeIsolationDockerResource, ComposeIsolationScan, DockerNamedResource,
    DockerNetworkInspect,
};
use crate::start::state_sync::CloneIsolationNetworkRuntimeState;
use crate::text::{opt_view, trimmed_non_empty, views, without_leading};
use vstd::prelude::*;

verus! {

/// Something that is looked up in Docker.
#[derive(Debug, Clone, PartialEq, Eq)]
pub enum IsolationLookup {
    /// All networks.
    Networks,
    /// One resource, which may be missing.
    Named {
        /// What it is.
        kind: ComposeIsolationResourceKind,
        /// Its name.
        name: String,
    },
}

/// Something that is looked up in Docker, by what it holds.
pub enum LookupView {
    /// All networks.
    Networks,
    /// One resource.
    Named(ComposeIsolationResourceKind, Seq<char>),
}

impl View for IsolationLookup {
    type V = LookupView;

    open spec fn view(&self) -> LookupView {
        match self {
            IsolationLookup::Networks => LookupView::Networks,
            IsolationLookup::Named { kind, name } => LookupView::Named(*kind, name@),
        }
    }
}

/// Lookups, by what they hold.
pub open spec fn lookup_views(lookups: Seq<IsolationLookup>) -> Seq<LookupView> {
    lookups.map_values(|lookup: IsolationLookup| lookup@)
}

/// The lookups of one kind of resource.
pub open spec fn named_lookups(
    scan: ComposeIsolationScan,
    kind: ComposeIsolationResourceKind,
) -> Seq<LookupView> {
    fixed_names_of(scan.fixed_names@, kind).map_values(
        |name: Seq<char>| LookupView::Named(kind, name),
    )
}

/// What is looked up in Docker, in order: all networks, where the project
/// fixes the name or the addresses of one, and each other resource whose name
/// it fixes.
pub open spec fn lookups_of(scan: ComposeIsolationScan) -> Seq<LookupView> {
    (if scan.networks@.len() > 0 || fixed_names_of(
        scan.fixed_names@,
        ComposeIsolationResourceKind::Network,
    ).len() > 0 {
        seq![LookupView::Networks]
    } else {
        Seq::empty()
    }) + named_lookups(scan, ComposeIsolationResourceKind::ServiceContainer) + named_lookups(
        scan,
        ComposeIsolationResourceKind::Volume,
    ) + named_lookups(scan, ComposeIsolationResourceKind::Config) + named_lookups(
        scan,
        ComposeIsolationResourceKind::Secret,
    )
}

fn push_lookups(
    lookups: &mut Vec<IsolationLookup>,
    scan: &ComposeIsolationScan,
    kind: ComposeIsolationResourceKind,
)
    ensures
        lookup_views(final(lookups)@) == lookup_views(old(lookups)@) + named_lookups(*scan, kind),
{
    let ghost before = lookup_views(lookups@);
    let names = fixed_resource_names(scan, kind);
    let ghost expected = named_lookups(*scan, kind);
    let mut i: usize = 0;
    assert(before + expected.take(0) =~= before);
    assert(views(names@).len() == names@.len());
    while i < names.len()
        invariant
            i <= names@.len(),
            names@.len() == expected.len(),
            views(names@) == fixed_names_of(scan.fixed_names@, kind),
            expected == named_lookups(*scan, kind),
            lookup_views(lookups@) == before + expected.take(i as int),
        decreases names@.len() - i,
    {
        assert(views(names@)[i as int] == names@[i as int]@);
        let ghost pushed = lookup_views(lookups@);
        lookups.push(IsolationLookup::Named { kind, name: names[i].clone() });
        assert(expected[i as int] == LookupView::Named(kind, names@[i as int]@));
        assert(lookup_views(lookups@) =~= pushed.push(expected[i as int]));
        assert(lookup_views(lookups@) =~= before + expected.take(i as int + 1));
        i = i + 1;
    }
    assert(expected.take(expected.len() as int) =~= expected);
}

/// What is looked up in Docker before a clone of a project is started, in
/// order.
pub fn compose_isolation_lookups(scan: &ComposeIsolationScan) -> (res: Vec<IsolationLookup>)
    ensures
        lookup_views(res@) == lookups_of(*scan),
{
    let mut lookups: Vec<IsolationLookup> = Vec::new();
    if compose_isolation_needs_networks(scan) {
        lookups.push(IsolationLookup::Networks);
        assert(lookup_views(lookups@) =~= seq![LookupView::Networks]);
    } else {
        assert(lookup_views(lookups@) =~= Seq::<LookupView>::empty());
    }
    push_lookups(&mut lookups, scan, ComposeIsolationResourceKind::ServiceContainer);
    push_lookups(&mut lookups, scan, ComposeIsolationResourceKind::Volume);
    push_lookups(&mut lookups, scan, ComposeIsolationResourceKind::Config);
    push_lookups(&mut lookups, scan, ComposeIsolationResourceKind::Secret);
    lookups
}

/// Something that was found in Docker.
#[derive(Debug)]
pub enum IsolationDiscovery {
    /// A network.
    Network(DockerNetworkInspect),
    /// A container.
    Container {
        /// The name that was looked up.
        requested_name: String,
        /// The container.
        container: ContainerInspect,
    },
    /// A volume, config or secret.
    Resource {
        /// What it is.
        kind: ComposeIsolationResourceKind,
        /// The name that was looked up.
        requested_name: String,
        /// The resource.
        resource: DockerNamedResource,
    },
}

/// A resource that Docker holds, by what it says.
pub struct ResourceView {
    /// What it is.
    pub kind: ComposeIsolationResourceKind,
    /// Its name.
    pub name: Seq<char>,
    /// Its Compose project.
    pub compose_project: Option<Seq<char>>,
}

/// A network that Docker holds, by what it says.
pub struct NetworkView {
    /// Its name.
    pub name: Seq<char>,
    /// Its Compose project.
    pub compose_project: Option<Seq<char>>,
    /// Its key in that project.
    pub compose_network: Option<Seq<char>>,
    /// How far it reaches.
    pub scope: Option<String>,
    /// What gives addresses out.
    pub ipam_driver: Option<String>,
    /// The addresses.
    pub ipam_configs: Seq<ComposeIsolationDockerIpamConfig>,
    /// Whether containers are on it.
    pub has_attached_containers: bool,
}

/// What Docker holds, by what it says.
pub struct SnapshotView {
    /// Networks.
    pub networks: Seq<NetworkView>,
    /// Everything that has a name.
    pub resources: Seq<ResourceView>,
}

/// A resource, by what it says.
pub open spec fn resource_view(resource: ComposeIsolationDockerResource) -> ResourceView {
    ResourceView {
        kind: resource.kind,
        name: resource.name@,
        compose_project: opt_view(resource.compose_project),
    }
}

/// A network, by what it says.
pub open spec fn network_view(network: ComposeIsolationDockerNetwork) -> NetworkView {
    NetworkView {
        name: network.name@,
        compose_project: opt_view(network.compose_project),
        compose_network: opt_view(network.compose_network),
        scope: network.scope,
        ipam_driver: network.ipam_driver,
        ipam_configs: network.ipam_configs@,
        has_attached_containers: network.has_attached_containers,
    }
}

impl View for ComposeIsolationDaemonSnapshot {
    type V = SnapshotView;

    open spec fn view(&self) -> SnapshotView {
        SnapshotView {
            networks: self.networks@.map_values(
                |network: ComposeIsolationDockerNetwork| network_view(network),
            ),
            resources: self.resources@.map_values(
                |resource: ComposeIsolationDockerResource| resource_view(resource),
            ),
        }
    }
}

/// What Docker holds, with one more resource.
pub open spec fn with_resource(
    held: SnapshotView,
    kind: ComposeIsolationResourceKind,
    name: Seq<char>,
    compose_project: Option<Seq<char>>,
) -> SnapshotView {
    SnapshotView {
        resources: held.resources.push(ResourceView { kind, name, compose_project }),
        ..held
    }
}

/// What Docker holds, with what was found taken in. A network without a name
/// is left out.
pub open spec fn with_discovery(held: SnapshotView, found: IsolationDiscovery) -> SnapshotView {
    match found {
        IsolationDiscovery::Network(told) => {
            let name = match told.name {
                Some(name) => trimmed_non_empty(name@),
                None => None,
            };
            match name {
                None => held,
                Some(name) => SnapshotView {
                    networks: held.networks.push(
                        NetworkView {
                            name,
                            compose_project: project_of(told.labels),
                            compose_network: label_text(
                                told.labels,
                                "com.docker.compose.network"@,
                            ),
                            scope: told.scope,
                            ipam_driver: match told.ipam {
                                Some(ipam) => ipam.driver,
                                None => None,
                            },
                            ipam_configs: ipam_configs_of(told.ipam),
                            has_attached_containers: told.containers@.len() > 0,
                        },
                    ),
                    resources: held.resources.push(
                        ResourceView {
                            kind: ComposeIsolationResourceKind::Network,
                            name,
                            compose_project: project_of(told.labels),
                        },
                    ),
                },
            }
        },
        IsolationDiscovery::Container { requested_name, container } => with_resource(
            held,
            ComposeIsolationResourceKind::ServiceContainer,
            told_name(
                match container.name {
                    Some(name) => Some(without_leading(name@, '/')),
                    None => None,
                },
                requested_name@,
            ),
            project_of(container.spec_labels()),
        ),
        IsolationDiscovery::Resource { kind, requested_name, resource } => with_resource(
            held,
            kind,
            told_name(opt_view(resource.name), requested_name@),
            project_of(resource.labels),
        ),
    }
}

/// What Docker holds, made out from all that was found, in order.
pub open spec fn held_after(found: Seq<IsolationDiscovery>) -> SnapshotView
    decreases found.len(),
{
    if found.len() == 0 {
        SnapshotView { networks: Seq::empty(), resources: Seq::empty() }
    } else {
        with_discovery(held_after(found.drop_last()), found.last())
    }
}

proof fn resource_added(
    before: ComposeIsolationDaemonSnapshot,
    after: ComposeIsolationDaemonSnapshot,
    kind: ComposeIsolationResourceKind,
    name: Seq<char>,
    compose_project: Option<Seq<char>>,
)
    requires
        adds_resource(before, after, kind, name, compose_project),
    ensures
        after@ == with_resource(before@, kind, name, compose_project),
{
    assert forall|i: int| 0 <= i < before.resources@.len() implies after.resources@[i]
        == before.resources@[i] by {
        assert(after.resources@.drop_last()[i] == before.resources@[i]);
    }
    assert(after@.resources =~= with_resource(before@, kind, name, compose_project).resources);
}

proof fn network_added(
    before: ComposeIsolationDaemonSnapshot,
    after: ComposeIsolationDaemonSnapshot,
    told: DockerNetworkInspect,
)
    requires
        adds_network(before, after, told),
    ensures
        after@ == with_discovery(before@, IsolationDiscovery::Network(told)),
{
    let expected = with_discovery(before@, IsolationDiscovery::Network(told));
    if told.name is Some && trimmed_non_empty(told.name->0@) is Some {
        assert forall|i: int| 0 <= i < before.resources@.len() implies after.resources@[i]
            == before.resources@[i] by {
            assert(after.resources@.drop_last()[i] == before.resources@[i]);
        }
        assert forall|i: int| 0 <= i < before.networks@.len() implies after.networks@[i]
            == before.networks@[i] by {
            assert(after.networks@.drop_last()[i] == before.networks@[i]);
        }
        assert(after@.resources =~= expected.resources);
        assert(after@.networks =~= expected.networks);
    }
}

/// What Docker holds, made out from all that was found, in order.
pub fn compose_isolation_daemon_snapshot(found: Vec<IsolationDiscovery>) -> (res:
    ComposeIsolationDaemonSnapshot)
    ensures
        res@ == held_after(found@),
{
    let ghost all = found@;
    let mut rest = found;
    let mut snapshot = ComposeIsolationDaemonSnapshot::empty();
    let ghost mut taken: int = 0;
    assert(all.take(0) =~= Seq::empty());
    assert(snapshot@.networks =~= Seq::<NetworkView>::empty());
    assert(snapshot@.resources =~= Seq::<ResourceView>::empty());
    assert(all.skip(0) =~= all);
    while rest.len() > 0
        invariant
            0 <= taken <= all.len(),
            rest@ == all.skip(taken),
            snapshot@ == held_after(all.take(taken)),
        decreases rest@.len(),
    {
        let ghost before = snapshot;
        let next = rest.remove(0);
        assert(next == all[taken]);
        assert(all.take(taken + 1).drop_last() =~= all.take(taken));
        assert(rest@ =~= all.skip(taken + 1));
        match next {
            IsolationDiscovery::Network(told) => {
                add_compose_isolation_network(&mut snapshot, told);
                proof {
                    network_added(before, snapshot, told);
                }
            },
            IsolationDiscovery::Container { requested_name, container } => {
                add_compose_isolation_container(
                    &mut snapshot,
                    requested_name.as_str(),
                    &container,
                );
                proof {
                    resource_added(
                        before,
                        snapshot,
                        ComposeIsolationResourceKind::ServiceContainer,
                        snapshot.resources@.last().name@,
                        project_of(container.spec_labels()),
                    );
                }
            },
            IsolationDiscovery::Resource { kind, requested_name, resource } => {
                add_compose_isolation_swarm_resource(
                    &mut snapshot,
                    kind,
                    requested_name.as_str(),
                    &resource,
                );
                proof {
                    resource_added(
                        before,
                        snapshot,
                        kind,
                        snapshot.resources@.last().name@,
                        project_of(resource.labels),
                    );
                }
            },
        }
        proof {
            taken = taken + 1;
        }
    }
    assert(all.take(all.len() as int) =~= all);
    snapshot
}

/// Addresses that a network was given at an earlier start.
#[derive(Debug, Clone)]
pub struct ComposeIsolationPersistedSubnet {
    /// The network.
    pub network: String,
    /// The addresses that the Compose files fix.
    pub requested_subnet: String,
    /// The addresses that it was given.
    pub planned_subnet: String,
}

/// Something that stands against a start.
#[derive(Debug, Clone, PartialEq, Eq)]
pub struct ComposeIsolationFinding {
    /// What it is, in words.
    pub message: String,
}

/// What the rewriting of names is planned from.
#[derive(Debug)]
pub struct ComposeIsolationNameRewritePlanInput<'a> {
    /// The Compose model, as JSON text.
    pub model: &'a String,
    /// What the Compose files fix.
    pub scan: &'a ComposeIsolationScan,
    /// The id of the workspace.
    pub workspace_id: &'a String,
    /// Whether clones are kept apart.
    pub enabled: bool,
    /// Whether names of containers are rewritten.
    pub rewrite_container_names: bool,
    /// Whether names of other resources are rewritten.
    pub rewrite_resource_names: bool,
}

/// What the addresses of networks are planned from.
#[derive(Debug)]
pub struct ComposeIsolationSubnetPlanInput<'a> {
    /// The Compose model, as JSON text.
    pub model: &'a String,
    /// The Compose project.
    pub project_name: &'a String,
    /// The id of the workspace.
    pub workspace_id: &'a String,
    /// What the Compose files fix once names are rewritten.
    pub scan: &'a ComposeIsolationScan,
    /// What Docker holds.
    pub daemon: &'a ComposeIsolationDaemonSnapshot,
    /// What networks were given at an earlier start.
    pub state: &'a Vec<ComposeIsolationPersistedSubnet>,
    /// Whether clones are kept apart.
    pub enabled: bool,
    /// Whether addresses are moved.
    pub relocation: bool,
    /// The addresses to choose from, if they are not the default ones.
    pub subnet_pool: &'a Option<String>,
    /// How many bits of an address name the network.
    pub subnet_prefix: u8,
    /// Whether everything is made anew.
    pub rebuild: bool,
}

/// What is held against what Docker holds.
#[derive(Debug)]
pub struct ComposeIsolationPlanInput<'a> {
    /// The Compose project.
    pub project_name: &'a String,
    /// What the Compose files fix once they are adapted.
    pub scan: &'a ComposeIsolationScan,
    /// What Docker holds.
    pub daemon: &'a ComposeIsolationDaemonSnapshot,
}

/// The variables of services, once they are rewritten.
#[derive(Debug)]
pub struct ComposeIsolationEndpoints {
    /// The variables.
    pub plan: ComposeIsolationEndpointPlan,
    /// What stands against rewriting others.
    pub findings: Vec<ComposeIsolationFinding>,
    /// The addresses of networks, with those that variables needed.
    pub subnet_plan: ComposeIsolationSubnetPlan,
}

/// What keeping a clone apart asks of the rest of the tool. Nothing is
/// claimed of the answers: the rules of this library hold for whatever they
/// are.
pub trait IsolationServices {
    /// Reads what the Compose files fix.
    fn scan_compose_isolation(&self, model: &String, project_name: &String) -> ComposeIsolationScan;

    /// Plans which names are rewritten.
    fn plan_compose_isolation_name_rewrites(
        &self,
        input: &ComposeIsolationNameRewritePlanInput,
    ) -> ComposeIsolationNameRewritePlan;

    /// What the Compose files fix once names are rewritten.
    fn apply_compose_isolation_name_rewrites(
        &self,
        scan: &ComposeIsolationScan,
        plan: &ComposeIsolationNameRewritePlan,
    ) -> ComposeIsolationScan;

    /// Plans the addresses of networks.
    fn plan_compose_isolation_subnets(&self, input: &ComposeIsolationSubnetPlanInput) -> Result<
        ComposeIsolationSubnetPlan,
        UpError,
    >;

    /// Whether Compose can replace a list instead of adding to it.
    fn ensure_compose_override_tag(&self) -> Result<(), UpError>;

    /// Plans the variables of services.
    fn plan_compose_isolation_endpoints(
        &self,
        model: &String,
        scan: &ComposeIsolationScan,
        declarations: &Vec<ResolvedComposeCloneIsolationEndpoint>,
        subnet_plan: ComposeIsolationSubnetPlan,
    ) -> Result<ComposeIsolationEndpoints, UpError>;

    /// What the Compose files fix once addresses are moved.
    fn apply_compose_isolation_subnet_plan(
        &self,
        scan: &ComposeIsolationScan,
        plan: &ComposeIsolationSubnetPlan,
    ) -> ComposeIsolationScan;

    /// Finds what stands against a start.
    fn plan_compose_isolation(&self, input: &ComposeIsolationPlanInput) -> Vec<
        ComposeIsolationFinding,
    >;

    /// Refuses a start that something stands against.
    fn validate_compose_isolation_diagnostics(
        &self,
        findings: &Vec<ComposeIsolationFinding>,
    ) -> Result<(), UpError>;
}

/// A project whose names are rewritten.
#[derive(Debug)]
pub struct NamedComposeIsolation {
    /// The names.
    pub name_rewrite_plan: ComposeIsolationNameRewritePlan,
    /// What the Compose files fix then.
    pub scan: ComposeIsolationScan,
}

/// How a clone of a project is kept apart.
#[derive(Debug)]
pub struct ComposeIsolationPlans {
    /// Its names.
    pub names: ComposeIsolationNameRewritePlan,
    /// The addresses of its networks.
    pub subnets: ComposeIsolationSubnetPlan,
    /// The variables of its services.
    pub endpoints: ComposeIsolationEndpointPlan,
}

impl ComposeIsolationPlans {
    /// Whether a project is left as it is.
    pub open spec fn is_empty(self) -> bool {
        &&& self.names.services@.len() == 0
        &&& self.names.service_references@.len() == 0
        &&& self.names.resources@.len() == 0
        &&& self.subnets.allocations@.len() == 0
        &&& self.subnets.networks_to_remove@.len() == 0
        &&& self.endpoints.services@.len() == 0
    }

    /// A project that is left as it is.
    pub fn empty() -> (res: Self)
        ensures
            res.is_empty(),
    {
        ComposeIsolationPlans {
            names: ComposeIsolationNameRewritePlan::empty(),
            subnets: ComposeIsolationSubnetPlan::empty(),
            endpoints: ComposeIsolationEndpointPlan::empty(),
        }
    }
}

/// How keeping a clone of a project apart begins.
#[derive(Debug)]
pub enum ComposeIsolationPreflight {
    /// There is nothing to keep apart: this is the end, and neither Docker nor
    /// what is remembered is asked.
    Done(ComposeIsolationPlans),
    /// Docker is asked what it holds.
    Lookup(NamedComposeIsolation),
}

/// How keeping a clone of a project apart begins: with its names rewritten, or,
/// where nothing is fixed and no variable is rewritten, with the project left
/// as it is.
pub open spec fn begins_isolation<S: IsolationServices>(
    services: &S,
    model: &String,
    project_name: &String,
    workspace_id: &String,
    clone_isolation: ResolvedComposeCloneIsolation,
    outcome: ComposeIsolationPreflight,
) -> bool {
    exists|scan: ComposeIsolationScan| #[trigger]
        call_ensures(S::scan_compose_isolation, (services, model, project_name), scan) && if is_idle(
            scan,
            clone_isolation,
        ) {
            outcome is Done && outcome->Done_0.is_empty()
        } else {
            exists|names: ComposeIsolationNameRewritePlan, after: ComposeIsolationScan|
                {
                    &&& #[trigger] call_ensures(
                        S::plan_compose_isolation_name_rewrites,
                        (
                            services,
                            &(ComposeIsolationNameRewritePlanInput {
                                model,
                                scan: &scan,
                                workspace_id,
                                enabled: clone_isolation.enabled,
                                rewrite_container_names: clone_isolation.names.rewrite_container_names,
                                rewrite_resource_names: clone_isolation.names.rewrite_resource_names,
                            }),
                        ),
                        names,
                    )
                    &&& #[trigger] call_ensures(
                        S::apply_compose_isolation_name_rewrites,
                        (services, &scan, &names),
                        after,
                    )
                    &&& outcome == ComposeIsolationPreflight::Lookup(
                        NamedComposeIsolation { name_rewrite_plan: names, scan: after },
                    )
                }
        }
}

/// Rewrites the names of a project, before Docker is asked what it holds.
/// Where nothing is fixed and no variable is rewritten, all three plans are
/// empty, and nothing is asked.
pub fn begin_compose_isolation_preflight<S: IsolationServices>(
    services: &S,
    model: &String,
    project_name: &String,
    workspace_id: &String,
    clone_isolation: &ResolvedComposeCloneIsolation,
) -> (res: ComposeIsolationPreflight)
    ensures
        begins_isolation(services, model, project_name, workspace_id, *clone_isolation, res),
{
    let scan = services.scan_compose_isolation(model, project_name);
    if compose_isolation_is_idle(&scan, clone_isolation) {
        return ComposeIsolationPreflight::Done(ComposeIsolationPlans::empty());
    }
    let name_rewrite_plan = services.plan_compose_isolation_name_rewrites(
        &ComposeIsolationNameRewritePlanInput {
            model,
            scan: &scan,
            workspace_id,
            enabled: clone_isolation.enabled,
            rewrite_container_names: clone_isolation.names.rewrite_container_names,
            rewrite_resource_names: clone_isolation.names.rewrite_resource_names,
        },
    );
    let after = services.apply_compose_isolation_name_rewrites(&scan, &name_rewrite_plan);
    ComposeIsolationPreflight::Lookup(NamedComposeIsolation { name_rewrite_plan, scan: after })
}

/// What networks were given at an earlier start.
pub open spec fn given_before(networks: Seq<CloneIsolationNetworkRuntimeState>) -> Seq<
    ComposeIsolationPersistedSubnet,
> {
    networks.map_values(
        |network: CloneIsolationNetworkRuntimeState|
            ComposeIsolationPersistedSubnet {
                network: network.network,
                requested_subnet: network.requested_subnet,
                planned_subnet: network.planned_subnet,
            },
    )
}

/// What networks were given at an earlier start.
pub fn persisted_subnets(networks: &Vec<CloneIsolationNetworkRuntimeState>) -> (res: Vec<
    ComposeIsolationPersistedSubnet,
>)
    ensures
        res@ == given_before(networks@),
{
    let mut subnets: Vec<ComposeIsolationPersistedSubnet> = Vec::new();
    let mut i: usize = 0;
    while i < networks.len()
        invariant
            i <= networks@.len(),
            subnets@ == given_before(networks@).take(i as int),
        decreases networks@.len() - i,
    {
        subnets.push(
            ComposeIsolationPersistedSubnet {
                network: networks[i].network.clone(),
                requested_subnet: networks[i].requested_subnet.clone(),
                planned_subnet: networks[i].planned_subnet.clone(),
            },
        );
        assert(subnets@ =~= given_before(networks@).take(i as int + 1));
        i = i + 1;
    }
    assert(subnets@ =~= given_before(networks@));
    subnets
}

/// Whether a list holds the variables that are rewritten: none where clones
/// are not kept apart.
pub open spec fn declares(
    clone_isolation: ResolvedComposeCloneIsolation,
    declarations: Vec<ResolvedComposeCloneIsolationEndpoint>,
) -> bool {
    declarations@ == if clone_isolation.enabled {
        clone_isolation.endpoints@
    } else {
        Seq::empty()
    }
}

/// Whether a list holds what was found, and what else was found behind it.
pub open spec fn lists_all(
    all: Vec<ComposeIsolationFinding>,
    found: Vec<ComposeIsolationFinding>,
    more: Vec<ComposeIsolationFinding>,
) -> bool {
    all@ == found@ + more@
}

/// Whether a list holds what networks were given at an earlier start.
pub open spec fn remembers(
    state: Vec<ComposeIsolationPersistedSubnet>,
    networks: Seq<CloneIsolationNetworkRuntimeState>,
) -> bool {
    state@ == given_before(networks)
}

/// How a project ends up once its variables are planned: refused where
/// something stands against it.
pub open spec fn ends_with_endpoints<S: IsolationServices>(
    services: &S,
    project_name: &String,
    named: NamedComposeIsolation,
    daemon: &ComposeIsolationDaemonSnapshot,
    endpoints: ComposeIsolationEndpoints,
    outcome: Result<ComposeIsolationPlans, UpError>,
) -> bool {
    exists|
        after: ComposeIsolationScan,
        found: Vec<ComposeIsolationFinding>,
        all: Vec<ComposeIsolationFinding>,
        check: Result<(), UpError>,
    |
        {
            &&& #[trigger] call_ensures(
                S::apply_compose_isolation_subnet_plan,
                (services, &named.scan, &endpoints.subnet_plan),
                after,
            )
            &&& #[trigger] call_ensures(
                S::plan_compose_isolation,
                (services, &(ComposeIsolationPlanInput { project_name, scan: &after, daemon })),
                found,
            )
            &&& #[trigger] lists_all(all, found, endpoints.findings)
            &&& #[trigger] call_ensures(
                S::validate_compose_isolation_diagnostics,
                (services, &all),
                check,
            )
            &&& match check {
                Err(error) => outcome == Err::<ComposeIsolationPlans, UpError>(error),
                Ok(()) => outcome == Ok::<ComposeIsolationPlans, UpError>(
                    ComposeIsolationPlans {
                        names: named.name_rewrite_plan,
                        subnets: endpoints.subnet_plan,
                        endpoints: endpoints.plan,
                    },
                ),
            }
        }
}

/// How a project ends up once the addresses of its networks are planned.
/// Where any is moved, Compose must be able to replace a list.
pub open spec fn ends_with_subnets<S: IsolationServices>(
    services: &S,
    model: &String,
    project_name: &String,
    clone_isolation: ResolvedComposeCloneIsolation,
    named: NamedComposeIsolation,
    daemon: &ComposeIsolationDaemonSnapshot,
    subnets: ComposeIsolationSubnetPlan,
    outcome: Result<ComposeIsolationPlans, UpError>,
) -> bool {
    exists|tag: Result<(), UpError>| #[trigger]
        allows_replacing(services, subnets, tag) && match tag {
            Err(error) => outcome == Err::<ComposeIsolationPlans, UpError>(error),
            Ok(()) => exists|
                declarations: Vec<ResolvedComposeCloneIsolationEndpoint>,
                endpoints: Result<ComposeIsolationEndpoints, UpError>,
            |
                {
                    &&& #[trigger] declares(clone_isolation, declarations)
                    &&& #[trigger] call_ensures(
                        S::plan_compose_isolation_endpoints,
                        (services, model, &named.scan, &declarations, subnets),
                        endpoints,
                    )
                    &&& match endpoints {
                        Err(error) => outcome == Err::<ComposeIsolationPlans, UpError>(error),
                        Ok(endpoints) => ends_with_endpoints(
                            services,
                            project_name,
                            named,
                            daemon,
                            endpoints,
                            outcome,
                        ),
                    }
                },
        }
}

/// Whether Compose can replace a list, where it must.
pub open spec fn allows_replacing<S: IsolationServices>(
    services: &S,
    subnets: ComposeIsolationSubnetPlan,
    answer: Result<(), UpError>,
) -> bool {
    if subnets.allocations@.len() > 0 {
        call_ensures(S::ensure_compose_override_tag, (services,), answer)
    } else {
        answer is Ok
    }
}

/// How a clone of a project is kept apart, once its names are rewritten and
/// Docker told what it holds.
pub open spec fn isolates<S: IsolationServices>(
    services: &S,
    model: &String,
    project_name: &String,
    workspace_id: &String,
    clone_isolation: ResolvedComposeCloneIsolation,
    named: NamedComposeIsolation,
    daemon: &ComposeIsolationDaemonSnapshot,
    remembered: Seq<CloneIsolationNetworkRuntimeState>,
    rebuild: bool,
    outcome: Result<ComposeIsolationPlans, UpError>,
) -> bool {
    exists|
        state: Vec<ComposeIsolationPersistedSubnet>,
        subnets: Result<ComposeIsolationSubnetPlan, UpError>,
    |
        {
            &&& #[trigger] remembers(state, remembered)
            &&& #[trigger] call_ensures(
                S::plan_compose_isolation_subnets,
                (
                    services,
                    &(ComposeIsolationSubnetPlanInput {
                        model,
                        project_name,
                        workspace_id,
                        scan: &named.scan,
                        daemon,
                        state: &state,
                        enabled: clone_isolation.enabled,
                        relocation: clone_isolation.networks.relocation,
                        subnet_pool: &clone_isolation.networks.subnet_pool,
                        subnet_prefix: clone_isolation.networks.subnet_prefix,
                        rebuild,
                    }),
                ),
                subnets,
            )
            &&& match subnets {
                Err(error) => outcome == Err::<ComposeIsolationPlans, UpError>(error),
                Ok(subnets) => ends_with_subnets(
                    services,
                    model,
                    project_name,
                    clone_isolation,
                    named,
                    daemon,
                    subnets,
                    outcome,
                ),
            }
        }
}

/// Plans how a clone of a project is kept apart, once its names are rewritten
/// and Docker told what it holds: its networks get addresses of their own,
/// variables follow them, and the start is refused where something still
/// stands against it. `remembered` is what networks were given at an earlier
/// start.
pub fn run_compose_isolation_preflight<S: IsolationServices>(
    services: &S,
    model: &String,
    project_name: &String,
    workspace_id: &String,
    clone_isolation: &ResolvedComposeCloneIsolation,
    named: NamedComposeIsolation,
    daemon: &ComposeIsolationDaemonSnapshot,
    remembered: &Vec<CloneIsolationNetworkRuntimeState>,
    rebuild: bool,
) -> (res: Result<ComposeIsolationPlans, UpError>)
    ensures
        isolates(
            services,
            model,
            project_name,
            workspace_id,
            *clone_isolation,
            named,
            daemon,
            remembered@,
            rebuild,
            res,
        ),
{
    let state = persisted_subnets(remembered);
    assert(remembers(state, remembered@));
    let subnets = match services.plan_compose_isolation_subnets(
        &ComposeIsolationSubnetPlanInput {
            model,
            project_name,
            workspace_id,
            scan: &named.scan,
            daemon,
            state: &state,
            enabled: clone_isolation.enabled,
            relocation: clone_isolation.networks.relocation,
            subnet_pool: &clone_isolation.networks.subnet_pool,
            subnet_prefix: clone_isolation.networks.subnet_prefix,
            rebuild,
        },
    ) {
        Ok(subnets) => subnets,
        Err(error) => {
            return Err(error);
        },
    };
    let tag = if subnets.allocations.len() > 0 {
        services.ensure_compose_override_tag()
    } else {
        Ok(())
    };
    assert(allows_replacing(services, subnets, tag));
    if let Err(error) = tag {
        return Err(error);
    }
    let declarations = compose_isolation_endpoint_declarations(clone_isolation);
    assert(declares(*clone_isolation, declarations));
    let endpoints = match services.plan_compose_isolation_endpoints(
        model,
        &named.scan,
        &declarations,
        subnets,
    ) {
        Ok(endpoints) => endpoints,
        Err(error) => {
            return Err(error);
        },
    };
    let after = services.apply_compose_isolation_subnet_plan(&named.scan, &endpoints.subnet_plan);
    let found = services.plan_compose_isolation(
        &ComposeIsolationPlanInput { project_name, scan: &after, daemon },
    );
    let ghost first = found;
    let ghost more = endpoints.findings;
    let mut all = found;
    let mut rest = endpoints.findings;
    all.append(&mut rest);
    assert(lists_all(all, first, more));
    match services.validate_compose_isolation_diagnostics(&all) {
        Err(error) => Err(error),
        Ok(()) => Ok(
            ComposeIsolationPlans {
                names: named.name_rewrite_plan,
                subnets: endpoints.subnet_plan,
                endpoints: endpoints.plan,
            },
        ),
    }
}

/// A project with nothing to keep apart is left as it is: where the Compose
/// files fix nothing, and clones are not kept apart or no variable is
/// rewritten, the preflight ends at once with three empty plans. Nothing that
/// Docker holds or that is remembered goes in.
pub proof fn idle_projects_are_left_as_they_are<S: IsolationServices>(
    services: &S,
    model: &String,
    project_name: &String,
    workspace_id: &String,
    clone_isolation: ResolvedComposeCloneIsolation,
    outcome: ComposeIsolationPreflight,
)
    requires
        forall|scan: ComposeIsolationScan| #[trigger]
            call_ensures(S::scan_compose_isolation, (services, model, project_name), scan)
                ==> scan.fixed_names@.len() == 0 && scan.networks@.len() == 0,
        !clone_isolation.enabled || clone_isolation.endpoints@.len() == 0,
        begins_isolation(
            services,
            model,
            project_name,
            workspace_id,
            clone_isolation,
            outcome,
        ),
    ensures
        outcome is Done,
        outcome->Done_0.is_empty(),
{
}

} // verus!
