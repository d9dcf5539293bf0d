//! What the tool remembers of a started container.

use crate::compose::isolation::{ComposeIsolationSubnetAllocation, ComposeIsolationSubnetPlan};
use crate::compose::ports::{
    compose_port_protocol_name, protocol_word, ComposePublishedPortEndpoint,
    ComposePublishedPortHostIp, ComposePublishedPortPlanEntry, EndpointView,
};
use crate::docker::copy_optional_text;
use crate::error::UpError;
use crate::start::inspect::{ContainerInspect, ContainerPortBinding, PortBindings};
use crate::start::listing::{binding_port, bound_port, label_of, COMPOSE_SERVICE_LABEL};
use crate::text::{
    decimal, decimal_text, opt_view, same_text, text_is_less, text_less, text_less_total,
    text_less_transitive, trim, trimmed,
};
use crate::text_map::lookup;
use crate::types::{UpOutcome, UpPlan};
use vstd::prelude::*;
use vstd::string::*;

verus! {

/// How a container came to run.
#[derive(Debug, Clone, Copy, PartialEq, Eq, Structural)]
pub enum LifecycleRunPath {
    /// It was made.
    New,
    /// It was stopped and was started again.
    Started,
    /// It ran already.
    Running,
}

/// A container as it is remembered.
#[derive(Debug, Clone, PartialEq, Eq)]
pub struct StateContainerSnapshot {
    /// Its id.
    pub container_id: String,
    /// The image that it was made from.
    pub image: String,
    /// The hash of the configuration that it was made for.
    pub config_hash: String,
    /// The devcontainer file that it was made for.
    pub config_file: Option<String>,
}

/// What is remembered of a workspace, as far as it is looked at here.
#[derive(Debug, Clone)]
pub struct WorkspaceState {
    /// The container.
    pub container_id: String,
    /// The hash of the configuration that it was made for.
    pub config_hash: String,
}

/// The container of a plan, as it is remembered.
pub open spec fn snapshot_of(plan: UpPlan, container_id: String) -> StateContainerSnapshot {
    StateContainerSnapshot {
        container_id,
        image: plan.image,
        config_hash: plan.resources.config_hash,
        config_file: lookup(plan.resources.labels@, "devcontainer.config_file"@),
    }
}

/// The container of a plan, as it is remembered.
pub fn state_container_snapshot(plan: &UpPlan, container_id: String) -> (res:
    StateContainerSnapshot)
    ensures
        res == snapshot_of(*plan, container_id),
{
    StateContainerSnapshot {
        container_id,
        image: plan.image.clone(),
        config_hash: plan.resources.config_hash.clone(),
        config_file: match plan.resources.labels.get("devcontainer.config_file") {
            Some(file) => Some(file.clone()),
            None => None,
        },
    }
}

/// The Compose project of a plan.
pub fn state_compose_project_name(plan: &UpPlan) -> (res: Option<String>)
    ensures
        res == match plan.compose_project {
            Some(project) => Some(project.project_name),
            None => None,
        },
{
    match &plan.compose_project {
        Some(project) => Some(project.project_name.clone()),
        None => None,
    }
}

/// Whether what is remembered belongs to a container: `ids_match` says
/// whether the two ids name one container, and the configuration must be the
/// same.
pub fn state_matches_container_snapshot(
    state: &WorkspaceState,
    container: &StateContainerSnapshot,
    ids_match: bool,
) -> (res: bool)
    ensures
        res == (ids_match && state.config_hash@ == container.config_hash@),
{
    ids_match && same_text(state.config_hash.as_str(), container.config_hash.as_str())
}

/// The message about a container that nothing is remembered of.
pub open spec fn unknown_state_message(state_file: Seq<char>) -> Seq<char> {
    "Cannot safely reuse existing dev container without matching lifecycle state: "@ + state_file
        + ". Run decune rebuild to recreate it."@
}

/// What is remembered of a container that is used again; an error where
/// nothing is remembered, or something of another container. `ids_match` says
/// whether the remembered id names the container.
pub fn reusable_lifecycle_state(
    existing: Option<WorkspaceState>,
    ids_match: bool,
    container: &StateContainerSnapshot,
    state_file: &str,
) -> (res: Result<WorkspaceState, UpError>)
    ensures
        match existing {
            Some(state) => if ids_match && state.config_hash@ == container.config_hash@ {
                res == Ok::<WorkspaceState, UpError>(state)
            } else {
                res is Err && res->Err_0@ == seq![unknown_state_message(state_file@)]
            },
            None => res is Err && res->Err_0@ == seq![unknown_state_message(state_file@)],
        },
{
    if let Some(state) = existing {
        if state_matches_container_snapshot(&state, container, ids_match) {
            return Ok(state);
        }
    }
    let mut message =
        "Cannot safely reuse existing dev container without matching lifecycle state: ".to_owned();
    message.append(state_file);
    message.append(". Run decune rebuild to recreate it.");
    Err(UpError::new(message))
}

/// What is written once a container runs.
#[derive(Debug)]
pub enum StateUpdate {
    /// A new container is remembered, with no lifecycle command run yet.
    Fresh {
        /// The container.
        container: StateContainerSnapshot,
        /// Its Compose project.
        compose_project_name: Option<String>,
    },
    /// What is remembered of the container is kept.
    Reused {
        /// The container.
        container: StateContainerSnapshot,
        /// Its Compose project.
        compose_project_name: Option<String>,
        /// What is remembered.
        existing: WorkspaceState,
        /// Whether it was started just now.
        refresh_last_started_at: bool,
    },
}

/// How it is made out what to write once a container runs.
pub open spec fn syncs_state(
    plan: UpPlan,
    outcome: UpOutcome,
    lifecycle_path: LifecycleRunPath,
    existing: Option<WorkspaceState>,
    ids_match: bool,
    state_file: Seq<char>,
    update: Result<StateUpdate, UpError>,
) -> bool {
    let container = snapshot_of(plan, outcome.container_id);
    let compose_project_name = match plan.compose_project {
        Some(project) => Some(project.project_name),
        None => None,
    };
    if lifecycle_path == LifecycleRunPath::New {
        update == Ok::<StateUpdate, UpError>(StateUpdate::Fresh { container, compose_project_name })
    } else if existing is Some && ids_match && existing->0.config_hash@ == container.config_hash@ {
        update == Ok::<StateUpdate, UpError>(
            StateUpdate::Reused {
                container,
                compose_project_name,
                existing: existing->0,
                refresh_last_started_at: lifecycle_path == LifecycleRunPath::Started,
            },
        )
    } else {
        update is Err && update->Err_0@ == seq![unknown_state_message(state_file)]
    }
}

/// Makes out what to write once a container runs: a new container starts from
/// nothing; one that is used again must be remembered, and whether it was
/// started just now is told.
pub fn sync_started_state(
    plan: &UpPlan,
    outcome: &UpOutcome,
    lifecycle_path: LifecycleRunPath,
    existing: Option<WorkspaceState>,
    ids_match: bool,
    state_file: &str,
) -> (res: Result<StateUpdate, UpError>)
    ensures
        syncs_state(*plan, *outcome, lifecycle_path, existing, ids_match, state_file@, res),
{
    let container = state_container_snapshot(plan, outcome.container_id.clone());
    let compose_project_name = state_compose_project_name(plan);
    match lifecycle_path {
        LifecycleRunPath::New => Ok(StateUpdate::Fresh { container, compose_project_name }),
        LifecycleRunPath::Started | LifecycleRunPath::Running => {
            match reusable_lifecycle_state(existing, ids_match, &container, state_file) {
                Ok(existing) => Ok(
                    StateUpdate::Reused {
                        container,
                        compose_project_name,
                        existing,
                        refresh_last_started_at: lifecycle_path == LifecycleRunPath::Started,
                    },
                ),
                Err(error) => Err(error),
            }
        },
    }
}

/// A network of a clone, as it is remembered.
#[derive(Debug, Clone, PartialEq, Eq)]
pub struct CloneIsolationNetworkRuntimeState {
    /// The network.
    pub network: String,
    /// The addresses that were asked for.
    pub requested_subnet: String,
    /// The addresses that it was given.
    pub planned_subnet: String,
    /// Its gateway.
    pub planned_gateway: Option<String>,
    /// Whether the addresses differ from those that were asked for.
    pub relocated: bool,
}

/// What keeps a clone apart, as it is remembered.
#[derive(Debug, Clone)]
pub struct CloneIsolationRuntimeState {
    /// The networks.
    pub networks: Vec<CloneIsolationNetworkRuntimeState>,
}

/// A network of a clone, as it is remembered.
pub open spec fn remembered_network(
    allocation: ComposeIsolationSubnetAllocation,
) -> CloneIsolationNetworkRuntimeState {
    CloneIsolationNetworkRuntimeState {
        network: allocation.network,
        requested_subnet: allocation.requested_subnet,
        planned_subnet: allocation.planned_subnet,
        planned_gateway: allocation.planned_gateway,
        relocated: allocation.relocated,
    }
}

/// What keeps a clone apart, as it is remembered.
pub fn clone_isolation_runtime_state(subnet_plan: &ComposeIsolationSubnetPlan) -> (res:
    CloneIsolationRuntimeState)
    ensures
        res.networks@ == subnet_plan.allocations@.map_values(
            |allocation: ComposeIsolationSubnetAllocation| remembered_network(allocation),
        ),
{
    let allocations = &subnet_plan.allocations;
    let mut networks: Vec<CloneIsolationNetworkRuntimeState> = Vec::new();
    let mut i: usize = 0;
    while i < allocations.len()
        invariant
            i <= allocations@.len(),
            networks@.len() == i,
            forall|j: int|
                0 <= j < i ==> #[trigger] networks@[j] == remembered_network(allocations@[j]),
        decreases allocations@.len() - i,
    {
        let allocation = &allocations[i];
        networks.push(
            CloneIsolationNetworkRuntimeState {
                network: allocation.network.clone(),
                requested_subnet: allocation.requested_subnet.clone(),
                planned_subnet: allocation.planned_subnet.clone(),
                planned_gateway: copy_optional_text(&allocation.planned_gateway),
                relocated: allocation.relocated,
            },
        );
        i = i + 1;
    }
    assert(networks@ =~= subnet_plan.allocations@.map_values(
        |allocation: ComposeIsolationSubnetAllocation| remembered_network(allocation),
    ));
    CloneIsolationRuntimeState { networks }
}

/// Whether an address was given.
#[derive(Debug, Clone, Copy, PartialEq, Eq, Structural)]
pub enum PublishedPortHostIpKind {
    /// None was.
    Omitted,
    /// One was.
    Explicit,
}

/// A host address and port, as they are remembered.
#[derive(Debug, Clone, PartialEq, Eq)]
pub struct PublishedPortEndpointState {
    /// Whether an address was given.
    pub ip_kind: PublishedPortHostIpKind,
    /// The address.
    pub ip_value: Option<String>,
    /// The port.
    pub host_port: u16,
}

/// Whether a host address and port are remembered as they are.
pub open spec fn remembers_endpoint(
    state: PublishedPortEndpointState,
    endpoint: EndpointView,
) -> bool {
    &&& (state.ip_kind == PublishedPortHostIpKind::Explicit) == (endpoint.host_ip is Some)
    &&& opt_view(state.ip_value) == endpoint.host_ip
    &&& state.host_port == endpoint.host_port
}

/// A host address and port, as they are remembered.
pub fn published_port_endpoint_state(endpoint: &ComposePublishedPortEndpoint) -> (res:
    PublishedPortEndpointState)
    ensures
        remembers_endpoint(res, endpoint@),
{
    match &endpoint.host_ip {
        ComposePublishedPortHostIp::Omitted => PublishedPortEndpointState {
            ip_kind: PublishedPortHostIpKind::Omitted,
            ip_value: None,
            host_port: endpoint.host_port,
        },
        ComposePublishedPortHostIp::Explicit(value) => PublishedPortEndpointState {
            ip_kind: PublishedPortHostIpKind::Explicit,
            ip_value: Some(value.clone()),
            host_port: endpoint.host_port,
        },
    }
}

/// Whether a container runs.
pub open spec fn is_running(container: ContainerInspect) -> bool {
    container.state is Some && (container.state->0.running == Some(true) || opt_view(
        container.state->0.status,
    ) == Some("running"@))
}

/// Whether a container runs.
pub fn container_is_running(container: &ContainerInspect) -> (res: bool)
    ensures
        res == is_running(*container),
{
    match &container.state {
        Some(state) => {
            let by_word = match &state.status {
                Some(status) => same_text(status.as_str(), "running"),
                None => false,
            };
            state.running == Some(true) || by_word
        },
        None => false,
    }
}

/// Where a port was found to be bound.
#[derive(Debug, Clone, PartialEq, Eq)]
pub struct PublishedPortActualBinding {
    /// The address.
    pub host_ip: String,
    /// The port.
    pub host_port: u16,
}

/// An address and a port.
pub type Binding = (Seq<char>, u16);

/// Whether one address and port stand before others: by address, then by
/// port.
pub open spec fn binding_less(left: Binding, right: Binding) -> bool {
    text_less(left.0, right.0) || (left.0 == right.0 && left.1 < right.1)
}

/// Addresses and ports in order, with one more among them unless it is there
/// already.
pub open spec fn with_binding(bindings: Seq<Binding>, binding: Binding) -> Seq<Binding>
    decreases bindings.len(),
{
    if bindings.len() == 0 {
        seq![binding]
    } else if bindings[0] == binding {
        bindings
    } else if binding_less(binding, bindings[0]) {
        seq![binding] + bindings
    } else {
        seq![bindings[0]] + with_binding(bindings.drop_first(), binding)
    }
}

/// Whether addresses and ports ascend, each once.
pub open spec fn bindings_ascend(bindings: Seq<Binding>) -> bool {
    forall|i: int, j: int|
        0 <= i < j < bindings.len() ==> binding_less(#[trigger] bindings[i], #[trigger] bindings[j])
}

/// Putting one more in keeps the order, and adds that one alone.
pub proof fn with_binding_keeps_order(bindings: Seq<Binding>, binding: Binding)
    requires
        bindings_ascend(bindings),
    ensures
        bindings_ascend(with_binding(bindings, binding)),
        forall|other: Binding| #[trigger]
            with_binding(bindings, binding).contains(other) == (bindings.contains(other) || other
                == binding),
    decreases bindings.len(),
{
    let after = with_binding(bindings, binding);
    if bindings.len() == 0 {
        assert forall|other: Binding| #[trigger] after.contains(other) == (bindings.contains(other)
            || other == binding) by {
            assert(after[0] == binding);
        }
    } else if bindings[0] == binding {
        assert forall|other: Binding| #[trigger] after.contains(other) == (bindings.contains(other)
            || other == binding) by {
            assert(bindings[0] == binding);
        }
    } else if binding_less(binding, bindings[0]) {
        assert forall|i: int, j: int| 0 <= i < j < after.len() implies binding_less(
            #[trigger] after[i],
            #[trigger] after[j],
        ) by {
            if i > 0 {
                assert(binding_less(bindings[i - 1], bindings[j - 1]));
            } else if j > 1 {
                assert(binding_less(bindings[0], bindings[j - 1]));
                binding_less_transitive(binding, bindings[0], bindings[j - 1]);
            }
        }
        assert forall|other: Binding| #[trigger] after.contains(other) == (bindings.contains(other)
            || other == binding) by {
            if after.contains(other) {
                let i = choose|i: int| 0 <= i < after.len() && after[i] == other;
                if i > 0 {
                    assert(bindings[i - 1] == other);
                }
            }
            if bindings.contains(other) {
                let i = choose|i: int| 0 <= i < bindings.len() && bindings[i] == other;
                assert(after[i + 1] == other);
            }
            assert(after[0] == binding);
        }
    } else {
        let rest = bindings.drop_first();
        let tail = with_binding(rest, binding);
        assert forall|i: int, j: int| 0 <= i < j < rest.len() implies binding_less(
            #[trigger] rest[i],
            #[trigger] rest[j],
        ) by {
            assert(binding_less(bindings[i + 1], bindings[j + 1]));
        }
        with_binding_keeps_order(rest, binding);
        assert(binding_less(bindings[0], binding)) by {
            text_less_total(bindings[0].0, binding.0);
        }
        assert forall|i: int, j: int| 0 <= i < j < after.len() implies binding_less(
            #[trigger] after[i],
            #[trigger] after[j],
        ) by {
            if i > 0 {
                assert(binding_less(tail[i - 1], tail[j - 1]));
            } else {
                assert(tail.contains(tail[j - 1]));
                if tail[j - 1] != binding {
                    assert(rest.contains(tail[j - 1]));
                    let k = choose|k: int| 0 <= k < rest.len() && rest[k] == tail[j - 1];
                    assert(binding_less(bindings[0], bindings[k + 1]));
                }
            }
        }
        assert forall|other: Binding| #[trigger] after.contains(other) == (bindings.contains(other)
            || other == binding) by {
            if after.contains(other) {
                let i = choose|i: int| 0 <= i < after.len() && after[i] == other;
                if i == 0 {
                    assert(bindings[0] == other);
                } else {
                    assert(tail[i - 1] == other);
                    assert(tail.contains(other));
                    if other != binding {
                        let k = choose|k: int| 0 <= k < rest.len() && rest[k] == other;
                        assert(bindings[k + 1] == other);
                    }
                }
            }
            if bindings.contains(other) || other == binding {
                if other == bindings[0] {
                    assert(after[0] == other);
                } else {
                    if other != binding {
                        let k = choose|k: int| 0 <= k < bindings.len() && bindings[k] == other;
                        assert(rest[k - 1] == other);
                    }
                    assert(tail.contains(other));
                    let k = choose|k: int| 0 <= k < tail.len() && tail[k] == other;
                    assert(after[k + 1] == other);
                }
            }
        }
    }
}

proof fn binding_less_transitive(a: Binding, b: Binding, c: Binding)
    requires
        binding_less(a, b),
        binding_less(b, c),
    ensures
        binding_less(a, c),
{
    if text_less(a.0, b.0) && text_less(b.0, c.0) {
        text_less_transitive(a.0, b.0, c.0);
    }
}

/// The bindings of a state, by what they hold.
pub open spec fn binding_views(bindings: Seq<PublishedPortActualBinding>) -> Seq<Binding> {
    bindings.map_values(
        |binding: PublishedPortActualBinding| (binding.host_ip@, binding.host_port),
    )
}

fn insert_binding(bindings: &mut Vec<PublishedPortActualBinding>, host_ip: String, host_port: u16)
    ensures
        binding_views(final(bindings)@) == with_binding(
            binding_views(old(bindings)@),
            (host_ip@, host_port),
        ),
{
    let ghost before = binding_views(bindings@);
    let ghost new = (host_ip@, host_port);
    let mut i: usize = 0;
    assert(before.take(0) + with_binding(before.skip(0), new) =~= with_binding(before, new)) by {
        assert(before.skip(0) =~= before);
    }
    while i < bindings.len()
        invariant
            *bindings == *old(bindings),
            before == binding_views(bindings@),
            new == (host_ip@, host_port),
            i <= bindings@.len(),
            before.take(i as int) + with_binding(before.skip(i as int), new) == with_binding(
                before,
                new,
            ),
        ensures
            *bindings == *old(bindings),
            i <= bindings@.len(),
            before.take(i as int) + (seq![new] + before.skip(i as int)) == with_binding(
                before,
                new,
            ),
        decreases bindings@.len() - i,
    {
        let ghost rest = before.skip(i as int);
        assert(rest.drop_first() =~= before.skip(i as int + 1));
        assert(rest[0] == (bindings@[i as int].host_ip@, bindings@[i as int].host_port));
        let same_ip = same_text(bindings[i].host_ip.as_str(), host_ip.as_str());
        if same_ip && bindings[i].host_port == host_port {
            assert(before.take(i as int) + rest =~= before);
            return ;
        }
        if text_is_less(host_ip.as_str(), bindings[i].host_ip.as_str()) || (same_ip && host_port
            < bindings[i].host_port) {
            break;
        }
        assert(before.take(i as int + 1) + with_binding(rest.drop_first(), new) =~= before.take(
            i as int,
        ) + (seq![rest[0]] + with_binding(rest.drop_first(), new)));
        i = i + 1;
    }
    assert(seq![new] + before.skip(before.len() as int) =~= seq![new]);
    let ghost all = bindings@;
    bindings.insert(i, PublishedPortActualBinding { host_ip, host_port });
    assert(binding_views(bindings@) =~= before.take(i as int) + (seq![new] + before.skip(i as int)));
}

/// The address of a binding: all, where none is given or it is blank.
pub open spec fn actual_ip(host_ip: Option<Seq<char>>) -> Seq<char> {
    match host_ip {
        Some(host_ip) => if trimmed(host_ip).len() > 0 {
            host_ip
        } else {
            "0.0.0.0"@
        },
        None => "0.0.0.0"@,
    }
}

/// Addresses and ports with those of bindings among them.
pub open spec fn with_bindings(
    found: Seq<Binding>,
    bindings: Seq<ContainerPortBinding>,
) -> Seq<Binding>
    decreases bindings.len(),
{
    if bindings.len() == 0 {
        found
    } else {
        let before = with_bindings(found, bindings.drop_last());
        match bound_port(opt_view(bindings.last().host_port)) {
            Some(host_port) => with_binding(
                before,
                (actual_ip(opt_view(bindings.last().host_ip)), host_port),
            ),
            None => before,
        }
    }
}

/// The bindings of a port in a table.
pub open spec fn port_bindings(
    ports: Seq<(String, Option<Vec<ContainerPortBinding>>)>,
    key: Seq<char>,
) -> Option<Vec<ContainerPortBinding>>
    decreases ports.len(),
{
    if ports.len() == 0 {
        None
    } else if ports[0].0@ == key {
        ports[0].1
    } else {
        port_bindings(ports.drop_first(), key)
    }
}

/// The bindings of a port of a service in a container; none where the
/// container does not run or belongs to another service.
pub open spec fn service_bindings(
    container: ContainerInspect,
    service: Seq<char>,
    key: Seq<char>,
) -> Seq<ContainerPortBinding> {
    if is_running(container) && label_of(container, "com.docker.compose.service"@) == Some(service)
        && container.spec_ports() is Some {
        match port_bindings(container.spec_ports()->0@, key) {
            Some(bindings) => bindings@,
            None => Seq::empty(),
        }
    } else {
        Seq::empty()
    }
}

/// Where a port of a service is bound in containers.
pub open spec fn bound_in(
    containers: Seq<ContainerInspect>,
    service: Seq<char>,
    key: Seq<char>,
) -> Seq<Binding>
    decreases containers.len(),
{
    if containers.len() == 0 {
        Seq::empty()
    } else {
        with_bindings(
            bound_in(containers.drop_last(), service, key),
            service_bindings(containers.last(), service, key),
        )
    }
}

/// The key of a planned port in Docker's port tables.
pub open spec fn entry_key(entry: ComposePublishedPortPlanEntry) -> Seq<char> {
    decimal(entry.target_port as nat) + "/"@ + protocol_word(entry.protocol@)
}

fn find_bindings<'a>(ports: &'a PortBindings, key: &str) -> (res: Option<
    &'a Vec<ContainerPortBinding>,
>)
    ensures
        match res {
            Some(bindings) => port_bindings(ports@, key@) == Some(*bindings),
            None => port_bindings(ports@, key@) is None,
        },
{
    let mut i: usize = 0;
    assert(ports@.skip(0) =~= ports@);
    while i < ports.len()
        invariant
            i <= ports@.len(),
            port_bindings(ports@, key@) == port_bindings(ports@.skip(i as int), key@),
        decreases ports@.len() - i,
    {
        assert(ports@.skip(i as int).drop_first() =~= ports@.skip(i as int + 1));
        if same_text(ports[i].0.as_str(), key) {
            return match &ports[i].1 {
                Some(bindings) => Some(bindings),
                None => None,
            };
        }
        i = i + 1;
    }
    None
}

fn container_service_bindings<'a>(
    container: &'a ContainerInspect,
    service: &str,
    key: &str,
) -> (res: Option<&'a Vec<ContainerPortBinding>>)
    ensures
        match res {
            Some(bindings) => service_bindings(*container, service@, key@) == bindings@,
            None => service_bindings(*container, service@, key@) == Seq::<
                ContainerPortBinding,
            >::empty(),
        },
{
    if !container_is_running(container) {
        return None;
    }
    let labels = match container.labels() {
        Some(labels) => labels,
        None => {
            return None;
        },
    };
    let same_service = match labels.get(COMPOSE_SERVICE_LABEL) {
        Some(label) => same_text(label.as_str(), service),
        None => false,
    };
    if !same_service {
        return None;
    }
    match container.ports() {
        Some(ports) => find_bindings(ports, key),
        None => None,
    }
}

/// Where a planned port is bound in the running containers of its service, in
/// order, each place once.
pub fn actual_bindings_for_compose_published_port(
    containers: &Vec<ContainerInspect>,
    entry: &ComposePublishedPortPlanEntry,
) -> (res: Vec<PublishedPortActualBinding>)
    ensures
        binding_views(res@) == bound_in(containers@, entry.service@, entry_key(*entry)),
{
    let mut key = decimal_text(entry.target_port as u128);
    key.append("/");
    key.append(compose_port_protocol_name(&entry.protocol));
    let mut bindings: Vec<PublishedPortActualBinding> = Vec::new();
    let mut i: usize = 0;
    assert(containers@.take(0) =~= Seq::empty());
    assert(binding_views(bindings@) =~= Seq::empty());
    while i < containers.len()
        invariant
            i <= containers@.len(),
            key@ == entry_key(*entry),
            binding_views(bindings@) == bound_in(
                containers@.take(i as int),
                entry.service@,
                key@,
            ),
        decreases containers@.len() - i,
    {
        assert(containers@.take(i as int + 1).drop_last() =~= containers@.take(i as int));
        let ghost before = binding_views(bindings@);
        if let Some(found) = container_service_bindings(
            &containers[i],
            entry.service.as_str(),
            key.as_str(),
        ) {
            let mut k: usize = 0;
            assert(found@.take(0) =~= Seq::empty());
            while k < found.len()
                invariant
                    k <= found@.len(),
                    binding_views(bindings@) == with_bindings(before, found@.take(k as int)),
                decreases found@.len() - k,
            {
                assert(found@.take(k as int + 1).drop_last() =~= found@.take(k as int));
                if let Some(host_port) = binding_port(&found[k]) {
                    let host_ip = match &found[k].host_ip {
                        Some(host_ip) => if trim(host_ip.as_str()).is_empty() {
                            "0.0.0.0".to_owned()
                        } else {
                            host_ip.clone()
                        },
                        None => "0.0.0.0".to_owned(),
                    };
                    insert_binding(&mut bindings, host_ip, host_port);
                }
                k = k + 1;
            }
            assert(found@.take(found@.len() as int) =~= found@);
        }
        i = i + 1;
    }
    assert(containers@.take(containers@.len() as int) =~= containers@);
    bindings
}

proof fn with_bindings_keeps_order(found: Seq<Binding>, bindings: Seq<ContainerPortBinding>)
    requires
        bindings_ascend(found),
    ensures
        bindings_ascend(with_bindings(found, bindings)),
    decreases bindings.len(),
{
    if bindings.len() > 0 {
        let before = with_bindings(found, bindings.drop_last());
        with_bindings_keeps_order(found, bindings.drop_last());
        if let Some(host_port) = bound_port(opt_view(bindings.last().host_port)) {
            with_binding_keeps_order(
                before,
                (actual_ip(opt_view(bindings.last().host_ip)), host_port),
            );
        }
    }
}

/// Where a port is bound is listed in order, each place once.
pub proof fn actual_bindings_ascend(
    containers: Seq<ContainerInspect>,
    service: Seq<char>,
    key: Seq<char>,
)
    ensures
        bindings_ascend(bound_in(containers, service, key)),
    decreases containers.len(),
{
    if containers.len() > 0 {
        actual_bindings_ascend(containers.drop_last(), service, key);
        with_bindings_keeps_order(
            bound_in(containers.drop_last(), service, key),
            service_bindings(containers.last(), service, key),
        );
    }
}

/// Whether a host port is among bindings.
pub open spec fn uses_port(bindings: Seq<Binding>, host_port: u16) -> bool {
    exists|i: int| 0 <= i < bindings.len() && (#[trigger] bindings[i]).1 == host_port
}

/// Whether all bindings have the same host port.
pub open spec fn agree_on_port(bindings: Seq<Binding>) -> bool {
    bindings.len() > 0 && forall|i: int|
        0 <= i < bindings.len() ==> (#[trigger] bindings[i]).1 == bindings[0].1
}

/// The host port to remember as planned: the planned one, unless the port was
/// found on one other host port alone.
pub open spec fn remembered_port(planned: u16, actual: Seq<Binding>) -> u16 {
    if !uses_port(actual, planned) && agree_on_port(actual) {
        actual[0].1
    } else {
        planned
    }
}

/// The endpoint to remember as planned: the planned one, unless the port was
/// found on one other host port alone.
pub fn planned_endpoint_for_runtime_state(
    entry: &ComposePublishedPortPlanEntry,
    actual: &Vec<PublishedPortActualBinding>,
) -> (res: ComposePublishedPortEndpoint)
    ensures
        res == (ComposePublishedPortEndpoint {
            host_port: remembered_port(entry.planned.host_port, binding_views(actual@)),
            ..entry.planned
        }),
{
    let ghost all = binding_views(actual@);
    let mut planned = entry.planned.copied();
    if actual.len() == 0 {
        return planned;
    }
    let mut used = false;
    let mut agree = true;
    let mut i: usize = 0;
    while i < actual.len()
        invariant
            i <= actual@.len(),
            all == binding_views(actual@),
            actual@.len() > 0,
            used == exists|j: int|
                0 <= j < i && (#[trigger] all[j]).1 == entry.planned.host_port,
            agree == forall|j: int| 0 <= j < i ==> (#[trigger] all[j]).1 == all[0].1,
        decreases actual@.len() - i,
    {
        assert(all[i as int].1 == actual@[i as int].host_port);
        assert(all[0].1 == actual@[0].host_port);
        if actual[i].host_port == entry.planned.host_port {
            used = true;
        }
        if actual[i].host_port != actual[0].host_port {
            agree = false;
        }
        i = i + 1;
    }
    if !used && agree {
        assert(all[0].1 == actual@[0].host_port);
        planned.host_port = actual[0].host_port;
    }
    planned
}

/// The bindings on one host port.
pub open spec fn bindings_on(bindings: Seq<Binding>, host_port: u16) -> Seq<Binding>
    decreases bindings.len(),
{
    if bindings.len() == 0 {
        Seq::empty()
    } else {
        let before = bindings_on(bindings.drop_last(), host_port);
        if bindings.last().1 == host_port {
            before.push(bindings.last())
        } else {
            before
        }
    }
}

/// The port in the container that is published.
#[derive(Debug, Clone, PartialEq, Eq)]
pub struct PublishedPortTarget {
    /// The port.
    pub port: u16,
    /// The protocol.
    pub protocol: String,
}

/// What published a port.
#[derive(Debug, Clone, Copy, PartialEq, Eq, Structural)]
pub enum PublishedPortSource {
    /// A service of a Compose project.
    Compose,
}

/// What kind of port is remembered.
#[derive(Debug, Clone, Copy, PartialEq, Eq, Structural)]
pub enum PublishedPortRuntimeType {
    /// One that Docker publishes.
    Published,
}

/// A published port, as it is remembered.
#[derive(Debug, Clone, PartialEq, Eq)]
pub struct PublishedPortRuntimeState {
    /// What published it.
    pub source: PublishedPortSource,
    /// What kind of port it is.
    pub kind: PublishedPortRuntimeType,
    /// The service.
    pub service: String,
    /// The position among the ports of the service.
    pub port_entry_index: usize,
    /// The port in the container.
    pub target: PublishedPortTarget,
    /// What was asked for.
    pub requested: PublishedPortEndpointState,
    /// What it was given.
    pub planned: PublishedPortEndpointState,
    /// Where it was found.
    pub actual_bindings: Vec<PublishedPortActualBinding>,
    /// Whether it was moved.
    pub relocated: bool,
}

/// Whether a published port is remembered as it was planned and found. It was
/// moved where address or port differ from what was asked for.
pub open spec fn remembers_port(
    state: PublishedPortRuntimeState,
    containers: Seq<ContainerInspect>,
    entry: ComposePublishedPortPlanEntry,
) -> bool {
    let actual = bound_in(containers, entry.service@, entry_key(entry));
    let planned = EndpointView {
        host_ip: entry.planned@.host_ip,
        host_port: remembered_port(entry.planned.host_port, actual),
    };
    &&& state.source == PublishedPortSource::Compose
    &&& state.kind == PublishedPortRuntimeType::Published
    &&& state.service == entry.service
    &&& state.port_entry_index == entry.port_entry_index
    &&& state.target.port == entry.target_port
    &&& state.target.protocol@ == protocol_word(entry.protocol@)
    &&& remembers_endpoint(state.requested, entry.requested@)
    &&& remembers_endpoint(state.planned, planned)
    &&& binding_views(state.actual_bindings@) == bindings_on(actual, planned.host_port)
    &&& state.relocated == (entry.requested@ != planned)
}

/// A published port, as it is remembered.
pub fn published_port_runtime_state_for_entry(
    containers: &Vec<ContainerInspect>,
    entry: ComposePublishedPortPlanEntry,
) -> (res: PublishedPortRuntimeState)
    ensures
        remembers_port(res, containers@, entry),
{
    let actual = actual_bindings_for_compose_published_port(containers, &entry);
    let ghost all = binding_views(actual@);
    let planned = planned_endpoint_for_runtime_state(&entry, &actual);
    let mut actual_bindings: Vec<PublishedPortActualBinding> = Vec::new();
    let mut i: usize = 0;
    assert(all.take(0) =~= Seq::empty());
    assert(binding_views(actual_bindings@) =~= Seq::empty());
    while i < actual.len()
        invariant
            i <= actual@.len(),
            all == binding_views(actual@),
            binding_views(actual_bindings@) == bindings_on(
                all.take(i as int),
                planned.host_port,
            ),
        decreases actual@.len() - i,
    {
        assert(all.take(i as int + 1).drop_last() =~= all.take(i as int));
        let ghost before = actual_bindings@;
        if actual[i].host_port == planned.host_port {
            actual_bindings.push(
                PublishedPortActualBinding {
                    host_ip: actual[i].host_ip.clone(),
                    host_port: actual[i].host_port,
                },
            );
            assert(binding_views(actual_bindings@) =~= binding_views(before).push(all[i as int]));
        }
        i = i + 1;
    }
    assert(all.take(all.len() as int) =~= all);
    let relocated = !entry.requested.same(&planned);
    PublishedPortRuntimeState {
        source: PublishedPortSource::Compose,
        kind: PublishedPortRuntimeType::Published,
        target: PublishedPortTarget {
            port: entry.target_port,
            protocol: compose_port_protocol_name(&entry.protocol).to_owned(),
        },
        requested: published_port_endpoint_state(&entry.requested),
        planned: published_port_endpoint_state(&planned),
        service: entry.service,
        port_entry_index: entry.port_entry_index,
        actual_bindings,
        relocated,
    }
}

/// What is remembered of a Compose project.
#[derive(Debug, Clone)]
pub struct ComposeRuntimeState {
    /// The published ports.
    pub published_ports: Vec<PublishedPortRuntimeState>,
    /// What keeps a clone apart.
    pub clone_isolation: CloneIsolationRuntimeState,
}

/// The published ports of a project, as they are remembered.
pub fn compose_published_port_runtime_state(
    containers: &Vec<ContainerInspect>,
    entries: Vec<ComposePublishedPortPlanEntry>,
) -> (res: Vec<PublishedPortRuntimeState>)
    ensures
        res@.len() == entries@.len(),
        forall|i: int|
            0 <= i < entries@.len() ==> remembers_port(
                #[trigger] res@[i],
                containers@,
                entries@[i],
            ),
{
    let ghost all = entries@;
    let mut entries = entries;
    let mut states: Vec<PublishedPortRuntimeState> = Vec::new();
    while entries.len() > 0
        invariant
            states@.len() + entries@.len() == all.len(),
            entries@ == all.take(entries@.len() as int),
            forall|i: int|
                0 <= i < states@.len() ==> remembers_port(
                    #[trigger] states@[i],
                    containers@,
                    all[entries@.len() + i],
                ),
        decreases entries@.len(),
    {
        let ghost before = states@;
        let ghost count = entries@.len();
        match entries.pop() {
            Some(entry) => {
                assert(entry == all[count - 1]);
                let state = published_port_runtime_state_for_entry(containers, entry);
                states.insert(0, state);
                assert(entries@ =~= all.take(entries@.len() as int));
                assert forall|i: int| 0 <= i < states@.len() implies remembers_port(
                    #[trigger] states@[i],
                    containers@,
                    all[entries@.len() + i],
                ) by {
                    if i > 0 {
                        assert(states@[i] == before[i - 1]);
                    }
                }
            },
            None => {},
        }
    }
    states
}

/// Whether a Compose project is remembered: its published ports, where they
/// were planned and found, and its networks.
pub open spec fn remembers_project(
    state: ComposeRuntimeState,
    containers: Seq<ContainerInspect>,
    entries: Seq<ComposePublishedPortPlanEntry>,
    subnet_plan: ComposeIsolationSubnetPlan,
) -> bool {
    &&& state.published_ports@.len() == entries.len()
    &&& forall|i: int|
        0 <= i < entries.len() ==> remembers_port(
            #[trigger] state.published_ports@[i],
            containers,
            entries[i],
        )
    &&& state.clone_isolation.networks@ == subnet_plan.allocations@.map_values(
        |allocation: ComposeIsolationSubnetAllocation| remembered_network(allocation),
    )
}

/// What is written once the primary container of a Compose project runs.
#[derive(Debug)]
pub struct ComposeStateUpdate {
    /// What is written of the container.
    pub update: StateUpdate,
    /// What is written of the project.
    pub runtime: ComposeRuntimeState,
}

/// Makes out what to write once the primary container of a Compose project
/// runs: of the container what is written of any, and of the project its
/// published ports and networks. `containers` are those of the project, and
/// `entries` its published ports.
pub fn sync_started_compose_state(
    plan: &UpPlan,
    outcome: &UpOutcome,
    lifecycle_path: LifecycleRunPath,
    containers: &Vec<ContainerInspect>,
    entries: Vec<ComposePublishedPortPlanEntry>,
    subnet_plan: &ComposeIsolationSubnetPlan,
    existing: Option<WorkspaceState>,
    ids_match: bool,
    state_file: &str,
) -> (res: Result<ComposeStateUpdate, UpError>)
    ensures
        exists|update: Result<StateUpdate, UpError>| #[trigger]
            syncs_state(
                *plan,
                *outcome,
                lifecycle_path,
                existing,
                ids_match,
                state_file@,
                update,
            ) && match update {
                Ok(update) => res is Ok && res->Ok_0.update == update && remembers_project(
                    res->Ok_0.runtime,
                    containers@,
                    entries@,
                    *subnet_plan,
                ),
                Err(error) => res == Err::<ComposeStateUpdate, UpError>(error),
            },
{
    let runtime = ComposeRuntimeState {
        published_ports: compose_published_port_runtime_state(containers, entries),
        clone_isolation: clone_isolation_runtime_state(subnet_plan),
    };
    match sync_started_state(plan, outcome, lifecycle_path, existing, ids_match, state_file) {
        Ok(update) => Ok(ComposeStateUpdate { update, runtime }),
        Err(error) => Err(error),
    }
}

} // verus!
