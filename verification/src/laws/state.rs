//! What is remembered of containers.

use crate::compose::isolation::ComposeIsolationSubnetPlan;
use crate::compose::ports::ComposePublishedPortPlanEntry;
use crate::error::UpError;
use crate::laws::ports::{names_host_port, service_of};
use crate::numbers::port_value;
use crate::start::inspect::{ContainerInspect, ContainerPortBinding};
use crate::start::listing::{bound_port, label_of};
use crate::start::state_sync::{
    binding_views, bindings_on, bound_in, entry_key, is_running, port_bindings, remembers_port,
    remembers_project, service_bindings, syncs_state, with_binding, with_bindings, Binding,
    ComposeRuntimeState, LifecycleRunPath, PublishedPortRuntimeState, StateUpdate, WorkspaceState,
};
use crate::text::{decimal, opt_view, trimmed};
use crate::text_map::lookup;
use crate::types::{UpOutcome, UpPlan};
use vstd::prelude::*;

verus! {

/// A container that was made is remembered afresh, whatever was remembered
/// before: its own id, the image, the configuration's hash and file, and the
/// Compose project of the plan.
pub proof fn new_containers_are_remembered_afresh(
    plan: UpPlan,
    outcome: UpOutcome,
    existing: Option<WorkspaceState>,
    ids_match: bool,
    state_file: Seq<char>,
    update: Result<StateUpdate, UpError>,
)
    requires
        syncs_state(
            plan,
            outcome,
            LifecycleRunPath::New,
            existing,
            ids_match,
            state_file,
            update,
        ),
    ensures
        update is Ok,
        update->Ok_0 is Fresh,
        update->Ok_0->Fresh_container.container_id@ == outcome.container_id@,
        update->Ok_0->Fresh_container.image@ == plan.image@,
        update->Ok_0->Fresh_container.config_hash@ == plan.resources.config_hash@,
        opt_view(update->Ok_0->Fresh_container.config_file) == opt_view(
            lookup(plan.resources.labels@, "devcontainer.config_file"@),
        ),
        update->Ok_0->Fresh_compose_project_name is Some <==> plan.compose_project is Some,
        plan.compose_project is Some ==> update->Ok_0->Fresh_compose_project_name->0@
            == plan.compose_project->0.project_name@,
{
}

/// A container that is used again keeps what is remembered of it, which must
/// be of the same container and the same configuration; that it was started is
/// noted exactly where it was. Otherwise nothing is written, and the one line
/// of the error names the state file.
pub proof fn reused_containers_must_be_remembered(
    plan: UpPlan,
    outcome: UpOutcome,
    path: LifecycleRunPath,
    existing: Option<WorkspaceState>,
    ids_match: bool,
    state_file: Seq<char>,
    update: Result<StateUpdate, UpError>,
)
    requires
        syncs_state(plan, outcome, path, existing, ids_match, state_file, update),
        path is Started || path is Running,
    ensures
        update is Ok <==> (existing is Some && ids_match && existing->0.config_hash@
            == plan.resources.config_hash@),
        update is Ok ==> {
            &&& update->Ok_0 is Reused
            &&& update->Ok_0->Reused_existing == existing->0
            &&& update->Ok_0->refresh_last_started_at == (path is Started)
            &&& update->Ok_0->Reused_container.container_id@ == outcome.container_id@
            &&& update->Ok_0->Reused_container.image@ == plan.image@
            &&& update->Ok_0->Reused_container.config_hash@ == plan.resources.config_hash@
            &&& opt_view(update->Ok_0->Reused_container.config_file) == opt_view(
                lookup(plan.resources.labels@, "devcontainer.config_file"@),
            )
            &&& update->Ok_0->Reused_compose_project_name is Some
                <==> plan.compose_project is Some
            &&& plan.compose_project is Some
                ==> update->Ok_0->Reused_compose_project_name->0@
                == plan.compose_project->0.project_name@
        },
        update is Err ==> update->Err_0@ == seq![
            "Cannot safely reuse existing dev container without matching lifecycle state: "@
                + state_file + ". Run decune rebuild to recreate it."@,
        ],
{
}

/// A container runs where Docker says so, by flag or by word.
pub proof fn running_containers_are_known(container: ContainerInspect)
    ensures
        container.state is None ==> !is_running(container),
        container.state is Some ==> (is_running(container) <==> {
            ||| container.state->0.running == Some(true)
            ||| container.state->0.status is Some && container.state->0.status->0@ == "running"@
        }),
{
}

proof fn binding_is_added(bindings: Seq<Binding>, binding: Binding)
    ensures
        forall|other: Binding| #[trigger]
            with_binding(bindings, binding).contains(other) == (bindings.contains(other) || other
                == binding),
    decreases bindings.len(),
{
    if bindings.len() == 0 {
        assert(seq![binding][0] == binding);
    } else if bindings[0] == binding {
        assert(bindings.contains(binding));
    } else {
        let rest = bindings.drop_first();
        binding_is_added(rest, binding);
        let after = with_binding(bindings, binding);
        let tail = with_binding(rest, binding);
        assert(bindings =~= seq![bindings[0]] + rest);
        assert forall|other: Binding| #[trigger] after.contains(other) == (bindings.contains(other)
            || other == binding) by {
            if bindings.contains(other) {
                let i = choose|i: int| 0 <= i < bindings.len() && bindings[i] == other;
                if after == seq![binding] + bindings {
                    assert(after[i + 1] == other);
                } else if i == 0 {
                    assert(after[0] == other);
                } else {
                    assert(rest[i - 1] == other);
                    assert(tail.contains(other));
                    let j = choose|j: int| 0 <= j < tail.len() && tail[j] == other;
                    assert(after[j + 1] == other);
                }
            }
            if other == binding {
                if after == seq![binding] + bindings {
                    assert(after[0] == other);
                } else {
                    assert(tail.contains(other));
                    let j = choose|j: int| 0 <= j < tail.len() && tail[j] == other;
                    assert(after[j + 1] == other);
                }
            }
            if after.contains(other) && other != binding {
                let j = choose|j: int| 0 <= j < after.len() && after[j] == other;
                if after == seq![binding] + bindings {
                    assert(bindings[j - 1] == other);
                } else if j > 0 {
                    assert(tail[j - 1] == other);
                    assert(tail.contains(other));
                    let i = choose|i: int| 0 <= i < rest.len() && rest[i] == other;
                    assert(bindings[i + 1] == other);
                }
            }
        }
    }
}

/// Where a binding is found: on its address, or on all where none is given or
/// it is blank, and on its host port.
pub open spec fn place_of(binding: ContainerPortBinding) -> Binding {
    let address = if binding.host_ip is Some && trimmed(binding.host_ip->0@).len() > 0 {
        binding.host_ip->0@
    } else {
        "0.0.0.0"@
    };
    (address, port_value(binding.host_port->0@)->Ok_0 as u16)
}

proof fn bindings_are_added(found: Seq<Binding>, bindings: Seq<ContainerPortBinding>)
    ensures
        forall|other: Binding|
            found.contains(other) ==> #[trigger] with_bindings(found, bindings).contains(other),
        forall|b: int|
            0 <= b < bindings.len() && names_host_port(#[trigger] bindings[b]) ==> with_bindings(
                found,
                bindings,
            ).contains(place_of(bindings[b])),
        forall|other: Binding| #[trigger]
            with_bindings(found, bindings).contains(other) && !found.contains(other) ==> exists|
                b: int,
            |
                0 <= b < bindings.len() && names_host_port(#[trigger] bindings[b]) && place_of(
                    bindings[b],
                ) == other,
    decreases bindings.len(),
{
    if bindings.len() > 0 {
        let front = bindings.drop_last();
        let before = with_bindings(found, front);
        bindings_are_added(found, front);
        let last = bindings.last();
        if names_host_port(last) {
            binding_is_added(before, place_of(last));
            assert(with_bindings(found, bindings) == with_binding(before, place_of(last)));
        } else {
            assert(bound_port(opt_view(last.host_port)) is None);
            assert(with_bindings(found, bindings) == before);
        }
        assert forall|b: int|
            0 <= b < bindings.len() && names_host_port(
                #[trigger] bindings[b],
            ) implies with_bindings(found, bindings).contains(place_of(bindings[b])) by {
            if b < front.len() {
                assert(front[b] == bindings[b]);
            }
        }
        assert forall|other: Binding| #[trigger]
            with_bindings(found, bindings).contains(other) && !found.contains(
                other,
            ) implies exists|b: int|
            0 <= b < bindings.len() && names_host_port(#[trigger] bindings[b]) && place_of(
                bindings[b],
            ) == other by {
            if before.contains(other) {
                let b = choose|b: int|
                    0 <= b < front.len() && names_host_port(#[trigger] front[b]) && place_of(
                        front[b],
                    ) == other;
                assert(bindings[b] == front[b]);
            } else {
                assert(names_host_port(bindings[bindings.len() - 1]));
            }
        }
    }
}

proof fn first_entry_counts(
    ports: Seq<(String, Option<Vec<ContainerPortBinding>>)>,
    key: Seq<char>,
    p: int,
)
    requires
        0 <= p < ports.len(),
        ports[p].0@ == key,
        forall|q: int| 0 <= q < p ==> (#[trigger] ports[q]).0@ != key,
    ensures
        port_bindings(ports, key) == ports[p].1,
    decreases ports.len(),
{
    if p > 0 {
        let rest = ports.drop_first();
        assert(ports[0].0@ != key);
        assert forall|q: int| 0 <= q < p - 1 implies (#[trigger] rest[q]).0@ != key by {
            assert(rest[q] == ports[q + 1]);
        }
        first_entry_counts(rest, key, p - 1);
    }
}

proof fn found_entry(
    ports: Seq<(String, Option<Vec<ContainerPortBinding>>)>,
    key: Seq<char>,
) -> (p: int)
    requires
        port_bindings(ports, key) is Some,
    ensures
        0 <= p < ports.len(),
        ports[p].0@ == key,
        ports[p].1 == port_bindings(ports, key),
    decreases ports.len(),
{
    if ports[0].0@ == key {
        0
    } else {
        found_entry(ports.drop_first(), key) + 1
    }
}

/// Every place that a port of a service is bound to in a running container of
/// the service is found: the first entry of Docker's table under the port's
/// key counts.
pub proof fn bound_places_are_found(
    containers: Seq<ContainerInspect>,
    service: Seq<char>,
    key: Seq<char>,
    c: int,
    p: int,
    b: int,
)
    requires
        0 <= c < containers.len(),
        is_running(containers[c]),
        service_of(containers[c]) == Some(service),
        containers[c].network_settings is Some,
        containers[c].network_settings->0.ports is Some,
        ({
            let ports = containers[c].network_settings->0.ports->0@;
            &&& 0 <= p < ports.len()
            &&& ports[p].0@ == key
            &&& forall|q: int| 0 <= q < p ==> (#[trigger] ports[q]).0@ != key
            &&& ports[p].1 is Some
            &&& 0 <= b < ports[p].1->0@.len()
            &&& names_host_port(ports[p].1->0@[b])
        }),
    ensures
        bound_in(containers, service, key).contains(
            place_of(containers[c].network_settings->0.ports->0@[p].1->0@[b]),
        ),
    decreases containers.len(),
{
    let front = containers.drop_last();
    bindings_are_added(
        bound_in(front, service, key),
        service_bindings(containers.last(), service, key),
    );
    if c < front.len() {
        assert(front[c] == containers[c]);
        bound_places_are_found(front, service, key, c, p, b);
    } else {
        assert(label_of(containers[c], "com.docker.compose.service"@) == service_of(containers[c]));
        first_entry_counts(containers[c].network_settings->0.ports->0@, key, p);
    }
}

/// Every place that is found is one that a running container of the service
/// binds the port to: container, entry of its table and binding are told.
pub proof fn found_places_are_bound(
    containers: Seq<ContainerInspect>,
    service: Seq<char>,
    key: Seq<char>,
    place: Binding,
) -> (at: (int, int, int))
    requires
        bound_in(containers, service, key).contains(place),
    ensures
        ({
            let (c, p, b) = at;
            let ports = containers[c].network_settings->0.ports->0@;
            &&& 0 <= c < containers.len()
            &&& is_running(containers[c])
            &&& service_of(containers[c]) == Some(service)
            &&& containers[c].network_settings is Some
            &&& containers[c].network_settings->0.ports is Some
            &&& 0 <= p < ports.len()
            &&& ports[p].0@ == key
            &&& ports[p].1 is Some
            &&& 0 <= b < ports[p].1->0@.len()
            &&& names_host_port(ports[p].1->0@[b])
            &&& place_of(ports[p].1->0@[b]) == place
        }),
    decreases containers.len(),
{
    let front = containers.drop_last();
    let before = bound_in(front, service, key);
    let last = containers.last();
    let bindings = service_bindings(last, service, key);
    bindings_are_added(before, bindings);
    if before.contains(place) {
        let (c, p, b) = found_places_are_bound(front, service, key, place);
        assert(front[c] == containers[c]);
        (c, p, b)
    } else {
        let b = choose|b: int|
            0 <= b < bindings.len() && names_host_port(#[trigger] bindings[b]) && place_of(
                bindings[b],
            ) == place;
        assert(label_of(last, "com.docker.compose.service"@) == service_of(last));
        let p = found_entry(last.network_settings->0.ports->0@, key);
        (containers.len() - 1, p, b)
    }
}

proof fn places_on_one_port(places: Seq<Binding>, host_port: u16)
    ensures
        forall|place: Binding| #[trigger]
            bindings_on(places, host_port).contains(place) <==> places.contains(place) && place.1
                == host_port,
    decreases places.len(),
{
    if places.len() > 0 {
        let front = places.drop_last();
        let before = bindings_on(front, host_port);
        let after = bindings_on(places, host_port);
        places_on_one_port(front, host_port);
        assert forall|place: Binding| #[trigger] after.contains(place) <==> places.contains(place)
            && place.1 == host_port by {
            if after.contains(place) {
                let i = choose|i: int| 0 <= i < after.len() && after[i] == place;
                if i < before.len() {
                    assert(before[i] == place);
                    assert(before.contains(place));
                    let j = choose|j: int| 0 <= j < front.len() && front[j] == place;
                    assert(places[j] == place);
                } else {
                    assert(places[places.len() - 1] == place);
                }
            }
            if places.contains(place) && place.1 == host_port {
                let j = choose|j: int| 0 <= j < places.len() && places[j] == place;
                if j < front.len() {
                    assert(front[j] == place);
                    assert(before.contains(place));
                    let i = choose|i: int| 0 <= i < before.len() && before[i] == place;
                    assert(after[i] == place);
                } else {
                    assert(after[after.len() - 1] == place);
                }
            }
        }
    }
}

/// A published port is remembered under its service, target and place in the
/// project, with the address and port that were asked for. Planned stays the
/// planned host port, unless every place that the port was found on has one
/// other host port, which is remembered in its stead. The places remembered
/// are those found on that port, and the port was moved exactly where its
/// address or host port is not what was asked for.
pub proof fn ports_are_remembered_where_they_are(
    state: PublishedPortRuntimeState,
    containers: Seq<ContainerInspect>,
    entry: ComposePublishedPortPlanEntry,
)
    requires
        remembers_port(state, containers, entry),
    ensures
        state.source is Compose,
        state.kind is Published,
        state.service@ == entry.service@,
        state.port_entry_index == entry.port_entry_index,
        state.target.port == entry.target_port,
        entry.protocol@ is Tcp ==> state.target.protocol@ == "tcp"@,
        entry.protocol@ is Udp ==> state.target.protocol@ == "udp"@,
        entry_key(entry) == decimal(entry.target_port as nat) + "/"@ + state.target.protocol@,
        state.requested.host_port == entry.requested.host_port,
        opt_view(state.requested.ip_value) == entry.requested.host_ip@,
        state.requested.ip_kind is Explicit <==> entry.requested.host_ip@ is Some,
        opt_view(state.planned.ip_value) == entry.planned.host_ip@,
        state.planned.ip_kind is Explicit <==> entry.planned.host_ip@ is Some,
        ({
            let found = bound_in(containers, entry.service@, entry_key(entry));
            &&& found.len() == 0 ==> state.planned.host_port == entry.planned.host_port
            &&& forall|place: Binding| #[trigger]
                found.contains(place) && place.1 == entry.planned.host_port
                    ==> state.planned.host_port == entry.planned.host_port
            &&& forall|one: Binding, other: Binding|
                #[trigger] found.contains(one) && #[trigger] found.contains(other) && one.1
                    != other.1 ==> state.planned.host_port == entry.planned.host_port
            &&& forall|place: Binding| #[trigger]
                found.contains(place) && (forall|other: Binding| #[trigger]
                    found.contains(other) ==> other.1 == place.1) ==> state.planned.host_port
                    == place.1
            &&& forall|place: Binding| #[trigger]
                binding_views(state.actual_bindings@).contains(place) <==> found.contains(place)
                    && place.1 == state.planned.host_port
        }),
        state.relocated <==> {
            ||| opt_view(state.planned.ip_value) != entry.requested.host_ip@
            ||| state.planned.host_port != entry.requested.host_port
        },
{
    let found = bound_in(containers, entry.service@, entry_key(entry));
    places_on_one_port(found, state.planned.host_port);
    if found.len() > 0 {
        assert(found.contains(found[0]));
    }
    assert forall|i: int| 0 <= i < found.len() implies found.contains(#[trigger] found[i]) by {}
}

/// Of a project every published port is remembered, in order, and every network
/// with the subnet that was asked for, the subnet and gateway that were planned,
/// and whether it was moved.
pub proof fn projects_are_remembered_whole(
    state: ComposeRuntimeState,
    containers: Seq<ContainerInspect>,
    entries: Seq<ComposePublishedPortPlanEntry>,
    subnet_plan: ComposeIsolationSubnetPlan,
    i: int,
    n: int,
)
    requires
        remembers_project(state, containers, entries, subnet_plan),
        0 <= i < entries.len(),
        0 <= n < subnet_plan.allocations@.len(),
    ensures
        state.published_ports@.len() == entries.len(),
        state.published_ports@[i].service@ == entries[i].service@,
        state.published_ports@[i].port_entry_index == entries[i].port_entry_index,
        state.published_ports@[i].target.port == entries[i].target_port,
        state.clone_isolation.networks@.len() == subnet_plan.allocations@.len(),
        state.clone_isolation.networks@[n].network == subnet_plan.allocations@[n].network,
        state.clone_isolation.networks@[n].requested_subnet
            == subnet_plan.allocations@[n].requested_subnet,
        state.clone_isolation.networks@[n].planned_subnet
            == subnet_plan.allocations@[n].planned_subnet,
        state.clone_isolation.networks@[n].planned_gateway
            == subnet_plan.allocations@[n].planned_gateway,
        state.clone_isolation.networks@[n].relocated == subnet_plan.allocations@[n].relocated,
{
    assert(remembers_port(state.published_ports@[i], containers, entries[i]));
}

} // verus!
