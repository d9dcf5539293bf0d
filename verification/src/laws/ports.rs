//! Host ports that containers hold.

use crate::compose::ports::{
    ComposePublishedPortReservationSource, EndpointView, ProtocolView, ReservationView,
};
use crate::error::UpError;
use crate::laws::session::{all_digits, ports_are_decimal_numbers, without_sign};
use crate::laws::text::{number_of, texts_are_parted_at_the_first_occurrence};
use crate::numbers::port_value;
use crate::start::inspect::{ContainerInspect, ContainerPortBinding};
use crate::start::listing::{
    adds_container, bindings_held, bound_port, container_ports_held, label_of, port_key,
    ports_held, project_ports_held, reads_binding, reads_bindings, reads_container,
    reads_external, reads_port, reads_ports, HeldPort,
};
use crate::text::parted;
use crate::text_map::lookup;
use vstd::prelude::*;

verus! {

/// A key of Docker's port tables, such as `80/tcp`, names the port in front of
/// its first slash and the protocol behind it.
pub proof fn port_keys_name_port_and_protocol(port: Seq<char>, protocol: Seq<char>)
    requires
        !port.contains('/'),
    ensures
        ({
            let read = port_key(port + seq!['/'] + protocol);
            let valid = without_sign(port).len() > 0 && all_digits(without_sign(port)) && number_of(
                without_sign(port),
            ) <= 65535;
            &&& read is Some <==> valid
            &&& read is Some ==> {
                let (number, kind) = read->0;
                &&& number == number_of(without_sign(port))
                &&& protocol == "tcp"@ ==> kind == ProtocolView::Tcp
                &&& protocol == "udp"@ ==> kind == ProtocolView::Udp
                &&& protocol != "tcp"@ && protocol != "udp"@ ==> kind == ProtocolView::Other(
                    protocol,
                )
            }
        }),
        port_key(port) is None,
{
    let key = port + seq!['/'] + protocol;
    texts_are_parted_at_the_first_occurrence(key, '/');
    texts_are_parted_at_the_first_occurrence(port, '/');
    assert(key[port.len() as int] == '/');
    assert(key.contains('/'));
    let (before, behind) = parted(key, '/')->0;
    assert(before == port && behind == protocol) by {
        if before.len() < port.len() {
            assert(key[before.len() as int] == '/');
            assert(port[before.len() as int] == '/');
        } else if before.len() > port.len() {
            assert(before[port.len() as int] == key[port.len() as int]);
            assert(before.contains('/'));
        }
        assert(before =~= key.take(before.len() as int));
        assert(port =~= key.take(port.len() as int));
        assert(behind =~= key.skip(before.len() as int + 1));
        assert(protocol =~= key.skip(port.len() as int + 1));
    }
    ports_are_decimal_numbers(port);
    reveal_strlit("tcp");
    reveal_strlit("udp");
    assert("tcp"@[0] == 't' && "udp"@[0] == 'u');
}

/// The address of a binding: all, where none is given.
pub open spec fn address_of(binding: ContainerPortBinding) -> Seq<char> {
    if binding.host_ip is Some && binding.host_ip->0@.len() > 0 {
        binding.host_ip->0@
    } else {
        "0.0.0.0"@
    }
}

/// What a binding of a port of a service holds on the host.
pub open spec fn held_by(
    service: Seq<char>,
    target: (u16, ProtocolView),
    source: ComposePublishedPortReservationSource,
    binding: ContainerPortBinding,
) -> ReservationView {
    let (target_port, protocol) = target;
    ReservationView {
        service,
        target_port,
        protocol,
        endpoint: EndpointView {
            host_ip: Some(address_of(binding)),
            host_port: bound_port(crate::text::opt_view(binding.host_port))->0,
        },
        source,
    }
}

/// Whether a binding names a host port.
pub open spec fn names_host_port(binding: ContainerPortBinding) -> bool {
    binding.host_port is Some && port_value(binding.host_port->0@) is Ok
}

proof fn place_of_binding(
    service: Seq<char>,
    target: (u16, ProtocolView),
    source: ComposePublishedPortReservationSource,
    bindings: Seq<ContainerPortBinding>,
    b: int,
) -> (e: int)
    requires
        0 <= b < bindings.len(),
        names_host_port(bindings[b]),
    ensures
        0 <= e < bindings_held(service, target, source, bindings).len(),
        bindings_held(service, target, source, bindings)[e] == held_by(
            service,
            target,
            source,
            bindings[b],
        ),
    decreases bindings.len(),
{
    let all = bindings_held(service, target, source, bindings);
    let front = bindings.drop_last();
    if b == bindings.len() - 1 {
        all.len() - 1
    } else {
        assert(front[b] == bindings[b]);
        let e = place_of_binding(service, target, source, front, b);
        assert(all[e] == bindings_held(service, target, source, front)[e]);
        e
    }
}

proof fn place_of_port(
    service: Seq<char>,
    source: ComposePublishedPortReservationSource,
    ports: Seq<(String, Option<Vec<ContainerPortBinding>>)>,
    p: int,
    b: int,
) -> (e: int)
    requires
        0 <= p < ports.len(),
        port_key(ports[p].0@) is Some,
        ports[p].1 is Some,
        0 <= b < ports[p].1->0@.len(),
        names_host_port(ports[p].1->0@[b]),
    ensures
        0 <= e < ports_held(service, source, ports).len(),
        ports_held(service, source, ports)[e] == held_by(
            service,
            port_key(ports[p].0@)->0,
            source,
            ports[p].1->0@[b],
        ),
    decreases ports.len(),
{
    let front = ports.drop_last();
    let before = ports_held(service, source, front);
    let all = ports_held(service, source, ports);
    if p == ports.len() - 1 {
        let target = port_key(ports[p].0@)->0;
        let e = place_of_binding(service, target, source, ports[p].1->0@, b);
        assert(all[before.len() + e] == bindings_held(
            service,
            target,
            source,
            ports[p].1->0@,
        )[e]);
        before.len() + e
    } else {
        assert(front[p] == ports[p]);
        let e = place_of_port(service, source, front, p, b);
        assert(all[e] == before[e]);
        e
    }
}

proof fn place_of_container(containers: Seq<ContainerInspect>, c: int, k: int) -> (e: int)
    requires
        0 <= c < containers.len(),
        0 <= k < container_ports_held(containers[c]).len(),
    ensures
        0 <= e < project_ports_held(containers).len(),
        project_ports_held(containers)[e] == container_ports_held(containers[c])[k],
    decreases containers.len(),
{
    let front = containers.drop_last();
    let before = project_ports_held(front);
    if c == containers.len() - 1 {
        before.len() + k
    } else {
        assert(front[c] == containers[c]);
        place_of_container(front, c, k)
    }
}

/// The service that a container belongs to.
pub open spec fn service_of(container: ContainerInspect) -> Option<Seq<char>> {
    if container.config is Some && container.config->0.labels is Some && lookup(
        container.config->0.labels->0@,
        "com.docker.compose.service"@,
    ) is Some {
        Some(lookup(container.config->0.labels->0@, "com.docker.compose.service"@)->0@)
    } else {
        None
    }
}

/// Whether a container runs, as Docker says.
pub open spec fn runs(container: ContainerInspect) -> bool {
    container.state is Some && container.state->0.running == Some(true)
}

/// The port table of a container that counts: what it has while it runs, and
/// what it is to be given while it is stopped.
pub open spec fn table_of(container: ContainerInspect) -> Option<
    Seq<(String, Option<Vec<ContainerPortBinding>>)>,
> {
    if runs(container) {
        if container.network_settings is Some && container.network_settings->0.ports is Some {
            Some(container.network_settings->0.ports->0@)
        } else {
            None
        }
    } else {
        if container.host_config is Some && container.host_config->0.port_bindings is Some {
            Some(container.host_config->0.port_bindings->0@)
        } else {
            None
        }
    }
}

/// Every host port that a container of a project is bound to is listed as held:
/// under its service, with the port and protocol in the container, with address
/// and port on the host, and with whether the container runs.
pub proof fn bound_ports_of_projects_are_listed(
    containers: Seq<ContainerInspect>,
    c: int,
    p: int,
    b: int,
)
    requires
        0 <= c < containers.len(),
        service_of(containers[c]) is Some,
        table_of(containers[c]) is Some,
        0 <= p < table_of(containers[c])->0.len(),
        port_key(table_of(containers[c])->0[p].0@) is Some,
        table_of(containers[c])->0[p].1 is Some,
        0 <= b < table_of(containers[c])->0[p].1->0@.len(),
        names_host_port(table_of(containers[c])->0[p].1->0@[b]),
    ensures
        ({
            let (key, bindings) = table_of(containers[c])->0[p];
            let binding = bindings->0@[b];
            let (target_port, protocol) = port_key(key@)->0;
            project_ports_held(containers).contains(
                ReservationView {
                    service: service_of(containers[c])->0,
                    target_port,
                    protocol,
                    endpoint: EndpointView {
                        host_ip: Some(address_of(binding)),
                        host_port: port_value(binding.host_port->0@)->Ok_0 as u16,
                    },
                    source: if runs(containers[c]) {
                        ComposePublishedPortReservationSource::RunningContainer
                    } else {
                        ComposePublishedPortReservationSource::StoppedContainer
                    },
                },
            )
        }),
{
    let container = containers[c];
    let source = if runs(container) {
        ComposePublishedPortReservationSource::RunningContainer
    } else {
        ComposePublishedPortReservationSource::StoppedContainer
    };
    let table = table_of(container)->0;
    assert(label_of(container, "com.docker.compose.service"@) == service_of(container));
    assert(container_ports_held(container) == ports_held(service_of(container)->0, source, table));
    let k = place_of_port(service_of(container)->0, source, table, p, b);
    let e = place_of_container(containers, c, k);
    assert(project_ports_held(containers)[e] == held_by(
        service_of(container)->0,
        port_key(table[p].0@)->0,
        source,
        table[p].1->0@[b],
    ));
}

proof fn source_of_binding(
    service: Seq<char>,
    target: (u16, ProtocolView),
    source: ComposePublishedPortReservationSource,
    bindings: Seq<ContainerPortBinding>,
    e: int,
) -> (b: int)
    requires
        0 <= e < bindings_held(service, target, source, bindings).len(),
    ensures
        0 <= b < bindings.len(),
        names_host_port(bindings[b]),
        bindings_held(service, target, source, bindings)[e] == held_by(
            service,
            target,
            source,
            bindings[b],
        ),
    decreases bindings.len(),
{
    let front = bindings.drop_last();
    let before = bindings_held(service, target, source, front);
    if e < before.len() {
        assert(bindings_held(service, target, source, bindings)[e] == before[e]);
        source_of_binding(service, target, source, front, e)
    } else {
        bindings.len() - 1
    }
}

proof fn source_of_port(
    service: Seq<char>,
    source: ComposePublishedPortReservationSource,
    ports: Seq<(String, Option<Vec<ContainerPortBinding>>)>,
    e: int,
) -> (at: (int, int))
    requires
        0 <= e < ports_held(service, source, ports).len(),
    ensures
        0 <= at.0 < ports.len(),
        port_key(ports[at.0].0@) is Some,
        ports[at.0].1 is Some,
        0 <= at.1 < ports[at.0].1->0@.len(),
        names_host_port(ports[at.0].1->0@[at.1]),
        ports_held(service, source, ports)[e] == held_by(
            service,
            port_key(ports[at.0].0@)->0,
            source,
            ports[at.0].1->0@[at.1],
        ),
    decreases ports.len(),
{
    let front = ports.drop_last();
    let before = ports_held(service, source, front);
    if e < before.len() {
        assert(ports_held(service, source, ports)[e] == before[e]);
        source_of_port(service, source, front, e)
    } else {
        let target = port_key(ports.last().0@)->0;
        let b = source_of_binding(
            service,
            target,
            source,
            ports.last().1->0@,
            e - before.len(),
        );
        (ports.len() - 1, b)
    }
}

proof fn source_of_container(containers: Seq<ContainerInspect>, e: int) -> (at: (int, int))
    requires
        0 <= e < project_ports_held(containers).len(),
    ensures
        0 <= at.0 < containers.len(),
        0 <= at.1 < container_ports_held(containers[at.0]).len(),
        project_ports_held(containers)[e] == container_ports_held(containers[at.0])[at.1],
    decreases containers.len(),
{
    let front = containers.drop_last();
    let before = project_ports_held(front);
    if e < before.len() {
        source_of_container(front, e)
    } else {
        (containers.len() - 1, e - before.len())
    }
}

/// Nothing else is listed: each host port that a project is said to hold is
/// bound by one of its containers, for the service and in the state that is
/// told.
pub proof fn listed_ports_are_bound(containers: Seq<ContainerInspect>, e: int) -> (at: (
    int,
    int,
    int,
))
    requires
        0 <= e < project_ports_held(containers).len(),
    ensures
        ({
            let (c, p, b) = at;
            let told = project_ports_held(containers)[e];
            &&& 0 <= c < containers.len()
            &&& table_of(containers[c]) is Some
            &&& 0 <= p < table_of(containers[c])->0.len()
            &&& table_of(containers[c])->0[p].1 is Some
            &&& 0 <= b < table_of(containers[c])->0[p].1->0@.len()
            &&& service_of(containers[c]) == Some(told.service)
            &&& port_key(table_of(containers[c])->0[p].0@) == Some(
                (told.target_port, told.protocol),
            )
            &&& told.endpoint.host_ip == Some(address_of(table_of(containers[c])->0[p].1->0@[b]))
            &&& names_host_port(table_of(containers[c])->0[p].1->0@[b])
            &&& told.endpoint.host_port == port_value(
                table_of(containers[c])->0[p].1->0@[b].host_port->0@,
            )->Ok_0
            &&& told.source == ComposePublishedPortReservationSource::RunningContainer <==> runs(
                containers[c],
            )
        }),
{
    let (c, k) = source_of_container(containers, e);
    let container = containers[c];
    let source = if runs(container) {
        ComposePublishedPortReservationSource::RunningContainer
    } else {
        ComposePublishedPortReservationSource::StoppedContainer
    };
    assert(label_of(container, "com.docker.compose.service"@) == service_of(container));
    let table = table_of(container)->0;
    assert(container_ports_held(container) == ports_held(service_of(container)->0, source, table));
    let (p, b) = source_of_port(service_of(container)->0, source, table, k);
    ports_are_decimal_numbers(table[p].1->0@[b].host_port->0@);
    (c, p, b)
}

proof fn bindings_are_read<P: Fn(&String) -> Result<(), UpError>>(
    check_ip: P,
    name: Seq<char>,
    before: Seq<HeldPort>,
    bindings: Seq<ContainerPortBinding>,
    after: Seq<HeldPort>,
)
    requires
        reads_bindings(check_ip, name, before, bindings, Ok(after)),
    ensures
        before.len() <= after.len(),
        after.take(before.len() as int) == before,
        forall|b: int|
            0 <= b < bindings.len() && (#[trigger] bindings[b]).host_port is Some ==> {
                &&& port_value(bindings[b].host_port->0@) is Ok
                &&& port_value(bindings[b].host_port->0@)->Ok_0 > 0
                &&& after.contains(
                    (
                        address_of(bindings[b]),
                        port_value(bindings[b].host_port->0@)->Ok_0 as u16,
                    ),
                )
            },
    decreases bindings.len(),
{
    if bindings.len() == 0 {
        assert(after.take(before.len() as int) =~= before);
    } else {
        let front = bindings.drop_last();
        let held = choose|held: Seq<HeldPort>|
            {
                &&& reads_bindings(check_ip, name, before, front, Ok(held))
                &&& #[trigger] reads_binding(check_ip, name, held, bindings.last(), Ok(after))
            };
        bindings_are_read(check_ip, name, before, front, held);
        assert(held.len() <= after.len() && after.take(held.len() as int) =~= held);
        assert(after.take(before.len() as int) =~= held.take(before.len() as int));
        assert forall|b: int|
            0 <= b < bindings.len() && (#[trigger] bindings[b]).host_port is Some implies {
            &&& port_value(bindings[b].host_port->0@) is Ok
            &&& port_value(bindings[b].host_port->0@)->Ok_0 > 0
            &&& after.contains(
                (address_of(bindings[b]), port_value(bindings[b].host_port->0@)->Ok_0 as u16),
            )
        } by {
            if b < front.len() {
                assert(front[b] == bindings[b]);
                let item = (
                    address_of(bindings[b]),
                    port_value(bindings[b].host_port->0@)->Ok_0 as u16,
                );
                let i = choose|i: int| 0 <= i < held.len() && held[i] == item;
                assert(after.take(held.len() as int)[i] == after[i]);
                assert(after[i] == item);
            } else {
                assert(after[after.len() - 1].0 == address_of(bindings[b]));
            }
        }
    }
}

proof fn ports_are_read<P: Fn(&String) -> Result<(), UpError>>(
    check_ip: P,
    name: Seq<char>,
    ports: Seq<(String, Option<Vec<ContainerPortBinding>>)>,
    after: Seq<HeldPort>,
    p: int,
    b: int,
)
    requires
        reads_ports(check_ip, name, ports, Ok(after)),
        0 <= p < ports.len(),
        parted(ports[p].0@, '/') is Some,
        behind(ports[p].0@) == "tcp"@,
        ports[p].1 is Some,
        0 <= b < ports[p].1->0@.len(),
        ports[p].1->0@[b].host_port is Some,
    ensures
        after.contains(
            (
                address_of(ports[p].1->0@[b]),
                port_value(ports[p].1->0@[b].host_port->0@)->Ok_0 as u16,
            ),
        ),
    decreases ports.len(),
{
    let front = ports.drop_last();
    let held = choose|held: Seq<HeldPort>|
        {
            &&& reads_ports(check_ip, name, front, Ok(held))
            &&& #[trigger] reads_port(check_ip, name, held, ports.last(), Ok(after))
        };
    let item = (
        address_of(ports[p].1->0@[b]),
        port_value(ports[p].1->0@[b].host_port->0@)->Ok_0 as u16,
    );
    if p < front.len() {
        assert(front[p] == ports[p]);
        ports_are_read(check_ip, name, front, held, p, b);
        let i = choose|i: int| 0 <= i < held.len() && held[i] == item;
        if after != held {
            bindings_are_read(check_ip, name, held, ports.last().1->0@, after);
            assert(after.take(held.len() as int)[i] == after[i]);
        }
        assert(after[i] == item);
    } else {
        bindings_are_read(check_ip, name, held, ports.last().1->0@, after);
    }
}

/// What stands behind the first slash of a text.
pub open spec fn behind(text: Seq<char>) -> Seq<char> {
    let (_, rest) = parted(text, '/')->0;
    rest
}

/// The Compose project that a container belongs to.
pub open spec fn project_of(container: ContainerInspect) -> Option<Seq<char>> {
    if container.config is Some && container.config->0.labels is Some && lookup(
        container.config->0.labels->0@,
        "com.docker.compose.project"@,
    ) is Some {
        Some(lookup(container.config->0.labels->0@, "com.docker.compose.project"@)->0@)
    } else {
        None
    }
}

proof fn externals_are_kept<P: Fn(&String) -> Result<(), UpError>>(
    check_ip: P,
    project_name: Seq<char>,
    containers: Seq<ContainerInspect>,
    after: Seq<HeldPort>,
    c: int,
) -> (more: Seq<HeldPort>)
    requires
        reads_external(check_ip, project_name, containers, Ok(after)),
        0 <= c < containers.len(),
        project_of(containers[c]) != Some(project_name),
    ensures
        reads_container(check_ip, containers[c], Ok(more)),
        forall|item: HeldPort| #[trigger] more.contains(item) ==> after.contains(item),
    decreases containers.len(),
{
    let front = containers.drop_last();
    let held = choose|held: Seq<HeldPort>|
        {
            &&& reads_external(check_ip, project_name, front, Ok(held))
            &&& #[trigger] adds_container(
                check_ip,
                project_name,
                held,
                containers.last(),
                Ok(after),
            )
        };
    assert(label_of(containers[c], "com.docker.compose.project"@) == project_of(containers[c]));
    if c < front.len() {
        assert(front[c] == containers[c]);
        let more = externals_are_kept(check_ip, project_name, front, held, c);
        assert forall|item: HeldPort| #[trigger] more.contains(item) implies after.contains(
            item,
        ) by {
            let i = choose|i: int| 0 <= i < held.len() && held[i] == item;
            assert(after[i] == held[i]);
        }
        more
    } else {
        let read = choose|read: Result<Seq<HeldPort>, Seq<Seq<char>>>| #[trigger]
            reads_container(check_ip, containers.last(), read) && read is Ok && after == held
                + read->Ok_0;
        let more = read->Ok_0;
        assert forall|item: HeldPort| #[trigger] more.contains(item) implies after.contains(
            item,
        ) by {
            let i = choose|i: int| 0 <= i < more.len() && more[i] == item;
            assert(after[held.len() + i] == item);
        }
        more
    }
}

/// Every host port that a TCP port of a running container outside the project
/// is bound to is listed as held by others, with its address.
pub proof fn ports_of_other_containers_are_listed<P: Fn(&String) -> Result<(), UpError>>(
    check_ip: P,
    project_name: Seq<char>,
    containers: Seq<ContainerInspect>,
    held: Seq<HeldPort>,
    c: int,
    p: int,
    b: int,
)
    requires
        reads_external(check_ip, project_name, containers, Ok(held)),
        0 <= c < containers.len(),
        project_of(containers[c]) != Some(project_name),
        containers[c].network_settings is Some,
        containers[c].network_settings->0.ports is Some,
        0 <= p < containers[c].network_settings->0.ports->0@.len(),
        ({
            let (key, bindings) = containers[c].network_settings->0.ports->0@[p];
            &&& parted(key@, '/') is Some
            &&& behind(key@) == "tcp"@
            &&& bindings is Some
            &&& 0 <= b < bindings->0@.len()
            &&& bindings->0@[b].host_port is Some
        }),
    ensures
        ({
            let (key, bindings) = containers[c].network_settings->0.ports->0@[p];
            held.contains(
                (
                    address_of(bindings->0@[b]),
                    port_value(bindings->0@[b].host_port->0@)->Ok_0 as u16,
                ),
            )
        }),
{
    let more = externals_are_kept(check_ip, project_name, containers, held, c);
    let table = containers[c].network_settings->0.ports->0@;
    ports_are_read(
        check_ip,
        crate::start::listing::shown_name(containers[c]),
        table,
        more,
        p,
        b,
    );
}

/// Containers of the project itself hold nothing against it: where all
/// containers belong to it, no host port is listed as held by others.
pub proof fn own_containers_hold_nothing_against_a_project<
    P: Fn(&String) -> Result<(), UpError>,
>(
    check_ip: P,
    project_name: Seq<char>,
    containers: Seq<ContainerInspect>,
    outcome: Result<Seq<HeldPort>, Seq<Seq<char>>>,
)
    requires
        reads_external(check_ip, project_name, containers, outcome),
        forall|c: int|
            0 <= c < containers.len() ==> project_of(#[trigger] containers[c]) == Some(
                project_name,
            ),
    ensures
        outcome == Ok::<Seq<HeldPort>, Seq<Seq<char>>>(Seq::empty()),
    decreases containers.len(),
{
    if containers.len() > 0 {
        let front = containers.drop_last();
        assert forall|c: int| 0 <= c < front.len() implies project_of(#[trigger] front[c]) == Some(
            project_name,
        ) by {
            assert(front[c] == containers[c]);
        }
        let last = containers[containers.len() - 1];
        assert(project_of(last) == Some(project_name));
        assert(label_of(last, "com.docker.compose.project"@) == project_of(last));
        if outcome is Err && reads_external(check_ip, project_name, front, outcome) {
            own_containers_hold_nothing_against_a_project(
                check_ip,
                project_name,
                front,
                outcome,
            );
        } else {
            let held = choose|held: Seq<HeldPort>|
                {
                    &&& reads_external(check_ip, project_name, front, Ok(held))
                    &&& #[trigger] adds_container(
                        check_ip,
                        project_name,
                        held,
                        containers.last(),
                        outcome,
                    )
                };
            own_containers_hold_nothing_against_a_project(
                check_ip,
                project_name,
                front,
                Ok(held),
            );
        }
    }
}

} // verus!
