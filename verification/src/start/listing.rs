//! Host ports that existing containers hold.

use crate::compose::ports::{
    ComposePortProtocol, ComposePublishedPortEndpoint, ComposePublishedPortHostIp,
    ComposePublishedPortReservation, ComposePublishedPortReservationSource, EndpointView,
    ProtocolView, ReservationView,
};
use crate::docker::HostPortReservation;
use crate::error::UpError;
use crate::numbers::{parse_port, port_value};
use crate::start::inspect::{ContainerInspect, ContainerPortBinding};
use crate::text::{opt_view, part, parted, same_text, trim_leading, without_leading};
use crate::text_map::lookup;
use vstd::prelude::*;
use vstd::string::*;

verus! {

/// The label that names the Compose project of a container.
pub const COMPOSE_PROJECT_LABEL: &'static str = "com.docker.compose.project";

/// The label that names the Compose service of a container.
pub const COMPOSE_SERVICE_LABEL: &'static str = "com.docker.compose.service";

/// The value of a label of a container.
pub open spec fn label_of(container: ContainerInspect, label: Seq<char>) -> Option<Seq<char>> {
    match container.spec_labels() {
        Some(labels) => opt_view(lookup(labels@, label)),
        None => None,
    }
}

fn container_label<'a>(container: &'a ContainerInspect, label: &str) -> (res: Option<&'a String>)
    ensures
        match res {
            Some(value) => label_of(*container, label@) == Some(value@),
            None => label_of(*container, label@) is None,
        },
{
    match container.labels() {
        Some(labels) => labels.get(label),
        None => None,
    }
}

/// Whether a container belongs to a Compose project.
pub fn container_belongs_to_compose_project(
    container: &ContainerInspect,
    project_name: &str,
) -> (res: bool)
    ensures
        res == (label_of(*container, "com.docker.compose.project"@) == Some(project_name@)),
{
    match container_label(container, COMPOSE_PROJECT_LABEL) {
        Some(project) => same_text(project.as_str(), project_name),
        None => false,
    }
}

/// The port and protocol that a key of Docker's port table names.
pub open spec fn port_key(key: Seq<char>) -> Option<(u16, ProtocolView)> {
    match parted(key, '/') {
        None => None,
        Some((port, protocol)) => match port_value(port) {
            Err(_) => None,
            Ok(port) => Some(
                (
                    port as u16,
                    if protocol == "tcp"@ {
                        ProtocolView::Tcp
                    } else if protocol == "udp"@ {
                        ProtocolView::Udp
                    } else {
                        ProtocolView::Other(protocol)
                    },
                ),
            ),
        },
    }
}

/// The port and protocol that a key of Docker's port table names, such as
/// `80/tcp`.
pub fn parse_container_port_key(value: &str) -> (res: Option<(u16, ComposePortProtocol)>)
    ensures
        match res {
            Some((port, protocol)) => port_key(value@) == Some((port, protocol@)),
            None => port_key(value@) is None,
        },
{
    match part(value, '/') {
        None => None,
        Some((port, protocol)) => match parse_port(port) {
            Err(_) => None,
            Ok(port) => {
                let protocol = if same_text(protocol, "tcp") {
                    ComposePortProtocol::Tcp
                } else if same_text(protocol, "udp") {
                    ComposePortProtocol::Udp
                } else {
                    ComposePortProtocol::Other(protocol.to_owned())
                };
                Some((port, protocol))
            },
        },
    }
}

/// The address of a binding: all, where none is given.
pub open spec fn bound_ip(host_ip: Option<Seq<char>>) -> Seq<char> {
    match host_ip {
        Some(host_ip) => if host_ip.len() > 0 {
            host_ip
        } else {
            "0.0.0.0"@
        },
        None => "0.0.0.0"@,
    }
}

fn binding_ip(binding: &ContainerPortBinding) -> (res: String)
    ensures
        res@ == bound_ip(opt_view(binding.host_ip)),
{
    match &binding.host_ip {
        Some(host_ip) => if host_ip.as_str().is_empty() {
            "0.0.0.0".to_owned()
        } else {
            host_ip.clone()
        },
        None => "0.0.0.0".to_owned(),
    }
}

/// The host port of a binding, where it is a port number.
pub open spec fn bound_port(host_port: Option<Seq<char>>) -> Option<u16> {
    match host_port {
        Some(text) => match port_value(text) {
            Ok(port) => Some(port as u16),
            Err(_) => None,
        },
        None => None,
    }
}

/// The host port of a binding, where it is a port number.
pub fn binding_port(binding: &ContainerPortBinding) -> (res: Option<u16>)
    ensures
        res == bound_port(opt_view(binding.host_port)),
{
    match &binding.host_port {
        Some(text) => match parse_port(text.as_str()) {
            Ok(port) => Some(port),
            Err(_) => None,
        },
        None => None,
    }
}

/// The host ports that bindings of one port hold.
pub open spec fn bindings_held(
    service: Seq<char>,
    target: (u16, ProtocolView),
    source: ComposePublishedPortReservationSource,
    bindings: Seq<ContainerPortBinding>,
) -> Seq<ReservationView>
    decreases bindings.len(),
{
    if bindings.len() == 0 {
        Seq::empty()
    } else {
        let before = bindings_held(service, target, source, bindings.drop_last());
        match bound_port(opt_view(bindings.last().host_port)) {
            None => before,
            Some(host_port) => before.push(
                ReservationView {
                    service,
                    target_port: target.0,
                    protocol: target.1,
                    endpoint: EndpointView {
                        host_ip: Some(bound_ip(opt_view(bindings.last().host_ip))),
                        host_port,
                    },
                    source,
                },
            ),
        }
    }
}

/// The host ports that a table of ports holds. Entries that are no port, have
/// no binding or no port number are passed over.
pub open spec fn ports_held(
    service: Seq<char>,
    source: ComposePublishedPortReservationSource,
    ports: Seq<(String, Option<Vec<ContainerPortBinding>>)>,
) -> Seq<ReservationView>
    decreases ports.len(),
{
    if ports.len() == 0 {
        Seq::empty()
    } else {
        let before = ports_held(service, source, ports.drop_last());
        match (port_key(ports.last().0@), ports.last().1) {
            (Some(target), Some(bindings)) => before + bindings_held(
                service,
                target,
                source,
                bindings@,
            ),
            _ => before,
        }
    }
}

/// Reservations, by what they hold.
pub open spec fn reservation_views(reservations: Seq<ComposePublishedPortReservation>) -> Seq<
    ReservationView,
> {
    reservations.map_values(|reservation: ComposePublishedPortReservation| reservation@)
}

/// Whether a container says that it runs.
pub open spec fn says_running(container: ContainerInspect) -> bool {
    container.state is Some && container.state->0.running == Some(true)
}

/// The host ports that a container of a Compose project holds: those that it
/// has while it runs, and those that it is to be given while it is stopped.
pub open spec fn container_ports_held(container: ContainerInspect) -> Seq<ReservationView> {
    let running = says_running(container);
    let ports = if running {
        container.spec_ports()
    } else {
        container.spec_configured_ports()
    };
    match (label_of(container, "com.docker.compose.service"@), ports) {
        (Some(service), Some(ports)) => ports_held(
            service,
            if running {
                ComposePublishedPortReservationSource::RunningContainer
            } else {
                ComposePublishedPortReservationSource::StoppedContainer
            },
            ports@,
        ),
        _ => Seq::empty(),
    }
}

/// The host ports that a container of a Compose project holds.
pub fn existing_compose_project_published_ports_from_container(container: &ContainerInspect) -> (res:
    Vec<ComposePublishedPortReservation>)
    ensures
        reservation_views(res@) == container_ports_held(*container),
{
    let mut reservations: Vec<ComposePublishedPortReservation> = Vec::new();
    assert(reservation_views(reservations@) =~= Seq::empty());
    let running = match &container.state {
        Some(state) => match state.running {
            Some(running) => running,
            None => false,
        },
        None => false,
    };
    let source = if running {
        ComposePublishedPortReservationSource::RunningContainer
    } else {
        ComposePublishedPortReservationSource::StoppedContainer
    };
    let service = match container_label(container, COMPOSE_SERVICE_LABEL) {
        Some(service) => service,
        None => {
            return reservations;
        },
    };
    let ports = if running {
        container.ports()
    } else {
        container.configured_ports()
    };
    let ports = match ports {
        Some(ports) => ports,
        None => {
            return reservations;
        },
    };
    let mut i: usize = 0;
    assert(ports@.take(0) =~= Seq::empty());
    while i < ports.len()
        invariant
            i <= ports@.len(),
            reservation_views(reservations@) == ports_held(
                service@,
                source,
                ports@.take(i as int),
            ),
        decreases ports@.len() - i,
    {
        assert(ports@.take(i as int + 1).drop_last() =~= ports@.take(i as int));
        let ghost before = reservation_views(reservations@);
        if let Some((target_port, protocol)) = parse_container_port_key(ports[i].0.as_str()) {
            if let Some(bindings) = &ports[i].1 {
                let mut k: usize = 0;
                assert(bindings@.take(0) =~= Seq::empty());
                assert(before + bindings_held(
                    service@,
                    (target_port, protocol@),
                    source,
                    bindings@.take(0),
                ) =~= before);
                while k < bindings.len()
                    invariant
                        k <= bindings@.len(),
                        reservation_views(reservations@) == before + bindings_held(
                            service@,
                            (target_port, protocol@),
                            source,
                            bindings@.take(k as int),
                        ),
                    decreases bindings@.len() - k,
                {
                    assert(bindings@.take(k as int + 1).drop_last() =~= bindings@.take(k as int));
                    if let Some(host_port) = binding_port(&bindings[k]) {
                        let ghost middle = reservations@;
                        let reservation = ComposePublishedPortReservation {
                            service: service.clone(),
                            target_port,
                            protocol: protocol.copied(),
                            endpoint: ComposePublishedPortEndpoint {
                                host_ip: ComposePublishedPortHostIp::Explicit(
                                    binding_ip(&bindings[k]),
                                ),
                                host_port,
                            },
                            source,
                        };
                        reservations.push(reservation);
                        assert(reservation_views(reservations@) =~= reservation_views(middle).push(
                            reservation@,
                        ));
                        assert(reservation_views(reservations@) =~= before + bindings_held(
                            service@,
                            (target_port, protocol@),
                            source,
                            bindings@.take(k as int + 1),
                        ));
                    }
                    k = k + 1;
                }
                assert(bindings@.take(bindings@.len() as int) =~= bindings@);
            }
        }
        i = i + 1;
    }
    assert(ports@.take(ports@.len() as int) =~= ports@);
    reservations
}

/// The name of a container as it is shown.
pub open spec fn shown_name(container: ContainerInspect) -> Seq<char> {
    match container.name {
        Some(name) => without_leading(name@, '/'),
        None => without_leading("<unknown container>"@, '/'),
    }
}

/// Something that could not be read, with the container that it belongs to.
pub open spec fn unread_message(what: Seq<char>, text: Seq<char>, name: Seq<char>) -> Seq<char> {
    "Failed to parse Docker published "@ + what + " `"@ + text + "` for running container `"@ + name
        + "`"@
}

fn unread(what: &str, text: &str, name: &str) -> (res: String)
    ensures
        res@ == unread_message(what@, text@, name@),
{
    let mut message = "Failed to parse Docker published ".to_owned();
    message.append(what);
    message.append(" `");
    message.append(text);
    message.append("` for running container `");
    message.append(name);
    message.append("`");
    message
}

/// A host port and its address.
pub type HeldPort = (Seq<char>, u16);

/// How reading one binding ends, given the host ports that were read before
/// it.
pub open spec fn reads_binding<P: Fn(&String) -> Result<(), UpError>>(
    check_ip: P,
    name: Seq<char>,
    before: Seq<HeldPort>,
    binding: ContainerPortBinding,
    outcome: Result<Seq<HeldPort>, Seq<Seq<char>>>,
) -> bool {
    match opt_view(binding.host_port) {
        None => outcome == Ok::<Seq<HeldPort>, Seq<Seq<char>>>(before),
        Some(text) => match port_value(text) {
            Err(fault) => outcome == Err::<Seq<HeldPort>, Seq<Seq<char>>>(
                seq![unread_message("host port"@, text, name), fault.words()],
            ),
            Ok(port) => if port == 0 {
                outcome == Err::<Seq<HeldPort>, Seq<Seq<char>>>(
                    seq![
                        unread_message("host port"@, "0"@, name)
                            + ": port must be greater than zero"@,
                    ],
                )
            } else {
                exists|ip: String, answer: Result<(), UpError>|
                    {
                        &&& ip@ == bound_ip(opt_view(binding.host_ip))
                        &&& #[trigger] call_ensures(check_ip, (&ip,), answer)
                        &&& outcome == match answer {
                            Ok(()) => Ok::<Seq<HeldPort>, Seq<Seq<char>>>(
                                before.push((ip@, port as u16)),
                            ),
                            Err(cause) => Err::<Seq<HeldPort>, Seq<Seq<char>>>(
                                seq![unread_message("host IP"@, ip@, name)] + cause@,
                            ),
                        }
                    }
            },
        },
    }
}

/// How reading bindings ends, given the host ports that were read before
/// them: with the first error, or as the last binding ends given what was
/// read before it.
pub open spec fn reads_bindings<P: Fn(&String) -> Result<(), UpError>>(
    check_ip: P,
    name: Seq<char>,
    before: Seq<HeldPort>,
    bindings: Seq<ContainerPortBinding>,
    outcome: Result<Seq<HeldPort>, Seq<Seq<char>>>,
) -> bool
    decreases bindings.len(),
{
    if bindings.len() == 0 {
        outcome == Ok::<Seq<HeldPort>, Seq<Seq<char>>>(before)
    } else {
        ||| outcome is Err && reads_bindings(check_ip, name, before, bindings.drop_last(), outcome)
        ||| exists|held: Seq<HeldPort>|
            {
                &&& reads_bindings(check_ip, name, before, bindings.drop_last(), Ok(held))
                &&& #[trigger] reads_binding(check_ip, name, held, bindings.last(), outcome)
            }
    }
}

/// How reading one port of a table ends, given the host ports that were read
/// before it. Only TCP ports are read.
pub open spec fn reads_port<P: Fn(&String) -> Result<(), UpError>>(
    check_ip: P,
    name: Seq<char>,
    before: Seq<HeldPort>,
    port: (String, Option<Vec<ContainerPortBinding>>),
    outcome: Result<Seq<HeldPort>, Seq<Seq<char>>>,
) -> bool {
    match parted(port.0@, '/') {
        None => outcome == Err::<Seq<HeldPort>, Seq<Seq<char>>>(
            seq![unread_message("port key"@, port.0@, name)],
        ),
        Some((target, protocol)) => match port_value(target) {
            Err(fault) => outcome == Err::<Seq<HeldPort>, Seq<Seq<char>>>(
                seq![unread_message("target port"@, target, name), fault.words()],
            ),
            Ok(_) => if protocol != "tcp"@ || port.1 is None {
                outcome == Ok::<Seq<HeldPort>, Seq<Seq<char>>>(before)
            } else {
                reads_bindings(check_ip, name, before, port.1->0@, outcome)
            },
        },
    }
}

/// How reading a table of ports ends: with the host ports, in order, or with
/// the first thing that could not be read.
pub open spec fn reads_ports<P: Fn(&String) -> Result<(), UpError>>(
    check_ip: P,
    name: Seq<char>,
    ports: Seq<(String, Option<Vec<ContainerPortBinding>>)>,
    outcome: Result<Seq<HeldPort>, Seq<Seq<char>>>,
) -> bool
    decreases ports.len(),
{
    if ports.len() == 0 {
        outcome == Ok::<Seq<HeldPort>, Seq<Seq<char>>>(Seq::empty())
    } else {
        ||| outcome is Err && reads_ports(check_ip, name, ports.drop_last(), outcome)
        ||| exists|held: Seq<HeldPort>|
            {
                &&& reads_ports(check_ip, name, ports.drop_last(), Ok(held))
                &&& #[trigger] reads_port(check_ip, name, held, ports.last(), outcome)
            }
    }
}

proof fn binding_error_stays<P: Fn(&String) -> Result<(), UpError>>(
    check_ip: P,
    name: Seq<char>,
    before: Seq<HeldPort>,
    bindings: Seq<ContainerPortBinding>,
    count: int,
    error: Seq<Seq<char>>,
)
    requires
        0 <= count <= bindings.len(),
        reads_bindings(check_ip, name, before, bindings.take(count), Err(error)),
    ensures
        reads_bindings(check_ip, name, before, bindings, Err(error)),
    decreases bindings.len() - count,
{
    if count == bindings.len() {
        assert(bindings.take(count) =~= bindings);
    } else {
        assert(bindings.take(count + 1).drop_last() =~= bindings.take(count));
        assert(reads_bindings(check_ip, name, before, bindings.take(count + 1), Err(error)));
        binding_error_stays(check_ip, name, before, bindings, count + 1, error);
    }
}

proof fn port_error_stays<P: Fn(&String) -> Result<(), UpError>>(
    check_ip: P,
    name: Seq<char>,
    ports: Seq<(String, Option<Vec<ContainerPortBinding>>)>,
    count: int,
    error: Seq<Seq<char>>,
)
    requires
        0 <= count <= ports.len(),
        reads_ports(check_ip, name, ports.take(count), Err(error)),
    ensures
        reads_ports(check_ip, name, ports, Err(error)),
    decreases ports.len() - count,
{
    if count == ports.len() {
        assert(ports.take(count) =~= ports);
    } else {
        assert(ports.take(count + 1).drop_last() =~= ports.take(count));
        assert(reads_ports(check_ip, name, ports.take(count + 1), Err(error)));
        port_error_stays(check_ip, name, ports, count + 1, error);
    }
}

/// Host ports and addresses of reservations.
pub open spec fn held_ports(reservations: Seq<HostPortReservation>) -> Seq<HeldPort> {
    reservations.map_values(
        |reservation: HostPortReservation| (reservation.host_ip@, reservation.host),
    )
}

/// A result, by what it holds.
pub open spec fn held_outcome(outcome: Result<Vec<HostPortReservation>, UpError>) -> Result<
    Seq<HeldPort>,
    Seq<Seq<char>>,
> {
    match outcome {
        Ok(reservations) => Ok(held_ports(reservations@)),
        Err(error) => Err(error@),
    }
}

fn read_binding<P: Fn(&String) -> Result<(), UpError>>(
    check_ip: &P,
    name: &str,
    reservations: &mut Vec<HostPortReservation>,
    binding: &ContainerPortBinding,
) -> (res: Result<(), UpError>)
    requires
        forall|ip: &String| call_requires(*check_ip, (ip,)),
    ensures
        reads_binding(
            *check_ip,
            name@,
            held_ports(old(reservations)@),
            *binding,
            match res {
                Ok(()) => Ok(held_ports(final(reservations)@)),
                Err(error) => Err(error@),
            },
        ),
{
    let text = match &binding.host_port {
        Some(text) => text,
        None => {
            return Ok(());
        },
    };
    let host: u16 = match parse_port(text.as_str()) {
        Ok(host) => host,
        Err(fault) => {
            let cause = UpError::from_text(fault.text());
            let error = cause.context(unread("host port", text.as_str(), name).as_str());
            assert(error@ =~= seq![
                unread_message("host port"@, text@, name@),
                fault.words(),
            ]);
            return Err(error);
        },
    };
    if host == 0 {
        let mut message = unread("host port", "0", name);
        message.append(": port must be greater than zero");
        return Err(UpError::new(message));
    }
    let host_ip = binding_ip(binding);
    match check_ip(&host_ip) {
        Ok(()) => {},
        Err(cause) => {
            let error = cause.context(unread("host IP", host_ip.as_str(), name).as_str());
            return Err(error);
        },
    }
    let ghost before = reservations@;
    let ghost ip = host_ip;
    reservations.push(HostPortReservation { host_ip, host });
    assert(held_ports(reservations@) =~= held_ports(before).push((ip@, host)));
    Ok(())
}

/// The host ports that a running container outside the project holds, or the
/// first thing in its port table that could not be read. `check_ip` tells
/// whether a text is an address.
pub fn external_running_container_published_ports<P: Fn(&String) -> Result<(), UpError>>(
    container: &ContainerInspect,
    check_ip: &P,
) -> (res: Result<Vec<HostPortReservation>, UpError>)
    requires
        forall|ip: &String| call_requires(*check_ip, (ip,)),
    ensures
        match container.spec_ports() {
            None => res is Ok && res->Ok_0@.len() == 0,
            Some(ports) => reads_ports(
                *check_ip,
                shown_name(*container),
                ports@,
                held_outcome(res),
            ),
        },
{
    let name = match &container.name {
        Some(name) => trim_leading(name.as_str(), '/').to_owned(),
        None => trim_leading("<unknown container>", '/').to_owned(),
    };
    let mut reservations: Vec<HostPortReservation> = Vec::new();
    let ports = match container.ports() {
        Some(ports) => ports,
        None => {
            return Ok(reservations);
        },
    };
    let mut i: usize = 0;
    assert(ports@.take(0) =~= Seq::empty());
    assert(held_ports(reservations@) =~= Seq::empty());
    while i < ports.len()
        invariant
            i <= ports@.len(),
            forall|ip: &String| call_requires(*check_ip, (ip,)),
            name@ == shown_name(*container),
            container.spec_ports() == Some(*ports),
            reads_ports(
                *check_ip,
                name@,
                ports@.take(i as int),
                Ok(held_ports(reservations@)),
            ),
        decreases ports@.len() - i,
    {
        let ghost held = held_ports(reservations@);
        let ghost so_far = ports@.take(i as int + 1);
        assert(so_far.drop_last() =~= ports@.take(i as int));
        assert(reads_ports(*check_ip, name@, so_far.drop_last(), Ok(held)));
        let (target, protocol) = match part(ports[i].0.as_str(), '/') {
            Some(parts) => parts,
            None => {
                let error = UpError::new(
                    unread("port key", ports[i].0.as_str(), name.as_str()),
                );
                proof {
                    assert(reads_port(*check_ip, name@, held, so_far.last(), Err(error@)));
                    assert(reads_ports(*check_ip, name@, so_far, Err(error@)));
                    port_error_stays(*check_ip, name@, ports@, i as int + 1, error@);
                }
                return Err(error);
            },
        };
        match parse_port(target) {
            Ok(_) => {},
            Err(fault) => {
                let cause = UpError::from_text(fault.text());
                let error = cause.context(unread("target port", target, name.as_str()).as_str());
                proof {
                    assert(error@ =~= seq![
                        unread_message("target port"@, target@, name@),
                        fault.words(),
                    ]);
                    assert(reads_port(*check_ip, name@, held, so_far.last(), Err(error@)));
                    assert(reads_ports(*check_ip, name@, so_far, Err(error@)));
                    port_error_stays(*check_ip, name@, ports@, i as int + 1, error@);
                }
                return Err(error);
            },
        }
        if same_text(protocol, "tcp") {
            if let Some(bindings) = &ports[i].1 {
                let mut k: usize = 0;
                assert(bindings@.take(0) =~= Seq::empty());
                while k < bindings.len()
                    invariant
                        k <= bindings@.len(),
                        forall|ip: &String| call_requires(*check_ip, (ip,)),
                        i < ports@.len(),
                        ports@[i as int].1 == Some(*bindings),
                        so_far == ports@.take(i as int + 1),
                        reads_ports(*check_ip, name@, so_far.drop_last(), Ok(held)),
                        parted(ports@[i as int].0@, '/') == Some((target@, protocol@)),
                        port_value(target@) is Ok,
                        protocol@ == "tcp"@,
                        name@ == shown_name(*container),
                        container.spec_ports() == Some(*ports),
                        reads_bindings(
                            *check_ip,
                            name@,
                            held,
                            bindings@.take(k as int),
                            Ok(held_ports(reservations@)),
                        ),
                    decreases bindings@.len() - k,
                {
                    assert(bindings@.take(k as int + 1).drop_last() =~= bindings@.take(k as int));
                    let ghost earlier = held_ports(reservations@);
                    let ghost last = bindings@.take(k as int + 1).last();
                    match read_binding(check_ip, name.as_str(), &mut reservations, &bindings[k]) {
                        Ok(()) => {
                            assert(reads_binding(
                                *check_ip,
                                name@,
                                earlier,
                                last,
                                Ok(held_ports(reservations@)),
                            ));
                            assert(reads_bindings(
                                *check_ip,
                                name@,
                                held,
                                bindings@.take(k as int + 1),
                                Ok(held_ports(reservations@)),
                            ));
                        },
                        Err(error) => {
                            proof {
                                assert(reads_binding(
                                    *check_ip,
                                    name@,
                                    earlier,
                                    last,
                                    Err(error@),
                                ));
                                assert(reads_bindings(
                                    *check_ip,
                                    name@,
                                    held,
                                    bindings@.take(k as int + 1),
                                    Err(error@),
                                ));
                                binding_error_stays(
                                    *check_ip,
                                    name@,
                                    held,
                                    bindings@,
                                    k as int + 1,
                                    error@,
                                );
                                assert(reads_port(
                                    *check_ip,
                                    name@,
                                    held,
                                    so_far.last(),
                                    Err(error@),
                                ));
                                assert(reads_ports(*check_ip, name@, so_far, Err(error@)));
                                port_error_stays(*check_ip, name@, ports@, i as int + 1, error@);
                            }
                            return Err(error);
                        },
                    }
                    k = k + 1;
                }
                assert(bindings@.take(bindings@.len() as int) =~= bindings@);
            }
        }
        assert(reads_port(
            *check_ip,
            name@,
            held,
            so_far.last(),
            Ok(held_ports(reservations@)),
        ));
        assert(reads_ports(*check_ip, name@, so_far, Ok(held_ports(reservations@))));
        i = i + 1;
    }
    assert(ports@.take(ports@.len() as int) =~= ports@);
    Ok(reservations)
}

/// The host ports that the containers of a Compose project hold.
pub open spec fn project_ports_held(containers: Seq<ContainerInspect>) -> Seq<ReservationView>
    decreases containers.len(),
{
    if containers.len() == 0 {
        Seq::empty()
    } else {
        project_ports_held(containers.drop_last()) + container_ports_held(containers.last())
    }
}

/// The host ports that the containers of a Compose project hold, container by
/// container.
pub fn list_existing_compose_project_published_ports(containers: &Vec<ContainerInspect>) -> (res: Vec<
    ComposePublishedPortReservation,
>)
    ensures
        reservation_views(res@) == project_ports_held(containers@),
{
    let mut reservations: Vec<ComposePublishedPortReservation> = Vec::new();
    let mut i: usize = 0;
    assert(containers@.take(0) =~= Seq::empty());
    assert(reservation_views(reservations@) =~= Seq::empty());
    while i < containers.len()
        invariant
            i <= containers@.len(),
            reservation_views(reservations@) == project_ports_held(containers@.take(i as int)),
        decreases containers@.len() - i,
    {
        assert(containers@.take(i as int + 1).drop_last() =~= containers@.take(i as int));
        let ghost before = reservations@;
        let mut more = existing_compose_project_published_ports_from_container(&containers[i]);
        let ghost added = more@;
        reservations.append(&mut more);
        assert(reservation_views(reservations@) =~= reservation_views(before) + reservation_views(
            added,
        ));
        i = i + 1;
    }
    assert(containers@.take(containers@.len() as int) =~= containers@);
    reservations
}

/// How reading the ports of one container ends.
pub open spec fn reads_container<P: Fn(&String) -> Result<(), UpError>>(
    check_ip: P,
    container: ContainerInspect,
    outcome: Result<Seq<HeldPort>, Seq<Seq<char>>>,
) -> bool {
    match container.spec_ports() {
        None => outcome == Ok::<Seq<HeldPort>, Seq<Seq<char>>>(Seq::empty()),
        Some(ports) => reads_ports(check_ip, shown_name(container), ports@, outcome),
    }
}

/// How reading the ports of one more container ends, given the host ports
/// that were read before it. One of the project itself is left out.
pub open spec fn adds_container<P: Fn(&String) -> Result<(), UpError>>(
    check_ip: P,
    project_name: Seq<char>,
    before: Seq<HeldPort>,
    container: ContainerInspect,
    outcome: Result<Seq<HeldPort>, Seq<Seq<char>>>,
) -> bool {
    if label_of(container, "com.docker.compose.project"@) == Some(project_name) {
        outcome == Ok::<Seq<HeldPort>, Seq<Seq<char>>>(before)
    } else {
        exists|more: Result<Seq<HeldPort>, Seq<Seq<char>>>| #[trigger]
            reads_container(check_ip, container, more) && match more {
                Err(_) => outcome == more,
                Ok(more) => outcome == Ok::<Seq<HeldPort>, Seq<Seq<char>>>(before + more),
            }
    }
}

/// How reading the ports of all containers outside a project ends.
pub open spec fn reads_external<P: Fn(&String) -> Result<(), UpError>>(
    check_ip: P,
    project_name: Seq<char>,
    containers: Seq<ContainerInspect>,
    outcome: Result<Seq<HeldPort>, Seq<Seq<char>>>,
) -> bool
    decreases containers.len(),
{
    if containers.len() == 0 {
        outcome == Ok::<Seq<HeldPort>, Seq<Seq<char>>>(Seq::empty())
    } else {
        ||| outcome is Err && reads_external(
            check_ip,
            project_name,
            containers.drop_last(),
            outcome,
        )
        ||| exists|held: Seq<HeldPort>|
            {
                &&& reads_external(check_ip, project_name, containers.drop_last(), Ok(held))
                &&& #[trigger] adds_container(
                    check_ip,
                    project_name,
                    held,
                    containers.last(),
                    outcome,
                )
            }
    }
}

proof fn external_error_stays<P: Fn(&String) -> Result<(), UpError>>(
    check_ip: P,
    project_name: Seq<char>,
    containers: Seq<ContainerInspect>,
    count: int,
    error: Seq<Seq<char>>,
)
    requires
        0 <= count <= containers.len(),
        reads_external(check_ip, project_name, containers.take(count), Err(error)),
    ensures
        reads_external(check_ip, project_name, containers, Err(error)),
    decreases containers.len() - count,
{
    if count == containers.len() {
        assert(containers.take(count) =~= containers);
    } else {
        assert(containers.take(count + 1).drop_last() =~= containers.take(count));
        assert(reads_external(check_ip, project_name, containers.take(count + 1), Err(error)));
        external_error_stays(check_ip, project_name, containers, count + 1, error);
    }
}

/// The host ports that running containers outside a project hold, container
/// by container, or the first thing in their port tables that could not be
/// read.
pub fn list_external_running_container_published_ports<P: Fn(&String) -> Result<(), UpError>>(
    containers: &Vec<ContainerInspect>,
    current_project_name: &str,
    check_ip: P,
) -> (res: Result<Vec<HostPortReservation>, UpError>)
    requires
        forall|ip: &String| call_requires(check_ip, (ip,)),
    ensures
        reads_external(check_ip, current_project_name@, containers@, held_outcome(res)),
{
    let mut reservations: Vec<HostPortReservation> = Vec::new();
    let mut i: usize = 0;
    assert(containers@.take(0) =~= Seq::empty());
    assert(held_ports(reservations@) =~= Seq::empty());
    while i < containers.len()
        invariant
            i <= containers@.len(),
            forall|ip: &String| call_requires(check_ip, (ip,)),
            reads_external(
                check_ip,
                current_project_name@,
                containers@.take(i as int),
                Ok(held_ports(reservations@)),
            ),
        decreases containers@.len() - i,
    {
        let ghost so_far = containers@.take(i as int + 1);
        let ghost before = reservations@;
        assert(so_far.drop_last() =~= containers@.take(i as int));
        if !container_belongs_to_compose_project(&containers[i], current_project_name) {
            let read = external_running_container_published_ports(&containers[i], &check_ip);
            proof {
                if containers@[i as int].spec_ports() is None {
                    assert(held_ports(read->Ok_0@) =~= Seq::empty());
                }
                assert(reads_container(check_ip, containers@[i as int], held_outcome(read)));
            }
            match read {
                Ok(more) => {
                    let mut more = more;
                    let ghost added = more@;
                    reservations.append(&mut more);
                    assert(held_ports(reservations@) =~= held_ports(before) + held_ports(added));
                },
                Err(error) => {
                    proof {
                        assert(adds_container(
                            check_ip,
                            current_project_name@,
                            held_ports(before),
                            so_far.last(),
                            Err(error@),
                        ));
                        assert(reads_external(
                            check_ip,
                            current_project_name@,
                            so_far,
                            Err(error@),
                        ));
                        external_error_stays(
                            check_ip,
                            current_project_name@,
                            containers@,
                            i as int + 1,
                            error@,
                        );
                    }
                    return Err(error);
                },
            }
        }
        assert(adds_container(
            check_ip,
            current_project_name@,
            held_ports(before),
            so_far.last(),
            Ok(held_ports(reservations@)),
        ));
        assert(reads_external(
            check_ip,
            current_project_name@,
            so_far,
            Ok(held_ports(reservations@)),
        ));
        i = i + 1;
    }
    assert(containers@.take(containers@.len() as int) =~= containers@);
    Ok(reservations)
}

} // verus!
