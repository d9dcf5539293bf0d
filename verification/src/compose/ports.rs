//! Published ports of Compose services.

use crate::config::ComposePublishedPortMapping;
use crate::docker::HostPortReservation;
use crate::json::JsonValue;
use crate::text::{decimal, decimal_text, same_text};
use crate::text_map::TextMap;
use vstd::prelude::*;
use vstd::string::*;

verus! {

/// The transport protocol of a published port.
#[derive(Debug, Clone)]
pub enum ComposePortProtocol {
    /// TCP.
    Tcp,
    /// UDP.
    Udp,
    /// Another protocol.
    Other(String),
    /// Something that is no protocol.
    Invalid(String),
}

/// The host address of a published port.
#[derive(Debug, Clone)]
pub enum ComposePublishedPortHostIp {
    /// None is given: all addresses.
    Omitted,
    /// This one.
    Explicit(String),
}

/// A host address and a host port.
#[derive(Debug, Clone)]
pub struct ComposePublishedPortEndpoint {
    /// The address.
    pub host_ip: ComposePublishedPortHostIp,
    /// The port.
    pub host_port: u16,
}

/// What holds a host port of the project.
#[derive(Debug, Clone, Copy, PartialEq, Eq, Structural)]
pub enum ComposePublishedPortReservationSource {
    /// A container that runs.
    RunningContainer,
    /// A container that is stopped.
    StoppedContainer,
}

/// A host port that a container of the project holds.
#[derive(Debug, Clone)]
pub struct ComposePublishedPortReservation {
    /// The service.
    pub service: String,
    /// The port in the container.
    pub target_port: u16,
    /// The protocol.
    pub protocol: ComposePortProtocol,
    /// The address and port on the host.
    pub endpoint: ComposePublishedPortEndpoint,
    /// What holds it.
    pub source: ComposePublishedPortReservationSource,
}

/// Where a planned port comes from.
#[derive(Debug, Clone, Copy, PartialEq, Eq, Structural)]
pub enum ComposePublishedPortPlanSource {
    /// The Compose files.
    Compose,
    /// The tool's configuration.
    Configuration,
}

/// What was found when the planned address was tried.
#[derive(Debug, Clone, Copy, PartialEq, Eq, Structural)]
pub enum ComposePublishedPortPlannedEndpointProbe {
    /// It is free.
    Available,
    /// It was not tried.
    NotProbed,
}

/// Why a planned port was chosen.
#[derive(Debug, Clone, Copy, PartialEq, Eq, Structural)]
pub enum ComposePublishedPortAllocationReason {
    /// It was asked for and is free.
    Requested,
    /// The one that was asked for is taken.
    Unavailable,
    /// The project holds it already.
    ExistingBinding,
    /// Configuration says so.
    Mapping,
}

/// A published port and where it is put.
#[derive(Debug, Clone)]
pub struct ComposePublishedPortPlanEntry {
    /// The service.
    pub service: String,
    /// The position among the ports of the service.
    pub port_entry_index: usize,
    /// Where it comes from.
    pub source: ComposePublishedPortPlanSource,
    /// The port in the container.
    pub target_port: u16,
    /// The protocol.
    pub protocol: ComposePortProtocol,
    /// What was asked for.
    pub requested: ComposePublishedPortEndpoint,
    /// What it is given.
    pub planned: ComposePublishedPortEndpoint,
    /// What was found when that was tried.
    pub planned_endpoint_probe: ComposePublishedPortPlannedEndpointProbe,
    /// Whether the two differ.
    pub relocated: bool,
    /// Why it was chosen.
    pub allocation_reason: ComposePublishedPortAllocationReason,
}

/// All published ports and where they are put.
#[derive(Debug, Clone)]
pub struct ComposePublishedPortPlan {
    /// The ports.
    pub entries: Vec<ComposePublishedPortPlanEntry>,
}

impl ComposePublishedPortPlan {
    /// A plan without ports.
    pub fn empty() -> (res: Self)
        ensures
            res.entries@.len() == 0,
    {
        ComposePublishedPortPlan { entries: Vec::new() }
    }
}

/// The fields of one published port, by name.
pub type PortFields = TextMap<JsonValue>;

/// The services whose published ports are replaced, with all their ports.
#[derive(Debug, Clone)]
pub struct ComposePublishedPortOverride {
    /// The ports, by service.
    pub services: TextMap<Vec<PortFields>>,
}

impl ComposePublishedPortOverride {
    /// Nothing is replaced.
    pub fn empty() -> (res: Self)
        ensures
            res.services@.len() == 0,
    {
        ComposePublishedPortOverride { services: TextMap::new() }
    }
}

/// A published port as the Compose files give it.
#[derive(Debug, Clone)]
pub struct ComposePortEntry {
    /// The service.
    pub service: String,
    /// The position among the ports of the service.
    pub entry_index: usize,
    /// The fields of the port.
    pub original_fields: PortFields,
}

/// The published ports of the services that are started.
#[derive(Debug, Clone)]
pub struct ComposePublishedPortPlanningInput {
    /// The primary service.
    pub primary_service: String,
    /// The services that are started; all, where none is listed.
    pub services: Vec<String>,
    /// Their published ports.
    pub port_entries: Vec<ComposePortEntry>,
}

/// What published ports are planned from.
#[derive(Debug, Clone, Copy)]
pub struct ComposePublishedPortFinalization<'a> {
    /// The published ports.
    pub input: &'a ComposePublishedPortPlanningInput,
    /// Ports that are moved by configuration.
    pub mappings: &'a Vec<ComposePublishedPortMapping>,
    /// The host ports that the project holds, where they are to be kept.
    pub existing_project_published_ports: Option<&'a Vec<ComposePublishedPortReservation>>,
    /// The host ports that others hold.
    pub external_host_reservations: &'a Vec<HostPortReservation>,
}

/// A protocol, by what it holds.
pub enum ProtocolView {
    /// TCP.
    Tcp,
    /// UDP.
    Udp,
    /// Another protocol.
    Other(Seq<char>),
    /// Something that is no protocol.
    Invalid(Seq<char>),
}

impl View for ComposePortProtocol {
    type V = ProtocolView;

    open spec fn view(&self) -> ProtocolView {
        match self {
            ComposePortProtocol::Tcp => ProtocolView::Tcp,
            ComposePortProtocol::Udp => ProtocolView::Udp,
            ComposePortProtocol::Other(name) => ProtocolView::Other(name@),
            ComposePortProtocol::Invalid(name) => ProtocolView::Invalid(name@),
        }
    }
}

impl ComposePortProtocol {
    /// A copy of the protocol.
    pub fn copied(&self) -> (res: Self)
        ensures
            res == *self,
    {
        match self {
            ComposePortProtocol::Tcp => ComposePortProtocol::Tcp,
            ComposePortProtocol::Udp => ComposePortProtocol::Udp,
            ComposePortProtocol::Other(name) => ComposePortProtocol::Other(name.clone()),
            ComposePortProtocol::Invalid(name) => ComposePortProtocol::Invalid(name.clone()),
        }
    }

    /// Whether two protocols are the same.
    pub fn same(&self, other: &Self) -> (res: bool)
        ensures
            res == (self@ == other@),
    {
        match (self, other) {
            (ComposePortProtocol::Tcp, ComposePortProtocol::Tcp) => true,
            (ComposePortProtocol::Udp, ComposePortProtocol::Udp) => true,
            (ComposePortProtocol::Other(left), ComposePortProtocol::Other(right)) => same_text(
                left.as_str(),
                right.as_str(),
            ),
            (ComposePortProtocol::Invalid(left), ComposePortProtocol::Invalid(right)) => same_text(
                left.as_str(),
                right.as_str(),
            ),
            _ => false,
        }
    }
}

impl View for ComposePublishedPortHostIp {
    type V = Option<Seq<char>>;

    open spec fn view(&self) -> Option<Seq<char>> {
        match self {
            ComposePublishedPortHostIp::Omitted => None,
            ComposePublishedPortHostIp::Explicit(value) => Some(value@),
        }
    }
}

/// A host address and a host port, by what they hold.
pub struct EndpointView {
    /// The address.
    pub host_ip: Option<Seq<char>>,
    /// The port.
    pub host_port: u16,
}

impl View for ComposePublishedPortEndpoint {
    type V = EndpointView;

    open spec fn view(&self) -> EndpointView {
        EndpointView { host_ip: self.host_ip@, host_port: self.host_port }
    }
}

impl ComposePublishedPortEndpoint {
    /// A copy of the address and port.
    pub fn copied(&self) -> (res: Self)
        ensures
            res == *self,
    {
        ComposePublishedPortEndpoint {
            host_ip: match &self.host_ip {
                ComposePublishedPortHostIp::Omitted => ComposePublishedPortHostIp::Omitted,
                ComposePublishedPortHostIp::Explicit(value) => ComposePublishedPortHostIp::Explicit(
                    value.clone(),
                ),
            },
            host_port: self.host_port,
        }
    }

    /// Whether two addresses and ports are the same.
    pub fn same(&self, other: &Self) -> (res: bool)
        ensures
            res == (self@ == other@),
    {
        let same_ip = match (&self.host_ip, &other.host_ip) {
            (ComposePublishedPortHostIp::Omitted, ComposePublishedPortHostIp::Omitted) => true,
            (
                ComposePublishedPortHostIp::Explicit(left),
                ComposePublishedPortHostIp::Explicit(right),
            ) => same_text(left.as_str(), right.as_str()),
            _ => false,
        };
        same_ip && self.host_port == other.host_port
    }
}

/// A host port that a container of the project holds, by what it holds.
pub struct ReservationView {
    /// The service.
    pub service: Seq<char>,
    /// The port in the container.
    pub target_port: u16,
    /// The protocol.
    pub protocol: ProtocolView,
    /// The address and port on the host.
    pub endpoint: EndpointView,
    /// What holds it.
    pub source: ComposePublishedPortReservationSource,
}

impl View for ComposePublishedPortReservation {
    type V = ReservationView;

    open spec fn view(&self) -> ReservationView {
        ReservationView {
            service: self.service@,
            target_port: self.target_port,
            protocol: self.protocol@,
            endpoint: self.endpoint@,
            source: self.source,
        }
    }
}

/// The name of a protocol.
pub open spec fn protocol_word(protocol: ProtocolView) -> Seq<char> {
    match protocol {
        ProtocolView::Tcp => "tcp"@,
        ProtocolView::Udp => "udp"@,
        ProtocolView::Other(name) => name,
        ProtocolView::Invalid(name) => name,
    }
}

/// The name of a protocol.
pub fn compose_port_protocol_name(protocol: &ComposePortProtocol) -> (res: &str)
    ensures
        res@ == protocol_word(protocol@),
{
    match protocol {
        ComposePortProtocol::Tcp => "tcp",
        ComposePortProtocol::Udp => "udp",
        ComposePortProtocol::Other(name) => name.as_str(),
        ComposePortProtocol::Invalid(name) => name.as_str(),
    }
}

/// A host address and a host port as they are shown.
pub open spec fn endpoint_words(endpoint: EndpointView) -> Seq<char> {
    match endpoint.host_ip {
        None => decimal(endpoint.host_port as nat),
        Some(value) => value + ":"@ + decimal(endpoint.host_port as nat),
    }
}

/// A host address and a host port as they are shown: the address only where
/// one is given.
pub fn compose_published_port_endpoint_display(endpoint: &ComposePublishedPortEndpoint) -> (res:
    String)
    ensures
        res@ == endpoint_words(endpoint@),
{
    let port = decimal_text(endpoint.host_port as u128);
    match &endpoint.host_ip {
        ComposePublishedPortHostIp::Omitted => port,
        ComposePublishedPortHostIp::Explicit(value) => {
            let mut text = value.clone();
            text.append(":");
            text.append(port.as_str());
            text
        },
    }
}

/// The address on which an endpoint listens.
pub open spec fn listening_ip(endpoint: EndpointView) -> Seq<char> {
    match endpoint.host_ip {
        None => "0.0.0.0"@,
        Some(value) => value,
    }
}

/// The address on which an endpoint listens: all, where none is given.
pub fn compose_published_port_reservation_host_ip(endpoint: &ComposePublishedPortEndpoint) -> (res:
    &str)
    ensures
        res@ == listening_ip(endpoint@),
{
    match &endpoint.host_ip {
        ComposePublishedPortHostIp::Omitted => "0.0.0.0",
        ComposePublishedPortHostIp::Explicit(value) => value.as_str(),
    }
}

} // verus!
