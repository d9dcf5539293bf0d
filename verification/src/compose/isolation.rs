//! Plans that keep a clone of a Compose project apart from its siblings.

use crate::text_map::TextMap;
use vstd::prelude::*;

verus! {

/// A service whose container is renamed.
#[derive(Debug, Clone)]
pub struct ComposeServiceNameRewrite {
    /// The service.
    pub service: String,
    /// The name that its container had.
    pub original_name: String,
    /// The name that it is given.
    pub rewritten_name: String,
    /// The networks on which it still answers to its old name.
    pub networks: Vec<String>,
}

/// A service that refers to renamed containers.
#[derive(Debug, Clone)]
pub struct ComposeServiceReferenceRewrite {
    /// The service.
    pub service: String,
    /// The network that it shares.
    pub network_mode: Option<String>,
    /// The IPC namespace that it shares.
    pub ipc: Option<String>,
    /// The process namespace that it shares.
    pub pid: Option<String>,
    /// The containers whose volumes it takes.
    pub volumes_from: Option<Vec<String>>,
    /// The containers that it is linked to.
    pub external_links: Option<Vec<String>>,
}

/// What is renamed.
#[derive(Debug, Clone, Copy, PartialEq, Eq, Structural)]
pub enum ComposeIsolationResourceKind {
    /// The container of a service.
    ServiceContainer,
    /// A network.
    Network,
    /// A volume.
    Volume,
    /// A config.
    Config,
    /// A secret.
    Secret,
}

/// A resource that is renamed.
#[derive(Debug, Clone)]
pub struct ComposeIsolationResourceRewrite {
    /// What it is.
    pub kind: ComposeIsolationResourceKind,
    /// Its key in the Compose files.
    pub resource: String,
    /// The name that it had.
    pub original_name: String,
    /// The name that it is given.
    pub rewritten_name: String,
}

/// Everything that is renamed.
#[derive(Debug, Clone)]
pub struct ComposeIsolationNameRewritePlan {
    /// Services whose containers are renamed.
    pub services: Vec<ComposeServiceNameRewrite>,
    /// Services that refer to renamed containers.
    pub service_references: Vec<ComposeServiceReferenceRewrite>,
    /// Other resources.
    pub resources: Vec<ComposeIsolationResourceRewrite>,
}

impl ComposeIsolationNameRewritePlan {
    /// Nothing is renamed.
    pub fn empty() -> (res: Self)
        ensures
            res.services@.len() == 0,
            res.service_references@.len() == 0,
            res.resources@.len() == 0,
    {
        ComposeIsolationNameRewritePlan {
            services: Vec::new(),
            service_references: Vec::new(),
            resources: Vec::new(),
        }
    }
}

/// A network and the addresses that it is given.
#[derive(Debug, Clone)]
pub struct ComposeIsolationSubnetAllocation {
    /// The network.
    pub network: String,
    /// The addresses that were asked for.
    pub requested_subnet: String,
    /// The addresses that it is given.
    pub planned_subnet: String,
    /// Its gateway.
    pub planned_gateway: Option<String>,
    /// The range for containers.
    pub planned_ip_range: Option<String>,
    /// Further addresses by name.
    pub planned_aux_addresses: TextMap<String>,
    /// Whether the addresses differ from those that were asked for.
    pub relocated: bool,
}

/// All networks and the addresses that they are given.
#[derive(Debug, Clone)]
pub struct ComposeIsolationSubnetPlan {
    /// The networks.
    pub allocations: Vec<ComposeIsolationSubnetAllocation>,
    /// Existing networks that stand in the way.
    pub networks_to_remove: Vec<String>,
}

impl ComposeIsolationSubnetPlan {
    /// No network is given addresses.
    pub fn empty() -> (res: Self)
        ensures
            res.allocations@.len() == 0,
            res.networks_to_remove@.len() == 0,
    {
        ComposeIsolationSubnetPlan { allocations: Vec::new(), networks_to_remove: Vec::new() }
    }
}

/// Variables of services that are rewritten.
#[derive(Debug, Clone)]
pub struct ComposeIsolationEndpointPlan {
    /// The variables, by service.
    pub services: TextMap<TextMap<String>>,
}

impl ComposeIsolationEndpointPlan {
    /// No variable is rewritten.
    pub fn empty() -> (res: Self)
        ensures
            res.services@.len() == 0,
    {
        ComposeIsolationEndpointPlan { services: TextMap::new() }
    }
}

} // verus!
