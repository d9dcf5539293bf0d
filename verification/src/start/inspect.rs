//! What Docker tells of its containers, networks and other resources.

use crate::text_map::TextMap;
use vstd::prelude::*;

verus! {

/// Where a port of a container is bound on the host.
#[derive(Debug, Clone)]
pub struct ContainerPortBinding {
    /// The address.
    pub host_ip: Option<String>,
    /// The port.
    pub host_port: Option<String>,
}

/// The ports of a container and where they are bound, in no particular order,
/// each port once.
pub type PortBindings = Vec<(String, Option<Vec<ContainerPortBinding>>)>;

/// The state of a container.
#[derive(Debug, Clone, Default)]
pub struct ContainerState {
    /// Whether it runs.
    pub running: Option<bool>,
    /// Its state in a word.
    pub status: Option<String>,
    /// What it ended with.
    pub exit_code: Option<i64>,
}

/// The configuration of a container.
#[derive(Debug, Clone, Default)]
pub struct ContainerInspectConfig {
    /// The labels.
    pub labels: Option<TextMap<String>>,
}

/// The configuration of a container on this host.
#[derive(Debug, Clone, Default)]
pub struct ContainerInspectHostConfig {
    /// The ports that it is to be given.
    pub port_bindings: Option<PortBindings>,
}

/// The network settings of a container.
#[derive(Debug, Clone, Default)]
pub struct ContainerNetworkSettings {
    /// The ports that it has.
    pub ports: Option<PortBindings>,
}

/// A container.
#[derive(Debug, Clone, Default)]
pub struct ContainerInspect {
    /// Its name.
    pub name: Option<String>,
    /// Its state.
    pub state: Option<ContainerState>,
    /// Its configuration.
    pub config: Option<ContainerInspectConfig>,
    /// Its configuration on this host.
    pub host_config: Option<ContainerInspectHostConfig>,
    /// Its network settings.
    pub network_settings: Option<ContainerNetworkSettings>,
}

impl ContainerInspect {
    /// The labels.
    pub open spec fn spec_labels(self) -> Option<TextMap<String>> {
        match self.config {
            Some(config) => config.labels,
            None => None,
        }
    }

    /// The labels.
    pub fn labels(&self) -> (res: Option<&TextMap<String>>)
        ensures
            match res {
                Some(labels) => self.spec_labels() == Some(*labels),
                None => self.spec_labels() is None,
            },
    {
        match &self.config {
            Some(config) => match &config.labels {
                Some(labels) => Some(labels),
                None => None,
            },
            None => None,
        }
    }

    /// The ports that it has.
    pub open spec fn spec_ports(self) -> Option<PortBindings> {
        match self.network_settings {
            Some(settings) => settings.ports,
            None => None,
        }
    }

    /// The ports that it has.
    pub fn ports(&self) -> (res: Option<&PortBindings>)
        ensures
            match res {
                Some(ports) => self.spec_ports() == Some(*ports),
                None => self.spec_ports() is None,
            },
    {
        match &self.network_settings {
            Some(settings) => match &settings.ports {
                Some(ports) => Some(ports),
                None => None,
            },
            None => None,
        }
    }

    /// The ports that it is to be given.
    pub open spec fn spec_configured_ports(self) -> Option<PortBindings> {
        match self.host_config {
            Some(host_config) => host_config.port_bindings,
            None => None,
        }
    }

    /// The ports that it is to be given.
    pub fn configured_ports(&self) -> (res: Option<&PortBindings>)
        ensures
            match res {
                Some(ports) => self.spec_configured_ports() == Some(*ports),
                None => self.spec_configured_ports() is None,
            },
    {
        match &self.host_config {
            Some(host_config) => match &host_config.port_bindings {
                Some(ports) => Some(ports),
                None => None,
            },
            None => None,
        }
    }
}

} // verus!
