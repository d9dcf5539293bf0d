//! The resolved configuration of a development container and the layers that
//! it is merged from.

use crate::json::JsonValue;
use crate::text_map::TextMap;
use vstd::prelude::*;

verus! {

/// What a mount brings into the container.
#[derive(Debug, Clone, Copy, PartialEq, Eq, Structural)]
pub enum MountType {
    /// A file or directory of the host.
    Bind,
    /// A named volume.
    Volume,
    /// A file system in memory.
    Tmpfs,
}

/// A transport protocol of a published port.
#[derive(Debug, Clone, Copy, PartialEq, Eq, Structural)]
pub enum PortProtocol {
    /// TCP.
    Tcp,
    /// UDP.
    Udp,
}

/// How Git reaches HTTPS credentials of the host.
#[derive(Debug, Clone, Copy, PartialEq, Eq, Structural)]
pub enum GitHttpsMode {
    /// The host's helper answers and stores.
    HostHelper,
    /// The host's helper answers only.
    HostHelperReadOnly,
    /// Not at all.
    Off,
}

/// Whether the host's SSH agent is forwarded.
#[derive(Debug, Clone, Copy, PartialEq, Eq, Structural)]
pub enum SshAgentMode {
    /// Where the host has one.
    Auto,
    /// Not at all.
    Off,
}

/// How the GitHub token of the host is handed in.
#[derive(Debug, Clone, Copy, PartialEq, Eq, Structural)]
pub enum GithubCredentialsMode {
    /// As a file that the GitHub CLI reads.
    GhTokenFile,
    /// Not at all.
    Off,
}

/// Which shell start-up files are read to learn the user's environment.
#[derive(Debug, Clone, Copy, PartialEq, Eq, Structural)]
pub enum LayerUserEnvProbe {
    /// None.
    NoProbe,
    /// Those of a login shell.
    LoginShell,
    /// Those of an interactive shell.
    InteractiveShell,
    /// Those of a login shell that is interactive.
    LoginInteractiveShell,
}

/// What happens to the container when an attached session ends.
#[derive(Debug, Clone, Copy, PartialEq, Eq, Structural)]
pub enum ResolvedShutdownAction {
    /// It keeps running.
    KeepRunning,
    /// The container is stopped.
    StopContainer,
    /// All services of the Compose project are stopped.
    StopCompose,
}

/// A container option of `runArgs`.
#[derive(Debug, Clone, PartialEq, Eq)]
pub enum LayerRunArg {
    /// `--add-host`.
    AddHost(String),
    /// `--dns`.
    Dns(String),
    /// `--dns-search`.
    DnsSearch(String),
    /// Another option, handed on as it stands.
    Passthrough {
        /// The option.
        option: String,
        /// Its value.
        value: String,
    },
}

impl LayerRunArg {
    /// The value that the option is given.
    pub open spec fn spec_value(self) -> String {
        match self {
            LayerRunArg::AddHost(value) => value,
            LayerRunArg::Dns(value) => value,
            LayerRunArg::DnsSearch(value) => value,
            LayerRunArg::Passthrough { option: _, value } => value,
        }
    }

    /// The same option with another value.
    pub open spec fn spec_with_value(self, new_value: String) -> LayerRunArg {
        match self {
            LayerRunArg::AddHost(_) => LayerRunArg::AddHost(new_value),
            LayerRunArg::Dns(_) => LayerRunArg::Dns(new_value),
            LayerRunArg::DnsSearch(_) => LayerRunArg::DnsSearch(new_value),
            LayerRunArg::Passthrough { option, value: _ } => LayerRunArg::Passthrough {
                option,
                value: new_value,
            },
        }
    }
}

/// A mount as configuration writes it.
#[derive(Debug, Clone)]
pub struct LayerDevcontainerMount {
    /// How it is written.
    pub definition: MountDefinition,
    /// Its type, unless that cannot be told.
    pub mount_type: Option<MountType>,
}

/// The two ways in which configuration writes a mount.
#[derive(Debug, Clone)]
pub enum MountDefinition {
    /// As one comma-separated text.
    Text(String),
    /// As an object.
    Object(TextMap<JsonValue>),
}

/// A mount of the tool's own configuration.
#[derive(Debug, Clone)]
pub struct ConfigMount {
    /// What is mounted.
    pub source: Option<String>,
    /// Where it is mounted.
    pub target: String,
    /// Its type.
    pub mount_type: MountType,
    /// Whether the container may not write to it.
    pub read_only: bool,
}

/// A Dockerfile to build.
#[derive(Debug, Clone)]
pub struct LayerDevcontainerBuild {
    /// The Dockerfile.
    pub dockerfile: String,
    /// The build context.
    pub context: Option<String>,
    /// The build arguments.
    pub args: TextMap<String>,
    /// Further options of the build command.
    pub options: Vec<String>,
    /// The build stage.
    pub target: Option<String>,
    /// Images that serve as cache.
    pub cache_from: Vec<String>,
}

/// The Compose files and the service to work in.
#[derive(Debug, Clone)]
pub struct LayerDevcontainerCompose {
    /// The Compose files.
    pub files: Vec<String>,
    /// The primary service.
    pub service: String,
    /// The services that are started, where they are listed.
    pub run_services: Option<Vec<String>>,
}

/// Where the container comes from.
#[derive(Debug, Clone)]
pub enum ResolvedDevcontainerSource {
    /// An image.
    Image(String),
    /// A Dockerfile.
    Dockerfile(LayerDevcontainerBuild),
    /// A service of a Compose project.
    Compose(LayerDevcontainerCompose),
}

/// A Feature to install.
#[derive(Debug, Clone)]
pub struct ResolvedFeature {
    /// The reference as it is configured.
    pub id: String,
    /// The reference without its version.
    pub canonical_id: String,
    /// The options of the Feature.
    pub options: TextMap<JsonValue>,
}

/// A port that the tool forwards.
#[derive(Debug, Clone)]
pub struct ResolvedPortEntry {
    /// The Compose service, if one is named.
    pub service: Option<String>,
    /// The port in the container.
    pub container: u16,
    /// The port on the host, if one is asked for.
    pub host: Option<u16>,
}

/// The ports that the tool forwards.
#[derive(Debug, Clone, Default)]
pub struct ResolvedPorts {
    /// The forwarded ports.
    pub entries: Vec<ResolvedPortEntry>,
}

/// A port that Docker publishes.
#[derive(Debug, Clone, PartialEq, Eq)]
pub struct ResolvedPublishPort {
    /// The port in the container.
    pub container: u16,
    /// The port on the host.
    pub host: Option<u16>,
    /// The address on the host.
    pub host_ip: Option<String>,
    /// The protocol.
    pub protocol: PortProtocol,
}

/// The attributes of a forwarded port.
#[derive(Debug, Clone)]
pub struct ResolvedPortAttributes {
    /// A name for the port.
    pub label: Option<String>,
    /// What happens when the port is forwarded.
    pub on_auto_forward: Option<String>,
    /// Whether the same port must be free on the host.
    pub require_local_port: Option<bool>,
    /// A protocol that was asked for; it is not supported.
    pub unsupported_protocol: Option<String>,
    /// Whether elevation was asked for; it is not supported.
    pub unsupported_elevate_if_needed: Option<bool>,
}

/// The lifecycle commands.
#[derive(Debug, Clone, Default)]
pub struct LifecycleDefinition {
    /// The commands, whatever their phase.
    pub commands: Vec<String>,
}

impl LifecycleDefinition {
    /// Whether any command is defined.
    pub fn has_commands(&self) -> (res: bool)
        ensures
            res == (self.commands@.len() > 0),
    {
        self.commands.len() > 0
    }
}

/// The resolved devcontainer settings.
#[derive(Debug, Clone)]
pub struct ResolvedDevcontainer {
    /// Where the container comes from.
    pub source: Option<ResolvedDevcontainerSource>,
    /// Commands that run when the container starts.
    pub entrypoints: Vec<String>,
    /// The lifecycle commands.
    pub lifecycle: Option<LifecycleDefinition>,
    /// How the user's environment is learned.
    pub user_env_probe: Option<LayerUserEnvProbe>,
    /// Whether the container is privileged, if that is set.
    pub privileged: Option<bool>,
    /// Whether an init process is used, if that is set.
    pub init: Option<bool>,
    /// Linux capabilities that are added.
    pub cap_add: Vec<String>,
    /// Docker security options.
    pub security_opt: Vec<String>,
    /// Further mounts.
    pub mounts: Vec<LayerDevcontainerMount>,
    /// The mount of the workspace, if it is not the default one.
    pub workspace_mount: Option<LayerDevcontainerMount>,
    /// The folder of the workspace in the container.
    pub workspace_folder: Option<String>,
    /// Ports that Docker publishes.
    pub publish_ports: Vec<ResolvedPublishPort>,
    /// Attributes of forwarded ports, by port.
    pub port_attributes: TextMap<ResolvedPortAttributes>,
    /// Attributes of the other ports.
    pub other_ports_attributes: Option<ResolvedPortAttributes>,
    /// The environment of the container.
    pub container_env: TextMap<String>,
    /// The environment of tools.
    pub remote_env: TextMap<String>,
    /// The user that tools run as.
    pub remote_user: Option<String>,
    /// The user that the container runs as.
    pub container_user: Option<String>,
    /// Whether the user's ids follow those of the host user.
    pub update_remote_user_uid: bool,
    /// Whether a command that keeps the container alive replaces the image's.
    pub override_command: bool,
    /// Options of the container.
    pub run_args: Vec<LayerRunArg>,
    /// What happens when an attached session ends.
    pub shutdown_action: ResolvedShutdownAction,
    /// The order in which Features are installed, where it is set.
    pub override_feature_install_order: Vec<String>,
}

impl ResolvedDevcontainer {
    /// Whether the container is to be privileged.
    pub fn privileged_enabled(&self) -> (res: bool)
        ensures
            res == (self.privileged == Some(true)),
    {
        match self.privileged {
            Some(privileged) => privileged,
            None => false,
        }
    }
}

impl Default for ResolvedDevcontainer {
    fn default() -> (res: Self)
        ensures
            res.source is None,
            res.entrypoints@.len() == 0,
            res.lifecycle is None,
            res.user_env_probe is None,
            res.privileged is None,
            res.init is None,
            res.cap_add@.len() == 0,
            res.security_opt@.len() == 0,
            res.mounts@.len() == 0,
            res.workspace_mount is None,
            res.workspace_folder is None,
            res.publish_ports@.len() == 0,
            res.port_attributes@.len() == 0,
            res.other_ports_attributes is None,
            res.container_env@.len() == 0,
            res.remote_env@.len() == 0,
            res.remote_user is None,
            res.container_user is None,
            res.update_remote_user_uid,
            res.override_command,
            res.run_args@.len() == 0,
            res.shutdown_action == ResolvedShutdownAction::KeepRunning,
            res.override_feature_install_order@.len() == 0,
    {
        ResolvedDevcontainer {
            source: None,
            entrypoints: Vec::new(),
            lifecycle: None,
            user_env_probe: None,
            privileged: None,
            init: None,
            cap_add: Vec::new(),
            security_opt: Vec::new(),
            mounts: Vec::new(),
            workspace_mount: None,
            workspace_folder: None,
            publish_ports: Vec::new(),
            port_attributes: TextMap::new(),
            other_ports_attributes: None,
            container_env: TextMap::new(),
            remote_env: TextMap::new(),
            remote_user: None,
            container_user: None,
            update_remote_user_uid: true,
            override_command: true,
            run_args: Vec::new(),
            shutdown_action: ResolvedShutdownAction::KeepRunning,
            override_feature_install_order: Vec::new(),
        }
    }
}

/// How Git credentials of the host are handed in.
#[derive(Debug, Clone, Copy)]
pub struct GitCredentials {
    /// Whether they are handed in at all.
    pub enabled: bool,
    /// Whether name and address of the user are copied.
    pub copy_user: bool,
    /// Whether the global Git configuration is copied.
    pub copy_global_config: bool,
    /// How HTTPS credentials are reached.
    pub https: GitHttpsMode,
    /// Whether the SSH agent is forwarded.
    pub ssh_agent: SshAgentMode,
}

impl Default for GitCredentials {
    fn default() -> (res: Self)
        ensures
            res == (GitCredentials {
                enabled: true,
                copy_user: true,
                copy_global_config: false,
                https: GitHttpsMode::HostHelper,
                ssh_agent: SshAgentMode::Auto,
            }),
    {
        GitCredentials {
            enabled: true,
            copy_user: true,
            copy_global_config: false,
            https: GitHttpsMode::HostHelper,
            ssh_agent: SshAgentMode::Auto,
        }
    }
}

/// How GitHub credentials of the host are handed in.
#[derive(Debug, Clone, Copy)]
pub struct GithubCredentials {
    /// Whether they are handed in at all.
    pub enabled: bool,
    /// How the token is handed in.
    pub mode: GithubCredentialsMode,
    /// Whether the GitHub CLI is installed where it is missing.
    pub install_feature_if_missing: bool,
}

impl Default for GithubCredentials {
    fn default() -> (res: Self)
        ensures
            res == (GithubCredentials {
                enabled: true,
                mode: GithubCredentialsMode::GhTokenFile,
                install_feature_if_missing: true,
            }),
    {
        GithubCredentials {
            enabled: true,
            mode: GithubCredentialsMode::GhTokenFile,
            install_feature_if_missing: true,
        }
    }
}

/// How credentials of the host are handed in.
#[derive(Debug, Clone, Copy, Default)]
pub struct ResolvedCredentials {
    /// Those of Git.
    pub git: GitCredentials,
    /// Those of GitHub.
    pub github: GithubCredentials,
}

/// An environment variable that is rewritten for a clone of a project.
#[derive(Debug, Clone)]
pub struct ResolvedComposeCloneIsolationEndpoint {
    /// The service.
    pub service: String,
    /// The variable.
    pub env: String,
    /// Its value, with placeholders.
    pub value: String,
}

/// Which fixed names are rewritten for a clone of a project.
#[derive(Debug, Clone, Copy, Default)]
pub struct ResolvedComposeCloneIsolationNames {
    /// Whether those of containers are.
    pub rewrite_container_names: bool,
    /// Whether those of networks, volumes, configs and secrets are.
    pub rewrite_resource_names: bool,
}

/// How fixed addresses of networks are moved for a clone of a project.
#[derive(Debug, Clone, Default)]
pub struct ResolvedComposeCloneIsolationNetworks {
    /// Whether they are moved at all.
    pub relocation: bool,
    /// The addresses to choose from, if they are not the default ones.
    pub subnet_pool: Option<String>,
    /// How many bits of an address name the network.
    pub subnet_prefix: u8,
}

/// How a clone of a Compose project is kept apart from its siblings.
#[derive(Debug, Clone, Default)]
pub struct ResolvedComposeCloneIsolation {
    /// Whether it is kept apart at all.
    pub enabled: bool,
    /// Which names are rewritten.
    pub names: ResolvedComposeCloneIsolationNames,
    /// How addresses are moved.
    pub networks: ResolvedComposeCloneIsolationNetworks,
    /// Variables to rewrite.
    pub endpoints: Vec<ResolvedComposeCloneIsolationEndpoint>,
}

/// A published port that configuration moves to another host port.
#[derive(Debug, Clone)]
pub struct ComposePublishedPortMapping {
    /// The service.
    pub service: String,
    /// The port in the container.
    pub target_port: u16,
    /// The port on the host.
    pub host_port: u16,
}

/// How published ports of a Compose project are treated.
#[derive(Debug, Clone, Default)]
pub struct ResolvedComposePublishedPorts {
    /// Whether a port that is taken is moved. A start looks at published ports
    /// only where this is set, also for those that `mappings` moves.
    pub automatic_relocation: bool,
    /// Ports that are moved by configuration.
    pub mappings: Vec<ComposePublishedPortMapping>,
    /// Whether a moved port is reported.
    pub warn_on_relocation: bool,
}

/// Settings of Compose projects.
#[derive(Debug, Clone, Default)]
pub struct ResolvedCompose {
    /// How a clone is kept apart.
    pub clone_isolation: ResolvedComposeCloneIsolation,
    /// How published ports are treated.
    pub published_ports: ResolvedComposePublishedPorts,
}

/// The configuration after all layers were merged.
#[derive(Debug, Clone, Default)]
pub struct ResolvedConfig {
    /// The Features to install.
    pub features: Vec<ResolvedFeature>,
    /// The mounts of the tool's own configuration.
    pub mounts: Vec<ConfigMount>,
    /// The ports that the tool forwards.
    pub ports: ResolvedPorts,
    /// The devcontainer settings.
    pub devcontainer: ResolvedDevcontainer,
    /// How credentials are handed in.
    pub credentials: ResolvedCredentials,
    /// Settings of Compose projects.
    pub compose: ResolvedCompose,
}

impl ResolvedConfig {
    /// Whether the container is a service of a Compose project.
    pub open spec fn spec_is_compose(self) -> bool {
        self.devcontainer.source matches Some(ResolvedDevcontainerSource::Compose(_))
    }

    /// Whether the container is a service of a Compose project.
    pub fn is_compose(&self) -> (res: bool)
        ensures
            res == self.spec_is_compose(),
    {
        match &self.devcontainer.source {
            Some(ResolvedDevcontainerSource::Compose(_)) => true,
            _ => false,
        }
    }
}

/// A Feature as a layer names it.
#[derive(Debug, Clone)]
pub struct LayerFeature {
    /// The reference.
    pub id: String,
    /// The options.
    pub options: TextMap<JsonValue>,
}

impl LayerFeature {
    /// A Feature without options.
    pub fn new(id: String) -> (res: Self)
        ensures
            res.id == id,
            res.options@.len() == 0,
    {
        LayerFeature { id, options: TextMap::new() }
    }
}

/// The devcontainer settings of one layer.
#[derive(Debug, Clone, Default)]
pub struct LayerDevcontainerMetadata {
    /// Where the container comes from.
    pub source: Option<ResolvedDevcontainerSource>,
    /// The environment of tools.
    pub remote_env: TextMap<String>,
    /// The user that tools run as.
    pub remote_user: Option<String>,
    /// The user that the container runs as.
    pub container_user: Option<String>,
    /// Whether the user's ids follow those of the host user.
    pub update_remote_user_uid: Option<bool>,
}

/// One layer of configuration.
#[derive(Debug, Clone, Default)]
pub struct ConfigLayer {
    /// The devcontainer settings.
    pub devcontainer: Option<LayerDevcontainerMetadata>,
    /// The Features.
    pub features: Vec<LayerFeature>,
    /// The ports that the tool forwards.
    pub ports: Vec<ResolvedPortEntry>,
}

impl ConfigLayer {
    /// A layer that sets nothing.
    pub fn empty() -> (res: Self)
        ensures
            res.devcontainer is None,
            res.features@.len() == 0,
            res.ports@.len() == 0,
    {
        ConfigLayer { devcontainer: None, features: Vec::new(), ports: Vec::new() }
    }
}

/// The layers that a configuration is merged from, from the weakest to the
/// strongest.
#[derive(Debug, Clone, Default)]
pub struct ConfigMergeInput {
    /// What the image brings.
    pub image_metadata: Vec<ConfigLayer>,
    /// What the Features bring.
    pub feature_metadata: Vec<ConfigLayer>,
    /// The user's own configuration.
    pub global: Option<ConfigLayer>,
    /// The devcontainer file.
    pub devcontainer: Option<ConfigLayer>,
    /// The project's configuration.
    pub project: Option<ConfigLayer>,
    /// The command line.
    pub cli: Option<ConfigLayer>,
}

} // verus!
