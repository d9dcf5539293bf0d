//! The parts of the tool that planning calls upon.

use crate::canonical::Canonical;
use crate::compose::ports::{
    ComposePortEntry, ComposePublishedPortFinalization, ComposePublishedPortOverride,
    ComposePublishedPortPlan, ComposePublishedPortPlanningInput,
};
use crate::config::{
    ConfigMergeInput, LayerDevcontainerBuild, LayerDevcontainerMount, ResolvedConfig,
    ResolvedPortEntry,
};
use crate::docker::{
    DockerMountSpec, DockerResources, HostPathCreateMode, HostPortReservation, ResolvedBuildContext,
    ResolvedForwardPort, UidGidSyncPlan,
};
use crate::error::UpError;
use crate::hash_input::{BuildHashInput, ConfigHashInput};
use crate::mounts::WorkspaceMountPlan;
use crate::text_map::TextMap;
use crate::types::{ComposeProjectPlan, TrackedValues, VariableContext, Workspace};
use vstd::prelude::*;

verus! {

/// A reference to a Feature.
#[derive(Debug, Clone)]
pub struct FeatureReference {
    /// The reference without its version.
    pub canonical_id: String,
    /// The reference as it is configured.
    pub reference: String,
    /// Whether the Feature comes from a registry.
    pub from_registry: bool,
}

/// A Feature and the digest that it is locked to.
#[derive(Debug, Clone)]
pub struct FeatureLockEntry {
    /// The Feature.
    pub reference: String,
    /// The digest.
    pub digest: String,
}

/// The Features that are locked.
#[derive(Debug, Clone)]
pub struct FeatureLock {
    /// The Features.
    pub entries: Vec<FeatureLockEntry>,
}

/// What planning asks of the rest of the tool. Nothing is claimed of the
/// answers: the rules of this library hold for whatever they are.
pub trait PlanServices {
    /// Merges the layers of a configuration.
    fn resolve_config(&self, layers: &ConfigMergeInput) -> ResolvedConfig;

    /// Replaces the variables in a text.
    fn expand_variables(&self, text: &String, variables: &VariableContext) -> Result<
        String,
        UpError,
    >;

    /// Whether a text refers to the user that tools run as, or to its home.
    fn references_remote_user(&self, text: &String) -> Result<bool, UpError>;

    /// Whether a text refers to the home of the user that tools run as.
    fn references_remote_user_home(&self, text: &String) -> Result<bool, UpError>;

    /// Replaces the variables in the values of a map.
    fn expand_string_map(
        &self,
        values: &TextMap<String>,
        variables: &VariableContext,
    ) -> Result<TrackedValues, UpError>;

    /// Replaces the variables in the environment of the container.
    fn expand_container_env(
        &self,
        values: &TextMap<String>,
        variables: &VariableContext,
    ) -> Result<TrackedValues, UpError>;

    /// Reads one mount of the devcontainer settings.
    fn devcontainer_mount_spec(
        &self,
        mount: &LayerDevcontainerMount,
        workspace: &Workspace,
        variables: &VariableContext,
        mode: HostPathCreateMode,
    ) -> Result<DockerMountSpec, UpError>;

    /// Reads the further mounts of the configuration.
    fn config_mount_specs(
        &self,
        config: &ResolvedConfig,
        workspace: &Workspace,
        variables: &VariableContext,
        mode: HostPathCreateMode,
    ) -> Result<Vec<DockerMountSpec>, UpError>;

    /// Plans the mounts of dotfiles.
    fn dotfile_mount_plan(
        &self,
        config: &ResolvedConfig,
        workspace: &Workspace,
        variables: &VariableContext,
    ) -> Result<WorkspaceMountPlan, UpError>;

    /// Finds the build context of a Dockerfile.
    fn resolve_build_context(
        &self,
        workspace: &Workspace,
        devcontainer_file: &String,
        build: &LayerDevcontainerBuild,
    ) -> Result<ResolvedBuildContext, UpError>;

    /// Reads what a build context holds.
    fn build_hash_input(&self, context: &ResolvedBuildContext) -> Result<BuildHashInput, UpError>;

    /// Finds the Compose project.
    fn resolve_compose_project(
        &self,
        workspace: &Workspace,
        devcontainer_file: &String,
        files: &Vec<String>,
    ) -> Result<ComposeProjectPlan, UpError>;

    /// Reads the reference of a Feature.
    fn parse_feature_ref(&self, id: &String, devcontainer_file: &String) -> Result<
        FeatureReference,
        UpError,
    >;

    /// Reads the file that locks the Features of a workspace.
    fn read_feature_lock(&self, workspace: &Workspace) -> Result<FeatureLock, UpError>;

    /// The digest that a Feature is locked to.
    fn locked_digest(&self, reference: &FeatureReference, lock: &FeatureLock) -> Option<String>;

    /// The hash of a configuration.
    fn config_hash(&self, input: &ConfigHashInput) -> String;

    /// The hash of content in canonical form.
    fn content_hash(&self, content: &Canonical) -> String;

    /// The names under which Docker keeps what belongs to a workspace.
    fn docker_resources(
        &self,
        workspace: &Workspace,
        config_hash: &String,
        config_file: &String,
    ) -> DockerResources;

    /// Chooses host ports for forwarded ports.
    fn resolve_forward_ports(&self, entries: &Vec<ResolvedPortEntry>) -> Result<
        Vec<ResolvedForwardPort>,
        UpError,
    >;

    /// Chooses host ports for forwarded ports, some host ports being taken.
    fn resolve_forward_ports_with_host_reservations(
        &self,
        entries: &Vec<ResolvedPortEntry>,
        reservations: &Vec<HostPortReservation>,
    ) -> Result<Vec<ResolvedForwardPort>, UpError>;

    /// Chooses host ports for the published ports of a Compose project.
    fn plan_compose_published_ports(
        &self,
        context: &ComposePublishedPortFinalization,
        automatic_relocation: bool,
        forward_ports: &Vec<ResolvedForwardPort>,
    ) -> Result<ComposePublishedPortPlan, UpError>;

    /// Refuses published ports of a Compose project that cannot be started
    /// with.
    fn validate_compose_published_port_diagnostics(
        &self,
        input: &ComposePublishedPortPlanningInput,
    ) -> Result<(), UpError>;

    /// Makes out the ports that replace those of services.
    fn compose_published_port_override(
        &self,
        entries: &Vec<ComposePortEntry>,
        plan: &ComposePublishedPortPlan,
    ) -> Result<ComposePublishedPortOverride, UpError>;

    /// Whether listening on one host address stands against listening on
    /// another.
    fn host_addresses_overlap(&self, existing: &String, planned: &String) -> bool;

    /// The user to name to Docker once user ids were changed.
    fn uid_gid_sync_runtime_user(&self, user: &String, plan: &UidGidSyncPlan) -> Result<
        String,
        UpError,
    >;
}

} // verus!
