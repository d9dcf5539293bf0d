//! The plan of a start and what goes into it.

use crate::config::{ConfigLayer, ConfigMergeInput, MountType, ResolvedConfig};
use crate::docker::{
    DockerBuildOptions, DockerMountSpec, DockerResources, DotfileSkeletonPlan, EffectiveUsers,
    PreparedFeatureInstallPlan, ResolvedBuildContext, ResolvedForwardPort, SensitiveEnvMap,
    UidGidSyncPlan,
};
use crate::text_map::TextMap;
use vstd::prelude::*;
use vstd::string::*;

verus! {

/// When the mounts of the configuration are resolved.
#[derive(Debug, Clone, Copy, PartialEq, Eq, Structural)]
pub enum MountResolution {
    /// Now, and missing host paths are created.
    Resolve,
    /// Now, and the host is left as it is.
    ReadOnly,
    /// Later.
    DeferConfigMounts,
}

impl MountResolution {
    /// Whether the mounts of the configuration are resolved now.
    pub open spec fn resolves(self) -> bool {
        self == MountResolution::Resolve || self == MountResolution::ReadOnly
    }

    /// Whether the mounts of the configuration are resolved now.
    pub fn resolves_config_mounts(self) -> (res: bool)
        ensures
            res == self.resolves(),
    {
        matches!(self, MountResolution::Resolve | MountResolution::ReadOnly)
    }
}

/// What becomes of forwarded ports.
#[derive(Debug, Clone, Copy, PartialEq, Eq, Structural)]
pub enum ForwardingResolution {
    /// They are forwarded.
    Resolve,
    /// They are left out, for nothing stays attached to forward them.
    IgnoreDetached,
}

/// How it is told that a container has started.
#[derive(Debug, Clone, Copy, PartialEq, Eq, Structural)]
pub enum StartupVerification {
    /// It runs a command that keeps it alive.
    Keepalive,
    /// It runs the image's own command.
    OriginalCommand,
    /// It runs entrypoints of Features first.
    FeatureEntrypoints {
        /// Whether the command behind them is watched as well.
        monitor_delegated_command: bool,
    },
}

/// How a plan is resolved.
#[derive(Debug, Clone, Copy, PartialEq, Eq, Structural)]
pub struct UpPlanResolution {
    /// What becomes of forwarded ports.
    pub forwarding: ForwardingResolution,
    /// Whether locked Features are fetched anew.
    pub update_features: bool,
    /// Whether the user's own configuration is left out.
    pub skip_global_config: bool,
}

impl UpPlanResolution {
    /// How a plan is resolved.
    pub fn new(
        forwarding: ForwardingResolution,
        update_features: bool,
        skip_global_config: bool,
    ) -> (res: Self)
        ensures
            res == (UpPlanResolution { forwarding, update_features, skip_global_config }),
    {
        UpPlanResolution { forwarding, update_features, skip_global_config }
    }
}

/// A workspace on the host.
#[derive(Debug, Clone)]
pub struct Workspace {
    /// The directory.
    pub root: String,
    /// The last part of the directory.
    pub basename: String,
    /// A short name that no other workspace has.
    pub id: String,
    /// Where the tool keeps the state of the workspace.
    pub state_dir: String,
    /// Where the tool keeps what it can make again.
    pub cache_dir: String,
}

/// Where the workspace stands in the container.
#[derive(Debug, Clone)]
pub struct WorkspaceLocation {
    /// The folder to work in.
    pub workspace_folder: String,
    /// The mount that brings the workspace in.
    pub workspace_mount: DockerMountSpec,
}

/// The values that variables of the configuration stand for.
#[derive(Debug, Clone)]
pub struct VariableContext {
    /// The workspace on the host.
    pub local_workspace_folder: String,
    /// The last part of the workspace on the host.
    pub local_workspace_folder_basename: String,
    /// The workspace in the container.
    pub container_workspace_folder: String,
    /// The last part of the workspace in the container.
    pub container_workspace_folder_basename: String,
    /// The id of the workspace.
    pub devcontainer_id: String,
    /// The user id on the host.
    pub uid: u32,
    /// The group id on the host.
    pub gid: u32,
    /// The user that tools run as.
    pub remote_user: String,
    /// The home of that user, where it is known.
    pub remote_user_home: Option<String>,
}

/// Expanded values, and those among them that come from the host's
/// environment.
#[derive(Debug, Clone)]
pub struct TrackedValues {
    /// All values.
    pub values: TextMap<String>,
    /// The values to hide.
    pub sensitive: SensitiveEnvMap,
}

/// A mount of an existing container.
#[derive(Debug, Clone, PartialEq, Eq)]
pub struct UpMountSummary {
    /// What is mounted.
    pub source: Option<String>,
    /// Where it is mounted.
    pub target: String,
    /// Its type.
    pub mount_type: MountType,
    /// Whether the container may not write to it.
    pub read_only: bool,
}

/// An existing container.
#[derive(Debug, Clone, PartialEq, Eq)]
pub struct UpContainerSummary {
    /// Its id.
    pub id: String,
    /// Its name.
    pub name: String,
    /// The image that it was made from.
    pub image_id: Option<String>,
    /// The hash of the configuration that it was made for.
    pub config_hash: Option<String>,
    /// The devcontainer file that it was made for.
    pub config_file: Option<String>,
    /// Its mounts, where they are known.
    pub mounts: Option<Vec<UpMountSummary>>,
    /// Whether it runs.
    pub running: bool,
}

/// What becomes of existing containers.
#[derive(Debug, Clone, PartialEq, Eq)]
pub enum ExistingContainerDecision {
    /// There is none: one is made.
    Create,
    /// They are removed, and one is made.
    Recreate {
        /// The containers to remove.
        containers: Vec<UpContainerSummary>,
    },
    /// One runs and is used as it is.
    ReuseRunning {
        /// Its id.
        id: String,
        /// Its name.
        name: String,
    },
    /// One is stopped and is started again.
    StartStopped {
        /// Its id.
        id: String,
        /// Its name.
        name: String,
    },
}

/// A file that goes into the hash of a Compose project.
#[derive(Debug, Clone)]
pub struct ComposeHashFile {
    /// The file.
    pub path: String,
    /// The hash of what it holds.
    pub content_hash: String,
}

/// A Compose project.
#[derive(Debug, Clone)]
pub struct ComposeProjectPlan {
    /// Its name.
    pub project_name: String,
    /// The file that adapts the project to the tool.
    pub generated_override_path: String,
    /// The files that go into the hash.
    pub config_hash_files: Vec<ComposeHashFile>,
    /// Variables that the adapting file refers to.
    pub generated_override_env: TextMap<String>,
    /// Texts that may not be shown.
    pub generated_override_redactions: Vec<String>,
}

/// What is started, from which image, and how.
#[derive(Debug, Clone)]
pub struct UpPlan {
    /// The image that the container is made from.
    pub image: String,
    /// The image that layers are put on.
    pub base_image: String,
    /// What the image is built from, where it is built.
    pub build_context: Option<ResolvedBuildContext>,
    /// Options of the build.
    pub build_options: DockerBuildOptions,
    /// The Features, once they were fetched.
    pub feature_install: Option<PreparedFeatureInstallPlan>,
    /// Where the Feature layer is built.
    pub feature_build_context_dir: Option<String>,
    /// Where the layer that changes user ids is built.
    pub uid_gid_sync_build_context_dir: Option<String>,
    /// The names under which Docker keeps the results.
    pub resources: DockerResources,
    /// The names of the image below the layer that changes user ids.
    pub pre_uid_gid_sync_resources: Option<DockerResources>,
    /// The Compose project, where there is one.
    pub compose_project: Option<ComposeProjectPlan>,
    /// The layers of the configuration.
    pub config_layers: ConfigMergeInput,
    /// The configuration.
    pub config: ResolvedConfig,
    /// Variables of the container whose values are hidden.
    pub sensitive_container_env: SensitiveEnvMap,
    /// Build arguments whose values are hidden.
    pub sensitive_build_args: SensitiveEnvMap,
    /// Variables that Compose puts into the generated file.
    pub compose_interpolation_env: TextMap<String>,
    /// Texts that Compose's output may not show.
    pub compose_interpolation_redactions: Vec<String>,
    /// The users of the container.
    pub effective_users: EffectiveUsers,
    /// Whether user ids are changed.
    pub uid_gid_sync_plan: UidGidSyncPlan,
    /// The folder to work in.
    pub workspace_folder: String,
    /// The mounts.
    pub mounts: Vec<DockerMountSpec>,
    /// Dotfiles that stand in.
    pub dotfile_skeletons: Vec<DotfileSkeletonPlan>,
    /// The ports to forward.
    pub forward_ports: Vec<ResolvedForwardPort>,
    /// Whether ports were left out because nothing stays attached.
    pub ignored_detached_forwarding: bool,
}

/// Which configuration is read.
#[derive(Debug, Clone, Copy, Default)]
pub struct UpConfigOptions {
    /// Whether the user's own configuration is left out.
    pub skip_global_config: bool,
}

/// How images are built.
#[derive(Debug, Clone, Copy, Default)]
pub struct UpBuildOptions {
    /// Whether images are pulled though they are there.
    pub pull: bool,
    /// Whether builds go without their cache.
    pub no_cache: bool,
    /// Whether locked Features are fetched anew.
    pub update_features: bool,
}

/// What is used again.
#[derive(Debug, Clone, Copy, Default)]
pub struct UpReuseOptions {
    /// Whether everything is made anew.
    pub rebuild: bool,
}

/// What the user asked for.
#[derive(Debug, Clone)]
pub struct UpOptions {
    /// The workspace.
    pub workspace: String,
    /// The devcontainer file, if one is named.
    pub config_path: Option<String>,
    /// The configuration of the command line.
    pub cli_layer: ConfigLayer,
    /// Which configuration is read.
    pub config: UpConfigOptions,
    /// How images are built.
    pub build: UpBuildOptions,
    /// What is used again.
    pub reuse: UpReuseOptions,
}

/// The container that a start ended with.
#[derive(Debug, Clone, PartialEq, Eq)]
pub struct UpOutcome {
    /// Its id.
    pub container_id: String,
    /// Its name.
    pub container_name: String,
    /// Whether it was there before.
    pub reused: bool,
}

/// A path below another.
pub open spec fn joined_path(base: Seq<char>, name: Seq<char>) -> Seq<char> {
    if base.len() == 0 || base.last() == '/' {
        base + name
    } else {
        base + "/"@ + name
    }
}

/// A path below another; `name` is relative.
pub fn join_path(base: &str, name: &str) -> (res: String)
    ensures
        res@ == joined_path(base@, name@),
{
    let mut path = base.to_owned();
    let len: usize = base.unicode_len();
    if len > 0 && base.get_char(len - 1) != '/' {
        path.append("/");
    }
    path.append(name);
    path
}

} // verus!
