//! What the hash of a configuration is taken of.

use crate::config::{MountType, ResolvedConfig};
use crate::docker::FeatureLockHashEntry;
use crate::text_map::TextMap;
use crate::types::ComposeHashFile;
use vstd::prelude::*;

verus! {

/// Options of a bind mount.
#[derive(Debug, Clone)]
pub struct MountBindOptionsHashInput {
    /// How mounts below it are seen.
    pub propagation: Option<String>,
    /// Whether mounts below it are left out.
    pub non_recursive: Option<bool>,
    /// Whether a missing source is created.
    pub create_mountpoint: Option<bool>,
    /// Whether only the mount itself is read-only.
    pub read_only_non_recursive: Option<bool>,
    /// Whether all mounts below it must be read-only.
    pub read_only_force_recursive: Option<bool>,
}

/// The driver of a volume.
#[derive(Debug, Clone)]
pub struct MountVolumeDriverConfigHashInput {
    /// The driver.
    pub name: Option<String>,
    /// Its options.
    pub options: Option<TextMap<String>>,
}

/// Options of a volume mount.
#[derive(Debug, Clone)]
pub struct MountVolumeOptionsHashInput {
    /// Whether the image's content is not copied into the volume.
    pub no_copy: Option<bool>,
    /// The labels of the volume.
    pub labels: Option<TextMap<String>>,
    /// The driver.
    pub driver_config: Option<MountVolumeDriverConfigHashInput>,
    /// A path inside the volume.
    pub subpath: Option<String>,
}

/// A mount.
#[derive(Debug, Clone)]
pub struct MountHashInput {
    /// What is mounted.
    pub source: Option<String>,
    /// Where it is mounted.
    pub target: String,
    /// Its type.
    pub mount_type: MountType,
    /// Whether the container may not write to it.
    pub read_only: bool,
    /// How consistent both sides are kept.
    pub consistency: Option<String>,
    /// Options of a bind mount.
    pub bind_options: Option<MountBindOptionsHashInput>,
    /// Options of a volume mount.
    pub volume_options: Option<MountVolumeOptionsHashInput>,
}

/// A build context, by what its files hold.
#[derive(Debug, Clone)]
pub struct BuildHashInput {
    /// A text that changes with the files.
    pub content: String,
}

/// Whether user ids are changed.
#[derive(Debug, Clone)]
pub enum UidGidSyncHashState {
    /// They are.
    Sync,
    /// They are not, for this reason.
    Noop(String),
}

/// Whether user ids are changed, and to what.
#[derive(Debug, Clone)]
pub struct UidGidSyncHashInput {
    /// Whether they are.
    pub state: UidGidSyncHashState,
    /// The user id on the host.
    pub host_uid: u32,
    /// The group id on the host.
    pub host_gid: u32,
    /// Which configured user is changed.
    pub target_kind: Option<String>,
    /// That user.
    pub target_user: Option<String>,
}

/// What the container runs by itself.
#[derive(Debug, Clone)]
pub struct StartupCommandHashInput {
    /// The entrypoint.
    pub entrypoint: Vec<String>,
    /// The command.
    pub command: Vec<String>,
}

/// The file that adapts a Compose project.
#[derive(Debug, Clone)]
pub struct ComposeGeneratedOverrideHashInput {
    /// The file.
    pub path: String,
    /// The hash of what it means.
    pub content_hash: String,
}

/// What the hash of a configuration is taken of.
#[derive(Debug)]
pub struct ConfigHashInput<'a> {
    /// The configuration.
    pub config: &'a ResolvedConfig,
    /// The build context.
    pub build: Option<BuildHashInput>,
    /// Variables of the container whose values are left out.
    pub sensitive_container_env_keys: Vec<String>,
    /// Build arguments whose values are left out.
    pub sensitive_build_arg_keys: Vec<String>,
    /// The Compose files.
    pub compose_files: Vec<ComposeHashFile>,
    /// The Compose model, as JSON text.
    pub compose_canonical_model: Option<String>,
    /// The digests of the Features.
    pub feature_locks: Vec<FeatureLockHashEntry>,
    /// The mounts.
    pub resolved_mounts: Vec<MountHashInput>,
    /// What the container runs by itself.
    pub startup_command: Option<StartupCommandHashInput>,
    /// The file that adapts a Compose project.
    pub compose_generated_override: Option<ComposeGeneratedOverrideHashInput>,
    /// Versions of what the tool itself puts into images.
    pub internal_versions: TextMap<String>,
    /// Whether user ids are changed.
    pub uid_gid_sync: Option<UidGidSyncHashInput>,
}

impl<'a> ConfigHashInput<'a> {
    /// Whether nothing but the configuration goes into the hash.
    pub open spec fn is_bare(self) -> bool {
        &&& self.build is None
        &&& self.sensitive_container_env_keys@.len() == 0
        &&& self.sensitive_build_arg_keys@.len() == 0
        &&& self.compose_files@.len() == 0
        &&& self.compose_canonical_model is None
        &&& self.feature_locks@.len() == 0
        &&& self.resolved_mounts@.len() == 0
        &&& self.startup_command is None
        &&& self.compose_generated_override is None
        &&& self.internal_versions@ == Seq::<(Seq<char>, String)>::empty()
        &&& self.uid_gid_sync is None
    }

    /// The configuration and nothing else.
    pub fn new(config: &'a ResolvedConfig) -> (res: Self)
        ensures
            res.config == config,
            res.is_bare(),
    {
        ConfigHashInput {
            config,
            build: None,
            sensitive_container_env_keys: Vec::new(),
            sensitive_build_arg_keys: Vec::new(),
            compose_files: Vec::new(),
            compose_canonical_model: None,
            feature_locks: Vec::new(),
            resolved_mounts: Vec::new(),
            startup_command: None,
            compose_generated_override: None,
            internal_versions: TextMap::new(),
            uid_gid_sync: None,
        }
    }
}

} // verus!
