//! What the library knows of Docker: mounts, resources, builds and users.

use crate::config::{ConfigLayer, MountType, PortProtocol};
use crate::text::views;
use crate::text_map::TextMap;
use vstd::prelude::*;

verus! {

/// How mounts below a bind mount are seen on both sides.
#[derive(Debug, Clone, Copy, PartialEq, Eq, Structural)]
pub enum MountBindPropagation {
    /// `private`.
    Private,
    /// `rprivate`.
    RPrivate,
    /// `shared`.
    Shared,
    /// `rshared`.
    RShared,
    /// `slave`.
    Slave,
    /// `rslave`.
    RSlave,
}

impl MountBindPropagation {
    /// The word that Docker uses.
    pub open spec fn spec_name(self) -> Seq<char> {
        match self {
            MountBindPropagation::Private => "private"@,
            MountBindPropagation::RPrivate => "rprivate"@,
            MountBindPropagation::Shared => "shared"@,
            MountBindPropagation::RShared => "rshared"@,
            MountBindPropagation::Slave => "slave"@,
            MountBindPropagation::RSlave => "rslave"@,
        }
    }

    /// The word that Docker uses.
    pub fn name(self) -> (res: &'static str)
        ensures
            res@ == self.spec_name(),
    {
        match self {
            MountBindPropagation::Private => "private",
            MountBindPropagation::RPrivate => "rprivate",
            MountBindPropagation::Shared => "shared",
            MountBindPropagation::RShared => "rshared",
            MountBindPropagation::Slave => "slave",
            MountBindPropagation::RSlave => "rslave",
        }
    }
}

/// Options of a bind mount.
#[derive(Debug, Clone, Copy, Default)]
pub struct MountBindOptions {
    /// How mounts below it are seen.
    pub propagation: Option<MountBindPropagation>,
    /// Whether mounts below it are left out.
    pub non_recursive: Option<bool>,
    /// Whether a missing source is created.
    pub create_mountpoint: Option<bool>,
    /// Whether only the mount itself is read-only.
    pub read_only_non_recursive: Option<bool>,
    /// Whether all mounts below it must be read-only.
    pub read_only_force_recursive: Option<bool>,
}

/// The driver of a volume.
#[derive(Debug, Clone, Default)]
pub struct MountVolumeDriverConfig {
    /// The driver.
    pub name: Option<String>,
    /// Its options, in no particular order.
    pub options: Option<Vec<(String, String)>>,
}

/// Options of a volume mount.
#[derive(Debug, Clone, Default)]
pub struct MountVolumeOptions {
    /// Whether the image's content is not copied into the volume.
    pub no_copy: Option<bool>,
    /// The labels of the volume, in no particular order.
    pub labels: Option<Vec<(String, String)>>,
    /// The driver.
    pub driver_config: Option<MountVolumeDriverConfig>,
    /// A path inside the volume.
    pub subpath: Option<String>,
}

/// A mount of a container.
#[derive(Debug, Clone)]
pub struct DockerMountSpec {
    /// What is mounted.
    pub source: Option<String>,
    /// Where it is mounted.
    pub target: String,
    /// Its type.
    pub mount_type: MountType,
    /// Whether the container may not write to it.
    pub read_only: bool,
    /// How consistent both sides are kept.
    pub consistency: Option<String>,
    /// Options of a bind mount.
    pub bind_options: Option<MountBindOptions>,
    /// Options of a volume mount.
    pub volume_options: Option<MountVolumeOptions>,
}

/// Whether a missing host path of a mount may be created.
#[derive(Debug, Clone, Copy, PartialEq, Eq, Structural)]
pub enum HostPathCreateMode {
    /// It may not: nothing on the host is changed.
    ReadOnly,
    /// It may.
    Materialize,
}

/// The names under which Docker keeps what belongs to a workspace.
#[derive(Debug, Clone)]
pub struct DockerResources {
    /// The container.
    pub container_name: String,
    /// The image.
    pub image_tag: String,
    /// The volume of the workspace.
    pub workspace_volume_name: String,
    /// The labels of container and image.
    pub labels: TextMap<String>,
    /// The hash of the configuration.
    pub config_hash: String,
}

/// A build context on disk.
#[derive(Debug, Clone)]
pub struct ResolvedBuildContext {
    /// The directory.
    pub context_dir: String,
    /// The Dockerfile.
    pub dockerfile_path: String,
    /// The Dockerfile as the build names it.
    pub dockerfile_in_context: String,
    /// The file that lists what is left out.
    pub dockerignore_path: Option<String>,
}

/// Options of an image build.
#[derive(Debug, Clone)]
pub struct DockerBuildOptions {
    /// The build arguments.
    pub build_args: TextMap<String>,
    /// Texts that may not appear in the build's output.
    pub build_arg_redactions: Vec<String>,
    /// Further options of the build command.
    pub options: Vec<String>,
    /// The build stage.
    pub target: Option<String>,
    /// Images that serve as cache.
    pub cache_from: Vec<String>,
    /// Whether images are pulled though they are there.
    pub pull: bool,
    /// Whether the build goes without its cache.
    pub no_cache: bool,
}

/// Options of an image build, by what they hold.
pub struct BuildOptionsView {
    /// The build arguments.
    pub build_args: Seq<(Seq<char>, String)>,
    /// Texts that may not appear in the build's output.
    pub build_arg_redactions: Seq<String>,
    /// Further options of the build command.
    pub options: Seq<String>,
    /// The build stage.
    pub target: Option<String>,
    /// Images that serve as cache.
    pub cache_from: Seq<String>,
    /// Whether images are pulled though they are there.
    pub pull: bool,
    /// Whether the build goes without its cache.
    pub no_cache: bool,
}

impl View for DockerBuildOptions {
    type V = BuildOptionsView;

    open spec fn view(&self) -> BuildOptionsView {
        BuildOptionsView {
            build_args: self.build_args@,
            build_arg_redactions: self.build_arg_redactions@,
            options: self.options@,
            target: self.target,
            cache_from: self.cache_from@,
            pull: self.pull,
            no_cache: self.no_cache,
        }
    }
}

impl DockerBuildOptions {
    /// A copy of the options.
    pub fn copied(&self) -> (res: Self)
        ensures
            res@ == self@,
    {
        DockerBuildOptions {
            build_args: self.build_args.copied(),
            build_arg_redactions: copy_texts(&self.build_arg_redactions),
            options: copy_texts(&self.options),
            target: copy_optional_text(&self.target),
            cache_from: copy_texts(&self.cache_from),
            pull: self.pull,
            no_cache: self.no_cache,
        }
    }

    /// Whether nothing is set.
    pub open spec fn is_plain(self) -> bool {
        &&& self.build_args@.len() == 0
        &&& self.build_arg_redactions@.len() == 0
        &&& self.options@.len() == 0
        &&& self.target is None
        &&& self.cache_from@.len() == 0
        &&& !self.pull
        &&& !self.no_cache
    }
}

impl Default for DockerBuildOptions {
    fn default() -> (res: Self)
        ensures
            res.is_plain(),
    {
        DockerBuildOptions {
            build_args: TextMap::new(),
            build_arg_redactions: Vec::new(),
            options: Vec::new(),
            target: None,
            cache_from: Vec::new(),
            pull: false,
            no_cache: false,
        }
    }
}

/// A locked Feature.
#[derive(Debug, Clone)]
pub struct FeatureLockHashEntry {
    /// The Feature.
    pub feature_id: String,
    /// Its digest.
    pub digest: String,
}

/// The Features of a plan, fetched and put in order.
#[derive(Debug, Clone)]
pub struct PreparedFeatureInstallPlan {
    /// The digests that were used.
    pub lock_entries: Vec<FeatureLockHashEntry>,
}

/// What fetching the Features of a plan came to.
#[derive(Debug, Clone)]
pub struct FetchedFeatures {
    /// What the Features bring to the configuration.
    pub metadata_layers: Vec<ConfigLayer>,
    /// The Features.
    pub install: PreparedFeatureInstallPlan,
}

/// A dotfile that stands in until the real one is there.
#[derive(Debug, Clone)]
pub struct DotfileSkeletonPlan {
    /// The file in the container.
    pub path: String,
}

/// A port that the tool forwards, with its host port chosen.
#[derive(Debug, Clone, PartialEq, Eq)]
pub struct ResolvedForwardPort {
    /// The Compose service, if one is named.
    pub service: Option<String>,
    /// The port in the container.
    pub container: u16,
    /// The port on the host that was asked for.
    pub requested_host: u16,
    /// The port on the host.
    pub host: u16,
    /// The address on the host.
    pub host_ip: String,
    /// The protocol.
    pub protocol: PortProtocol,
    /// Whether no other port on the host will do.
    pub require_local: bool,
    /// A name for the port.
    pub label: Option<String>,
}

/// A host port that is taken.
#[derive(Debug, Clone)]
pub struct HostPortReservation {
    /// The address.
    pub host_ip: String,
    /// The port.
    pub host: u16,
}

/// A secret value of the environment and the texts to hide.
#[derive(Debug, Clone)]
pub struct SensitiveEnvValue {
    /// The value.
    pub value: String,
    /// The texts that may not be shown.
    pub redactions: Vec<String>,
}

/// Variables whose values come from the host's environment.
pub type SensitiveEnvMap = TextMap<SensitiveEnvValue>;

/// All texts to hide, in the order of the variables.
pub open spec fn redactions_of(entries: Seq<(Seq<char>, SensitiveEnvValue)>) -> Seq<Seq<char>>
    decreases entries.len(),
{
    if entries.len() == 0 {
        Seq::empty()
    } else {
        redactions_of(entries.drop_last()) + views(entries.last().1.redactions@)
    }
}

/// All texts to hide, in the order of the variables.
pub fn redaction_values(sensitive: &SensitiveEnvMap) -> (res: Vec<String>)
    ensures
        views(res@) == redactions_of(sensitive@),
{
    let mut values: Vec<String> = Vec::new();
    let mut i: usize = 0;
    assert(sensitive@.take(0) =~= Seq::empty());
    assert(views(values@) =~= redactions_of(sensitive@.take(0)));
    while i < sensitive.len()
        invariant
            i <= sensitive@.len(),
            views(values@) == redactions_of(sensitive@.take(i as int)),
        decreases sensitive@.len() - i,
    {
        extend_texts(&mut values, &sensitive.value_at(i).redactions);
        assert(sensitive@.take(i as int + 1).drop_last() =~= sensitive@.take(i as int));
        i = i + 1;
    }
    assert(sensitive@.take(sensitive@.len() as int) =~= sensitive@);
    values
}

/// Copies texts to the end of a list.
pub fn extend_texts(values: &mut Vec<String>, more: &Vec<String>)
    ensures
        final(values)@ == old(values)@ + more@,
        views(final(values)@) == views(old(values)@) + views(more@),
{
    let ghost before = values@;
    let mut i: usize = 0;
    while i < more.len()
        invariant
            i <= more@.len(),
            values@ == before + more@.take(i as int),
        decreases more@.len() - i,
    {
        values.push(more[i].clone());
        assert(values@ =~= before + more@.take(i as int + 1));
        i = i + 1;
    }
    assert(values@ =~= before + more@);
    assert(views(values@) =~= views(before) + views(more@));
}

/// A copy of a list of texts.
pub fn copy_texts(values: &Vec<String>) -> (res: Vec<String>)
    ensures
        res@ == values@,
{
    let mut res: Vec<String> = Vec::new();
    extend_texts(&mut res, values);
    assert(res@ =~= values@);
    res
}

/// A copy of an optional text.
pub fn copy_optional_text(value: &Option<String>) -> (res: Option<String>)
    ensures
        res == *value,
{
    match value {
        Some(text) => Some(text.clone()),
        None => None,
    }
}

/// Where a user of the container comes from.
#[derive(Debug, Clone, Copy, PartialEq, Eq, Structural)]
pub enum RemoteUserSource {
    /// The devcontainer file.
    Devcontainer,
    /// The metadata of image and Features.
    ImageMetadata,
    /// The service of the Compose project.
    ComposeService,
    /// The configuration of the image.
    ImageConfig,
    /// Nowhere: root.
    Root,
}

/// A user and where it comes from.
#[derive(Debug, Clone)]
pub struct EffectiveUser {
    /// The user.
    pub user: String,
    /// Where it comes from.
    pub source: RemoteUserSource,
}

/// The users of a container.
#[derive(Debug, Clone)]
pub struct EffectiveUsers {
    /// The user that the container runs as.
    pub container_user: EffectiveUser,
    /// The user that tools run as.
    pub remote_user: EffectiveUser,
}

impl EffectiveUsers {
    /// Whether both users are root for want of any other.
    pub open spec fn is_root(self) -> bool {
        &&& self.container_user.user@ == "root"@
        &&& self.container_user.source == RemoteUserSource::Root
        &&& self.remote_user.user@ == "root"@
        &&& self.remote_user.source == RemoteUserSource::Root
    }

    /// Root for both.
    pub fn root() -> (res: Self)
        ensures
            res.is_root(),
    {
        EffectiveUsers {
            container_user: EffectiveUser {
                user: "root".to_owned(),
                source: RemoteUserSource::Root,
            },
            remote_user: EffectiveUser { user: "root".to_owned(), source: RemoteUserSource::Root },
        }
    }
}

/// The ids of the user of the host.
#[derive(Debug, Clone, Copy, PartialEq, Eq, Structural)]
pub struct HostUserIds {
    /// The user id.
    pub uid: u32,
    /// The group id.
    pub gid: u32,
}

/// Whether the host runs Linux.
#[derive(Debug, Clone, Copy, PartialEq, Eq, Structural)]
pub enum HostPlatform {
    /// It does.
    Linux,
    /// It does not.
    NonLinux,
}

/// The host as far as planning depends on it.
#[derive(Debug, Clone, Copy)]
pub struct HostEnvironment {
    /// Its platform.
    pub platform: HostPlatform,
    /// The ids of the user.
    pub ids: HostUserIds,
}

/// Which configured user has its ids changed.
#[derive(Debug, Clone, Copy, PartialEq, Eq, Structural)]
pub enum UidGidSyncTargetKind {
    /// The user that tools run as.
    RemoteUser,
    /// The user that the container runs as.
    ContainerUser,
}

/// The user whose ids are changed, and to what.
#[derive(Debug, Clone)]
pub struct UidGidSyncTarget {
    /// Which configured user it is.
    pub kind: UidGidSyncTargetKind,
    /// The user as it is configured.
    pub user: String,
    /// The ids that it is given.
    pub host: HostUserIds,
}

/// A user of the image.
#[derive(Debug, Clone)]
pub struct ResolvedUserIds {
    /// The name.
    pub name: String,
    /// The user id.
    pub uid: u32,
    /// The group id.
    pub gid: u32,
}

/// Why no ids are changed.
#[derive(Debug, Clone, Copy, PartialEq, Eq, Structural)]
pub enum UidGidSyncNoopReason {
    /// It is switched off.
    Disabled,
    /// The host does not run Linux.
    NonLinuxHost,
    /// No user is configured.
    NoExplicitUser,
    /// The configured user is a number that the image does not know.
    NumericUserWithoutPasswd,
    /// The user is root.
    Root,
}

/// Whether and how the ids of a user follow those of the host user.
#[derive(Debug, Clone)]
pub enum UidGidSyncPlan {
    /// The ids are changed.
    Sync {
        /// The user, and the ids that it is given.
        target: UidGidSyncTarget,
        /// The user as the image has it.
        container: ResolvedUserIds,
    },
    /// Nothing is changed.
    Noop {
        /// Why not.
        reason: UidGidSyncNoopReason,
    },
}

impl Default for UidGidSyncPlan {
    fn default() -> (res: Self)
        ensures
            res == (UidGidSyncPlan::Noop { reason: UidGidSyncNoopReason::Disabled }),
    {
        UidGidSyncPlan::Noop { reason: UidGidSyncNoopReason::Disabled }
    }
}

/// A user of the image with its home.
#[derive(Debug, Clone)]
pub struct ResolvedRemoteUser {
    /// The user.
    pub user: String,
    /// Its home.
    pub home: Option<String>,
}

/// What a container runs by itself.
#[derive(Debug, Clone)]
pub struct ImageStartupCommand {
    /// The entrypoint.
    pub entrypoint: Vec<String>,
    /// The command.
    pub command: Vec<String>,
}

/// The driver of a volume, by what it holds.
pub struct DriverView {
    /// The driver.
    pub name: Option<String>,
    /// Its options.
    pub options: Option<Seq<(String, String)>>,
}

/// Options of a volume mount, by what they hold.
pub struct VolumeOptionsView {
    /// Whether the image's content is not copied into the volume.
    pub no_copy: Option<bool>,
    /// The labels of the volume.
    pub labels: Option<Seq<(String, String)>>,
    /// The driver.
    pub driver_config: Option<DriverView>,
    /// A path inside the volume.
    pub subpath: Option<String>,
}

/// A mount, by what it holds.
pub struct MountView {
    /// What is mounted.
    pub source: Option<String>,
    /// Where it is mounted.
    pub target: String,
    /// Its type.
    pub mount_type: MountType,
    /// Whether the container may not write to it.
    pub read_only: bool,
    /// How consistent both sides are kept.
    pub consistency: Option<String>,
    /// Options of a bind mount.
    pub bind_options: Option<MountBindOptions>,
    /// Options of a volume mount.
    pub volume_options: Option<VolumeOptionsView>,
}

/// Optional pairs as a list.
pub open spec fn pair_list(pairs: Option<Vec<(String, String)>>) -> Option<Seq<(String, String)>> {
    match pairs {
        Some(pairs) => Some(pairs@),
        None => None,
    }
}

impl View for MountVolumeOptions {
    type V = VolumeOptionsView;

    open spec fn view(&self) -> VolumeOptionsView {
        VolumeOptionsView {
            no_copy: self.no_copy,
            labels: pair_list(self.labels),
            driver_config: match self.driver_config {
                Some(driver) => Some(
                    DriverView { name: driver.name, options: pair_list(driver.options) },
                ),
                None => None,
            },
            subpath: self.subpath,
        }
    }
}

impl View for DockerMountSpec {
    type V = MountView;

    open spec fn view(&self) -> MountView {
        MountView {
            source: self.source,
            target: self.target,
            mount_type: self.mount_type,
            read_only: self.read_only,
            consistency: self.consistency,
            bind_options: self.bind_options,
            volume_options: match self.volume_options {
                Some(options) => Some(options@),
                None => None,
            },
        }
    }
}

/// Mounts, by what they hold.
pub open spec fn mount_views(mounts: Seq<DockerMountSpec>) -> Seq<MountView> {
    mounts.map_values(|mount: DockerMountSpec| mount@)
}

fn copy_pairs(pairs: &Option<Vec<(String, String)>>) -> (res: Option<Vec<(String, String)>>)
    ensures
        pair_list(res) == pair_list(*pairs),
{
    match pairs {
        None => None,
        Some(pairs) => {
            let mut copies: Vec<(String, String)> = Vec::new();
            let mut i: usize = 0;
            while i < pairs.len()
                invariant
                    i <= pairs@.len(),
                    copies@ == pairs@.take(i as int),
                decreases pairs@.len() - i,
            {
                copies.push((pairs[i].0.clone(), pairs[i].1.clone()));
                assert(copies@ =~= pairs@.take(i as int + 1));
                i = i + 1;
            }
            assert(copies@ =~= pairs@);
            Some(copies)
        },
    }
}

impl DockerMountSpec {
    /// A copy of the mount.
    pub fn copied(&self) -> (res: Self)
        ensures
            res@ == self@,
    {
        DockerMountSpec {
            source: copy_optional_text(&self.source),
            target: self.target.clone(),
            mount_type: self.mount_type,
            read_only: self.read_only,
            consistency: copy_optional_text(&self.consistency),
            bind_options: self.bind_options,
            volume_options: match &self.volume_options {
                Some(options) => Some(
                    MountVolumeOptions {
                        no_copy: options.no_copy,
                        labels: copy_pairs(&options.labels),
                        driver_config: match &options.driver_config {
                            Some(driver) => Some(
                                MountVolumeDriverConfig {
                                    name: copy_optional_text(&driver.name),
                                    options: copy_pairs(&driver.options),
                                },
                            ),
                            None => None,
                        },
                        subpath: copy_optional_text(&options.subpath),
                    },
                ),
                None => None,
            },
        }
    }
}

} // verus!
