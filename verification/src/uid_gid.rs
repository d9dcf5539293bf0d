//! Users of the container, and the user ids that follow those of the host.

use crate::config::{ConfigLayer, ConfigMergeInput};
use crate::docker::{
    DockerResources, HostEnvironment, HostPlatform, UidGidSyncNoopReason, UidGidSyncPlan,
    UidGidSyncTargetKind,
};
use crate::hash_input::{UidGidSyncHashInput, UidGidSyncHashState};
use crate::text::opt_view;
use crate::types::UpPlan;
use vstd::prelude::*;

verus! {

/// The users that configuration, metadata and image name.
#[derive(Debug, Clone, Copy)]
pub struct EffectiveUserResolveInput<'a> {
    /// The user that tools run as, of the devcontainer file.
    pub devcontainer_remote_user: Option<&'a str>,
    /// The user that the container runs as, of the devcontainer file.
    pub devcontainer_container_user: Option<&'a str>,
    /// The user that tools run as, of image and Features.
    pub image_metadata_remote_user: Option<&'a str>,
    /// The user that the container runs as, of image and Features.
    pub image_metadata_container_user: Option<&'a str>,
    /// The user of the image's configuration.
    pub image_config_user: Option<&'a str>,
}

/// The characters of an optional borrowed text.
pub open spec fn borrowed_view(value: Option<&str>) -> Option<Seq<char>> {
    match value {
        Some(text) => Some(text@),
        None => None,
    }
}

/// The user that tools run as, of one layer.
pub open spec fn remote_user_of(layer: ConfigLayer) -> Option<Seq<char>> {
    match layer.devcontainer {
        Some(devcontainer) => opt_view(devcontainer.remote_user),
        None => None,
    }
}

/// The user that the container runs as, of one layer.
pub open spec fn container_user_of(layer: ConfigLayer) -> Option<Seq<char>> {
    match layer.devcontainer {
        Some(devcontainer) => opt_view(devcontainer.container_user),
        None => None,
    }
}

/// Whether user ids follow those of the host, of one layer.
pub open spec fn update_uid_of(layer: ConfigLayer) -> Option<bool> {
    match layer.devcontainer {
        Some(devcontainer) => devcontainer.update_remote_user_uid,
        None => None,
    }
}

/// What the last layer that sets something sets it to.
pub open spec fn last_set<A>(
    layers: Seq<ConfigLayer>,
    setting: spec_fn(ConfigLayer) -> Option<A>,
) -> Option<A>
    decreases layers.len(),
{
    if layers.len() == 0 {
        None
    } else if setting(layers.last()) is Some {
        setting(layers.last())
    } else {
        last_set(layers.drop_last(), setting)
    }
}

/// What stands in front does not matter where something behind it is set.
pub(crate) proof fn last_set_of_parts<A>(
    front: Seq<ConfigLayer>,
    back: Seq<ConfigLayer>,
    setting: spec_fn(ConfigLayer) -> Option<A>,
)
    ensures
        last_set(front + back, setting) == if last_set(back, setting) is Some {
            last_set(back, setting)
        } else {
            last_set(front, setting)
        },
    decreases back.len(),
{
    if back.len() == 0 {
        assert(front + back =~= front);
    } else {
        assert((front + back).drop_last() =~= front + back.drop_last());
        last_set_of_parts(front, back.drop_last(), setting);
    }
}

/// The layers of image and Features, weakest first.
pub open spec fn metadata_layers(layers: ConfigMergeInput) -> Seq<ConfigLayer> {
    layers.image_metadata@ + layers.feature_metadata@
}

/// A layer that may be absent, as a list.
pub open spec fn optional_layer(layer: Option<ConfigLayer>) -> Seq<ConfigLayer> {
    match layer {
        Some(layer) => seq![layer],
        None => Seq::empty(),
    }
}

/// All layers, weakest first.
pub open spec fn all_layers(layers: ConfigMergeInput) -> Seq<ConfigLayer> {
    metadata_layers(layers) + optional_layer(layers.global) + optional_layer(layers.devcontainer)
        + optional_layer(layers.project) + optional_layer(layers.cli)
}

/// The user that tools run as, of one layer.
pub fn layer_remote_user(layer: &ConfigLayer) -> (res: Option<&str>)
    ensures
        borrowed_view(res) == remote_user_of(*layer),
{
    match &layer.devcontainer {
        Some(devcontainer) => match &devcontainer.remote_user {
            Some(user) => Some(user.as_str()),
            None => None,
        },
        None => None,
    }
}

/// The user that the container runs as, of one layer.
pub fn layer_container_user(layer: &ConfigLayer) -> (res: Option<&str>)
    ensures
        borrowed_view(res) == container_user_of(*layer),
{
    match &layer.devcontainer {
        Some(devcontainer) => match &devcontainer.container_user {
            Some(user) => Some(user.as_str()),
            None => None,
        },
        None => None,
    }
}

fn last_remote_user(layers: &Vec<ConfigLayer>) -> (res: Option<&str>)
    ensures
        borrowed_view(res) == last_set(layers@, |layer: ConfigLayer| remote_user_of(layer)),
{
    let ghost setting = |layer: ConfigLayer| remote_user_of(layer);
    let mut i: usize = layers.len();
    assert(layers@.take(i as int) =~= layers@);
    while i > 0
        invariant
            i <= layers@.len(),
            setting == (|layer: ConfigLayer| remote_user_of(layer)),
            last_set(layers@, setting) == last_set(layers@.take(i as int), setting),
        decreases i,
    {
        assert(layers@.take(i as int).drop_last() =~= layers@.take(i - 1));
        let user = layer_remote_user(&layers[i - 1]);
        if user.is_some() {
            return user;
        }
        i = i - 1;
    }
    None
}

fn last_container_user(layers: &Vec<ConfigLayer>) -> (res: Option<&str>)
    ensures
        borrowed_view(res) == last_set(layers@, |layer: ConfigLayer| container_user_of(layer)),
{
    let ghost setting = |layer: ConfigLayer| container_user_of(layer);
    let mut i: usize = layers.len();
    assert(layers@.take(i as int) =~= layers@);
    while i > 0
        invariant
            i <= layers@.len(),
            setting == (|layer: ConfigLayer| container_user_of(layer)),
            last_set(layers@, setting) == last_set(layers@.take(i as int), setting),
        decreases i,
    {
        assert(layers@.take(i as int).drop_last() =~= layers@.take(i - 1));
        let user = layer_container_user(&layers[i - 1]);
        if user.is_some() {
            return user;
        }
        i = i - 1;
    }
    None
}

/// The user that tools run as, of image and Features.
pub open spec fn metadata_remote_user(layers: ConfigMergeInput) -> Option<Seq<char>> {
    last_set(metadata_layers(layers), |layer: ConfigLayer| remote_user_of(layer))
}

/// The user that the container runs as, of image and Features.
pub open spec fn metadata_container_user(layers: ConfigMergeInput) -> Option<Seq<char>> {
    last_set(metadata_layers(layers), |layer: ConfigLayer| container_user_of(layer))
}

/// The user that tools run as, of image and Features: the last one that is
/// set.
pub fn merged_metadata_remote_user(config_layers: &ConfigMergeInput) -> (res: Option<&str>)
    ensures
        borrowed_view(res) == metadata_remote_user(*config_layers),
{
    proof {
        last_set_of_parts(
            config_layers.image_metadata@,
            config_layers.feature_metadata@,
            |layer: ConfigLayer| remote_user_of(layer),
        );
    }
    let user = last_remote_user(&config_layers.feature_metadata);
    if user.is_some() {
        user
    } else {
        last_remote_user(&config_layers.image_metadata)
    }
}

/// The user that the container runs as, of image and Features: the last one
/// that is set.
pub fn merged_metadata_container_user(config_layers: &ConfigMergeInput) -> (res: Option<&str>)
    ensures
        borrowed_view(res) == metadata_container_user(*config_layers),
{
    proof {
        last_set_of_parts(
            config_layers.image_metadata@,
            config_layers.feature_metadata@,
            |layer: ConfigLayer| container_user_of(layer),
        );
    }
    let user = last_container_user(&config_layers.feature_metadata);
    if user.is_some() {
        user
    } else {
        last_container_user(&config_layers.image_metadata)
    }
}

/// The user that tools run as, of the devcontainer file.
pub open spec fn devcontainer_remote_user_of(layers: ConfigMergeInput) -> Option<Seq<char>> {
    match layers.devcontainer {
        Some(layer) => remote_user_of(layer),
        None => None,
    }
}

/// The user that the container runs as, of the devcontainer file.
pub open spec fn devcontainer_container_user_of(layers: ConfigMergeInput) -> Option<Seq<char>> {
    match layers.devcontainer {
        Some(layer) => container_user_of(layer),
        None => None,
    }
}

/// The users that the layers name, before variables were replaced.
pub fn effective_user_input_from_config_layers(config_layers: &ConfigMergeInput) -> (res:
    EffectiveUserResolveInput<'_>)
    ensures
        borrowed_view(res.devcontainer_remote_user) == devcontainer_remote_user_of(*config_layers),
        borrowed_view(res.devcontainer_container_user) == devcontainer_container_user_of(
            *config_layers,
        ),
        borrowed_view(res.image_metadata_remote_user) == metadata_remote_user(*config_layers),
        borrowed_view(res.image_metadata_container_user) == metadata_container_user(*config_layers),
        res.image_config_user is None,
{
    EffectiveUserResolveInput {
        devcontainer_remote_user: match &config_layers.devcontainer {
            Some(layer) => layer_remote_user(layer),
            None => None,
        },
        devcontainer_container_user: match &config_layers.devcontainer {
            Some(layer) => layer_container_user(layer),
            None => None,
        },
        image_metadata_remote_user: merged_metadata_remote_user(config_layers),
        image_metadata_container_user: merged_metadata_container_user(config_layers),
        image_config_user: None,
    }
}

fn borrowed_text(value: &Option<String>) -> (res: Option<&str>)
    ensures
        borrowed_view(res) == opt_view(*value),
{
    match value {
        Some(text) => Some(text.as_str()),
        None => None,
    }
}

/// The users that a plan names, with their variables replaced: the value is
/// the plan's, and it is named where the layers name one. A user of the
/// devcontainer file hides that of image and Features.
pub fn effective_user_input_from_plan(plan: &UpPlan) -> (res: EffectiveUserResolveInput<'_>)
    ensures
        borrowed_view(res.devcontainer_remote_user) == if devcontainer_remote_user_of(
            plan.config_layers,
        ) is Some {
            opt_view(plan.config.devcontainer.remote_user)
        } else {
            None
        },
        borrowed_view(res.image_metadata_remote_user) == if borrowed_view(
            res.devcontainer_remote_user,
        ) is None && metadata_remote_user(plan.config_layers) is Some {
            opt_view(plan.config.devcontainer.remote_user)
        } else {
            None
        },
        borrowed_view(res.devcontainer_container_user) == if devcontainer_container_user_of(
            plan.config_layers,
        ) is Some {
            opt_view(plan.config.devcontainer.container_user)
        } else {
            None
        },
        borrowed_view(res.image_metadata_container_user) == if borrowed_view(
            res.devcontainer_container_user,
        ) is None && metadata_container_user(plan.config_layers) is Some {
            opt_view(plan.config.devcontainer.container_user)
        } else {
            None
        },
        res.image_config_user is None,
{
    let layer_input = effective_user_input_from_config_layers(&plan.config_layers);
    let devcontainer_remote_user = if layer_input.devcontainer_remote_user.is_some() {
        borrowed_text(&plan.config.devcontainer.remote_user)
    } else {
        None
    };
    let image_metadata_remote_user = if devcontainer_remote_user.is_none()
        && layer_input.image_metadata_remote_user.is_some() {
        borrowed_text(&plan.config.devcontainer.remote_user)
    } else {
        None
    };
    let devcontainer_container_user = if layer_input.devcontainer_container_user.is_some() {
        borrowed_text(&plan.config.devcontainer.container_user)
    } else {
        None
    };
    let image_metadata_container_user = if devcontainer_container_user.is_none()
        && layer_input.image_metadata_container_user.is_some() {
        borrowed_text(&plan.config.devcontainer.container_user)
    } else {
        None
    };
    EffectiveUserResolveInput {
        devcontainer_remote_user,
        devcontainer_container_user,
        image_metadata_remote_user,
        image_metadata_container_user,
        image_config_user: None,
    }
}

/// The name of the configured user that is changed.
pub open spec fn target_kind_name(kind: UidGidSyncTargetKind) -> Seq<char> {
    match kind {
        UidGidSyncTargetKind::RemoteUser => "remoteUser"@,
        UidGidSyncTargetKind::ContainerUser => "containerUser"@,
    }
}

/// The name of the configured user that is changed.
pub fn uid_gid_sync_target_kind_name(kind: UidGidSyncTargetKind) -> (res: &'static str)
    ensures
        res@ == target_kind_name(kind),
{
    match kind {
        UidGidSyncTargetKind::RemoteUser => "remoteUser",
        UidGidSyncTargetKind::ContainerUser => "containerUser",
    }
}

/// The name of the reason why no ids are changed.
pub open spec fn noop_reason_name(reason: UidGidSyncNoopReason) -> Seq<char> {
    match reason {
        UidGidSyncNoopReason::Disabled => "disabled"@,
        UidGidSyncNoopReason::NonLinuxHost => "nonLinuxHost"@,
        UidGidSyncNoopReason::NoExplicitUser => "noExplicitUser"@,
        UidGidSyncNoopReason::NumericUserWithoutPasswd => "numericUserWithoutPasswd"@,
        UidGidSyncNoopReason::Root => "root"@,
    }
}

/// The name of the reason why no ids are changed.
pub fn uid_gid_sync_noop_reason_name(reason: UidGidSyncNoopReason) -> (res: &'static str)
    ensures
        res@ == noop_reason_name(reason),
{
    match reason {
        UidGidSyncNoopReason::Disabled => "disabled",
        UidGidSyncNoopReason::NonLinuxHost => "nonLinuxHost",
        UidGidSyncNoopReason::NoExplicitUser => "noExplicitUser",
        UidGidSyncNoopReason::NumericUserWithoutPasswd => "numericUserWithoutPasswd",
        UidGidSyncNoopReason::Root => "root",
    }
}

/// Whether a hash input says that no ids are changed, and why.
pub open spec fn holds_noop(
    input: UidGidSyncHashInput,
    reason: UidGidSyncNoopReason,
    host: HostEnvironment,
) -> bool {
    &&& input.state matches UidGidSyncHashState::Noop(name) && name@ == noop_reason_name(reason)
    &&& input.host_uid == host.ids.uid
    &&& input.host_gid == host.ids.gid
    &&& input.target_kind is None
    &&& input.target_user is None
}

/// Whether an optional hash input holds what a plan says of user ids.
pub open spec fn holds_sync_plan(
    input: Option<UidGidSyncHashInput>,
    plan: UidGidSyncPlan,
    update_remote_user_uid: bool,
    host: HostEnvironment,
) -> bool {
    if !update_remote_user_uid || host.platform != HostPlatform::Linux {
        input is None
    } else {
        &&& input is Some
        &&& match plan {
            UidGidSyncPlan::Sync { target, container: _ } => {
                &&& input->0.state is Sync
                &&& input->0.host_uid == target.host.uid
                &&& input->0.host_gid == target.host.gid
                &&& opt_view(input->0.target_kind) == Some(target_kind_name(target.kind))
                &&& input->0.target_user == Some(target.user)
            },
            UidGidSyncPlan::Noop { reason } => holds_noop(input->0, reason, host),
        }
    }
}

/// What a plan says of user ids, for the hash; nothing where ids are not
/// followed or the host does not run Linux.
pub fn uid_gid_sync_hash_input(
    plan: &UidGidSyncPlan,
    update_remote_user_uid: bool,
    host: HostEnvironment,
) -> (res: Option<UidGidSyncHashInput>)
    ensures
        holds_sync_plan(res, *plan, update_remote_user_uid, host),
{
    if !update_remote_user_uid || host.platform != HostPlatform::Linux {
        return None;
    }
    match plan {
        UidGidSyncPlan::Sync { target, container: _ } => Some(
            UidGidSyncHashInput {
                state: UidGidSyncHashState::Sync,
                host_uid: target.host.uid,
                host_gid: target.host.gid,
                target_kind: Some(uid_gid_sync_target_kind_name(target.kind).to_owned()),
                target_user: Some(target.user.clone()),
            },
        ),
        UidGidSyncPlan::Noop { reason } => Some(
            UidGidSyncHashInput {
                state: UidGidSyncHashState::Noop(uid_gid_sync_noop_reason_name(*reason).to_owned()),
                host_uid: host.ids.uid,
                host_gid: host.ids.gid,
                target_kind: None,
                target_user: None,
            },
        ),
    }
}

/// Whether neither the devcontainer file nor the metadata names any user.
pub open spec fn names_no_user(layers: ConfigMergeInput) -> bool {
    &&& devcontainer_remote_user_of(layers) is None
    &&& metadata_remote_user(layers) is None
    &&& devcontainer_container_user_of(layers) is None
    &&& metadata_container_user(layers) is None
}

/// Whether an optional hash input holds what the layers alone say of user
/// ids.
pub open spec fn holds_static_sync(
    input: Option<UidGidSyncHashInput>,
    layers: ConfigMergeInput,
    update_remote_user_uid: bool,
    host: HostEnvironment,
) -> bool {
    if update_remote_user_uid && host.platform == HostPlatform::Linux && names_no_user(layers) {
        input is Some && holds_noop(input->0, UidGidSyncNoopReason::NoExplicitUser, host)
    } else {
        input is None
    }
}

/// What the layers alone say of user ids, for the hash: something only where
/// no user is named.
pub fn static_uid_gid_sync_hash_input(
    config_layers: &ConfigMergeInput,
    update_remote_user_uid: bool,
    host: HostEnvironment,
) -> (res: Option<UidGidSyncHashInput>)
    ensures
        holds_static_sync(res, *config_layers, update_remote_user_uid, host),
{
    if !update_remote_user_uid || host.platform != HostPlatform::Linux {
        return None;
    }
    let input = effective_user_input_from_config_layers(config_layers);
    if input.devcontainer_remote_user.is_some() || input.image_metadata_remote_user.is_some()
        || input.devcontainer_container_user.is_some()
        || input.image_metadata_container_user.is_some() {
        return None;
    }
    Some(
        UidGidSyncHashInput {
            state: UidGidSyncHashState::Noop(
                uid_gid_sync_noop_reason_name(UidGidSyncNoopReason::NoExplicitUser).to_owned(),
            ),
            host_uid: host.ids.uid,
            host_gid: host.ids.gid,
            target_kind: None,
            target_user: None,
        },
    )
}

fn last_update_uid(layers: &Vec<ConfigLayer>) -> (res: Option<bool>)
    ensures
        res == last_set(layers@, |layer: ConfigLayer| update_uid_of(layer)),
{
    let ghost setting = |layer: ConfigLayer| update_uid_of(layer);
    let mut i: usize = layers.len();
    assert(layers@.take(i as int) =~= layers@);
    while i > 0
        invariant
            i <= layers@.len(),
            setting == (|layer: ConfigLayer| update_uid_of(layer)),
            last_set(layers@, setting) == last_set(layers@.take(i as int), setting),
        decreases i,
    {
        assert(layers@.take(i as int).drop_last() =~= layers@.take(i - 1));
        let update = layer_update_uid(&layers[i - 1]);
        if update.is_some() {
            return update;
        }
        i = i - 1;
    }
    None
}

fn layer_update_uid(layer: &ConfigLayer) -> (res: Option<bool>)
    ensures
        res == update_uid_of(*layer),
{
    match &layer.devcontainer {
        Some(devcontainer) => devcontainer.update_remote_user_uid,
        None => None,
    }
}

fn optional_update_uid(layer: &Option<ConfigLayer>) -> (res: Option<bool>)
    ensures
        res == last_set(optional_layer(*layer), |layer: ConfigLayer| update_uid_of(layer)),
{
    proof {
        let setting = |layer: ConfigLayer| update_uid_of(layer);
        let list = optional_layer(*layer);
        if list.len() > 0 {
            assert(last_set(list.drop_last(), setting) is None);
        }
    }
    match layer {
        Some(layer) => layer_update_uid(layer),
        None => None,
    }
}

/// Whether user ids follow those of the host, where any layer says so: the
/// strongest one counts.
pub fn explicit_update_remote_user_uid(config_layers: &ConfigMergeInput) -> (res: Option<bool>)
    ensures
        res == last_set(all_layers(*config_layers), |layer: ConfigLayer| update_uid_of(layer)),
{
    proof {
        let setting = |layer: ConfigLayer| update_uid_of(layer);
        let a = config_layers.image_metadata@;
        let b = config_layers.feature_metadata@;
        let c = optional_layer(config_layers.global);
        let d = optional_layer(config_layers.devcontainer);
        let e = optional_layer(config_layers.project);
        let f = optional_layer(config_layers.cli);
        last_set_of_parts(a, b, setting);
        last_set_of_parts(a + b, c, setting);
        last_set_of_parts(a + b + c, d, setting);
        last_set_of_parts(a + b + c + d, e, setting);
        last_set_of_parts(a + b + c + d + e, f, setting);
    }
    let cli = optional_update_uid(&config_layers.cli);
    if cli.is_some() {
        return cli;
    }
    let project = optional_update_uid(&config_layers.project);
    if project.is_some() {
        return project;
    }
    let devcontainer = optional_update_uid(&config_layers.devcontainer);
    if devcontainer.is_some() {
        return devcontainer;
    }
    let global = optional_update_uid(&config_layers.global);
    if global.is_some() {
        return global;
    }
    let features = last_update_uid(&config_layers.feature_metadata);
    if features.is_some() {
        return features;
    }
    last_update_uid(&config_layers.image_metadata)
}

/// The warning about user ids that do not follow those of the host though
/// that was asked for.
pub open spec fn sync_warning(
    layers: ConfigMergeInput,
    plan: UidGidSyncPlan,
    update_remote_user_uid: bool,
    host_platform: HostPlatform,
) -> Option<Seq<char>> {
    if host_platform != HostPlatform::Linux {
        if last_set(all_layers(layers), |layer: ConfigLayer| update_uid_of(layer)) == Some(true) {
            Some("UID/GID sync is only supported on Linux hosts; skipping updateRemoteUserUID"@)
        } else {
            None
        }
    } else if update_remote_user_uid && plan == (UidGidSyncPlan::Noop {
        reason: UidGidSyncNoopReason::NumericUserWithoutPasswd,
    }) {
        Some("UID/GID sync is skipped because the configured numeric user has no passwd entry"@)
    } else {
        None
    }
}

/// The warning about user ids that do not follow those of the host though
/// that was asked for.
pub fn uid_gid_sync_warning(
    config_layers: &ConfigMergeInput,
    plan: &UidGidSyncPlan,
    update_remote_user_uid: bool,
    host_platform: HostPlatform,
) -> (res: Option<String>)
    ensures
        opt_view(res) == sync_warning(*config_layers, *plan, update_remote_user_uid, host_platform),
{
    if host_platform != HostPlatform::Linux {
        if let Some(true) = explicit_update_remote_user_uid(config_layers) {
            return Some(
                "UID/GID sync is only supported on Linux hosts; skipping updateRemoteUserUID".to_owned(),
            );
        }
        return None;
    }
    if update_remote_user_uid {
        if let UidGidSyncPlan::Noop { reason: UidGidSyncNoopReason::NumericUserWithoutPasswd } =
            plan {
            return Some(
                "UID/GID sync is skipped because the configured numeric user has no passwd entry".to_owned(),
            );
        }
    }
    None
}

/// Whether a layer is put on the base image for Features or entrypoints.
pub open spec fn has_workspace_layer(plan: UpPlan) -> bool {
    ||| plan.feature_install is Some
    ||| plan.config.features@.len() > 0
    ||| plan.config.devcontainer.entrypoints@.len() > 0
}

/// Whether a layer is put on the base image for Features or entrypoints.
pub fn plan_requires_workspace_layer(plan: &UpPlan) -> (res: bool)
    ensures
        res == has_workspace_layer(*plan),
{
    plan.feature_install.is_some() || plan.config.features.len() > 0
        || plan.config.devcontainer.entrypoints.len() > 0
}

/// The names of the image below the layer that changes user ids.
pub open spec fn pre_sync_resources(plan: UpPlan) -> DockerResources {
    match plan.pre_uid_gid_sync_resources {
        Some(resources) => resources,
        None => plan.resources,
    }
}

/// The names of the image below the layer that changes user ids.
pub fn pre_uid_gid_sync_layer_resources(plan: &UpPlan) -> (res: &DockerResources)
    ensures
        *res == pre_sync_resources(*plan),
{
    match &plan.pre_uid_gid_sync_resources {
        Some(resources) => resources,
        None => &plan.resources,
    }
}

/// The image that the layer that changes user ids is put on.
pub fn uid_gid_sync_base_image(plan: &UpPlan) -> (res: String)
    ensures
        res == if has_workspace_layer(*plan) {
            pre_sync_resources(*plan).image_tag
        } else {
            plan.base_image
        },
{
    if plan_requires_workspace_layer(plan) {
        return pre_uid_gid_sync_layer_resources(plan).image_tag.clone();
    }
    plan.base_image.clone()
}

/// Whether user ids are changed by a layer of their own.
pub fn uid_gid_sync_plan_requires_layer(plan: &UidGidSyncPlan) -> (res: bool)
    ensures
        res == (plan is Sync),
{
    matches!(plan, UidGidSyncPlan::Sync { .. })
}

/// Whether a plan changes user ids by a layer of their own.
pub fn plan_requires_uid_gid_sync_layer(plan: &UpPlan) -> (res: bool)
    ensures
        res == (plan.uid_gid_sync_plan is Sync),
{
    uid_gid_sync_plan_requires_layer(&plan.uid_gid_sync_plan)
}

/// Whether the users of a plan come from the image's configuration alone.
pub fn effective_users_depend_on_image_config_user(plan: &UpPlan) -> (res: bool)
    ensures
        res == names_no_user(plan.config_layers),
{
    let input = effective_user_input_from_config_layers(&plan.config_layers);
    input.devcontainer_remote_user.is_none() && input.image_metadata_remote_user.is_none()
        && input.devcontainer_container_user.is_none()
        && input.image_metadata_container_user.is_none()
}

} // verus!
