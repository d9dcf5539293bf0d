//! The users of a container, and whether their ids follow those of the host.

use crate::config::{ConfigLayer, ConfigMergeInput};
use crate::docker::{
    HostEnvironment, HostPlatform, UidGidSyncNoopReason, UidGidSyncPlan, UidGidSyncTargetKind,
};
use crate::hash_input::UidGidSyncHashInput;
use crate::types::UpPlan;
use crate::uid_gid::{
    all_layers, container_user_of, effective_user_input_from_config_layers,
    effective_user_input_from_plan, has_workspace_layer, holds_static_sync, holds_sync_plan,
    last_set, last_set_of_parts, metadata_container_user, metadata_layers, metadata_remote_user,
    names_no_user, optional_layer, pre_sync_resources, remote_user_of, sync_warning,
    uid_gid_sync_base_image, update_uid_of, EffectiveUserResolveInput,
};
use vstd::prelude::*;

verus! {

/// What counts is what the last layer sets that sets anything: a layer sets it
/// to the result, and no layer behind that one sets anything.
pub proof fn last_layers_count<A>(
    layers: Seq<ConfigLayer>,
    setting: spec_fn(ConfigLayer) -> Option<A>,
)
    ensures
        last_set(layers, setting) is None <==> forall|i: int|
            0 <= i < layers.len() ==> setting(#[trigger] layers[i]) is None,
        last_set(layers, setting) is Some ==> exists|i: int|
            {
                &&& 0 <= i < layers.len()
                &&& setting(#[trigger] layers[i]) == last_set(layers, setting)
                &&& forall|j: int| i < j < layers.len() ==> setting(#[trigger] layers[j]) is None
            },
    decreases layers.len(),
{
    if layers.len() > 0 {
        let front = layers.drop_last();
        last_layers_count(front, setting);
        if setting(layers.last()) is Some {
            assert(setting(layers[layers.len() - 1]) is Some);
        } else if last_set(front, setting) is Some {
            let i = choose|i: int|
                {
                    &&& 0 <= i < front.len()
                    &&& setting(#[trigger] front[i]) == last_set(front, setting)
                    &&& forall|j: int| i < j < front.len() ==> setting(#[trigger] front[j]) is None
                };
            assert(layers[i] == front[i]);
            assert forall|j: int| i < j < layers.len() implies setting(#[trigger] layers[j]) is None
                by {
                if j < front.len() {
                    assert(front[j] == layers[j]);
                }
            }
        } else {
            assert forall|i: int| 0 <= i < layers.len() implies setting(
                #[trigger] layers[i],
            ) is None by {
                if i < front.len() {
                    assert(front[i] == layers[i]);
                }
            }
        }
    }
}

/// Whether a layer leaves the user that tools run as open.
pub open spec fn leaves_remote_user(layer: ConfigLayer) -> bool {
    layer.devcontainer is None || layer.devcontainer->0.remote_user is None
}

/// Whether a layer leaves the user of the container open.
pub open spec fn leaves_container_user(layer: ConfigLayer) -> bool {
    layer.devcontainer is None || layer.devcontainer->0.container_user is None
}

/// The user that tools run as by image and Features is named by one of them; a
/// Feature hides the image, and a later one hides an earlier one.
pub proof fn metadata_names_the_last_remote_user(layers: ConfigMergeInput)
    ensures
        ({
            let all = layers.image_metadata@ + layers.feature_metadata@;
            let user = metadata_remote_user(layers);
            &&& user is None <==> forall|i: int|
                0 <= i < all.len() ==> leaves_remote_user(#[trigger] all[i])
            &&& user is Some ==> exists|i: int|
                {
                    &&& 0 <= i < all.len()
                    &&& !leaves_remote_user(#[trigger] all[i])
                    &&& all[i].devcontainer->0.remote_user->0@ == user->0
                    &&& forall|j: int| i < j < all.len() ==> leaves_remote_user(#[trigger] all[j])
                }
        }),
{
    let all = layers.image_metadata@ + layers.feature_metadata@;
    let setting = |layer: ConfigLayer| remote_user_of(layer);
    last_layers_count(all, setting);
    assert(metadata_remote_user(layers) == last_set(all, setting));
    assert forall|i: int| 0 <= i < all.len() implies leaves_remote_user(#[trigger] all[i]) == (
    setting(all[i]) is None) by {}
    if metadata_remote_user(layers) is Some {
        let i = choose|i: int|
            {
                &&& 0 <= i < all.len()
                &&& setting(#[trigger] all[i]) == last_set(all, setting)
                &&& forall|j: int| i < j < all.len() ==> setting(#[trigger] all[j]) is None
            };
        assert(!leaves_remote_user(all[i]));
    }
}

/// The user of the container by image and Features is named by one of them; a
/// Feature hides the image, and a later one hides an earlier one.
pub proof fn metadata_names_the_last_container_user(layers: ConfigMergeInput)
    ensures
        ({
            let all = layers.image_metadata@ + layers.feature_metadata@;
            let user = metadata_container_user(layers);
            &&& user is None <==> forall|i: int|
                0 <= i < all.len() ==> leaves_container_user(#[trigger] all[i])
            &&& user is Some ==> exists|i: int|
                {
                    &&& 0 <= i < all.len()
                    &&& !leaves_container_user(#[trigger] all[i])
                    &&& all[i].devcontainer->0.container_user->0@ == user->0
                    &&& forall|j: int|
                        i < j < all.len() ==> leaves_container_user(#[trigger] all[j])
                }
        }),
{
    let all = layers.image_metadata@ + layers.feature_metadata@;
    let setting = |layer: ConfigLayer| container_user_of(layer);
    last_layers_count(all, setting);
    assert(metadata_container_user(layers) == last_set(all, setting));
    assert forall|i: int| 0 <= i < all.len() implies leaves_container_user(#[trigger] all[i]) == (
    setting(all[i]) is None) by {}
    if metadata_container_user(layers) is Some {
        let i = choose|i: int|
            {
                &&& 0 <= i < all.len()
                &&& setting(#[trigger] all[i]) == last_set(all, setting)
                &&& forall|j: int| i < j < all.len() ==> setting(#[trigger] all[j]) is None
            };
        assert(!leaves_container_user(all[i]));
    }
}

/// No user is named exactly where neither the devcontainer file nor any layer
/// of image and Features names one.
pub proof fn no_user_is_named_anywhere(layers: ConfigMergeInput)
    ensures
        names_no_user(layers) <==> {
            let all = layers.image_metadata@ + layers.feature_metadata@;
            &&& layers.devcontainer is Some ==> leaves_remote_user(layers.devcontainer->0)
                && leaves_container_user(layers.devcontainer->0)
            &&& forall|i: int|
                0 <= i < all.len() ==> leaves_remote_user(#[trigger] all[i])
                    && leaves_container_user(all[i])
        },
{
    metadata_names_the_last_remote_user(layers);
    metadata_names_the_last_container_user(layers);
}

/// What a layer that may be absent says of user ids.
pub open spec fn says_of_ids(layer: Option<ConfigLayer>) -> Option<bool> {
    if layer is Some && layer->0.devcontainer is Some {
        layer->0.devcontainer->0.update_remote_user_uid
    } else {
        None
    }
}

/// Whether user ids follow those of the host is said by the strongest layer
/// that says so: the command line, then the project, then the devcontainer
/// file, then the user's own configuration, and then Features and image.
pub proof fn strongest_layer_decides_on_ids(layers: ConfigMergeInput)
    ensures
        ({
            let said = last_set(all_layers(layers), |layer: ConfigLayer| update_uid_of(layer));
            if says_of_ids(layers.cli) is Some {
                said == says_of_ids(layers.cli)
            } else if says_of_ids(layers.project) is Some {
                said == says_of_ids(layers.project)
            } else if says_of_ids(layers.devcontainer) is Some {
                said == says_of_ids(layers.devcontainer)
            } else if says_of_ids(layers.global) is Some {
                said == says_of_ids(layers.global)
            } else {
                said == last_set(
                    layers.image_metadata@ + layers.feature_metadata@,
                    |layer: ConfigLayer| update_uid_of(layer),
                )
            }
        }),
{
    let setting = |layer: ConfigLayer| update_uid_of(layer);
    let a = metadata_layers(layers);
    let b = a + optional_layer(layers.global);
    let c = b + optional_layer(layers.devcontainer);
    let d = c + optional_layer(layers.project);
    last_set_of_parts(a, optional_layer(layers.global), setting);
    last_set_of_parts(b, optional_layer(layers.devcontainer), setting);
    last_set_of_parts(c, optional_layer(layers.project), setting);
    last_set_of_parts(d, optional_layer(layers.cli), setting);
    reveal_with_fuel(last_set, 3);
    only_layer_decides(layers.global);
    only_layer_decides(layers.devcontainer);
    only_layer_decides(layers.project);
    only_layer_decides(layers.cli);
}

proof fn only_layer_decides(layer: Option<ConfigLayer>)
    ensures
        last_set(optional_layer(layer), |layer: ConfigLayer| update_uid_of(layer)) == says_of_ids(
            layer,
        ),
{
    let setting = |layer: ConfigLayer| update_uid_of(layer);
    if let Some(some) = layer {
        assert(seq![some].drop_last() =~= Seq::empty());
        assert(last_set(seq![some].drop_last(), setting) is None);
    }
}

/// The hash tells of user ids exactly where they are to be followed and the
/// host runs Linux: to which ids which configured user is changed, or that and
/// why none is.
pub proof fn hash_tells_which_ids_are_given(
    input: Option<UidGidSyncHashInput>,
    plan: UidGidSyncPlan,
    update_remote_user_uid: bool,
    host: HostEnvironment,
)
    requires
        holds_sync_plan(input, plan, update_remote_user_uid, host),
    ensures
        input is Some <==> update_remote_user_uid && host.platform == HostPlatform::Linux,
        input is Some && plan is Sync ==> {
            let target = plan->target;
            &&& input->0.state is Sync
            &&& input->0.host_uid == target.host.uid
            &&& input->0.host_gid == target.host.gid
            &&& input->0.target_user is Some
            &&& input->0.target_user->0@ == target.user@
            &&& input->0.target_kind is Some
            &&& target.kind == UidGidSyncTargetKind::RemoteUser ==> input->0.target_kind->0@
                == "remoteUser"@
            &&& target.kind == UidGidSyncTargetKind::ContainerUser ==> input->0.target_kind->0@
                == "containerUser"@
        },
        input is Some && plan is Noop ==> {
            &&& input->0.state is Noop
            &&& input->0.state->Noop_0@ == match plan->reason {
                UidGidSyncNoopReason::Disabled => "disabled"@,
                UidGidSyncNoopReason::NonLinuxHost => "nonLinuxHost"@,
                UidGidSyncNoopReason::NoExplicitUser => "noExplicitUser"@,
                UidGidSyncNoopReason::NumericUserWithoutPasswd => "numericUserWithoutPasswd"@,
                UidGidSyncNoopReason::Root => "root"@,
            }
            &&& input->0.host_uid == host.ids.uid
            &&& input->0.host_gid == host.ids.gid
            &&& input->0.target_kind is None
            &&& input->0.target_user is None
        },
{
}

/// Before the image is known, the hash tells of user ids only where it is clear
/// that none are changed: they are to be followed on Linux, but no user is
/// named. It then tells the ids of the host and that reason.
pub proof fn static_hash_tells_that_no_user_is_named(
    input: Option<UidGidSyncHashInput>,
    layers: ConfigMergeInput,
    update_remote_user_uid: bool,
    host: HostEnvironment,
)
    requires
        holds_static_sync(input, layers, update_remote_user_uid, host),
    ensures
        input is Some ==> {
            &&& update_remote_user_uid
            &&& host.platform == HostPlatform::Linux
            &&& input->0.state is Noop
            &&& input->0.state->Noop_0@ == "noExplicitUser"@
            &&& input->0.host_uid == host.ids.uid
            &&& input->0.host_gid == host.ids.gid
            &&& layers.devcontainer is Some ==> leaves_remote_user(layers.devcontainer->0)
                && leaves_container_user(layers.devcontainer->0)
        },
        input is None ==> !update_remote_user_uid || host.platform != HostPlatform::Linux
            || !names_no_user(layers),
{
}

/// The user is warned of ids that are not followed in two cases alone: another
/// host than Linux, though the strongest layer asks for it; and on Linux a
/// configured user that is a number without an entry in the passwd database.
pub proof fn ids_that_are_not_followed_are_told(
    layers: ConfigMergeInput,
    plan: UidGidSyncPlan,
    update_remote_user_uid: bool,
    platform: HostPlatform,
)
    ensures
        ({
            let warning = sync_warning(layers, plan, update_remote_user_uid, platform);
            let asked = last_set(all_layers(layers), |layer: ConfigLayer| update_uid_of(layer));
            &&& platform != HostPlatform::Linux ==> (warning is Some <==> asked == Some(true))
            &&& platform == HostPlatform::Linux ==> (warning is Some <==> update_remote_user_uid
                && plan is Noop && plan->reason == UidGidSyncNoopReason::NumericUserWithoutPasswd)
            &&& warning is Some && platform != HostPlatform::Linux ==> warning->0
                == "UID/GID sync is only supported on Linux hosts; skipping updateRemoteUserUID"@
            &&& warning is Some && platform == HostPlatform::Linux ==> warning->0
                == "UID/GID sync is skipped because the configured numeric user has no passwd entry"@
        }),
{
}

/// A layer is put on the base image exactly where Features were fetched or are
/// configured, or entrypoints are to run. What changes user ids then stands on
/// the image with that layer, under its own names where it has them.
pub proof fn features_and_entrypoints_need_a_layer(plan: UpPlan)
    ensures
        has_workspace_layer(plan) <==> plan.feature_install is Some || plan.config.features@.len()
            > 0 || plan.config.devcontainer.entrypoints@.len() > 0,
        plan.pre_uid_gid_sync_resources is Some ==> pre_sync_resources(plan)
            == plan.pre_uid_gid_sync_resources->0,
        plan.pre_uid_gid_sync_resources is None ==> pre_sync_resources(plan) == plan.resources,
{
}

/// The user that a layer names, where it names one.
pub open spec fn named_by(layer: Option<ConfigLayer>, remote: bool) -> Option<Seq<char>> {
    if layer is Some && layer->0.devcontainer is Some {
        let user = if remote {
            layer->0.devcontainer->0.remote_user
        } else {
            layer->0.devcontainer->0.container_user
        };
        if user is Some {
            Some(user->0@)
        } else {
            None
        }
    } else {
        None
    }
}

/// The users of a plan are told with the values that the configuration settled
/// on: under the devcontainer file where it names one, and else under image and
/// Features where these name one. The other user of each is never told in its
/// place, and nothing of the image's own configuration is known yet.
pub proof fn users_are_told_under_their_source(plan: &UpPlan, told: EffectiveUserResolveInput)
    requires
        call_ensures(effective_user_input_from_plan, (plan,), told),
        plan.config.devcontainer.remote_user is Some,
        plan.config.devcontainer.container_user is Some,
    ensures
        ({
            let remote = plan.config.devcontainer.remote_user->0@;
            let container = plan.config.devcontainer.container_user->0@;
            let file = plan.config_layers.devcontainer;
            &&& told.devcontainer_remote_user is Some <==> named_by(file, true) is Some
            &&& told.devcontainer_remote_user is Some ==> told.devcontainer_remote_user->0@
                == remote && told.image_metadata_remote_user is None
            &&& told.devcontainer_container_user is Some <==> named_by(file, false) is Some
            &&& told.devcontainer_container_user is Some ==> told.devcontainer_container_user->0@
                == container && told.image_metadata_container_user is None
            &&& told.image_metadata_remote_user is Some <==> named_by(file, true) is None
                && metadata_remote_user(plan.config_layers) is Some
            &&& told.image_metadata_remote_user is Some ==> told.image_metadata_remote_user->0@
                == remote
            &&& told.image_metadata_container_user is Some <==> named_by(file, false) is None
                && metadata_container_user(plan.config_layers) is Some
            &&& told.image_metadata_container_user is Some
                ==> told.image_metadata_container_user->0@ == container
            &&& told.image_config_user is None
        }),
{
}

/// Before variables are replaced, the users are told as the layers name them,
/// each under its source.
pub proof fn users_are_told_as_layers_name_them(
    layers: &ConfigMergeInput,
    told: EffectiveUserResolveInput,
)
    requires
        call_ensures(effective_user_input_from_config_layers, (layers,), told),
    ensures
        told.devcontainer_remote_user is Some <==> named_by(layers.devcontainer, true) is Some,
        told.devcontainer_remote_user is Some ==> Some(told.devcontainer_remote_user->0@)
            == named_by(layers.devcontainer, true),
        told.devcontainer_container_user is Some <==> named_by(layers.devcontainer, false) is Some,
        told.devcontainer_container_user is Some ==> Some(told.devcontainer_container_user->0@)
            == named_by(layers.devcontainer, false),
        told.image_metadata_remote_user is Some ==> Some(told.image_metadata_remote_user->0@)
            == metadata_remote_user(*layers),
        told.image_metadata_remote_user is None ==> metadata_remote_user(*layers) is None,
        told.image_metadata_container_user is Some ==> Some(
            told.image_metadata_container_user->0@,
        ) == metadata_container_user(*layers),
        told.image_metadata_container_user is None ==> metadata_container_user(*layers) is None,
        told.image_config_user is None,
{
}

/// Ids are changed on top of the layer for Features and entrypoints, under the
/// name that it has without the change, and else on the base image.
pub proof fn ids_are_changed_on_top(plan: &UpPlan, image: String)
    requires
        call_ensures(uid_gid_sync_base_image, (plan,), image),
    ensures
        ({
            let extended = plan.feature_install is Some || plan.config.features@.len() > 0
                || plan.config.devcontainer.entrypoints@.len() > 0;
            &&& !extended ==> image == plan.base_image
            &&& extended && plan.pre_uid_gid_sync_resources is Some ==> image
                == plan.pre_uid_gid_sync_resources->0.image_tag
            &&& extended && plan.pre_uid_gid_sync_resources is None ==> image
                == plan.resources.image_tag
        }),
{
}

} // verus!
