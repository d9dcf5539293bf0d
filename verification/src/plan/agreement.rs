//! What two plans of one workspace agree in though they forward different
//! ports.

use crate::compose::override_hash::same_override_hash;
use crate::config::{
    ConfigLayer, ConfigMergeInput, LayerDevcontainerBuild, LayerDevcontainerMount, LayerRunArg,
    ResolvedConfig, ResolvedDevcontainer, ResolvedDevcontainerSource, ResolvedFeature,
};
use crate::docker::{
    DockerMountSpec, DockerResources, FeatureLockHashEntry, HostEnvironment, HostPathCreateMode,
    HostUserIds, ResolvedBuildContext, SensitiveEnvMap,
};
use crate::error::UpError;
use crate::hash_input::{
    BuildHashInput, ConfigHashInput, MountHashInput, MountVolumeOptionsHashInput,
    UidGidSyncHashInput, UidGidSyncHashState,
};
use crate::mounts::{
    create_mode, default_folder, describes_statically, ends_with_dotfiles, ends_with_mounts,
    finds_folder, guarded_target, holds_mount, locates_with_folder, locates_workspace,
    plans_mounts, resolves_workspace_mount, settles_location, WorkspaceLocationValidation,
    WorkspaceMountPlan,
};
use crate::plan::assemble::{
    builds_plan, detached_plans_forward_nothing, either, ends_with_expansion,
    ends_with_mount_plan, holds_internal_versions, holds_static_input, reads_build,
    requested_layers, resolves_plan, validation_for, PlanSources, UpPlanRequest,
};
use crate::plan::compose::finds_compose_project;
use crate::plan::expand::{
    expands, expands_build, expands_early, expands_early_fields, expands_located,
    expands_run_args, expands_run_args_early, expands_settings_early, expands_source, expands_statically,
    expands_texts, expands_texts_early, expands_users, expands_with_users, known_statically,
    same_but_source_and_settings, tells_folder_is_settled, with_folder, with_users,
    StaticPlanExpansion,
};
use crate::plan::hash::{
    collects_locks, ends_with_lock, finds_digests, locked_entries, reads_references,
    with_internal_versions,
};
use crate::services::{FeatureLock, FeatureReference, PlanServices};
use crate::text::{opt_view, views};
use crate::text_map::{inserted, TextMap};
use crate::types::{
    ComposeProjectPlan, ForwardingResolution, MountResolution, TrackedValues, UpPlan,
    UpPlanResolution, VariableContext, Workspace, WorkspaceLocation,
};
use crate::uid_gid::{
    container_user_of, last_set, metadata_layers, names_no_user, remote_user_of,
};
use vstd::prelude::*;

verus! {

/// Whether two layers set the same but for the ports to forward.
pub open spec fn same_layer(left: ConfigLayer, right: ConfigLayer) -> bool {
    right == (ConfigLayer { ports: right.ports, ..left })
}

/// Whether two layers that may be absent set the same but for the ports to
/// forward.
pub open spec fn same_optional_layer(
    left: Option<ConfigLayer>,
    right: Option<ConfigLayer>,
) -> bool {
    match left {
        Some(left) => right is Some && same_layer(left, right->0),
        None => right is None,
    }
}

/// Whether lists of layers set the same but for the ports to forward, one for
/// one.
pub open spec fn same_layer_list(left: Seq<ConfigLayer>, right: Seq<ConfigLayer>) -> bool {
    &&& left.len() == right.len()
    &&& forall|i: int| 0 <= i < left.len() ==> same_layer(#[trigger] left[i], right[i])
}

/// Whether configurations are merged from layers that set the same but for
/// the ports to forward.
pub open spec fn same_layers(left: ConfigMergeInput, right: ConfigMergeInput) -> bool {
    &&& same_layer_list(left.image_metadata@, right.image_metadata@)
    &&& same_layer_list(left.feature_metadata@, right.feature_metadata@)
    &&& same_optional_layer(left.global, right.global)
    &&& same_optional_layer(left.devcontainer, right.devcontainer)
    &&& same_optional_layer(left.project, right.project)
    &&& same_optional_layer(left.cli, right.cli)
}

/// Whether two Dockerfile builds are the same.
pub open spec fn same_build(left: LayerDevcontainerBuild, right: LayerDevcontainerBuild) -> bool {
    &&& right == (LayerDevcontainerBuild { cache_from: right.cache_from, ..left })
    &&& left.cache_from@ == right.cache_from@
}

/// Whether two containers come from the same source.
pub open spec fn same_source(
    left: Option<ResolvedDevcontainerSource>,
    right: Option<ResolvedDevcontainerSource>,
) -> bool {
    match left {
        Some(ResolvedDevcontainerSource::Dockerfile(build)) => match right {
            Some(ResolvedDevcontainerSource::Dockerfile(other)) => same_build(build, other),
            _ => false,
        },
        _ => left == right,
    }
}

/// Whether two configurations are the same but for the ports to forward.
pub open spec fn same_but_ports(left: ResolvedConfig, right: ResolvedConfig) -> bool {
    &&& right == (ResolvedConfig {
        ports: right.ports,
        devcontainer: ResolvedDevcontainer {
            source: right.devcontainer.source,
            cap_add: right.devcontainer.cap_add,
            security_opt: right.devcontainer.security_opt,
            run_args: right.devcontainer.run_args,
            workspace_folder: right.devcontainer.workspace_folder,
            ..left.devcontainer
        },
        ..left
    })
    &&& same_source(left.devcontainer.source, right.devcontainer.source)
    &&& left.devcontainer.cap_add@ == right.devcontainer.cap_add@
    &&& left.devcontainer.security_opt@ == right.devcontainer.security_opt@
    &&& left.devcontainer.run_args@ == right.devcontainer.run_args@
    &&& opt_view(left.devcontainer.workspace_folder) == opt_view(
        right.devcontainer.workspace_folder,
    )
}

/// Whether variables stand for the same values.
pub open spec fn same_variables(left: VariableContext, right: VariableContext) -> bool {
    &&& left.local_workspace_folder@ == right.local_workspace_folder@
    &&& left.local_workspace_folder_basename@ == right.local_workspace_folder_basename@
    &&& left.container_workspace_folder@ == right.container_workspace_folder@
    &&& left.container_workspace_folder_basename@ == right.container_workspace_folder_basename@
    &&& left.devcontainer_id@ == right.devcontainer_id@
    &&& left.uid == right.uid
    &&& left.gid == right.gid
    &&& left.remote_user@ == right.remote_user@
    &&& opt_view(left.remote_user_home) == opt_view(right.remote_user_home)
}

/// Whether two mounts are the same.
pub open spec fn same_mount(left: DockerMountSpec, right: DockerMountSpec) -> bool {
    &&& right == (DockerMountSpec { target: right.target, ..left })
    &&& left.target@ == right.target@
}

/// Whether two lists of mounts are the same, one for one.
pub open spec fn same_mounts(left: Seq<DockerMountSpec>, right: Seq<DockerMountSpec>) -> bool {
    &&& left.len() == right.len()
    &&& forall|i: int| 0 <= i < left.len() ==> same_mount(#[trigger] left[i], right[i])
}

/// The entries of a map that may be absent.
pub open spec fn map_entries(map: Option<TextMap<String>>) -> Option<Seq<(Seq<char>, String)>> {
    match map {
        Some(map) => Some(map@),
        None => None,
    }
}

/// Whether two options of volume mounts are the same for the hash.
pub open spec fn same_volume_input(
    left: MountVolumeOptionsHashInput,
    right: MountVolumeOptionsHashInput,
) -> bool {
    &&& left.no_copy == right.no_copy
    &&& map_entries(left.labels) == map_entries(right.labels)
    &&& left.driver_config is Some == right.driver_config is Some
    &&& left.driver_config is Some ==> {
        &&& left.driver_config->0.name == right.driver_config->0.name
        &&& map_entries(left.driver_config->0.options) == map_entries(
            right.driver_config->0.options,
        )
    }
    &&& left.subpath == right.subpath
}

/// Whether two mounts are the same for the hash.
pub open spec fn same_mount_input(left: MountHashInput, right: MountHashInput) -> bool {
    &&& left.source == right.source
    &&& left.target@ == right.target@
    &&& left.mount_type == right.mount_type
    &&& left.read_only == right.read_only
    &&& left.consistency == right.consistency
    &&& left.bind_options is Some == right.bind_options is Some
    &&& left.bind_options is Some ==> {
        let (l, r) = (left.bind_options->0, right.bind_options->0);
        &&& opt_view(l.propagation) == opt_view(r.propagation)
        &&& l.non_recursive == r.non_recursive
        &&& l.create_mountpoint == r.create_mountpoint
        &&& l.read_only_non_recursive == r.read_only_non_recursive
        &&& l.read_only_force_recursive == r.read_only_force_recursive
    }
    &&& left.volume_options is Some == right.volume_options is Some
    &&& left.volume_options is Some ==> same_volume_input(
        left.volume_options->0,
        right.volume_options->0,
    )
}

/// Whether two mentions of user ids are the same for the hash.
pub open spec fn same_sync_input(
    left: Option<UidGidSyncHashInput>,
    right: Option<UidGidSyncHashInput>,
) -> bool {
    &&& left is Some == right is Some
    &&& left is Some ==> {
        &&& match left->0.state {
            UidGidSyncHashState::Sync => right->0.state is Sync,
            UidGidSyncHashState::Noop(reason) => right->0.state is Noop && right->0.state->Noop_0@
                == reason@,
        }
        &&& left->0.host_uid == right->0.host_uid
        &&& left->0.host_gid == right->0.host_gid
        &&& opt_view(left->0.target_kind) == opt_view(right->0.target_kind)
        &&& opt_view(left->0.target_user) == opt_view(right->0.target_user)
    }
}

/// Keys and texts.
pub open spec fn pair_texts(entries: Seq<(Seq<char>, String)>) -> Seq<(Seq<char>, Seq<char>)> {
    entries.map_values(|entry: (Seq<char>, String)| (entry.0, entry.1@))
}

/// Whether two hashes are taken of the same but for the ports to forward.
pub open spec fn same_input_but_ports(left: ConfigHashInput, right: ConfigHashInput) -> bool {
    &&& same_but_ports(*left.config, *right.config)
    &&& left.build == right.build
    &&& views(left.sensitive_container_env_keys@) == views(right.sensitive_container_env_keys@)
    &&& views(left.sensitive_build_arg_keys@) == views(right.sensitive_build_arg_keys@)
    &&& left.compose_files@ == right.compose_files@
    &&& left.compose_canonical_model == right.compose_canonical_model
    &&& left.feature_locks@ == right.feature_locks@
    &&& left.resolved_mounts@.len() == right.resolved_mounts@.len()
    &&& forall|i: int|
        0 <= i < left.resolved_mounts@.len() ==> same_mount_input(
            #[trigger] left.resolved_mounts@[i],
            right.resolved_mounts@[i],
        )
    &&& left.startup_command == right.startup_command
    &&& same_override_hash(left.compose_generated_override, right.compose_generated_override)
    &&& pair_texts(left.internal_versions@) == pair_texts(right.internal_versions@)
    &&& same_sync_input(left.uid_gid_sync, right.uid_gid_sync)
}

proof fn same_last_set<A>(
    left: Seq<ConfigLayer>,
    right: Seq<ConfigLayer>,
    setting: spec_fn(ConfigLayer) -> Option<A>,
)
    requires
        same_layer_list(left, right),
        forall|l: ConfigLayer, r: ConfigLayer| #[trigger]
            same_layer(l, r) ==> setting(l) == setting(r),
    ensures
        last_set(left, setting) == last_set(right, setting),
    decreases left.len(),
{
    if left.len() > 0 {
        assert(same_layer(left[left.len() - 1], right[right.len() - 1]));
        let l = left.drop_last();
        let r = right.drop_last();
        assert forall|i: int| 0 <= i < l.len() implies same_layer(#[trigger] l[i], r[i]) by {
            assert(same_layer(left[i], right[i]));
        }
        same_last_set(l, r, setting);
    }
}

proof fn same_users_named(left: ConfigMergeInput, right: ConfigMergeInput)
    requires
        same_layers(left, right),
    ensures
        names_no_user(left) == names_no_user(right),
{
    let l = metadata_layers(left);
    let r = metadata_layers(right);
    assert forall|i: int| 0 <= i < l.len() implies same_layer(#[trigger] l[i], r[i]) by {
        let count = left.image_metadata@.len();
        if i < count {
            assert(same_layer(left.image_metadata@[i], right.image_metadata@[i]));
        } else {
            assert(same_layer(
                left.feature_metadata@[i - count],
                right.feature_metadata@[i - count],
            ));
        }
    }
    same_last_set(l, r, |layer: ConfigLayer| remote_user_of(layer));
    same_last_set(l, r, |layer: ConfigLayer| container_user_of(layer));
}

pub(crate) proof fn same_versions(
    left: Seq<(Seq<char>, String)>,
    right: Seq<(Seq<char>, String)>,
    left_config: ResolvedConfig,
    right_config: ResolvedConfig,
)
    requires
        same_but_ports(left_config, right_config),
        holds_internal_versions(left, left_config),
        holds_internal_versions(right, right_config),
    ensures
        pair_texts(left) == pair_texts(right),
{
    let (left_layer, left_shim) = choose|layer: String, shim: String|
        layer@ == "2"@ && shim@ == "3"@ && left == #[trigger] with_internal_versions(
            Seq::empty(),
            left_config,
            layer,
            shim,
        );
    let (right_layer, right_shim) = choose|layer: String, shim: String|
        layer@ == "2"@ && shim@ == "3"@ && right == #[trigger] with_internal_versions(
            Seq::empty(),
            right_config,
            layer,
            shim,
        );
    let none = Seq::<(Seq<char>, String)>::empty();
    same_insertion(none, none, "feature_layer"@, left_layer, right_layer);
    let l = inserted(none, "feature_layer"@, left_layer);
    let r = inserted(none, "feature_layer"@, right_layer);
    same_insertion(l, r, "feature_entrypoint_shim"@, left_shim, right_shim);
    same_insertion(none, none, "feature_entrypoint_shim"@, left_shim, right_shim);
}

proof fn same_insertion(
    left: Seq<(Seq<char>, String)>,
    right: Seq<(Seq<char>, String)>,
    key: Seq<char>,
    left_value: String,
    right_value: String,
)
    requires
        pair_texts(left) == pair_texts(right),
        left_value@ == right_value@,
    ensures
        pair_texts(inserted(left, key, left_value)) == pair_texts(
            inserted(right, key, right_value),
        ),
    decreases left.len(),
{
    assert(pair_texts(left).len() == left.len() && pair_texts(right).len() == right.len());
    let l = inserted(left, key, left_value);
    let r = inserted(right, key, right_value);
    if left.len() > 0 {
        assert(pair_texts(left)[0] == pair_texts(right)[0]);
        assert(pair_texts(left.drop_first()) =~= pair_texts(left).drop_first());
        assert(pair_texts(right.drop_first()) =~= pair_texts(right).drop_first());
        if left[0].0 == key {
            assert(pair_texts(l) =~= seq![(key, left_value@)] + pair_texts(left.drop_first()));
            assert(pair_texts(r) =~= seq![(key, right_value@)] + pair_texts(right.drop_first()));
        } else if crate::text::text_less(key, left[0].0) {
            assert(pair_texts(l) =~= seq![(key, left_value@)] + pair_texts(left));
            assert(pair_texts(r) =~= seq![(key, right_value@)] + pair_texts(right));
        } else {
            same_insertion(left.drop_first(), right.drop_first(), key, left_value, right_value);
            assert(pair_texts(l) =~= seq![pair_texts(left)[0]] + pair_texts(
                inserted(left.drop_first(), key, left_value),
            ));
            assert(pair_texts(r) =~= seq![pair_texts(right)[0]] + pair_texts(
                inserted(right.drop_first(), key, right_value),
            ));
        }
    } else {
        assert(pair_texts(l) =~= seq![(key, left_value@)]);
        assert(pair_texts(r) =~= seq![(key, right_value@)]);
    }
}

/// Forwarded ports do not matter to what the hash of the configuration is
/// taken of: where two configurations are the same but for them, and so are
/// the layers, what the two hashes are taken of is the same but for them as
/// well.
pub proof fn hash_inputs_agree_but_for_ports(
    left: ConfigHashInput,
    right: ConfigHashInput,
    left_layers: ConfigMergeInput,
    right_layers: ConfigMergeInput,
    left_config: ResolvedConfig,
    right_config: ResolvedConfig,
    build: Option<BuildHashInput>,
    left_hidden: SensitiveEnvMap,
    right_hidden: SensitiveEnvMap,
    project: Option<ComposeProjectPlan>,
    left_locks: Vec<FeatureLockHashEntry>,
    right_locks: Vec<FeatureLockHashEntry>,
    left_mounts: Seq<DockerMountSpec>,
    right_mounts: Seq<DockerMountSpec>,
    mount_resolution: MountResolution,
    host: HostEnvironment,
)
    requires
        same_layers(left_layers, right_layers),
        same_but_ports(left_config, right_config),
        left_hidden@ == right_hidden@,
        left_locks@ == right_locks@,
        same_mounts(left_mounts, right_mounts),
        holds_static_input(
            left,
            left_layers,
            left_config,
            build,
            left_hidden,
            project,
            left_locks,
            left_mounts,
            mount_resolution,
            host,
        ),
        holds_static_input(
            right,
            right_layers,
            right_config,
            build,
            right_hidden,
            project,
            right_locks,
            right_mounts,
            mount_resolution,
            host,
        ),
    ensures
        same_input_but_ports(left, right),
{
    same_users_named(left_layers, right_layers);
    same_versions(
        left.internal_versions@,
        right.internal_versions@,
        left_config,
        right_config,
    );
    assert(views(left.sensitive_container_env_keys@) =~= views(
        right.sensitive_container_env_keys@,
    ));
    assert forall|i: int| 0 <= i < left.resolved_mounts@.len() implies same_mount_input(
        #[trigger] left.resolved_mounts@[i],
        right.resolved_mounts@[i],
    ) by {
        if mount_resolution.resolves() {
            assert(same_mount(left_mounts[i], right_mounts[i]));
            assert(holds_mount(left.resolved_mounts@[i], left_mounts[i]));
            assert(holds_mount(right.resolved_mounts@[i], right_mounts[i]));
        }
    }
}

/// Ports that Docker publishes do matter: where two configurations publish
/// different ones, what their hashes are taken of differs in more than the
/// ports to forward.
pub proof fn published_ports_go_into_the_hash(left: ConfigHashInput, right: ConfigHashInput)
    requires
        left.config.devcontainer.publish_ports@ != right.config.devcontainer.publish_ports@,
    ensures
        !same_input_but_ports(left, right),
{
}

/// Whether texts are expanded, and are asked what they refer to, with one
/// answer for one text.
pub open spec fn reads_texts_steadily<S: PlanServices>(services: &S) -> bool {
    &&& forall|
        left: String,
        right: String,
        left_variables: VariableContext,
        right_variables: VariableContext,
        left_answer: Result<String, UpError>,
        right_answer: Result<String, UpError>,
    |
        #![trigger
            call_ensures(S::expand_variables, (services, &left, &left_variables), left_answer),
            call_ensures(S::expand_variables, (services, &right, &right_variables), right_answer)]
        {
            &&& left@ == right@
            &&& same_variables(left_variables, right_variables)
            &&& call_ensures(S::expand_variables, (services, &left, &left_variables), left_answer)
            &&& call_ensures(
                S::expand_variables,
                (services, &right, &right_variables),
                right_answer,
            )
            &&& left_answer is Ok
            &&& right_answer is Ok
        } ==> left_answer == right_answer
    &&& forall|
        left: String,
        right: String,
        left_answer: Result<bool, UpError>,
        right_answer: Result<bool, UpError>,
    |
        #![trigger
            call_ensures(S::references_remote_user, (services, &left), left_answer),
            call_ensures(S::references_remote_user, (services, &right), right_answer)]
        {
            &&& left@ == right@
            &&& call_ensures(S::references_remote_user, (services, &left), left_answer)
            &&& call_ensures(S::references_remote_user, (services, &right), right_answer)
            &&& left_answer is Ok
            &&& right_answer is Ok
        } ==> left_answer == right_answer
}

pub(crate) proof fn same_text_expanded<S: PlanServices>(
    services: &S,
    left_variables: VariableContext,
    right_variables: VariableContext,
    before: String,
    left: String,
    right: String,
)
    requires
        reads_texts_steadily(services),
        same_variables(left_variables, right_variables),
        expands_early(services, &left_variables, before, left) && expands_early(
            services,
            &right_variables,
            before,
            right,
        ) || expands(services, &left_variables, before, left) && expands(
            services,
            &right_variables,
            before,
            right,
        ),
    ensures
        left == right,
{
    if call_ensures(
        S::references_remote_user,
        (services, &before),
        Ok::<bool, UpError>(true),
    ) && call_ensures(S::references_remote_user, (services, &before), Ok::<bool, UpError>(false)) {
        assert(Ok::<bool, UpError>(true) == Ok::<bool, UpError>(false));
    }
}

pub(crate) proof fn same_texts_expanded<S: PlanServices>(
    services: &S,
    left_variables: VariableContext,
    right_variables: VariableContext,
    field: Seq<char>,
    before: Seq<String>,
    left: Seq<String>,
    right: Seq<String>,
)
    requires
        reads_texts_steadily(services),
        same_variables(left_variables, right_variables),
        expands_texts_early(services, &left_variables, field, before, left, Ok(()))
            && expands_texts_early(services, &right_variables, field, before, right, Ok(()))
            || expands_texts(services, &left_variables, field, before, left, Ok(()))
            && expands_texts(services, &right_variables, field, before, right, Ok(())),
    ensures
        left == right,
{
    assert forall|i: int| 0 <= i < left.len() implies left[i] == right[i] by {
        same_text_expanded(
            services,
            left_variables,
            right_variables,
            before[i],
            left[i],
            right[i],
        );
    }
    assert(left =~= right);
}

pub(crate) proof fn same_run_args_expanded<S: PlanServices>(
    services: &S,
    left_variables: VariableContext,
    right_variables: VariableContext,
    before: Seq<LayerRunArg>,
    left: Seq<LayerRunArg>,
    right: Seq<LayerRunArg>,
)
    requires
        reads_texts_steadily(services),
        same_variables(left_variables, right_variables),
        expands_run_args_early(services, &left_variables, before, left, Ok(()))
            && expands_run_args_early(services, &right_variables, before, right, Ok(()))
            || expands_run_args(services, &left_variables, before, left, Ok(()))
            && expands_run_args(services, &right_variables, before, right, Ok(())),
    ensures
        left == right,
{
    assert forall|i: int| 0 <= i < left.len() implies left[i] == right[i] by {
        same_text_expanded(
            services,
            left_variables,
            right_variables,
            before[i].spec_value(),
            left[i].spec_value(),
            right[i].spec_value(),
        );
    }
    assert(left =~= right);
}

/// Whether Dockerfile builds are read with one answer for one build.
pub open spec fn reads_builds_steadily<S: PlanServices>(services: &S) -> bool {
    &&& forall|
        values: TextMap<String>,
        left_variables: VariableContext,
        right_variables: VariableContext,
        left: Result<TrackedValues, UpError>,
        right: Result<TrackedValues, UpError>,
    |
        #![trigger
            call_ensures(S::expand_string_map, (services, &values, &left_variables), left),
            call_ensures(S::expand_string_map, (services, &values, &right_variables), right)]
        {
            &&& same_variables(left_variables, right_variables)
            &&& call_ensures(S::expand_string_map, (services, &values, &left_variables), left)
            &&& call_ensures(S::expand_string_map, (services, &values, &right_variables), right)
            &&& left is Ok
            &&& right is Ok
        } ==> left == right
    &&& forall|
        workspace: &Workspace,
        devcontainer_file: &String,
        left_build: LayerDevcontainerBuild,
        right_build: LayerDevcontainerBuild,
        left: Result<ResolvedBuildContext, UpError>,
        right: Result<ResolvedBuildContext, UpError>,
    |
        #![trigger
            call_ensures(
                S::resolve_build_context,
                (services, workspace, devcontainer_file, &left_build),
                left,
            ),
            call_ensures(
                S::resolve_build_context,
                (services, workspace, devcontainer_file, &right_build),
                right,
            )]
        {
            &&& same_build(left_build, right_build)
            &&& call_ensures(
                S::resolve_build_context,
                (services, workspace, devcontainer_file, &left_build),
                left,
            )
            &&& call_ensures(
                S::resolve_build_context,
                (services, workspace, devcontainer_file, &right_build),
                right,
            )
            &&& left is Ok
            &&& right is Ok
        } ==> left == right
    &&& forall|
        context: ResolvedBuildContext,
        left: Result<BuildHashInput, UpError>,
        right: Result<BuildHashInput, UpError>,
    |
        #![trigger
            call_ensures(S::build_hash_input, (services, &context), left),
            call_ensures(S::build_hash_input, (services, &context), right)]
        {
            &&& call_ensures(S::build_hash_input, (services, &context), left)
            &&& call_ensures(S::build_hash_input, (services, &context), right)
            &&& left is Ok
            &&& right is Ok
        } ==> left == right
}

proof fn same_build_expanded<S: PlanServices>(
    services: &S,
    left_variables: VariableContext,
    right_variables: VariableContext,
    left_before: LayerDevcontainerBuild,
    right_before: LayerDevcontainerBuild,
    left: LayerDevcontainerBuild,
    right: LayerDevcontainerBuild,
    left_hidden: SensitiveEnvMap,
    right_hidden: SensitiveEnvMap,
)
    requires
        reads_texts_steadily(services),
        reads_builds_steadily(services),
        same_variables(left_variables, right_variables),
        same_build(left_before, right_before),
        expands_build(services, &left_variables, left_before, left, Ok(left_hidden)),
        expands_build(services, &right_variables, right_before, right, Ok(right_hidden)),
    ensures
        left.args == right.args,
        left.target == right.target,
        left.cache_from@ == right.cache_from@,
        left_hidden == right_hidden,
{
    let left_args = choose|args: Result<TrackedValues, UpError>|
        {
            &&& #[trigger] call_ensures(
                S::expand_string_map,
                (services, &left_before.args, &left_variables),
                args,
            )
            &&& args is Ok && left.args == args->Ok_0.values && left_hidden == args->Ok_0.sensitive
        };
    let right_args = choose|args: Result<TrackedValues, UpError>|
        {
            &&& #[trigger] call_ensures(
                S::expand_string_map,
                (services, &right_before.args, &right_variables),
                args,
            )
            &&& args is Ok && right.args == args->Ok_0.values && right_hidden
                == args->Ok_0.sensitive
        };
    assert(left_args == right_args);
    if left_before.target is Some {
        same_text_expanded(
            services,
            left_variables,
            right_variables,
            left_before.target->0,
            left.target->0,
            right.target->0,
        );
    }
    same_texts_expanded(
        services,
        left_variables,
        right_variables,
        "build.cacheFrom"@,
        left_before.cache_from@,
        left.cache_from@,
        right.cache_from@,
    );
}

proof fn same_source_expanded<S: PlanServices>(
    services: &S,
    left_variables: VariableContext,
    right_variables: VariableContext,
    left_before: ResolvedDevcontainer,
    right_before: ResolvedDevcontainer,
    left: Option<ResolvedDevcontainerSource>,
    right: Option<ResolvedDevcontainerSource>,
    left_hidden: SensitiveEnvMap,
    right_hidden: SensitiveEnvMap,
)
    requires
        reads_texts_steadily(services),
        reads_builds_steadily(services),
        same_variables(left_variables, right_variables),
        same_source(left_before.source, right_before.source),
        expands_source(services, &left_variables, left_before, left, Ok(left_hidden)),
        expands_source(services, &right_variables, right_before, right, Ok(right_hidden)),
    ensures
        same_source(left, right),
        left_hidden@ == right_hidden@,
{
    match left_before.source {
        Some(ResolvedDevcontainerSource::Dockerfile(build)) => {
            same_build_expanded(
                services,
                left_variables,
                right_variables,
                build,
                right_before.source->0->Dockerfile_0,
                left->0->Dockerfile_0,
                right->0->Dockerfile_0,
                left_hidden,
                right_hidden,
            );
        },
        _ => {
            assert(left_hidden@ =~= right_hidden@);
        },
    }
}

proof fn same_fields_expanded<S: PlanServices>(
    services: &S,
    left_variables: VariableContext,
    right_variables: VariableContext,
    left_before: ResolvedConfig,
    right_before: ResolvedConfig,
    left: ResolvedConfig,
    right: ResolvedConfig,
    left_hidden: SensitiveEnvMap,
    right_hidden: SensitiveEnvMap,
)
    requires
        reads_texts_steadily(services),
        reads_builds_steadily(services),
        same_variables(left_variables, right_variables),
        same_but_ports(left_before, right_before),
        expands_early_fields(services, &left_variables, left_before, left, Ok(left_hidden)),
        expands_early_fields(services, &right_variables, right_before, right, Ok(right_hidden)),
        same_but_source_and_settings(left_before, left),
        same_but_source_and_settings(right_before, right),
    ensures
        same_but_ports(left, right),
        left_hidden@ == right_hidden@,
{
    assert(expands_source(
        services,
        &left_variables,
        left_before.devcontainer,
        left.devcontainer.source,
        Ok(left_hidden),
    ));
    assert(expands_source(
        services,
        &right_variables,
        right_before.devcontainer,
        right.devcontainer.source,
        Ok(right_hidden),
    ));
    same_source_expanded(
        services,
        left_variables,
        right_variables,
        left_before.devcontainer,
        right_before.devcontainer,
        left.devcontainer.source,
        right.devcontainer.source,
        left_hidden,
        right_hidden,
    );
    let (lb, rb) = (left_before.devcontainer, right_before.devcontainer);
    let (l, r) = (left.devcontainer, right.devcontainer);
    assert(expands_settings_early(services, &left_variables, lb, l, Ok(())));
    assert(expands_settings_early(services, &right_variables, rb, r, Ok(())));
    same_texts_expanded(
        services,
        left_variables,
        right_variables,
        "runArgs value"@,
        lb.cap_add@,
        l.cap_add@,
        r.cap_add@,
    );
    same_texts_expanded(
        services,
        left_variables,
        right_variables,
        "runArgs value"@,
        lb.security_opt@,
        l.security_opt@,
        r.security_opt@,
    );
    same_run_args_expanded(
        services,
        left_variables,
        right_variables,
        lb.run_args@,
        l.run_args@,
        r.run_args@,
    );
}

/// Whether mounts are read with one answer for one question, whatever ports
/// are forwarded.
pub open spec fn reads_mounts_steadily<S: PlanServices>(services: &S) -> bool {
    &&& forall|
        mount: LayerDevcontainerMount,
        workspace: &Workspace,
        left_variables: VariableContext,
        right_variables: VariableContext,
        mode: HostPathCreateMode,
        left: Result<DockerMountSpec, UpError>,
        right: Result<DockerMountSpec, UpError>,
    |
        #![trigger
            call_ensures(
                S::devcontainer_mount_spec,
                (services, &mount, workspace, &left_variables, mode),
                left,
            ),
            call_ensures(
                S::devcontainer_mount_spec,
                (services, &mount, workspace, &right_variables, mode),
                right,
            )]
        {
            &&& same_variables(left_variables, right_variables)
            &&& call_ensures(
                S::devcontainer_mount_spec,
                (services, &mount, workspace, &left_variables, mode),
                left,
            )
            &&& call_ensures(
                S::devcontainer_mount_spec,
                (services, &mount, workspace, &right_variables, mode),
                right,
            )
            &&& left is Ok
            &&& right is Ok
        } ==> same_mount(left->Ok_0, right->Ok_0)
    &&& forall|
        left_config: ResolvedConfig,
        right_config: ResolvedConfig,
        workspace: &Workspace,
        left_variables: VariableContext,
        right_variables: VariableContext,
        mode: HostPathCreateMode,
        left: Result<Vec<DockerMountSpec>, UpError>,
        right: Result<Vec<DockerMountSpec>, UpError>,
    |
        #![trigger
            call_ensures(
                S::config_mount_specs,
                (services, &left_config, workspace, &left_variables, mode),
                left,
            ),
            call_ensures(
                S::config_mount_specs,
                (services, &right_config, workspace, &right_variables, mode),
                right,
            )]
        {
            &&& same_but_ports(left_config, right_config)
            &&& same_variables(left_variables, right_variables)
            &&& call_ensures(
                S::config_mount_specs,
                (services, &left_config, workspace, &left_variables, mode),
                left,
            )
            &&& call_ensures(
                S::config_mount_specs,
                (services, &right_config, workspace, &right_variables, mode),
                right,
            )
            &&& left is Ok
            &&& right is Ok
        } ==> same_mounts(left->Ok_0@, right->Ok_0@)
    &&& forall|
        left_config: ResolvedConfig,
        right_config: ResolvedConfig,
        workspace: &Workspace,
        left_variables: VariableContext,
        right_variables: VariableContext,
        left: Result<WorkspaceMountPlan, UpError>,
        right: Result<WorkspaceMountPlan, UpError>,
    |
        #![trigger
            call_ensures(
                S::dotfile_mount_plan,
                (services, &left_config, workspace, &left_variables),
                left,
            ),
            call_ensures(
                S::dotfile_mount_plan,
                (services, &right_config, workspace, &right_variables),
                right,
            )]
        {
            &&& same_but_ports(left_config, right_config)
            &&& same_variables(left_variables, right_variables)
            &&& call_ensures(
                S::dotfile_mount_plan,
                (services, &left_config, workspace, &left_variables),
                left,
            )
            &&& call_ensures(
                S::dotfile_mount_plan,
                (services, &right_config, workspace, &right_variables),
                right,
            )
            &&& left is Ok
            &&& right is Ok
        } ==> same_mounts(left->Ok_0.mounts@, right->Ok_0.mounts@)
}

/// Whether two places of a workspace are the same.
pub open spec fn same_location(left: WorkspaceLocation, right: WorkspaceLocation) -> bool {
    &&& left.workspace_folder@ == right.workspace_folder@
    &&& same_mount(left.workspace_mount, right.workspace_mount)
}

pub(crate) proof fn same_place_found<S: PlanServices>(
    services: &S,
    workspace: &Workspace,
    validation: WorkspaceLocationValidation,
    mount_resolution: MountResolution,
    left_known: spec_fn(Seq<char>, VariableContext) -> bool,
    right_known: spec_fn(Seq<char>, VariableContext) -> bool,
    left_config: ResolvedConfig,
    right_config: ResolvedConfig,
    left: WorkspaceLocation,
    right: WorkspaceLocation,
)
    requires
        reads_texts_steadily(services),
        reads_mounts_steadily(services),
        same_but_ports(left_config, right_config),
        forall|folder: Seq<char>, left: VariableContext, right: VariableContext|
            #[trigger] left_known(folder, left) && #[trigger] right_known(folder, right)
                ==> same_variables(left, right),
        locates_workspace(
            services,
            workspace,
            &left_config,
            validation,
            mount_resolution,
            left_known,
            Ok(left),
        ),
        locates_workspace(
            services,
            workspace,
            &right_config,
            validation,
            mount_resolution,
            right_known,
            Ok(right),
        ),
    ensures
        same_location(left, right),
{
    let (lv, lf) = choose|variables: VariableContext, folder: Result<String, UpError>|
        {
            &&& left_known(default_folder(*workspace), variables)
            &&& #[trigger] finds_folder(services, workspace, &left_config, &variables, folder)
            &&& locates_with_folder(
                services,
                workspace,
                &left_config,
                validation,
                mount_resolution,
                left_known,
                folder,
                Ok(left),
            )
        };
    let (rv, rf) = choose|variables: VariableContext, folder: Result<String, UpError>|
        {
            &&& right_known(default_folder(*workspace), variables)
            &&& #[trigger] finds_folder(services, workspace, &right_config, &variables, folder)
            &&& locates_with_folder(
                services,
                workspace,
                &right_config,
                validation,
                mount_resolution,
                right_known,
                folder,
                Ok(right),
            )
        };
    assert(same_variables(lv, rv));
    assert(lf is Ok && rf is Ok);
    assert(lf->Ok_0@ == rf->Ok_0@);
    let (lw, lm) = choose|variables: VariableContext, mount: Result<DockerMountSpec, UpError>|
        {
            &&& left_known(lf->Ok_0@, variables)
            &&& #[trigger] resolves_workspace_mount(
                services,
                workspace,
                &left_config,
                &variables,
                mount_resolution,
                mount,
            )
            &&& mount is Ok && settles_location(
                &left_config,
                validation,
                lf->Ok_0,
                mount->Ok_0,
                Ok(left),
            )
        };
    let (rw, rm) = choose|variables: VariableContext, mount: Result<DockerMountSpec, UpError>|
        {
            &&& right_known(rf->Ok_0@, variables)
            &&& #[trigger] resolves_workspace_mount(
                services,
                workspace,
                &right_config,
                &variables,
                mount_resolution,
                mount,
            )
            &&& mount is Ok && settles_location(
                &right_config,
                validation,
                rf->Ok_0,
                mount->Ok_0,
                Ok(right),
            )
        };
    assert(same_variables(lw, rw));
    assert(same_mount(lm->Ok_0, rm->Ok_0));
}

proof fn same_place_found_statically<S: PlanServices>(
    services: &S,
    workspace: &Workspace,
    validation: WorkspaceLocationValidation,
    mount_resolution: MountResolution,
    ids: HostUserIds,
    left_config: ResolvedConfig,
    right_config: ResolvedConfig,
    left: WorkspaceLocation,
    right: WorkspaceLocation,
)
    requires
        reads_texts_steadily(services),
        reads_mounts_steadily(services),
        same_but_ports(left_config, right_config),
        locates_workspace(
            services,
            workspace,
            &left_config,
            validation,
            mount_resolution,
            known_statically(*workspace, left_config, ids),
            Ok(left),
        ),
        locates_workspace(
            services,
            workspace,
            &right_config,
            validation,
            mount_resolution,
            known_statically(*workspace, right_config, ids),
            Ok(right),
        ),
    ensures
        same_location(left, right),
{
    same_place_found(
        services,
        workspace,
        validation,
        mount_resolution,
        known_statically(*workspace, left_config, ids),
        known_statically(*workspace, right_config, ids),
        left_config,
        right_config,
        left,
        right,
    );
}

/// Whether two plans made out before the image is known agree in what goes
/// into the hash.
pub open spec fn same_expansion(left: StaticPlanExpansion, right: StaticPlanExpansion) -> bool {
    &&& same_location(left.workspace_location, right.workspace_location)
    &&& left.build_context == right.build_context
    &&& left.sensitive_build_args@ == right.sensitive_build_args@
}

proof fn same_located_expansion<S: PlanServices>(
    services: &S,
    workspace: &Workspace,
    devcontainer_file: &String,
    ids: HostUserIds,
    left_settled: ResolvedConfig,
    right_settled: ResolvedConfig,
    left_location: WorkspaceLocation,
    right_location: WorkspaceLocation,
    left_config: ResolvedConfig,
    right_config: ResolvedConfig,
    left: StaticPlanExpansion,
    right: StaticPlanExpansion,
)
    requires
        reads_texts_steadily(services),
        reads_builds_steadily(services),
        same_but_ports(left_settled, right_settled),
        same_location(left_location, right_location),
        expands_located(
            services,
            workspace,
            devcontainer_file,
            ids,
            left_settled,
            left_config,
            left_location,
            Ok(left),
        ),
        expands_located(
            services,
            workspace,
            devcontainer_file,
            ids,
            right_settled,
            right_config,
            right_location,
            Ok(right),
        ),
    ensures
        same_but_ports(left_config, right_config),
        same_expansion(left, right),
{
    let (lv, ls) = choose|variables: VariableContext, sensitive: Result<SensitiveEnvMap, UpError>|
        {
            &&& describes_statically(
                variables,
                *workspace,
                left_location.workspace_folder@,
                left_settled,
                ids,
            )
            &&& #[trigger] expands_early_fields(
                services,
                &variables,
                left_settled,
                left_config,
                sensitive,
            )
            &&& sensitive == Ok::<SensitiveEnvMap, UpError>(left.sensitive_build_args)
        };
    let (rv, rs) = choose|variables: VariableContext, sensitive: Result<SensitiveEnvMap, UpError>|
        {
            &&& describes_statically(
                variables,
                *workspace,
                right_location.workspace_folder@,
                right_settled,
                ids,
            )
            &&& #[trigger] expands_early_fields(
                services,
                &variables,
                right_settled,
                right_config,
                sensitive,
            )
            &&& sensitive == Ok::<SensitiveEnvMap, UpError>(right.sensitive_build_args)
        };
    assert(same_variables(lv, rv));
    same_fields_expanded(
        services,
        lv,
        rv,
        left_settled,
        right_settled,
        left_config,
        right_config,
        left.sensitive_build_args,
        right.sensitive_build_args,
    );
}

/// A configuration with the folder of the workspace, where that is settled.
pub open spec fn settled_config(
    config: ResolvedConfig,
    location: WorkspaceLocation,
    settled: bool,
) -> ResolvedConfig {
    if settled {
        with_folder(config, location.workspace_folder)
    } else {
        config
    }
}

proof fn place_and_answer<S: PlanServices>(
    services: &S,
    workspace: &Workspace,
    devcontainer_file: &String,
    validation: WorkspaceLocationValidation,
    mount_resolution: MountResolution,
    ids: HostUserIds,
    config: ResolvedConfig,
    after: ResolvedConfig,
    expansion: StaticPlanExpansion,
) -> (res: (WorkspaceLocation, bool))
    requires
        expands_with_users(
            services,
            workspace,
            devcontainer_file,
            validation,
            mount_resolution,
            ids,
            config,
            after,
            Ok(expansion),
        ),
    ensures
        locates_workspace(
            services,
            workspace,
            &config,
            validation,
            mount_resolution,
            known_statically(*workspace, config, ids),
            Ok(res.0),
        ),
        tells_folder_is_settled(services, config, Ok(res.1)),
        expands_located(
            services,
            workspace,
            devcontainer_file,
            ids,
            settled_config(config, res.0, res.1),
            after,
            res.0,
            Ok(expansion),
        ),
{
    let location = choose|location: Result<WorkspaceLocation, UpError>| #[trigger]
        locates_workspace(
            services,
            workspace,
            &config,
            validation,
            mount_resolution,
            known_statically(*workspace, config, ids),
            location,
        ) && match location {
            Err(error) => false,
            Ok(location) => exists|settled: Result<bool, UpError>| #[trigger]
                tells_folder_is_settled(services, config, settled) && match settled {
                    Err(error) => false,
                    Ok(settled) => expands_located(
                        services,
                        workspace,
                        devcontainer_file,
                        ids,
                        settled_config(config, location, settled),
                        after,
                        location,
                        Ok(expansion),
                    ),
                },
        };
    let settled = choose|settled: Result<bool, UpError>| #[trigger]
        tells_folder_is_settled(services, config, settled) && match settled {
            Err(error) => false,
            Ok(settled) => expands_located(
                services,
                workspace,
                devcontainer_file,
                ids,
                settled_config(config, location->Ok_0, settled),
                after,
                location->Ok_0,
                Ok(expansion),
            ),
        };
    (location->Ok_0, settled->Ok_0)
}

proof fn same_settlement_told<S: PlanServices>(
    services: &S,
    left_config: ResolvedConfig,
    right_config: ResolvedConfig,
    left: bool,
    right: bool,
)
    requires
        reads_texts_steadily(services),
        same_but_ports(left_config, right_config),
        tells_folder_is_settled(services, left_config, Ok(left)),
        tells_folder_is_settled(services, right_config, Ok(right)),
    ensures
        left == right,
{
}

proof fn same_expansion_with_users<S: PlanServices>(
    services: &S,
    workspace: &Workspace,
    devcontainer_file: &String,
    validation: WorkspaceLocationValidation,
    mount_resolution: MountResolution,
    ids: HostUserIds,
    left_before: ResolvedConfig,
    right_before: ResolvedConfig,
    left_config: ResolvedConfig,
    right_config: ResolvedConfig,
    left: StaticPlanExpansion,
    right: StaticPlanExpansion,
)
    requires
        reads_texts_steadily(services),
        reads_builds_steadily(services),
        reads_mounts_steadily(services),
        same_but_ports(left_before, right_before),
        expands_with_users(
            services,
            workspace,
            devcontainer_file,
            validation,
            mount_resolution,
            ids,
            left_before,
            left_config,
            Ok(left),
        ),
        expands_with_users(
            services,
            workspace,
            devcontainer_file,
            validation,
            mount_resolution,
            ids,
            right_before,
            right_config,
            Ok(right),
        ),
    ensures
        same_but_ports(left_config, right_config),
        same_expansion(left, right),
{
    let (lp, lt) = place_and_answer(
        services,
        workspace,
        devcontainer_file,
        validation,
        mount_resolution,
        ids,
        left_before,
        left_config,
        left,
    );
    let (rp, rt) = place_and_answer(
        services,
        workspace,
        devcontainer_file,
        validation,
        mount_resolution,
        ids,
        right_before,
        right_config,
        right,
    );
    same_place_found_statically(
        services,
        workspace,
        validation,
        mount_resolution,
        ids,
        left_before,
        right_before,
        lp,
        rp,
    );
    same_settlement_told(services, left_before, right_before, lt, rt);
    same_located_expansion(
        services,
        workspace,
        devcontainer_file,
        ids,
        settled_config(left_before, lp, lt),
        settled_config(right_before, rp, rt),
        lp,
        rp,
        left_config,
        right_config,
        left,
        right,
    );
}

proof fn same_static_expansion<S: PlanServices>(
    services: &S,
    workspace: &Workspace,
    devcontainer_file: &String,
    validation: WorkspaceLocationValidation,
    mount_resolution: MountResolution,
    ids: HostUserIds,
    left_before: ResolvedConfig,
    right_before: ResolvedConfig,
    left_config: ResolvedConfig,
    right_config: ResolvedConfig,
    left: StaticPlanExpansion,
    right: StaticPlanExpansion,
)
    requires
        reads_texts_steadily(services),
        reads_builds_steadily(services),
        reads_mounts_steadily(services),
        same_but_ports(left_before, right_before),
        expands_statically(
            services,
            workspace,
            devcontainer_file,
            validation,
            mount_resolution,
            ids,
            left_before,
            left_config,
            Ok(left),
        ),
        expands_statically(
            services,
            workspace,
            devcontainer_file,
            validation,
            mount_resolution,
            ids,
            right_before,
            right_config,
            Ok(right),
        ),
    ensures
        same_but_ports(left_config, right_config),
        same_expansion(left, right),
{
    let (lv, lu, le) = choose|
        variables: VariableContext,
        users: ResolvedDevcontainer,
        result: Result<(), UpError>,
    |
        {
            &&& describes_statically(
                variables,
                *workspace,
                default_folder(*workspace),
                left_before,
                ids,
            )
            &&& #[trigger] expands_users(
                services,
                &variables,
                left_before.devcontainer,
                users,
                result,
            )
            &&& result is Ok
            &&& expands_with_users(
                services,
                workspace,
                devcontainer_file,
                validation,
                mount_resolution,
                ids,
                with_users(left_before, users.remote_user, users.container_user),
                left_config,
                Ok(left),
            )
        };
    let (rv, ru, re) = choose|
        variables: VariableContext,
        users: ResolvedDevcontainer,
        result: Result<(), UpError>,
    |
        {
            &&& describes_statically(
                variables,
                *workspace,
                default_folder(*workspace),
                right_before,
                ids,
            )
            &&& #[trigger] expands_users(
                services,
                &variables,
                right_before.devcontainer,
                users,
                result,
            )
            &&& result is Ok
            &&& expands_with_users(
                services,
                workspace,
                devcontainer_file,
                validation,
                mount_resolution,
                ids,
                with_users(right_before, users.remote_user, users.container_user),
                right_config,
                Ok(right),
            )
        };
    assert(same_variables(lv, rv));
    if left_before.devcontainer.remote_user is Some {
        same_text_expanded(
            services,
            lv,
            rv,
            left_before.devcontainer.remote_user->0,
            lu.remote_user->0,
            ru.remote_user->0,
        );
    }
    if left_before.devcontainer.container_user is Some {
        same_text_expanded(
            services,
            lv,
            rv,
            left_before.devcontainer.container_user->0,
            lu.container_user->0,
            ru.container_user->0,
        );
    }
    let l = with_users(left_before, lu.remote_user, lu.container_user);
    let r = with_users(right_before, ru.remote_user, ru.container_user);
    assert(same_but_ports(l, r));
    same_expansion_with_users(
        services,
        workspace,
        devcontainer_file,
        validation,
        mount_resolution,
        ids,
        l,
        r,
        left_config,
        right_config,
        left,
        right,
    );
}

/// Whether Features are read, and their digests looked up, with one answer
/// for one question.
pub open spec fn reads_features_steadily<S: PlanServices>(services: &S) -> bool {
    &&& forall|
        id: String,
        devcontainer_file: &String,
        left: Result<FeatureReference, UpError>,
        right: Result<FeatureReference, UpError>,
    |
        #![trigger
            call_ensures(S::parse_feature_ref, (services, &id, devcontainer_file), left),
            call_ensures(S::parse_feature_ref, (services, &id, devcontainer_file), right)]
        {
            &&& call_ensures(S::parse_feature_ref, (services, &id, devcontainer_file), left)
            &&& call_ensures(S::parse_feature_ref, (services, &id, devcontainer_file), right)
            &&& left is Ok
            &&& right is Ok
        } ==> left == right
    &&& forall|
        workspace: &Workspace,
        left: Result<FeatureLock, UpError>,
        right: Result<FeatureLock, UpError>,
    |
        #![trigger
            call_ensures(S::read_feature_lock, (services, workspace), left),
            call_ensures(S::read_feature_lock, (services, workspace), right)]
        {
            &&& call_ensures(S::read_feature_lock, (services, workspace), left)
            &&& call_ensures(S::read_feature_lock, (services, workspace), right)
            &&& left is Ok
            &&& right is Ok
        } ==> left == right
    &&& forall|
        reference: FeatureReference,
        lock: FeatureLock,
        left: Option<String>,
        right: Option<String>,
    |
        #![trigger
            call_ensures(S::locked_digest, (services, &reference, &lock), left),
            call_ensures(S::locked_digest, (services, &reference, &lock), right)]
        {
            &&& call_ensures(S::locked_digest, (services, &reference, &lock), left)
            &&& call_ensures(S::locked_digest, (services, &reference, &lock), right)
        } ==> left == right
}

pub(crate) proof fn same_locks_collected<S: PlanServices>(
    services: &S,
    workspace: &Workspace,
    devcontainer_file: &String,
    features: Seq<ResolvedFeature>,
    update_features: bool,
    left: Vec<FeatureLockHashEntry>,
    right: Vec<FeatureLockHashEntry>,
)
    requires
        reads_features_steadily(services),
        collects_locks(
            services,
            workspace,
            devcontainer_file,
            features,
            update_features,
            Ok(left),
        ),
        collects_locks(
            services,
            workspace,
            devcontainer_file,
            features,
            update_features,
            Ok(right),
        ),
    ensures
        left@ == right@,
{
    if features.len() == 0 || update_features {
        assert(left@ =~= right@);
    } else {
        let (lr, ll, ld) = lock_and_digests(
            services,
            workspace,
            devcontainer_file,
            features,
            left,
        );
        let (rr, rl, rd) = lock_and_digests(
            services,
            workspace,
            devcontainer_file,
            features,
            right,
        );
        assert forall|i: int| 0 <= i < features.len() implies lr[i] == rr[i] by {
            assert(call_ensures(
                S::parse_feature_ref,
                (services, &features[i].id, devcontainer_file),
                Ok::<FeatureReference, UpError>(lr[i]),
            ));
        }
        assert(lr =~= rr);
        assert forall|i: int| 0 <= i < features.len() implies ld[i] == rd[i] by {
            assert(lr[i] == rr[i]);
        }
        assert(ld =~= rd);
    }
}

proof fn lock_and_digests<S: PlanServices>(
    services: &S,
    workspace: &Workspace,
    devcontainer_file: &String,
    features: Seq<ResolvedFeature>,
    locks: Vec<FeatureLockHashEntry>,
) -> (res: (Seq<FeatureReference>, FeatureLock, Seq<Option<String>>))
    requires
        features.len() > 0,
        collects_locks(services, workspace, devcontainer_file, features, false, Ok(locks)),
    ensures
        reads_references(services, devcontainer_file, features, res.0),
        call_ensures(
            S::read_feature_lock,
            (services, workspace),
            Ok::<FeatureLock, UpError>(res.1),
        ),
        finds_digests(services, res.1, res.0, res.2),
        locks@ == locked_entries(res.0, res.2),
{
    let outcome = Ok::<Vec<FeatureLockHashEntry>, UpError>(locks);
    let references = choose|references: Seq<FeatureReference>|
        {
            &&& #[trigger] reads_references(services, devcontainer_file, features, references)
            &&& exists|lock: Result<FeatureLock, UpError>| #[trigger]
                call_ensures(S::read_feature_lock, (services, workspace), lock) && ends_with_lock(
                    services,
                    references,
                    lock,
                    outcome,
                )
        };
    let lock = choose|lock: Result<FeatureLock, UpError>| #[trigger]
        call_ensures(S::read_feature_lock, (services, workspace), lock) && ends_with_lock(
            services,
            references,
            lock,
            outcome,
        );
    let digests = choose|digests: Seq<Option<String>>| #[trigger]
        finds_digests(services, lock->Ok_0, references, digests) && locks@ == locked_entries(
            references,
            digests,
        );
    (references, lock->Ok_0, digests)
}

proof fn same_lists_joined(
    left_front: Seq<DockerMountSpec>,
    right_front: Seq<DockerMountSpec>,
    left_back: Seq<DockerMountSpec>,
    right_back: Seq<DockerMountSpec>,
)
    requires
        same_mounts(left_front, right_front),
        same_mounts(left_back, right_back),
    ensures
        same_mounts(left_front + left_back, right_front + right_back),
{
    let left = left_front + left_back;
    let right = right_front + right_back;
    assert forall|i: int| 0 <= i < left.len() implies same_mount(#[trigger] left[i], right[i]) by {
        let count = left_front.len();
        if i < count {
            assert(same_mount(left_front[i], right_front[i]));
        } else {
            assert(same_mount(left_back[i - count], right_back[i - count]));
        }
    }
}

/// The mount of the workspace as the first of a plan's mounts; a Compose
/// project has none.
pub open spec fn first_mounts(
    workspace_mount: DockerMountSpec,
    config: ResolvedConfig,
) -> Seq<DockerMountSpec> {
    if config.spec_is_compose() {
        Seq::empty()
    } else {
        seq![workspace_mount]
    }
}

proof fn parts_of_mounts<S: PlanServices>(
    services: &S,
    workspace_mount: DockerMountSpec,
    workspace: &Workspace,
    config: ResolvedConfig,
    variables: VariableContext,
    mount_resolution: MountResolution,
    plan: WorkspaceMountPlan,
) -> (res: (Vec<DockerMountSpec>, WorkspaceMountPlan))
    requires
        mount_resolution.resolves(),
        plans_mounts(
            services,
            workspace_mount,
            workspace,
            &config,
            &variables,
            mount_resolution,
            Ok(plan),
        ),
    ensures
        call_ensures(
            S::config_mount_specs,
            (services, &config, workspace, &variables, create_mode(mount_resolution)),
            Ok::<Vec<DockerMountSpec>, UpError>(res.0),
        ),
        call_ensures(
            S::dotfile_mount_plan,
            (services, &config, workspace, &variables),
            Ok::<WorkspaceMountPlan, UpError>(res.1),
        ),
        plan.mounts@ == first_mounts(workspace_mount, config) + res.0@ + res.1.mounts@,
{
    let outcome = Ok::<WorkspaceMountPlan, UpError>(plan);
    let target = guarded_target(workspace_mount, config.spec_is_compose());
    let mounts = choose|mounts: Result<Vec<DockerMountSpec>, UpError>| #[trigger]
        call_ensures(
            S::config_mount_specs,
            (services, &config, workspace, &variables, create_mode(mount_resolution)),
            mounts,
        ) && ends_with_mounts(
            services,
            workspace_mount,
            workspace,
            &config,
            &variables,
            mounts,
            outcome,
        );
    let first = first_mounts(workspace_mount, config);
    let dotfiles = choose|dotfiles: Result<WorkspaceMountPlan, UpError>| #[trigger]
        call_ensures(
            S::dotfile_mount_plan,
            (services, &config, workspace, &variables),
            dotfiles,
        ) && ends_with_dotfiles(first + mounts->Ok_0@, target, dotfiles, outcome);
    (mounts->Ok_0, dotfiles->Ok_0)
}

pub(crate) proof fn same_mounts_planned<S: PlanServices>(
    services: &S,
    left_mount: DockerMountSpec,
    right_mount: DockerMountSpec,
    workspace: &Workspace,
    left_config: ResolvedConfig,
    right_config: ResolvedConfig,
    left_variables: VariableContext,
    right_variables: VariableContext,
    mount_resolution: MountResolution,
    left: WorkspaceMountPlan,
    right: WorkspaceMountPlan,
)
    requires
        reads_mounts_steadily(services),
        same_mount(left_mount, right_mount),
        same_but_ports(left_config, right_config),
        same_variables(left_variables, right_variables),
        plans_mounts(
            services,
            left_mount,
            workspace,
            &left_config,
            &left_variables,
            mount_resolution,
            Ok(left),
        ),
        plans_mounts(
            services,
            right_mount,
            workspace,
            &right_config,
            &right_variables,
            mount_resolution,
            Ok(right),
        ),
    ensures
        same_mounts(left.mounts@, right.mounts@),
{
    let left_first = first_mounts(left_mount, left_config);
    let right_first = first_mounts(right_mount, right_config);
    assert(same_mounts(left_first, right_first));
    if mount_resolution.resolves() {
        let (lm, ld) = parts_of_mounts(
            services,
            left_mount,
            workspace,
            left_config,
            left_variables,
            mount_resolution,
            left,
        );
        let (rm, rd) = parts_of_mounts(
            services,
            right_mount,
            workspace,
            right_config,
            right_variables,
            mount_resolution,
            right,
        );
        same_lists_joined(left_first, right_first, lm@, rm@);
        same_lists_joined(left_first + lm@, right_first + rm@, ld.mounts@, rd.mounts@);
    }
}

/// Whether the hash of a configuration does not depend on the ports to
/// forward, and the names that Docker goes by hold one hash for one hash.
pub open spec fn hashes_apart_from_ports<S: PlanServices>(services: &S) -> bool {
    &&& forall|
        left_input: ConfigHashInput,
        right_input: ConfigHashInput,
        left: String,
        right: String,
    |
        #![trigger
            call_ensures(S::config_hash, (services, &left_input), left),
            call_ensures(S::config_hash, (services, &right_input), right)]
        {
            &&& same_input_but_ports(left_input, right_input)
            &&& call_ensures(S::config_hash, (services, &left_input), left)
            &&& call_ensures(S::config_hash, (services, &right_input), right)
        } ==> left@ == right@
    &&& forall|
        workspace: &Workspace,
        left_file: String,
        right_file: String,
        left_hash: String,
        right_hash: String,
        left: DockerResources,
        right: DockerResources,
    |
        #![trigger
            call_ensures(
                S::docker_resources,
                (services, workspace, &left_hash, &left_file),
                left,
            ),
            call_ensures(
                S::docker_resources,
                (services, workspace, &right_hash, &right_file),
                right,
            )]
        {
            &&& left_hash@ == right_hash@
            &&& left_file@ == right_file@
            &&& call_ensures(
                S::docker_resources,
                (services, workspace, &left_hash, &left_file),
                left,
            )
            &&& call_ensures(
                S::docker_resources,
                (services, workspace, &right_hash, &right_file),
                right,
            )
        } ==> left.config_hash@ == right.config_hash@
}

/// Whether Compose projects are found with one answer for one question.
pub open spec fn finds_projects_steadily<S: PlanServices>(services: &S) -> bool {
    forall|
        workspace: &Workspace,
        devcontainer_file: &String,
        files: Vec<String>,
        left: Result<ComposeProjectPlan, UpError>,
        right: Result<ComposeProjectPlan, UpError>,
    |
        #![trigger
            call_ensures(
                S::resolve_compose_project,
                (services, workspace, devcontainer_file, &files),
                left,
            ),
            call_ensures(
                S::resolve_compose_project,
                (services, workspace, devcontainer_file, &files),
                right,
            )]
        {
            &&& call_ensures(
                S::resolve_compose_project,
                (services, workspace, devcontainer_file, &files),
                left,
            )
            &&& call_ensures(
                S::resolve_compose_project,
                (services, workspace, devcontainer_file, &files),
                right,
            )
            &&& left is Ok
            &&& right is Ok
        } ==> left == right
}

/// Whether layers are merged setting by setting: where they set the same but
/// for the ports to forward, so do the configurations.
pub open spec fn merges_ports_apart<S: PlanServices>(services: &S) -> bool {
    forall|
        left_layers: ConfigMergeInput,
        right_layers: ConfigMergeInput,
        left: ResolvedConfig,
        right: ResolvedConfig,
    |
        #![trigger
            call_ensures(S::resolve_config, (services, &left_layers), left),
            call_ensures(S::resolve_config, (services, &right_layers), right)]
        {
            &&& same_layers(left_layers, right_layers)
            &&& call_ensures(S::resolve_config, (services, &left_layers), left)
            &&& call_ensures(S::resolve_config, (services, &right_layers), right)
        } ==> same_but_ports(left, right)
}

/// Whether planning gets one answer for one question, and no answer but the
/// ports themselves depends on the ports to forward.
pub open spec fn answers_apart_from_ports<S: PlanServices>(services: &S) -> bool {
    &&& reads_texts_steadily(services)
    &&& reads_builds_steadily(services)
    &&& reads_mounts_steadily(services)
    &&& reads_features_steadily(services)
    &&& finds_projects_steadily(services)
    &&& merges_ports_apart(services)
    &&& hashes_apart_from_ports(services)
}

/// Whether a plan ends with the names of one hash of what is known before
/// the image is.
pub open spec fn ends_with_hash<S: PlanServices>(
    services: &S,
    workspace: &Workspace,
    host: HostEnvironment,
    devcontainer_file: &String,
    layers: ConfigMergeInput,
    config: ResolvedConfig,
    hidden: SensitiveEnvMap,
    project: Option<ComposeProjectPlan>,
    mounts: Seq<DockerMountSpec>,
    mount_resolution: MountResolution,
    build: Option<BuildHashInput>,
    locks: Vec<FeatureLockHashEntry>,
    resources: DockerResources,
) -> bool {
    exists|input: ConfigHashInput, hash: String|
        {
            &&& holds_static_input(
                input,
                layers,
                config,
                build,
                hidden,
                project,
                locks,
                mounts,
                mount_resolution,
                host,
            )
            &&& #[trigger] call_ensures(S::config_hash, (services, &input), hash)
            &&& call_ensures(
                S::docker_resources,
                (services, workspace, &hash, devcontainer_file),
                resources,
            )
        }
}

proof fn build_and_locks<S: PlanServices>(
    services: &S,
    workspace: &Workspace,
    host: HostEnvironment,
    devcontainer_file: &String,
    layers: ConfigMergeInput,
    config: ResolvedConfig,
    expansion: StaticPlanExpansion,
    project: Option<ComposeProjectPlan>,
    mount_plan: WorkspaceMountPlan,
    mount_resolution: MountResolution,
    resolution: UpPlanResolution,
    already_ignored: bool,
    plan: UpPlan,
) -> (res: (Option<BuildHashInput>, Vec<FeatureLockHashEntry>))
    requires
        ends_with_mount_plan(
            services,
            workspace,
            host,
            devcontainer_file,
            layers,
            config,
            expansion,
            project,
            mount_plan,
            mount_resolution,
            resolution,
            already_ignored,
            Ok(plan),
        ),
    ensures
        reads_build(services, expansion.build_context, Ok(res.0)),
        collects_locks(
            services,
            workspace,
            devcontainer_file,
            config.features@,
            resolution.update_features,
            Ok(res.1),
        ),
        ends_with_hash(
            services,
            workspace,
            host,
            devcontainer_file,
            layers,
            config,
            expansion.sensitive_build_args,
            project,
            mount_plan.mounts@,
            mount_resolution,
            res.0,
            res.1,
            plan.resources,
        ),
{
    let build = choose|build: Result<Option<BuildHashInput>, UpError>| #[trigger]
        reads_build(services, expansion.build_context, build) && match build {
            Err(error) => false,
            Ok(build) => exists|locks: Result<Vec<FeatureLockHashEntry>, UpError>| #[trigger]
                collects_locks(
                    services,
                    workspace,
                    devcontainer_file,
                    config.features@,
                    resolution.update_features,
                    locks,
                ) && match locks {
                    Err(error) => false,
                    Ok(locks) => ends_with_hash(
                        services,
                        workspace,
                        host,
                        devcontainer_file,
                        layers,
                        config,
                        expansion.sensitive_build_args,
                        project,
                        mount_plan.mounts@,
                        mount_resolution,
                        build,
                        locks,
                        plan.resources,
                    ),
                },
        };
    let locks = choose|locks: Result<Vec<FeatureLockHashEntry>, UpError>| #[trigger]
        collects_locks(
            services,
            workspace,
            devcontainer_file,
            config.features@,
            resolution.update_features,
            locks,
        ) && match locks {
            Err(error) => false,
            Ok(locks) => ends_with_hash(
                services,
                workspace,
                host,
                devcontainer_file,
                layers,
                config,
                expansion.sensitive_build_args,
                project,
                mount_plan.mounts@,
                mount_resolution,
                build->Ok_0,
                locks,
                plan.resources,
            ),
        };
    (build->Ok_0, locks->Ok_0)
}

proof fn same_hash_taken<S: PlanServices>(
    services: &S,
    workspace: &Workspace,
    host: HostEnvironment,
    devcontainer_file: &String,
    left_layers: ConfigMergeInput,
    right_layers: ConfigMergeInput,
    left_config: ResolvedConfig,
    right_config: ResolvedConfig,
    left_hidden: SensitiveEnvMap,
    right_hidden: SensitiveEnvMap,
    project: Option<ComposeProjectPlan>,
    left_mounts: Seq<DockerMountSpec>,
    right_mounts: Seq<DockerMountSpec>,
    mount_resolution: MountResolution,
    build: Option<BuildHashInput>,
    left_locks: Vec<FeatureLockHashEntry>,
    right_locks: Vec<FeatureLockHashEntry>,
    left: DockerResources,
    right: DockerResources,
)
    requires
        hashes_apart_from_ports(services),
        same_layers(left_layers, right_layers),
        same_but_ports(left_config, right_config),
        left_hidden@ == right_hidden@,
        left_locks@ == right_locks@,
        same_mounts(left_mounts, right_mounts),
        ends_with_hash(
            services,
            workspace,
            host,
            devcontainer_file,
            left_layers,
            left_config,
            left_hidden,
            project,
            left_mounts,
            mount_resolution,
            build,
            left_locks,
            left,
        ),
        ends_with_hash(
            services,
            workspace,
            host,
            devcontainer_file,
            right_layers,
            right_config,
            right_hidden,
            project,
            right_mounts,
            mount_resolution,
            build,
            right_locks,
            right,
        ),
    ensures
        left.config_hash@ == right.config_hash@,
{
    let (li, lh) = choose|input: ConfigHashInput, hash: String|
        {
            &&& holds_static_input(
                input,
                left_layers,
                left_config,
                build,
                left_hidden,
                project,
                left_locks,
                left_mounts,
                mount_resolution,
                host,
            )
            &&& #[trigger] call_ensures(S::config_hash, (services, &input), hash)
            &&& call_ensures(
                S::docker_resources,
                (services, workspace, &hash, devcontainer_file),
                left,
            )
        };
    let (ri, rh) = choose|input: ConfigHashInput, hash: String|
        {
            &&& holds_static_input(
                input,
                right_layers,
                right_config,
                build,
                right_hidden,
                project,
                right_locks,
                right_mounts,
                mount_resolution,
                host,
            )
            &&& #[trigger] call_ensures(S::config_hash, (services, &input), hash)
            &&& call_ensures(
                S::docker_resources,
                (services, workspace, &hash, devcontainer_file),
                right,
            )
        };
    hash_inputs_agree_but_for_ports(
        li,
        ri,
        left_layers,
        right_layers,
        left_config,
        right_config,
        build,
        left_hidden,
        right_hidden,
        project,
        left_locks,
        right_locks,
        left_mounts,
        right_mounts,
        mount_resolution,
        host,
    );
    assert(lh@ == rh@);
}

proof fn project_and_mounts<S: PlanServices>(
    services: &S,
    workspace: &Workspace,
    host: HostEnvironment,
    devcontainer_file: &String,
    layers: ConfigMergeInput,
    config: ResolvedConfig,
    expansion: StaticPlanExpansion,
    mount_resolution: MountResolution,
    resolution: UpPlanResolution,
    already_ignored: bool,
    plan: UpPlan,
) -> (res: (Option<ComposeProjectPlan>, VariableContext, WorkspaceMountPlan))
    requires
        ends_with_expansion(
            services,
            workspace,
            host,
            devcontainer_file,
            layers,
            config,
            expansion,
            mount_resolution,
            resolution,
            already_ignored,
            Ok(plan),
        ),
    ensures
        finds_compose_project(services, workspace, devcontainer_file, &config, Ok(res.0)),
        describes_statically(
            res.1,
            *workspace,
            expansion.workspace_location.workspace_folder@,
            config,
            host.ids,
        ),
        plans_mounts(
            services,
            expansion.workspace_location.workspace_mount,
            workspace,
            &config,
            &res.1,
            mount_resolution,
            Ok(res.2),
        ),
        ends_with_mount_plan(
            services,
            workspace,
            host,
            devcontainer_file,
            layers,
            config,
            expansion,
            res.0,
            res.2,
            mount_resolution,
            resolution,
            already_ignored,
            Ok(plan),
        ),
{
    let project = choose|project: Result<Option<ComposeProjectPlan>, UpError>| #[trigger]
        finds_compose_project(services, workspace, devcontainer_file, &config, project)
            && match project {
            Err(error) => false,
            Ok(project) => exists|
                variables: VariableContext,
                mount_plan: Result<WorkspaceMountPlan, UpError>,
            |
                {
                    &&& describes_statically(
                        variables,
                        *workspace,
                        expansion.workspace_location.workspace_folder@,
                        config,
                        host.ids,
                    )
                    &&& #[trigger] plans_mounts(
                        services,
                        expansion.workspace_location.workspace_mount,
                        workspace,
                        &config,
                        &variables,
                        mount_resolution,
                        mount_plan,
                    )
                    &&& mount_plan is Ok
                    &&& ends_with_mount_plan(
                        services,
                        workspace,
                        host,
                        devcontainer_file,
                        layers,
                        config,
                        expansion,
                        project,
                        mount_plan->Ok_0,
                        mount_resolution,
                        resolution,
                        already_ignored,
                        Ok(plan),
                    )
                },
        };
    let (variables, mount_plan) = choose|
        variables: VariableContext,
        mount_plan: Result<WorkspaceMountPlan, UpError>,
    |
        {
            &&& describes_statically(
                variables,
                *workspace,
                expansion.workspace_location.workspace_folder@,
                config,
                host.ids,
            )
            &&& #[trigger] plans_mounts(
                services,
                expansion.workspace_location.workspace_mount,
                workspace,
                &config,
                &variables,
                mount_resolution,
                mount_plan,
            )
            &&& mount_plan is Ok
            &&& ends_with_mount_plan(
                services,
                workspace,
                host,
                devcontainer_file,
                layers,
                config,
                expansion,
                project->Ok_0,
                mount_plan->Ok_0,
                mount_resolution,
                resolution,
                already_ignored,
                Ok(plan),
            )
        };
    (project->Ok_0, variables, mount_plan->Ok_0)
}

proof fn same_project_found<S: PlanServices>(
    services: &S,
    workspace: &Workspace,
    devcontainer_file: &String,
    left_config: ResolvedConfig,
    right_config: ResolvedConfig,
    left: Option<ComposeProjectPlan>,
    right: Option<ComposeProjectPlan>,
)
    requires
        finds_projects_steadily(services),
        same_but_ports(left_config, right_config),
        finds_compose_project(services, workspace, devcontainer_file, &left_config, Ok(left)),
        finds_compose_project(services, workspace, devcontainer_file, &right_config, Ok(right)),
    ensures
        left == right,
{
}

pub(crate) proof fn same_build_read<S: PlanServices>(
    services: &S,
    context: Option<ResolvedBuildContext>,
    left: Option<BuildHashInput>,
    right: Option<BuildHashInput>,
)
    requires
        reads_builds_steadily(services),
        reads_build(services, context, Ok(left)),
        reads_build(services, context, Ok(right)),
    ensures
        left == right,
{
}

proof fn same_hash_of_expansions<S: PlanServices>(
    services: &S,
    workspace: &Workspace,
    host: HostEnvironment,
    devcontainer_file: &String,
    left_layers: ConfigMergeInput,
    right_layers: ConfigMergeInput,
    left_config: ResolvedConfig,
    right_config: ResolvedConfig,
    left_expansion: StaticPlanExpansion,
    right_expansion: StaticPlanExpansion,
    mount_resolution: MountResolution,
    left_resolution: UpPlanResolution,
    right_resolution: UpPlanResolution,
    left_ignored: bool,
    right_ignored: bool,
    left: UpPlan,
    right: UpPlan,
)
    requires
        answers_apart_from_ports(services),
        same_layers(left_layers, right_layers),
        same_but_ports(left_config, right_config),
        same_expansion(left_expansion, right_expansion),
        left_resolution.update_features == right_resolution.update_features,
        ends_with_expansion(
            services,
            workspace,
            host,
            devcontainer_file,
            left_layers,
            left_config,
            left_expansion,
            mount_resolution,
            left_resolution,
            left_ignored,
            Ok(left),
        ),
        ends_with_expansion(
            services,
            workspace,
            host,
            devcontainer_file,
            right_layers,
            right_config,
            right_expansion,
            mount_resolution,
            right_resolution,
            right_ignored,
            Ok(right),
        ),
    ensures
        left.resources.config_hash@ == right.resources.config_hash@,
{
    let (lp, lv, lm) = project_and_mounts(
        services,
        workspace,
        host,
        devcontainer_file,
        left_layers,
        left_config,
        left_expansion,
        mount_resolution,
        left_resolution,
        left_ignored,
        left,
    );
    let (rp, rv, rm) = project_and_mounts(
        services,
        workspace,
        host,
        devcontainer_file,
        right_layers,
        right_config,
        right_expansion,
        mount_resolution,
        right_resolution,
        right_ignored,
        right,
    );
    same_project_found(
        services,
        workspace,
        devcontainer_file,
        left_config,
        right_config,
        lp,
        rp,
    );
    same_mounts_planned(
        services,
        left_expansion.workspace_location.workspace_mount,
        right_expansion.workspace_location.workspace_mount,
        workspace,
        left_config,
        right_config,
        lv,
        rv,
        mount_resolution,
        lm,
        rm,
    );
    let (lb, ll) = build_and_locks(
        services,
        workspace,
        host,
        devcontainer_file,
        left_layers,
        left_config,
        left_expansion,
        lp,
        lm,
        mount_resolution,
        left_resolution,
        left_ignored,
        left,
    );
    let (rb, rl) = build_and_locks(
        services,
        workspace,
        host,
        devcontainer_file,
        right_layers,
        right_config,
        right_expansion,
        rp,
        rm,
        mount_resolution,
        right_resolution,
        right_ignored,
        right,
    );
    same_build_read(services, left_expansion.build_context, lb, rb);
    same_locks_collected(
        services,
        workspace,
        devcontainer_file,
        left_config.features@,
        left_resolution.update_features,
        ll,
        rl,
    );
    same_hash_taken(
        services,
        workspace,
        host,
        devcontainer_file,
        left_layers,
        right_layers,
        left_config,
        right_config,
        left_expansion.sensitive_build_args,
        right_expansion.sensitive_build_args,
        lp,
        lm.mounts@,
        rm.mounts@,
        mount_resolution,
        lb,
        ll,
        rl,
        left.resources,
        right.resources,
    );
}

/// Ports that are only forwarded leave the hash of a configuration alone. Two
/// plans of one workspace, whose layers set the same but for such ports, have
/// one hash, whether something stays attached to forward ports or not. It is
/// held that planning gets one answer for one question and that the answers
/// do not depend on the ports to forward.
pub proof fn forwarded_ports_leave_the_hash_alone<S: PlanServices>(
    services: &S,
    workspace: &Workspace,
    host: HostEnvironment,
    devcontainer_file: &String,
    left_layers: ConfigMergeInput,
    right_layers: ConfigMergeInput,
    mount_resolution: MountResolution,
    left_resolution: UpPlanResolution,
    right_resolution: UpPlanResolution,
    left_ignored: bool,
    right_ignored: bool,
    left: UpPlan,
    right: UpPlan,
)
    requires
        answers_apart_from_ports(services),
        same_layers(left_layers, right_layers),
        left_resolution.update_features == right_resolution.update_features,
        resolves_plan(
            services,
            workspace,
            host,
            devcontainer_file,
            left_layers,
            mount_resolution,
            left_resolution,
            left_ignored,
            Ok(left),
        ),
        resolves_plan(
            services,
            workspace,
            host,
            devcontainer_file,
            right_layers,
            mount_resolution,
            right_resolution,
            right_ignored,
            Ok(right),
        ),
    ensures
        left.resources.config_hash@ == right.resources.config_hash@,
{
    let (lm, lc, le) = merged_and_expanded(
        services,
        workspace,
        host,
        devcontainer_file,
        left_layers,
        mount_resolution,
        left_resolution,
        left_ignored,
        left,
    );
    let (rm, rc, re) = merged_and_expanded(
        services,
        workspace,
        host,
        devcontainer_file,
        right_layers,
        mount_resolution,
        right_resolution,
        right_ignored,
        right,
    );
    same_static_expansion(
        services,
        workspace,
        devcontainer_file,
        validation_for(mount_resolution),
        mount_resolution,
        host.ids,
        lm,
        rm,
        lc,
        rc,
        le,
        re,
    );
    same_hash_of_expansions(
        services,
        workspace,
        host,
        devcontainer_file,
        left_layers,
        right_layers,
        lc,
        rc,
        le,
        re,
        mount_resolution,
        left_resolution,
        right_resolution,
        left_ignored,
        right_ignored,
        left,
        right,
    );
}

proof fn merged_and_expanded<S: PlanServices>(
    services: &S,
    workspace: &Workspace,
    host: HostEnvironment,
    devcontainer_file: &String,
    layers: ConfigMergeInput,
    mount_resolution: MountResolution,
    resolution: UpPlanResolution,
    already_ignored: bool,
    plan: UpPlan,
) -> (res: (ResolvedConfig, ResolvedConfig, StaticPlanExpansion))
    requires
        resolves_plan(
            services,
            workspace,
            host,
            devcontainer_file,
            layers,
            mount_resolution,
            resolution,
            already_ignored,
            Ok(plan),
        ),
    ensures
        call_ensures(S::resolve_config, (services, &layers), res.0),
        expands_statically(
            services,
            workspace,
            devcontainer_file,
            validation_for(mount_resolution),
            mount_resolution,
            host.ids,
            res.0,
            res.1,
            Ok(res.2),
        ),
        ends_with_expansion(
            services,
            workspace,
            host,
            devcontainer_file,
            layers,
            res.1,
            res.2,
            mount_resolution,
            resolution,
            already_ignored,
            Ok(plan),
        ),
{
    let (merged, config, expansion) = choose|
        merged: ResolvedConfig,
        config: ResolvedConfig,
        expansion: Result<StaticPlanExpansion, UpError>,
    |
        {
            &&& call_ensures(S::resolve_config, (services, &layers), merged)
            &&& #[trigger] expands_statically(
                services,
                workspace,
                devcontainer_file,
                validation_for(mount_resolution),
                mount_resolution,
                host.ids,
                merged,
                config,
                expansion,
            )
            &&& expansion is Ok
            &&& ends_with_expansion(
                services,
                workspace,
                host,
                devcontainer_file,
                layers,
                config,
                expansion->Ok_0,
                mount_resolution,
                resolution,
                already_ignored,
                Ok(plan),
            )
        };
    (merged, config, expansion->Ok_0)
}

/// Whether two plans are asked for in the same way but for the ports to
/// forward and for whether something stays attached to forward them.
pub open spec fn same_request(left: UpPlanRequest, right: UpPlanRequest) -> bool {
    &&& same_layer(left.cli_layer, right.cli_layer)
    &&& same_layer_list(left.image_metadata@, right.image_metadata@)
    &&& left.mount_resolution == right.mount_resolution
    &&& right.resolution == (UpPlanResolution {
        forwarding: right.resolution.forwarding,
        ..left.resolution
    })
}

/// Whether two plans are made of the same files but for the ports to forward.
pub open spec fn same_sources(left: PlanSources, right: PlanSources) -> bool {
    &&& left.devcontainer_file == right.devcontainer_file
    &&& same_layer(left.devcontainer_layer, right.devcontainer_layer)
    &&& left.use_global_config == right.use_global_config
    &&& same_layer(left.project_layer, right.project_layer)
    &&& same_optional_layer(left.global_layer, right.global_layer)
}

/// Starts of one workspace agree whatever is forwarded: an attached and a
/// detached start, or two that forward different ports, have plans with one
/// hash, and a detached one forwards nothing. It is held that planning gets
/// one answer for one question and that the answers do not depend on the
/// ports to forward.
pub proof fn starts_agree_whatever_is_forwarded<S: PlanServices>(
    services: &S,
    workspace: &Workspace,
    host: HostEnvironment,
    left_request: UpPlanRequest,
    right_request: UpPlanRequest,
    left_sources: PlanSources,
    right_sources: PlanSources,
    left: UpPlan,
    right: UpPlan,
)
    requires
        answers_apart_from_ports(services),
        same_request(left_request, right_request),
        same_sources(left_sources, right_sources),
        builds_plan(services, workspace, host, left_request, left_sources, Ok(left)),
        builds_plan(services, workspace, host, right_request, right_sources, Ok(right)),
    ensures
        left.resources.config_hash@ == right.resources.config_hash@,
        right_request.resolution.forwarding == ForwardingResolution::IgnoreDetached
            ==> right.forward_ports@.len() == 0,
{
    let (left_ignored, right_ignored) = (
        either(
            left_request.ignored_image_metadata_forwarding,
            left_sources.names_forward_ports,
        ),
        either(
            right_request.ignored_image_metadata_forwarding,
            right_sources.names_forward_ports,
        ),
    );
    let left_layers = choose|layers: ConfigMergeInput|
        requested_layers(left_request, left_sources, layers) && #[trigger] resolves_plan(
            services,
            workspace,
            host,
            &left_sources.devcontainer_file,
            layers,
            left_request.mount_resolution,
            left_request.resolution,
            left_ignored,
            Ok(left),
        );
    let right_layers = choose|layers: ConfigMergeInput|
        requested_layers(right_request, right_sources, layers) && #[trigger] resolves_plan(
            services,
            workspace,
            host,
            &right_sources.devcontainer_file,
            layers,
            right_request.mount_resolution,
            right_request.resolution,
            right_ignored,
            Ok(right),
        );
    assert(same_layers(left_layers, right_layers));
    forwarded_ports_leave_the_hash_alone(
        services,
        workspace,
        host,
        &left_sources.devcontainer_file,
        left_layers,
        right_layers,
        left_request.mount_resolution,
        left_request.resolution,
        right_request.resolution,
        left_ignored,
        right_ignored,
        left,
        right,
    );
    detached_plans_forward_nothing(
        services,
        workspace,
        host,
        &right_sources.devcontainer_file,
        right_layers,
        right_request.mount_resolution,
        right_request.resolution,
        right_ignored,
        right,
    );
}

} // verus!
