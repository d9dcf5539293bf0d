//! The plan of a start, as far as it is known before the image is.

use crate::config::{
    ConfigLayer, ConfigMergeInput, LayerDevcontainerBuild, LayerRunArg, ResolvedConfig,
    ResolvedDevcontainer, ResolvedDevcontainerSource, ResolvedFeature, ResolvedPortEntry,
};
use crate::docker::{
    DockerBuildOptions, DockerResources, FeatureLockHashEntry, HostEnvironment, HostUserIds,
    ResolvedBuildContext, ResolvedForwardPort, SensitiveEnvMap, UidGidSyncPlan,
};
use crate::error::UpError;
use crate::hash_input::ConfigHashInput;
use crate::mounts::{plans_mounts, WorkspaceLocationValidation, WorkspaceMountPlan};
use crate::plan::assemble::{
    builds_plain_plan, builds_plan, chooses_ports, ends_with_expansion, ends_with_mount_plan,
    is_plain_request, resolves_plan, validation_for, PlanSources, UpPlanRequest,
};
use crate::plan::compose::{finds_compose_project, first_service_port};
use crate::plan::expand::{
    expands_build, expands_run_args, expands_run_args_early, expands_settings,
    expands_settings_early, expands_source, expands_statically, expands_texts, expands_texts_early,
    expands_users, StaticPlanExpansion,
};
use crate::plan::hash::{
    collects_locks, ends_with_lock, finds_digests, locked_entries, reads_references,
};
use crate::plan::source::{base_image, final_image, finds_build_input};
use crate::services::{FeatureLock, FeatureReference, PlanServices};
use crate::text::views;
use crate::text_map::keys_of;
use crate::types::{
    ComposeProjectPlan, ForwardingResolution, MountResolution, TrackedValues, UpPlan,
    UpPlanResolution, VariableContext, Workspace, WorkspaceLocation,
};
use vstd::prelude::*;

verus! {

/// A plan that is asked for is made from the layers that were asked for, each
/// in its own place: what the image sets, the devcontainer file, the project's
/// configuration and the command line, and the user's own configuration where
/// neither the command line nor the project switched it off. Features bring
/// nothing yet.
pub proof fn plans_hold_the_layers_that_count<S: PlanServices>(
    services: &S,
    workspace: &Workspace,
    host: HostEnvironment,
    request: UpPlanRequest,
    sources: PlanSources,
    plan: UpPlan,
)
    requires
        builds_plan(services, workspace, host, request, sources, Ok(plan)),
    ensures
        plan.config_layers.image_metadata == request.image_metadata,
        plan.config_layers.feature_metadata@.len() == 0,
        plan.config_layers.devcontainer == Some(sources.devcontainer_layer),
        plan.config_layers.project == Some(sources.project_layer),
        plan.config_layers.cli == Some(request.cli_layer),
        request.resolution.skip_global_config || sources.use_global_config == Some(false)
            ==> plan.config_layers.global is None,
        !request.resolution.skip_global_config && sources.use_global_config != Some(false)
            ==> plan.config_layers.global == sources.global_layer,
        request.resolution.forwarding == ForwardingResolution::IgnoreDetached
            ==> plan.forward_ports@.len() == 0,
        plan.ignored_detached_forwarding <==> request.resolution.forwarding
            == ForwardingResolution::IgnoreDetached && (request.ignored_image_metadata_forwarding
            || sources.names_forward_ports || plan.config.ports.entries@.len() > 0),
{
}

/// Whether a plan has the mounts and dotfiles that were planned, and works in the
/// folder that its workspace was found in.
pub open spec fn settles_plan(
    plan: UpPlan,
    mount_plan: WorkspaceMountPlan,
    location: WorkspaceLocation,
) -> bool {
    &&& plan.mounts == mount_plan.mounts
    &&& plan.dotfile_skeletons == mount_plan.dotfile_skeletons
    &&& plan.workspace_folder == location.workspace_folder
}

/// What a plan is made from before the image is known: the configuration that
/// the layers merge to with its early variables replaced; the hash of that
/// configuration with what it builds on, and the names that Docker goes by for
/// that hash; and nothing of the image yet, so both users are root.
pub proof fn plans_are_named_by_their_hash<S: PlanServices>(
    services: &S,
    workspace: &Workspace,
    host: HostEnvironment,
    devcontainer_file: &String,
    layers: ConfigMergeInput,
    mount_resolution: MountResolution,
    resolution: UpPlanResolution,
    already_ignored: bool,
    plan: UpPlan,
)
    requires
        resolves_plan(
            services,
            workspace,
            host,
            devcontainer_file,
            layers,
            mount_resolution,
            resolution,
            already_ignored,
            Ok(plan),
        ),
    ensures
        plan.config_layers == layers,
        exists|input: ConfigHashInput, hash: String|
            {
                &&& #[trigger] call_ensures(S::config_hash, (services, &input), hash)
                &&& call_ensures(
                    S::docker_resources,
                    (services, workspace, &hash, devcontainer_file),
                    plan.resources,
                )
                &&& *input.config == plan.config
                &&& views(input.sensitive_build_arg_keys@) == plan.sensitive_build_args@.map_values(
                    |entry: (Seq<char>, crate::docker::SensitiveEnvValue)| entry.0,
                )
                &&& input.sensitive_container_env_keys@.len() == 0
                &&& plan.compose_project is Some ==> input.compose_files@
                    == plan.compose_project->0.config_hash_files@
                &&& plan.compose_project is None ==> input.compose_files@.len() == 0
                &&& input.compose_canonical_model is None
                &&& input.startup_command is None
                &&& input.compose_generated_override is None
                &&& input.build is Some == plan.build_context is Some
                &&& mount_resolution == MountResolution::DeferConfigMounts
                    ==> input.resolved_mounts@.len() == 0
                &&& mount_resolution != MountResolution::DeferConfigMounts
                    ==> input.resolved_mounts@.len() == plan.mounts@.len()
                &&& resolution.update_features || plan.config.features@.len() == 0
                    ==> input.feature_locks@.len() == 0
            },
        plan.compose_interpolation_env@.len() == 0,
        plan.compose_interpolation_redactions@.len() == 0,
        plan.feature_build_context_dir is None,
        plan.uid_gid_sync_build_context_dir is None,
        plan.pre_uid_gid_sync_resources is None,
        exists|mount_plan: WorkspaceMountPlan, location: WorkspaceLocation|
            #[trigger] settles_plan(plan, mount_plan, location),
        plan.feature_install is None,
        plan.sensitive_container_env@.len() == 0,
        plan.effective_users.container_user.user@ == "root"@,
        plan.effective_users.remote_user.user@ == "root"@,
        plan.uid_gid_sync_plan is Noop,
        plan.compose_project is Some <==> plan.config.devcontainer.source is Some
            && plan.config.devcontainer.source->0 is Compose,
        plan.build_context is Some <==> plan.config.devcontainer.source is Some
            && plan.config.devcontainer.source->0 is Dockerfile,
        plan.config.devcontainer.source is Some,
{
    let outcome = Ok::<UpPlan, UpError>(plan);
    let (merged, config, expanded) = choose|
        merged: ResolvedConfig,
        config: ResolvedConfig,
        expansion: Result<StaticPlanExpansion, UpError>,
    |
        {
            &&& call_ensures(S::resolve_config, (services, &layers), merged)
            &&& #[trigger] expands_statically(
                services,
                workspace,
                devcontainer_file,
                validation_for(mount_resolution),
                mount_resolution,
                host.ids,
                merged,
                config,
                expansion,
            )
            &&& expansion is Ok
            &&& ends_with_expansion(
                services,
                workspace,
                host,
                devcontainer_file,
                layers,
                config,
                expansion->Ok_0,
                mount_resolution,
                resolution,
                already_ignored,
                outcome,
            )
        };
    let expansion = expanded->Ok_0;
    build_contexts_come_from_dockerfiles(
        services,
        workspace,
        devcontainer_file,
        validation_for(mount_resolution),
        mount_resolution,
        host.ids,
        merged,
        config,
        expansion,
    );
    let project = choose|project: Result<Option<ComposeProjectPlan>, UpError>| #[trigger]
        finds_compose_project(services, workspace, devcontainer_file, &config, project)
            && project is Ok && exists|
            variables: VariableContext,
            mount_plan: Result<WorkspaceMountPlan, UpError>,
        |
            {
                &&& #[trigger] plans_mounts(
                    services,
                    expansion.workspace_location.workspace_mount,
                    workspace,
                    &config,
                    &variables,
                    mount_resolution,
                    mount_plan,
                )
                &&& mount_plan is Ok
                &&& ends_with_mount_plan(
                    services,
                    workspace,
                    host,
                    devcontainer_file,
                    layers,
                    config,
                    expansion,
                    project->Ok_0,
                    mount_plan->Ok_0,
                    mount_resolution,
                    resolution,
                    already_ignored,
                    outcome,
                )
            };
    let (variables, mount_plan) = choose|
        variables: VariableContext,
        mount_plan: Result<WorkspaceMountPlan, UpError>,
    |
        {
            &&& #[trigger] plans_mounts(
                services,
                expansion.workspace_location.workspace_mount,
                workspace,
                &config,
                &variables,
                mount_resolution,
                mount_plan,
            )
            &&& mount_plan is Ok
            &&& ends_with_mount_plan(
                services,
                workspace,
                host,
                devcontainer_file,
                layers,
                config,
                expansion,
                project->Ok_0,
                mount_plan->Ok_0,
                mount_resolution,
                resolution,
                already_ignored,
                outcome,
            )
        };
    hashes_name_plans(
        services,
        workspace,
        host,
        devcontainer_file,
        layers,
        config,
        expansion,
        project->Ok_0,
        mount_plan->Ok_0,
        mount_resolution,
        resolution,
        already_ignored,
        plan,
    );
}

proof fn hashes_name_plans<S: PlanServices>(
    services: &S,
    workspace: &Workspace,
    host: HostEnvironment,
    devcontainer_file: &String,
    layers: ConfigMergeInput,
    config: ResolvedConfig,
    expansion: StaticPlanExpansion,
    project: Option<ComposeProjectPlan>,
    mount_plan: WorkspaceMountPlan,
    mount_resolution: MountResolution,
    resolution: UpPlanResolution,
    already_ignored: bool,
    plan: UpPlan,
)
    requires
        ends_with_mount_plan(
            services,
            workspace,
            host,
            devcontainer_file,
            layers,
            config,
            expansion,
            project,
            mount_plan,
            mount_resolution,
            resolution,
            already_ignored,
            Ok(plan),
        ),
    ensures
        plan.config == config,
        plan.config_layers == layers,
        plan.build_context == expansion.build_context,
        plan.compose_project == project,
        plan.sensitive_build_args == expansion.sensitive_build_args,
        plan.mounts == mount_plan.mounts,
        config.devcontainer.source is Some,
        plan.compose_interpolation_env@.len() == 0,
        plan.compose_interpolation_redactions@.len() == 0,
        plan.feature_build_context_dir is None,
        plan.uid_gid_sync_build_context_dir is None,
        plan.pre_uid_gid_sync_resources is None,
        settles_plan(plan, mount_plan, expansion.workspace_location),
        plan.feature_install is None,
        plan.sensitive_container_env@.len() == 0,
        plan.effective_users.container_user.user@ == "root"@,
        plan.effective_users.remote_user.user@ == "root"@,
        plan.uid_gid_sync_plan is Noop,
        exists|input: ConfigHashInput, hash: String|
            {
                &&& #[trigger] call_ensures(S::config_hash, (services, &input), hash)
                &&& call_ensures(
                    S::docker_resources,
                    (services, workspace, &hash, devcontainer_file),
                    plan.resources,
                )
                &&& *input.config == plan.config
                &&& views(input.sensitive_build_arg_keys@) == plan.sensitive_build_args@.map_values(
                    |entry: (Seq<char>, crate::docker::SensitiveEnvValue)| entry.0,
                )
                &&& input.sensitive_container_env_keys@.len() == 0
                &&& plan.compose_project is Some ==> input.compose_files@
                    == plan.compose_project->0.config_hash_files@
                &&& plan.compose_project is None ==> input.compose_files@.len() == 0
                &&& input.compose_canonical_model is None
                &&& input.startup_command is None
                &&& input.compose_generated_override is None
                &&& input.build is Some == plan.build_context is Some
                &&& mount_resolution == MountResolution::DeferConfigMounts
                    ==> input.resolved_mounts@.len() == 0
                &&& mount_resolution != MountResolution::DeferConfigMounts
                    ==> input.resolved_mounts@.len() == plan.mounts@.len()
                &&& resolution.update_features || plan.config.features@.len() == 0
                    ==> input.feature_locks@.len() == 0
            },
{
    assert(keys_of(plan.sensitive_build_args@) =~= plan.sensitive_build_args@.map_values(
        |entry: (Seq<char>, crate::docker::SensitiveEnvValue)| entry.0,
    ));
}

proof fn build_contexts_come_from_dockerfiles<S: PlanServices>(
    services: &S,
    workspace: &Workspace,
    devcontainer_file: &String,
    validation: WorkspaceLocationValidation,
    mount_resolution: MountResolution,
    ids: HostUserIds,
    before: ResolvedConfig,
    after: ResolvedConfig,
    expansion: StaticPlanExpansion,
)
    requires
        expands_statically(
            services,
            workspace,
            devcontainer_file,
            validation,
            mount_resolution,
            ids,
            before,
            after,
            Ok(expansion),
        ),
    ensures
        expansion.build_context is Some <==> after.devcontainer.source is Some
            && after.devcontainer.source->0 is Dockerfile,
{
}

/// The image of a container: an image that is configured is used as it is,
/// unless Features, entrypoints or changed user ids need a layer on it; any
/// other container is made from the image that the tool names. Layers are put
/// on the configured image, or on the one that the tool names, which has an
/// ending of its own where a Dockerfile is built below a layer.
pub proof fn images_follow_the_source(
    config: ResolvedConfig,
    resources: DockerResources,
    uid_gid_sync_plan: UidGidSyncPlan,
)
    ensures
        ({
            let layered = config.features@.len() > 0 || config.devcontainer.entrypoints@.len() > 0;
            let source = config.devcontainer.source;
            let image = final_image(config, resources, uid_gid_sync_plan);
            let base = base_image(config, resources);
            &&& layered || uid_gid_sync_plan is Sync ==> image == Some(resources.image_tag@)
            &&& !layered && !(uid_gid_sync_plan is Sync) ==> match source {
                Some(ResolvedDevcontainerSource::Image(configured)) => image == Some(configured@),
                Some(_) => image == Some(resources.image_tag@),
                None => image is None,
            }
            &&& match source {
                Some(ResolvedDevcontainerSource::Image(configured)) => base == Some(configured@),
                Some(ResolvedDevcontainerSource::Dockerfile(_)) => base == Some(
                    if layered {
                        resources.image_tag@ + "-base"@
                    } else {
                        resources.image_tag@
                    },
                ),
                Some(ResolvedDevcontainerSource::Compose(_)) => base == Some(resources.image_tag@),
                None => base is None,
            }
        }),
{
}

/// A Dockerfile build works on the context that the tool finds, with the
/// arguments, options, stage and caches of the configuration; it neither pulls
/// nor goes without the cache by itself. Anything else is not built.
pub proof fn dockerfile_builds_use_their_settings<S: PlanServices>(
    services: &S,
    workspace: &Workspace,
    devcontainer_file: &String,
    config: &ResolvedConfig,
    context: Option<ResolvedBuildContext>,
    options: DockerBuildOptions,
)
    requires
        finds_build_input(
            services,
            workspace,
            devcontainer_file,
            config,
            Ok((context, options)),
        ),
    ensures
        match config.devcontainer.source {
            Some(ResolvedDevcontainerSource::Dockerfile(build)) => {
                &&& context is Some
                &&& call_ensures(
                    S::resolve_build_context,
                    (services, workspace, devcontainer_file, &build),
                    Ok::<ResolvedBuildContext, UpError>(context->0),
                )
                &&& options.build_args@ == build.args@
                &&& options.options@ == build.options@
                &&& options.target == build.target
                &&& options.cache_from@ == build.cache_from@
                &&& !options.pull && !options.no_cache
            },
            _ => context is None && options.build_args@.len() == 0 && options.options@.len() == 0
                && options.target is None && options.cache_from@.len() == 0,
        },
{
}

/// A Compose project is looked for exactly where the container is one of its
/// services, in the files that the configuration names.
pub proof fn compose_projects_are_found_in_their_files<S: PlanServices>(
    services: &S,
    workspace: &Workspace,
    devcontainer_file: &String,
    config: &ResolvedConfig,
    project: Option<ComposeProjectPlan>,
)
    requires
        finds_compose_project(services, workspace, devcontainer_file, config, Ok(project)),
    ensures
        match config.devcontainer.source {
            Some(ResolvedDevcontainerSource::Compose(compose)) => project is Some && call_ensures(
                S::resolve_compose_project,
                (services, workspace, devcontainer_file, &compose.files),
                Ok::<ComposeProjectPlan, UpError>(project->0),
            ),
            _ => project is None,
        },
{
}

proof fn first_service_port_is_first(entries: Seq<ResolvedPortEntry>)
    ensures
        first_service_port(entries) is Some <==> exists|i: int|
            0 <= i < entries.len() && (#[trigger] entries[i]).service is Some,
        first_service_port(entries) is Some ==> first_service_port(entries)->0.service is Some,
    decreases entries.len(),
{
    if entries.len() > 0 && entries[0].service is None {
        let rest = entries.drop_first();
        first_service_port_is_first(rest);
        if first_service_port(rest) is Some {
            let i = choose|i: int| 0 <= i < rest.len() && (#[trigger] rest[i]).service is Some;
            assert(entries[i + 1].service is Some);
        } else {
            assert forall|i: int| 0 <= i < entries.len() implies (
            #[trigger] entries[i]).service is None by {
                if i > 0 {
                    assert(rest[i - 1] == entries[i]);
                }
            }
        }
    }
}

/// Ports of services are forwarded only where there are services: a port that
/// names one is refused unless the container is a service of a Compose
/// project. Otherwise the host ports are those that the tool chooses for the
/// configured ports; where nothing stays attached, none is.
pub proof fn ports_of_services_need_a_project<S: PlanServices>(
    services: &S,
    config: ResolvedConfig,
    forwarding: ForwardingResolution,
    outcome: Result<Vec<ResolvedForwardPort>, UpError>,
)
    requires
        chooses_ports(services, config, forwarding, outcome),
    ensures
        ({
            let compose = config.devcontainer.source is Some
                && config.devcontainer.source->0 is Compose;
            let named = exists|i: int|
                0 <= i < config.ports.entries@.len() && (
                #[trigger] config.ports.entries@[i]).service is Some;
            &&& forwarding == ForwardingResolution::IgnoreDetached ==> outcome is Ok
                && outcome->Ok_0@.len() == 0
            &&& forwarding == ForwardingResolution::Resolve && named && !compose ==> outcome is Err
            &&& forwarding == ForwardingResolution::Resolve && (compose || !named) ==> call_ensures(
                S::resolve_forward_ports,
                (services, &config.ports.entries),
                outcome,
            )
        }),
{
    first_service_port_is_first(config.ports.entries@);
}

/// Texts are expanded one for one, in their places: each becomes what the tool
/// makes of it. Early on, a text that refers to the user that tools run as is
/// left as it is.
pub proof fn texts_are_expanded_in_place<S: PlanServices>(
    services: &S,
    variables: &VariableContext,
    field: Seq<char>,
    before: Seq<String>,
    after: Seq<String>,
    early: bool,
    position: int,
)
    requires
        early ==> expands_texts_early(services, variables, field, before, after, Ok(())),
        !early ==> expands_texts(services, variables, field, before, after, Ok(())),
        0 <= position < before.len(),
    ensures
        after.len() == before.len(),
        ({
            let expanded = call_ensures(
                S::expand_variables,
                (services, &before[position], variables),
                Ok::<String, UpError>(after[position]),
            );
            let refers = call_ensures(
                S::references_remote_user,
                (services, &before[position]),
                Ok::<bool, UpError>(true),
            );
            &&& !early ==> expanded
            &&& early ==> expanded || refers && after[position] == before[position]
        }),
{
}

/// An option of the container keeps what it is an option for; its value alone
/// is expanded.
pub proof fn options_keep_their_kind<S: PlanServices>(
    services: &S,
    variables: &VariableContext,
    before: Seq<LayerRunArg>,
    after: Seq<LayerRunArg>,
    early: bool,
    position: int,
)
    requires
        early ==> expands_run_args_early(services, variables, before, after, Ok(())),
        !early ==> expands_run_args(services, variables, before, after, Ok(())),
        0 <= position < before.len(),
    ensures
        after.len() == before.len(),
        match (before[position], after[position]) {
            (LayerRunArg::AddHost(from), LayerRunArg::AddHost(to)) => became(
                services,
                variables,
                from,
                to,
                early,
            ),
            (LayerRunArg::Dns(from), LayerRunArg::Dns(to)) => became(
                services,
                variables,
                from,
                to,
                early,
            ),
            (LayerRunArg::DnsSearch(from), LayerRunArg::DnsSearch(to)) => became(
                services,
                variables,
                from,
                to,
                early,
            ),
            (
                LayerRunArg::Passthrough { option, value },
                LayerRunArg::Passthrough { option: kept, value: new },
            ) => option == kept && became(services, variables, value, new, early),
            _ => false,
        },
{
}

/// Whether a text became another by expanding it, or was left as it is early on
/// because it refers to the user that tools run as.
pub open spec fn became<S: PlanServices>(
    services: &S,
    variables: &VariableContext,
    from: String,
    to: String,
    early: bool,
) -> bool {
    ||| call_ensures(
        S::expand_variables,
        (services, &from, variables),
        Ok::<String, UpError>(to),
    )
    ||| early && to == from && call_ensures(
        S::references_remote_user,
        (services, &from),
        Ok::<bool, UpError>(true),
    )
}

/// The settings of a container are expanded each on its own: capabilities,
/// security options and container options.
pub proof fn settings_are_expanded_each<S: PlanServices>(
    services: &S,
    variables: &VariableContext,
    before: ResolvedDevcontainer,
    after: ResolvedDevcontainer,
    early: bool,
)
    requires
        early ==> expands_settings_early(services, variables, before, after, Ok(())),
        !early ==> expands_settings(services, variables, before, after, Ok(())),
    ensures
        after.cap_add@.len() == before.cap_add@.len(),
        after.security_opt@.len() == before.security_opt@.len(),
        after.run_args@.len() == before.run_args@.len(),
        forall|i: int|
            0 <= i < before.cap_add@.len() ==> became(
                services,
                variables,
                #[trigger] before.cap_add@[i],
                after.cap_add@[i],
                early,
            ),
        forall|i: int|
            0 <= i < before.security_opt@.len() ==> became(
                services,
                variables,
                #[trigger] before.security_opt@[i],
                after.security_opt@[i],
                early,
            ),
{
}

/// A Dockerfile build is expanded: its arguments, its stage and its caches, and
/// nothing else of it. The arguments whose values are hidden are those that the
/// tool names.
pub proof fn builds_are_expanded<S: PlanServices>(
    services: &S,
    variables: &VariableContext,
    before: ResolvedDevcontainer,
    build: LayerDevcontainerBuild,
    after: Option<ResolvedDevcontainerSource>,
    hidden: SensitiveEnvMap,
)
    requires
        before.source == Some(ResolvedDevcontainerSource::Dockerfile(build)),
        expands_source(services, variables, before, after, Ok(hidden)),
    ensures
        after is Some,
        after->0 is Dockerfile,
        ({
            let built = after->0->Dockerfile_0;
            &&& built.dockerfile == build.dockerfile
            &&& built.context == build.context
            &&& built.options == build.options
            &&& exists|answer: TrackedValues|
                {
                    &&& #[trigger] call_ensures(
                        S::expand_string_map,
                        (services, &build.args, variables),
                        Ok::<TrackedValues, UpError>(answer),
                    )
                    &&& built.args == answer.values
                    &&& hidden == answer.sensitive
                }
            &&& (built.target is Some) == (build.target is Some)
            &&& build.target is Some ==> call_ensures(
                S::expand_variables,
                (services, &build.target->0, variables),
                Ok::<String, UpError>(built.target->0),
            )
            &&& built.cache_from@.len() == build.cache_from@.len()
            &&& forall|i: int|
                0 <= i < build.cache_from@.len() ==> call_ensures(
                    S::expand_variables,
                    (services, &#[trigger] build.cache_from@[i], variables),
                    Ok::<String, UpError>(built.cache_from@[i]),
                )
        }),
{
    let built = after->0->Dockerfile_0;
    assert(expands_build(services, variables, build, built, Ok(hidden)));
    let args = choose|args: Result<TrackedValues, UpError>|
        {
            &&& #[trigger] call_ensures(
                S::expand_string_map,
                (services, &build.args, variables),
                args,
            )
            &&& args is Ok && built.args == args->Ok_0.values && hidden == args->Ok_0.sensitive
        };
    assert(call_ensures(
        S::expand_string_map,
        (services, &build.args, variables),
        Ok::<TrackedValues, UpError>(args->Ok_0),
    ));
}

/// The users are expanded, each one that is configured; nobody is named who was
/// not.
pub proof fn users_are_expanded_each<S: PlanServices>(
    services: &S,
    variables: &VariableContext,
    before: ResolvedDevcontainer,
    after: ResolvedDevcontainer,
)
    requires
        expands_users(services, variables, before, after, Ok(())),
    ensures
        (after.remote_user is Some) == (before.remote_user is Some),
        (after.container_user is Some) == (before.container_user is Some),
        before.remote_user is Some ==> call_ensures(
            S::expand_variables,
            (services, &before.remote_user->0, variables),
            Ok::<String, UpError>(after.remote_user->0),
        ),
        before.container_user is Some ==> call_ensures(
            S::expand_variables,
            (services, &before.container_user->0, variables),
            Ok::<String, UpError>(after.container_user->0),
        ),
{
}

proof fn entries_come_from_references(
    references: Seq<FeatureReference>,
    digests: Seq<Option<String>>,
)
    requires
        references.len() == digests.len(),
    ensures
        forall|i: int|
            0 <= i < references.len() && (#[trigger] digests[i]) is Some ==> locked_entries(
                references,
                digests,
            ).contains(
                FeatureLockHashEntry {
                    feature_id: references[i].canonical_id,
                    digest: digests[i]->0,
                },
            ),
        locked_entries(references, digests).len() <= references.len(),
    decreases references.len(),
{
    if references.len() > 0 {
        let (r, d) = (references.drop_last(), digests.drop_last());
        let before = locked_entries(r, d);
        let all = locked_entries(references, digests);
        entries_come_from_references(r, d);
        assert forall|i: int|
            0 <= i < references.len() && (#[trigger] digests[i]) is Some implies all.contains(
            FeatureLockHashEntry { feature_id: references[i].canonical_id, digest: digests[i]->0 },
        ) by {
            let entry = FeatureLockHashEntry {
                feature_id: references[i].canonical_id,
                digest: digests[i]->0,
            };
            if i < r.len() {
                assert(d[i] == digests[i] && r[i] == references[i]);
                let e = choose|e: int| 0 <= e < before.len() && before[e] == entry;
                assert(all[e] == entry);
            } else {
                assert(all[all.len() - 1] == entry);
            }
        }
    }
}

proof fn source_of_entry(
    references: Seq<FeatureReference>,
    digests: Seq<Option<String>>,
    e: int,
) -> (i: int)
    requires
        references.len() == digests.len(),
        0 <= e < locked_entries(references, digests).len(),
    ensures
        0 <= i < references.len(),
        digests[i] == Some(locked_entries(references, digests)[e].digest),
        references[i].canonical_id == locked_entries(references, digests)[e].feature_id,
    decreases references.len(),
{
    let (r, d) = (references.drop_last(), digests.drop_last());
    let before = locked_entries(r, d);
    if e < before.len() {
        assert(locked_entries(references, digests)[e] == before[e]);
        source_of_entry(r, d, e)
    } else {
        references.len() - 1
    }
}

/// The digests that go into the hash are those that the lock file has for the
/// configured Features of a registry, each under the Feature's name without its
/// version. None go in where Features are fetched anew, or where there are no
/// Features.
pub proof fn locked_digests_go_into_the_hash<S: PlanServices>(
    services: &S,
    workspace: &Workspace,
    devcontainer_file: &String,
    features: Seq<ResolvedFeature>,
    update_features: bool,
    locks: Vec<FeatureLockHashEntry>,
)
    requires
        collects_locks(
            services,
            workspace,
            devcontainer_file,
            features,
            update_features,
            Ok(locks),
        ),
    ensures
        update_features || features.len() == 0 ==> locks@.len() == 0,
        !update_features && features.len() > 0 ==> exists|
            references: Seq<FeatureReference>,
            lock: FeatureLock,
            digests: Seq<Option<String>>,
        |
            {
                &&& references.len() == features.len()
                &&& digests.len() == features.len()
                &&& #[trigger] call_ensures(
                    S::read_feature_lock,
                    (services, workspace),
                    Ok::<FeatureLock, UpError>(lock),
                )
                &&& forall|i: int|
                    0 <= i < features.len() ==> call_ensures(
                        S::parse_feature_ref,
                        (services, &features[i].id, devcontainer_file),
                        Ok::<FeatureReference, UpError>(#[trigger] references[i]),
                    )
                &&& forall|i: int|
                    0 <= i < features.len() ==> if references[i].from_registry {
                        call_ensures(
                            S::locked_digest,
                            (services, &references[i], &lock),
                            #[trigger] digests[i],
                        )
                    } else {
                        digests[i] is None
                    }
                &&& forall|i: int|
                    0 <= i < features.len() && (#[trigger] digests[i]) is Some ==> locks@.contains(
                        FeatureLockHashEntry {
                            feature_id: references[i].canonical_id,
                            digest: digests[i]->0,
                        },
                    )
                &&& forall|e: int|
                    0 <= e < locks@.len() ==> Seq::new(
                        features.len(),
                        |i: int| (references[i].canonical_id, digests[i]),
                    ).contains(
                        ((#[trigger] locks@[e]).feature_id, Some(locks@[e].digest)),
                    )
                &&& locks@ == #[trigger] locked_entries(references, digests)
            },
{
    if !update_features && features.len() > 0 {
        let references = choose|references: Seq<FeatureReference>|
            {
                &&& #[trigger] reads_references(services, devcontainer_file, features, references)
                &&& exists|lock: Result<FeatureLock, UpError>| #[trigger]
                    call_ensures(S::read_feature_lock, (services, workspace), lock)
                        && ends_with_lock(services, references, lock, Ok(locks))
            };
        let lock = choose|lock: Result<FeatureLock, UpError>| #[trigger]
            call_ensures(S::read_feature_lock, (services, workspace), lock) && ends_with_lock(
                services,
                references,
                lock,
                Ok(locks),
            );
        let digests = choose|digests: Seq<Option<String>>| #[trigger]
            finds_digests(services, lock->Ok_0, references, digests) && locks@ == locked_entries(
                references,
                digests,
            );
        entries_come_from_references(references, digests);
        let held = lock->Ok_0;
        assert(call_ensures(
            S::read_feature_lock,
            (services, workspace),
            Ok::<FeatureLock, UpError>(held),
        ));
        assert forall|i: int| 0 <= i < features.len() implies call_ensures(
            S::parse_feature_ref,
            (services, &features[i].id, devcontainer_file),
            Ok::<FeatureReference, UpError>(#[trigger] references[i]),
        ) by {
            let feature = features[i];
            assert(feature == features[i]);
        }
        assert forall|e: int| 0 <= e < locks@.len() implies Seq::new(
            features.len(),
            |i: int| (references[i].canonical_id, digests[i]),
        ).contains(((#[trigger] locks@[e]).feature_id, Some(locks@[e].digest))) by {
            let i = source_of_entry(references, digests, e);
            let pairs = Seq::new(
                features.len(),
                |i: int| (references[i].canonical_id, digests[i]),
            );
            assert(pairs[i] == (locks@[e].feature_id, Some(locks@[e].digest)));
        }
        assert(locks@ == locked_entries(references, digests));
    }
}

/// A plan that is asked for without anything of an image is made from the
/// layers of the sources and the command line alone, and as it was asked for.
pub proof fn plain_plans_hold_nothing_of_an_image<S: PlanServices>(
    services: &S,
    workspace: &Workspace,
    host: HostEnvironment,
    cli_layer: ConfigLayer,
    mount_resolution: MountResolution,
    resolution: UpPlanResolution,
    sources: PlanSources,
    plan: UpPlan,
)
    requires
        builds_plain_plan(
            services,
            workspace,
            host,
            cli_layer,
            mount_resolution,
            resolution,
            sources,
            Ok(plan),
        ),
    ensures
        plan.config_layers.image_metadata@.len() == 0,
        plan.config_layers.cli == Some(cli_layer),
        plan.config_layers.devcontainer == Some(sources.devcontainer_layer),
        plan.config_layers.project == Some(sources.project_layer),
        resolution.skip_global_config || sources.use_global_config == Some(false)
            ==> plan.config_layers.global is None,
        !resolution.skip_global_config && sources.use_global_config != Some(false)
            ==> plan.config_layers.global == sources.global_layer,
        resolution.forwarding == ForwardingResolution::IgnoreDetached
            ==> plan.forward_ports@.len() == 0,
        plan.ignored_detached_forwarding <==> resolution.forwarding
            == ForwardingResolution::IgnoreDetached && (sources.names_forward_ports
            || plan.config.ports.entries@.len() > 0),
        exists|request: UpPlanRequest| #[trigger]
            builds_plan(services, workspace, host, request, sources, Ok(plan))
                && request.mount_resolution == mount_resolution && request.resolution
                == resolution,
{
    let request = choose|request: UpPlanRequest|
        is_plain_request(request, cli_layer, mount_resolution, resolution) && #[trigger]
            builds_plan(services, workspace, host, request, sources, Ok(plan));
    plans_hold_the_layers_that_count(services, workspace, host, request, sources, plan);
}

} // verus!
