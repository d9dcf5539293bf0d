//! The plan of a start, as far as it is known before the image is.

use crate::config::{ConfigLayer, ConfigMergeInput, ResolvedConfig};
use crate::docker::{
    DockerMountSpec, DockerResources, EffectiveUsers, FeatureLockHashEntry, HostEnvironment,
    ResolvedBuildContext, ResolvedForwardPort, SensitiveEnvMap, UidGidSyncPlan,
};
use crate::error::UpError;
use crate::hash_input::{BuildHashInput, ConfigHashInput};
use crate::mounts::{
    describes_statically, holds_mounts, mount_hash_inputs, plans_mounts,
    static_mount_variable_context, workspace_mount_plan_from_resolved,
    WorkspaceLocationValidation, WorkspaceMountPlan,
};
use crate::plan::compose::{
    checks_service_ports, compose_project_plan, finds_compose_project,
    validate_service_qualified_forward_ports,
};
use crate::plan::expand::{
    expand_static_plan_fields, expands_statically, StaticPlanExpansion,
};
use crate::plan::hash::{
    add_internal_hash_versions, collects_locks, feature_lock_hash_inputs, with_internal_versions,
};
use crate::plan::source::{base_image, base_image_source, final_image, final_image_source};
use crate::services::PlanServices;
use crate::text::views;
use crate::text_map::{keys_of, lookup, TextMap};
use crate::types::{
    ComposeHashFile, ComposeProjectPlan, ForwardingResolution, MountResolution, UpPlan,
    UpPlanResolution, VariableContext, Workspace,
};
use crate::uid_gid::{holds_static_sync, static_uid_gid_sync_hash_input};
use vstd::prelude::*;

verus! {

/// What was read for a plan: the devcontainer file and the two files of the
/// tool's own configuration.
#[derive(Debug)]
pub struct PlanSources {
    /// The devcontainer file.
    pub devcontainer_file: String,
    /// What it sets.
    pub devcontainer_layer: ConfigLayer,
    /// Whether it names ports to forward.
    pub names_forward_ports: bool,
    /// Whether the project wants the user's own configuration, if it says so.
    pub use_global_config: Option<bool>,
    /// What the project's configuration sets.
    pub project_layer: ConfigLayer,
    /// What the user's own configuration sets, if it was read.
    pub global_layer: Option<ConfigLayer>,
}

/// How a plan is asked for.
#[derive(Debug)]
pub struct UpPlanRequest {
    /// The configuration of the command line.
    pub cli_layer: ConfigLayer,
    /// What the image sets, weakest first.
    pub image_metadata: Vec<ConfigLayer>,
    /// Whether ports of the image were left out.
    pub ignored_image_metadata_forwarding: bool,
    /// When the mounts of the configuration are resolved.
    pub mount_resolution: MountResolution,
    /// How the plan is resolved.
    pub resolution: UpPlanResolution,
}

/// Whether the user's own configuration counts.
pub open spec fn global_config_counts(
    resolution: UpPlanResolution,
    use_global_config: Option<bool>,
) -> bool {
    !resolution.skip_global_config && use_global_config != Some(false)
}

/// Whether the user's own configuration is read: neither the command line nor
/// the project may have switched it off.
pub fn plan_uses_global_config(
    resolution: UpPlanResolution,
    use_global_config: Option<bool>,
) -> (res: bool)
    ensures
        res == global_config_counts(resolution, use_global_config),
{
    !resolution.skip_global_config && use_global_config.unwrap_or(true)
}

/// Whether the ports of the devcontainer file become part of the
/// configuration: not where nothing stays attached to forward them.
pub fn plan_keeps_forward_ports(forwarding: ForwardingResolution) -> (res: bool)
    ensures
        res == (forwarding == ForwardingResolution::Resolve),
{
    matches!(forwarding, ForwardingResolution::Resolve)
}

/// How strictly the place of the workspace is checked.
pub open spec fn validation_for(mount_resolution: MountResolution) -> WorkspaceLocationValidation {
    if mount_resolution.resolves() {
        WorkspaceLocationValidation::ConfigResolved
    } else {
        WorkspaceLocationValidation::Preliminary
    }
}

/// The files of a Compose project that go into the hash.
pub open spec fn project_files(project: Option<ComposeProjectPlan>) -> Seq<ComposeHashFile> {
    match project {
        Some(project) => project.config_hash_files@,
        None => Seq::empty(),
    }
}

/// Copies the files of a Compose project that go into the hash.
pub fn compose_hash_files(project: &Option<ComposeProjectPlan>) -> (res: Vec<ComposeHashFile>)
    ensures
        res@ == project_files(*project),
{
    let mut files: Vec<ComposeHashFile> = Vec::new();
    if let Some(project) = project {
        let mut i: usize = 0;
        while i < project.config_hash_files.len()
            invariant
                i <= project.config_hash_files@.len(),
                files@ == project.config_hash_files@.take(i as int),
            decreases project.config_hash_files@.len() - i,
        {
            let file = &project.config_hash_files[i];
            files.push(
                ComposeHashFile {
                    path: file.path.clone(),
                    content_hash: file.content_hash.clone(),
                },
            );
            assert(files@ =~= project.config_hash_files@.take(i as int + 1));
            i = i + 1;
        }
    }
    assert(files@ =~= project_files(*project));
    files
}

/// How reading what a build context holds ends.
pub open spec fn reads_build<S: PlanServices>(
    services: &S,
    context: Option<ResolvedBuildContext>,
    outcome: Result<Option<BuildHashInput>, UpError>,
) -> bool {
    match context {
        Some(context) => exists|answer: Result<BuildHashInput, UpError>| #[trigger]
            call_ensures(S::build_hash_input, (services, &context), answer) && match answer {
                Ok(input) => outcome == Ok::<Option<BuildHashInput>, UpError>(Some(input)),
                Err(error) => outcome == Err::<Option<BuildHashInput>, UpError>(error),
            },
        None => outcome == Ok::<Option<BuildHashInput>, UpError>(None),
    }
}

/// Reads what a build context holds, where there is one.
pub fn read_build<S: PlanServices>(
    services: &S,
    context: &Option<ResolvedBuildContext>,
) -> (res: Result<Option<BuildHashInput>, UpError>)
    ensures
        reads_build(services, *context, res),
{
    match context {
        Some(context) => match services.build_hash_input(context) {
            Ok(input) => Ok(Some(input)),
            Err(error) => Err(error),
        },
        None => Ok(None),
    }
}

/// Whether the internal versions of a hash input are those of a
/// configuration.
pub open spec fn holds_internal_versions(
    versions: Seq<(Seq<char>, String)>,
    config: ResolvedConfig,
) -> bool {
    exists|layer: String, shim: String|
        layer@ == "2"@ && shim@ == "3"@ && versions == #[trigger] with_internal_versions(
            Seq::empty(),
            config,
            layer,
            shim,
        )
}

/// Whether a hash input holds what is known before the image is.
pub open spec fn holds_static_input(
    input: ConfigHashInput,
    layers: ConfigMergeInput,
    config: ResolvedConfig,
    build: Option<BuildHashInput>,
    sensitive_build_args: SensitiveEnvMap,
    project: Option<ComposeProjectPlan>,
    locks: Vec<FeatureLockHashEntry>,
    mounts: Seq<DockerMountSpec>,
    mount_resolution: MountResolution,
    host: HostEnvironment,
) -> bool {
    &&& *input.config == config
    &&& input.build == build
    &&& input.sensitive_container_env_keys@.len() == 0
    &&& views(input.sensitive_build_arg_keys@) == keys_of(sensitive_build_args@)
    &&& input.compose_files@ == project_files(project)
    &&& input.compose_canonical_model is None
    &&& input.feature_locks == locks
    &&& if mount_resolution.resolves() {
        holds_mounts(input.resolved_mounts@, mounts)
    } else {
        input.resolved_mounts@.len() == 0
    }
    &&& input.startup_command is None
    &&& input.compose_generated_override is None
    &&& holds_internal_versions(input.internal_versions@, config)
    &&& holds_static_sync(
        input.uid_gid_sync,
        layers,
        config.devcontainer.update_remote_user_uid,
        host,
    )
}

/// How choosing the host ports ends.
pub open spec fn chooses_ports<S: PlanServices>(
    services: &S,
    config: ResolvedConfig,
    forwarding: ForwardingResolution,
    outcome: Result<Vec<ResolvedForwardPort>, UpError>,
) -> bool {
    match forwarding {
        ForwardingResolution::IgnoreDetached => outcome is Ok && outcome->Ok_0@.len() == 0,
        ForwardingResolution::Resolve => exists|check: Result<(), UpError>| #[trigger]
            checks_service_ports(config, check) && match check {
                Err(error) => outcome == Err::<Vec<ResolvedForwardPort>, UpError>(error),
                Ok(()) => call_ensures(
                    S::resolve_forward_ports,
                    (services, &config.ports.entries),
                    outcome,
                ),
            },
    }
}

/// Chooses the host ports of forwarded ports; there are none where nothing
/// stays attached.
pub fn choose_forward_ports<S: PlanServices>(
    services: &S,
    config: &ResolvedConfig,
    forwarding: ForwardingResolution,
) -> (res: Result<Vec<ResolvedForwardPort>, UpError>)
    ensures
        chooses_ports(services, *config, forwarding, res),
{
    match forwarding {
        ForwardingResolution::Resolve => match validate_service_qualified_forward_ports(config) {
            Ok(()) => services.resolve_forward_ports(&config.ports.entries),
            Err(error) => Err(error),
        },
        ForwardingResolution::IgnoreDetached => Ok(Vec::new()),
    }
}

/// Whether a plan is what its parts come to before the image is known.
pub open spec fn is_assembled(
    plan: UpPlan,
    layers: ConfigMergeInput,
    config: ResolvedConfig,
    expansion: StaticPlanExpansion,
    project: Option<ComposeProjectPlan>,
    mount_plan: WorkspaceMountPlan,
    resources: DockerResources,
    forward_ports: Vec<ResolvedForwardPort>,
    forwarding: ForwardingResolution,
    already_ignored: bool,
) -> bool {
    &&& final_image(
        config,
        resources,
        UidGidSyncPlan::Noop { reason: crate::docker::UidGidSyncNoopReason::Disabled },
    ) == Some(plan.image@)
    &&& base_image(config, resources) == Some(plan.base_image@)
    &&& plan.build_context == expansion.build_context
    &&& plan.build_options == expansion.build_options
    &&& plan.feature_install is None
    &&& plan.feature_build_context_dir is None
    &&& plan.uid_gid_sync_build_context_dir is None
    &&& plan.resources == resources
    &&& plan.pre_uid_gid_sync_resources is None
    &&& plan.compose_project == project
    &&& plan.config_layers == layers
    &&& plan.config == config
    &&& plan.sensitive_container_env@.len() == 0
    &&& plan.sensitive_build_args == expansion.sensitive_build_args
    &&& plan.compose_interpolation_env@.len() == 0
    &&& plan.compose_interpolation_redactions@.len() == 0
    &&& plan.effective_users.is_root()
    &&& plan.uid_gid_sync_plan == (UidGidSyncPlan::Noop {
        reason: crate::docker::UidGidSyncNoopReason::Disabled,
    })
    &&& plan.workspace_folder == expansion.workspace_location.workspace_folder
    &&& plan.mounts == mount_plan.mounts
    &&& plan.dotfile_skeletons == mount_plan.dotfile_skeletons
    &&& plan.forward_ports == forward_ports
    &&& plan.ignored_detached_forwarding == (forwarding == ForwardingResolution::IgnoreDetached && (
    already_ignored || config.ports.entries@.len() > 0))
}

/// How a plan ends once its names are known.
pub open spec fn ends_with_resources<S: PlanServices>(
    services: &S,
    layers: ConfigMergeInput,
    config: ResolvedConfig,
    expansion: StaticPlanExpansion,
    project: Option<ComposeProjectPlan>,
    mount_plan: WorkspaceMountPlan,
    resources: DockerResources,
    resolution: UpPlanResolution,
    already_ignored: bool,
    outcome: Result<UpPlan, UpError>,
) -> bool {
    if base_image(config, resources) is None {
        outcome matches Err(error) && error@ == seq!["Devcontainer image is required"@]
    } else {
        exists|ports: Result<Vec<ResolvedForwardPort>, UpError>| #[trigger]
            chooses_ports(services, config, resolution.forwarding, ports) && match ports {
                Err(error) => outcome == Err::<UpPlan, UpError>(error),
                Ok(ports) => outcome is Ok && is_assembled(
                    outcome->Ok_0,
                    layers,
                    config,
                    expansion,
                    project,
                    mount_plan,
                    resources,
                    ports,
                    resolution.forwarding,
                    already_ignored,
                ),
            }
    }
}

/// How a plan ends once its mounts are known.
pub open spec fn ends_with_mount_plan<S: PlanServices>(
    services: &S,
    workspace: &Workspace,
    host: HostEnvironment,
    devcontainer_file: &String,
    layers: ConfigMergeInput,
    config: ResolvedConfig,
    expansion: StaticPlanExpansion,
    project: Option<ComposeProjectPlan>,
    mount_plan: WorkspaceMountPlan,
    mount_resolution: MountResolution,
    resolution: UpPlanResolution,
    already_ignored: bool,
    outcome: Result<UpPlan, UpError>,
) -> bool {
    exists|build: Result<Option<BuildHashInput>, UpError>| #[trigger]
        reads_build(services, expansion.build_context, build) && match build {
            Err(error) => outcome == Err::<UpPlan, UpError>(error),
            Ok(build) => exists|locks: Result<Vec<FeatureLockHashEntry>, UpError>| #[trigger]
                collects_locks(
                    services,
                    workspace,
                    devcontainer_file,
                    config.features@,
                    resolution.update_features,
                    locks,
                ) && match locks {
                    Err(error) => outcome == Err::<UpPlan, UpError>(error),
                    Ok(locks) => exists|
                        input: ConfigHashInput,
                        hash: String,
                        resources: DockerResources,
                    |
                        {
                            &&& holds_static_input(
                                input,
                                layers,
                                config,
                                build,
                                expansion.sensitive_build_args,
                                project,
                                locks,
                                mount_plan.mounts@,
                                mount_resolution,
                                host,
                            )
                            &&& #[trigger] call_ensures(S::config_hash, (services, &input), hash)
                            &&& #[trigger] call_ensures(
                                S::docker_resources,
                                (services, workspace, &hash, devcontainer_file),
                                resources,
                            )
                            &&& ends_with_resources(
                                services,
                                layers,
                                config,
                                expansion,
                                project,
                                mount_plan,
                                resources,
                                resolution,
                                already_ignored,
                                outcome,
                            )
                        },
                },
        }
}

/// How a plan ends once the workspace was located.
pub open spec fn ends_with_expansion<S: PlanServices>(
    services: &S,
    workspace: &Workspace,
    host: HostEnvironment,
    devcontainer_file: &String,
    layers: ConfigMergeInput,
    config: ResolvedConfig,
    expansion: StaticPlanExpansion,
    mount_resolution: MountResolution,
    resolution: UpPlanResolution,
    already_ignored: bool,
    outcome: Result<UpPlan, UpError>,
) -> bool {
    exists|project: Result<Option<ComposeProjectPlan>, UpError>| #[trigger]
        finds_compose_project(services, workspace, devcontainer_file, &config, project)
            && match project {
            Err(error) => outcome == Err::<UpPlan, UpError>(error),
            Ok(project) => exists|
                variables: VariableContext,
                mount_plan: Result<WorkspaceMountPlan, UpError>,
            |
                {
                    &&& describes_statically(
                        variables,
                        *workspace,
                        expansion.workspace_location.workspace_folder@,
                        config,
                        host.ids,
                    )
                    &&& #[trigger] plans_mounts(
                        services,
                        expansion.workspace_location.workspace_mount,
                        workspace,
                        &config,
                        &variables,
                        mount_resolution,
                        mount_plan,
                    )
                    &&& match mount_plan {
                        Err(error) => outcome == Err::<UpPlan, UpError>(error),
                        Ok(mount_plan) => ends_with_mount_plan(
                            services,
                            workspace,
                            host,
                            devcontainer_file,
                            layers,
                            config,
                            expansion,
                            project,
                            mount_plan,
                            mount_resolution,
                            resolution,
                            already_ignored,
                            outcome,
                        ),
                    }
                },
        }
}

/// How layers become a plan.
pub open spec fn resolves_plan<S: PlanServices>(
    services: &S,
    workspace: &Workspace,
    host: HostEnvironment,
    devcontainer_file: &String,
    layers: ConfigMergeInput,
    mount_resolution: MountResolution,
    resolution: UpPlanResolution,
    already_ignored: bool,
    outcome: Result<UpPlan, UpError>,
) -> bool {
    exists|
        merged: ResolvedConfig,
        config: ResolvedConfig,
        expansion: Result<StaticPlanExpansion, UpError>,
    |
        {
            &&& call_ensures(S::resolve_config, (services, &layers), merged)
            &&& #[trigger] expands_statically(
                services,
                workspace,
                devcontainer_file,
                validation_for(mount_resolution),
                mount_resolution,
                host.ids,
                merged,
                config,
                expansion,
            )
            &&& match expansion {
                Err(error) => outcome == Err::<UpPlan, UpError>(error),
                Ok(expansion) => ends_with_expansion(
                    services,
                    workspace,
                    host,
                    devcontainer_file,
                    layers,
                    config,
                    expansion,
                    mount_resolution,
                    resolution,
                    already_ignored,
                    outcome,
                ),
            }
        }
}

fn static_hash_input<'a>(
    layers: &ConfigMergeInput,
    config: &'a ResolvedConfig,
    build: Option<BuildHashInput>,
    sensitive_build_args: &SensitiveEnvMap,
    project: &Option<ComposeProjectPlan>,
    locks: Vec<FeatureLockHashEntry>,
    mounts: &Vec<DockerMountSpec>,
    mount_resolution: MountResolution,
    host: HostEnvironment,
) -> (res: ConfigHashInput<'a>)
    ensures
        holds_static_input(
            res,
            *layers,
            *config,
            build,
            *sensitive_build_args,
            *project,
            locks,
            mounts@,
            mount_resolution,
            host,
        ),
{
    let mut input = ConfigHashInput::new(config);
    input.build = build;
    input.sensitive_build_arg_keys = sensitive_build_args.keys();
    input.compose_files = compose_hash_files(project);
    input.feature_locks = locks;
    if mount_resolution.resolves_config_mounts() {
        input.resolved_mounts = mount_hash_inputs(mounts);
    }
    add_internal_hash_versions(&mut input, config);
    input.uid_gid_sync = static_uid_gid_sync_hash_input(
        layers,
        config.devcontainer.update_remote_user_uid,
        host,
    );
    input
}

fn resolve_plan<S: PlanServices>(
    services: &S,
    workspace: &Workspace,
    host: HostEnvironment,
    devcontainer_file: &String,
    layers: ConfigMergeInput,
    mount_resolution: MountResolution,
    resolution: UpPlanResolution,
    already_ignored: bool,
) -> (res: Result<UpPlan, UpError>)
    ensures
        resolves_plan(
            services,
            workspace,
            host,
            devcontainer_file,
            layers,
            mount_resolution,
            resolution,
            already_ignored,
            res,
        ),
{
    let validation = if mount_resolution.resolves_config_mounts() {
        WorkspaceLocationValidation::ConfigResolved
    } else {
        WorkspaceLocationValidation::Preliminary
    };
    let mut config = services.resolve_config(&layers);
    let ghost merged = config;
    let expanded = expand_static_plan_fields(
        services,
        workspace,
        devcontainer_file,
        &mut config,
        validation,
        mount_resolution,
        host.ids,
    );
    assert(expands_statically(
        services,
        workspace,
        devcontainer_file,
        validation_for(mount_resolution),
        mount_resolution,
        host.ids,
        merged,
        config,
        expanded,
    ));
    let expansion = match expanded {
        Ok(expansion) => expansion,
        Err(error) => {
            return Err(error);
        },
    };
    plan_with_expansion(
        services,
        workspace,
        host,
        devcontainer_file,
        layers,
        config,
        expansion,
        mount_resolution,
        resolution,
        already_ignored,
    )
}

fn plan_with_expansion<S: PlanServices>(
    services: &S,
    workspace: &Workspace,
    host: HostEnvironment,
    devcontainer_file: &String,
    layers: ConfigMergeInput,
    config: ResolvedConfig,
    expansion: StaticPlanExpansion,
    mount_resolution: MountResolution,
    resolution: UpPlanResolution,
    already_ignored: bool,
) -> (res: Result<UpPlan, UpError>)
    ensures
        ends_with_expansion(
            services,
            workspace,
            host,
            devcontainer_file,
            layers,
            config,
            expansion,
            mount_resolution,
            resolution,
            already_ignored,
            res,
        ),
{
    let ghost whole = expansion;
    let mount_variables = static_mount_variable_context(
        workspace,
        expansion.workspace_location.workspace_folder.as_str(),
        &config,
        host.ids,
    );
    let compose_project = match compose_project_plan(
        services,
        workspace,
        devcontainer_file,
        &config,
    ) {
        Ok(compose_project) => compose_project,
        Err(error) => {
            return Err(error);
        },
    };
    let mount_plan = match workspace_mount_plan_from_resolved(
        services,
        expansion.workspace_location.workspace_mount,
        workspace,
        &config,
        &mount_variables,
        mount_resolution,
    ) {
        Ok(mount_plan) => mount_plan,
        Err(error) => {
            return Err(error);
        },
    };
    let build = match read_build(services, &expansion.build_context) {
        Ok(build) => build,
        Err(error) => {
            return Err(error);
        },
    };
    let locks = match feature_lock_hash_inputs(
        services,
        workspace,
        devcontainer_file,
        &config,
        resolution.update_features,
    ) {
        Ok(locks) => locks,
        Err(error) => {
            return Err(error);
        },
    };
    let input = static_hash_input(
        &layers,
        &config,
        build,
        &expansion.sensitive_build_args,
        &compose_project,
        locks,
        &mount_plan.mounts,
        mount_resolution,
        host,
    );
    let hash = services.config_hash(&input);
    let resources = services.docker_resources(workspace, &hash, devcontainer_file);
    let no_sync = UidGidSyncPlan::default();
    let base_image = match base_image_source(&config, &resources, &no_sync) {
        Ok(base_image) => base_image,
        Err(error) => {
            return Err(error);
        },
    };
    let image = match final_image_source(&config, &resources, &no_sync) {
        Ok(image) => image,
        Err(error) => {
            return Err(error);
        },
    };
    let forward_ports = match choose_forward_ports(services, &config, resolution.forwarding) {
        Ok(forward_ports) => forward_ports,
        Err(error) => {
            return Err(error);
        },
    };
    let ignored_detached_forwarding = matches!(
        resolution.forwarding,
        ForwardingResolution::IgnoreDetached
    ) && (already_ignored || config.ports.entries.len() > 0);
    Ok(
        UpPlan {
            image,
            base_image,
            build_context: expansion.build_context,
            build_options: expansion.build_options,
            feature_install: None,
            feature_build_context_dir: None,
            uid_gid_sync_build_context_dir: None,
            resources,
            pre_uid_gid_sync_resources: None,
            compose_project,
            config_layers: layers,
            config,
            sensitive_container_env: SensitiveEnvMap::new(),
            sensitive_build_args: expansion.sensitive_build_args,
            compose_interpolation_env: TextMap::new(),
            compose_interpolation_redactions: Vec::new(),
            effective_users: EffectiveUsers::root(),
            uid_gid_sync_plan: no_sync,
            workspace_folder: expansion.workspace_location.workspace_folder,
            mounts: mount_plan.mounts,
            dotfile_skeletons: mount_plan.dotfile_skeletons,
            forward_ports,
            ignored_detached_forwarding,
        },
    )
}

/// The layers of a plan that is asked for.
pub open spec fn requested_layers(
    request: UpPlanRequest,
    sources: PlanSources,
    layers: ConfigMergeInput,
) -> bool {
    &&& layers.image_metadata == request.image_metadata
    &&& layers.feature_metadata@.len() == 0
    &&& layers.global == if global_config_counts(
        request.resolution,
        sources.use_global_config,
    ) {
        sources.global_layer
    } else {
        None
    }
    &&& layers.devcontainer == Some(sources.devcontainer_layer)
    &&& layers.project == Some(sources.project_layer)
    &&& layers.cli == Some(request.cli_layer)
}

/// Whether one of two conditions holds.
pub open spec fn either(left: bool, right: bool) -> bool {
    left || right
}

/// How a plan that is asked for is built.
pub open spec fn builds_plan<S: PlanServices>(
    services: &S,
    workspace: &Workspace,
    host: HostEnvironment,
    request: UpPlanRequest,
    sources: PlanSources,
    outcome: Result<UpPlan, UpError>,
) -> bool {
    exists|layers: ConfigMergeInput|
        requested_layers(request, sources, layers) && #[trigger] resolves_plan(
            services,
            workspace,
            host,
            &sources.devcontainer_file,
            layers,
            request.mount_resolution,
            request.resolution,
            either(request.ignored_image_metadata_forwarding, sources.names_forward_ports),
            outcome,
        )
}

/// Builds a plan that is asked for, from what was read for it.
pub fn build_up_plan_inner<S: PlanServices>(
    services: &S,
    workspace: &Workspace,
    host: HostEnvironment,
    request: UpPlanRequest,
    sources: PlanSources,
) -> (res: Result<UpPlan, UpError>)
    ensures
        builds_plan(services, workspace, host, request, sources, res),
{
    let ghost asked = request;
    let ghost read = sources;
    let global = if plan_uses_global_config(request.resolution, sources.use_global_config) {
        sources.global_layer
    } else {
        None
    };
    let layers = ConfigMergeInput {
        image_metadata: request.image_metadata,
        feature_metadata: Vec::new(),
        global,
        devcontainer: Some(sources.devcontainer_layer),
        project: Some(sources.project_layer),
        cli: Some(request.cli_layer),
    };
    assert(requested_layers(asked, read, layers));
    let already_ignored = request.ignored_image_metadata_forwarding || sources.names_forward_ports;
    assert(already_ignored == either(
        asked.ignored_image_metadata_forwarding,
        read.names_forward_ports,
    ));
    resolve_plan(
        services,
        workspace,
        host,
        &sources.devcontainer_file,
        layers,
        request.mount_resolution,
        request.resolution,
        already_ignored,
    )
}

/// A request without image metadata.
pub open spec fn is_plain_request(
    request: UpPlanRequest,
    cli_layer: ConfigLayer,
    mount_resolution: MountResolution,
    resolution: UpPlanResolution,
) -> bool {
    &&& request.cli_layer == cli_layer
    &&& request.image_metadata@.len() == 0
    &&& !request.ignored_image_metadata_forwarding
    &&& request.mount_resolution == mount_resolution
    &&& request.resolution == resolution
}

/// How a plan without image metadata is built.
pub open spec fn builds_plain_plan<S: PlanServices>(
    services: &S,
    workspace: &Workspace,
    host: HostEnvironment,
    cli_layer: ConfigLayer,
    mount_resolution: MountResolution,
    resolution: UpPlanResolution,
    sources: PlanSources,
    outcome: Result<UpPlan, UpError>,
) -> bool {
    exists|request: UpPlanRequest|
        is_plain_request(request, cli_layer, mount_resolution, resolution) && #[trigger]
            builds_plan(services, workspace, host, request, sources, outcome)
}

fn build_plain_plan<S: PlanServices>(
    services: &S,
    workspace: &Workspace,
    host: HostEnvironment,
    cli_layer: ConfigLayer,
    mount_resolution: MountResolution,
    resolution: UpPlanResolution,
    sources: PlanSources,
) -> (res: Result<UpPlan, UpError>)
    ensures
        builds_plain_plan(
            services,
            workspace,
            host,
            cli_layer,
            mount_resolution,
            resolution,
            sources,
            res,
        ),
{
    let request = UpPlanRequest {
        cli_layer,
        image_metadata: Vec::new(),
        ignored_image_metadata_forwarding: false,
        mount_resolution,
        resolution,
    };
    let ghost asked = request;
    let res = build_up_plan_inner(services, workspace, host, request, sources);
    assert(builds_plan(services, workspace, host, asked, sources, res));
    res
}

/// Builds a plan with mounts and ports resolved.
pub fn build_up_plan<S: PlanServices>(
    services: &S,
    workspace: &Workspace,
    host: HostEnvironment,
    cli_layer: ConfigLayer,
    sources: PlanSources,
) -> (res: Result<UpPlan, UpError>)
    ensures
        builds_plain_plan(
            services,
            workspace,
            host,
            cli_layer,
            MountResolution::Resolve,
            UpPlanResolution {
                forwarding: ForwardingResolution::Resolve,
                update_features: false,
                skip_global_config: false,
            },
            sources,
            res,
        ),
{
    build_plain_plan(
        services,
        workspace,
        host,
        cli_layer,
        MountResolution::Resolve,
        UpPlanResolution::new(ForwardingResolution::Resolve, false, false),
        sources,
    )
}

/// Builds a plan with mounts and ports resolved, the Features fetched anew
/// where that is asked for.
pub fn build_up_plan_with_update_features<S: PlanServices>(
    services: &S,
    workspace: &Workspace,
    host: HostEnvironment,
    cli_layer: ConfigLayer,
    update_features: bool,
    sources: PlanSources,
) -> (res: Result<UpPlan, UpError>)
    ensures
        builds_plain_plan(
            services,
            workspace,
            host,
            cli_layer,
            MountResolution::Resolve,
            UpPlanResolution {
                forwarding: ForwardingResolution::Resolve,
                update_features,
                skip_global_config: false,
            },
            sources,
            res,
        ),
{
    build_plain_plan(
        services,
        workspace,
        host,
        cli_layer,
        MountResolution::Resolve,
        UpPlanResolution::new(ForwardingResolution::Resolve, update_features, false),
        sources,
    )
}

/// Builds a plan with mounts and ports resolved, on what the image sets.
pub fn build_up_plan_with_image_metadata<S: PlanServices>(
    services: &S,
    workspace: &Workspace,
    host: HostEnvironment,
    cli_layer: ConfigLayer,
    image_metadata: Vec<ConfigLayer>,
    sources: PlanSources,
) -> (res: Result<UpPlan, UpError>)
    ensures
        builds_plan(
            services,
            workspace,
            host,
            UpPlanRequest {
                cli_layer,
                image_metadata,
                ignored_image_metadata_forwarding: false,
                mount_resolution: MountResolution::Resolve,
                resolution: UpPlanResolution {
                    forwarding: ForwardingResolution::Resolve,
                    update_features: false,
                    skip_global_config: false,
                },
            },
            sources,
            res,
        ),
{
    build_up_plan_inner(
        services,
        workspace,
        host,
        UpPlanRequest {
            cli_layer,
            image_metadata,
            ignored_image_metadata_forwarding: false,
            mount_resolution: MountResolution::Resolve,
            resolution: UpPlanResolution::new(ForwardingResolution::Resolve, false, false),
        },
        sources,
    )
}

/// Builds a plan whose mounts are resolved later.
pub fn build_preliminary_up_plan_with_forwarding_resolution<S: PlanServices>(
    services: &S,
    workspace: &Workspace,
    host: HostEnvironment,
    cli_layer: ConfigLayer,
    forwarding_resolution: ForwardingResolution,
    update_features: bool,
    skip_global_config: bool,
    sources: PlanSources,
) -> (res: Result<UpPlan, UpError>)
    ensures
        builds_plain_plan(
            services,
            workspace,
            host,
            cli_layer,
            MountResolution::DeferConfigMounts,
            UpPlanResolution {
                forwarding: forwarding_resolution,
                update_features,
                skip_global_config,
            },
            sources,
            res,
        ),
{
    build_plain_plan(
        services,
        workspace,
        host,
        cli_layer,
        MountResolution::DeferConfigMounts,
        UpPlanResolution::new(forwarding_resolution, update_features, skip_global_config),
        sources,
    )
}

/// Builds a plan with its mounts resolved.
pub fn build_up_plan_with_forwarding_resolution<S: PlanServices>(
    services: &S,
    workspace: &Workspace,
    host: HostEnvironment,
    cli_layer: ConfigLayer,
    forwarding_resolution: ForwardingResolution,
    update_features: bool,
    skip_global_config: bool,
    sources: PlanSources,
) -> (res: Result<UpPlan, UpError>)
    ensures
        builds_plain_plan(
            services,
            workspace,
            host,
            cli_layer,
            MountResolution::Resolve,
            UpPlanResolution {
                forwarding: forwarding_resolution,
                update_features,
                skip_global_config,
            },
            sources,
            res,
        ),
{
    build_plain_plan(
        services,
        workspace,
        host,
        cli_layer,
        MountResolution::Resolve,
        UpPlanResolution::new(forwarding_resolution, update_features, skip_global_config),
        sources,
    )
}

/// Builds a plan with its mounts resolved and the host left as it is.
pub fn build_read_only_up_plan_with_forwarding_resolution<S: PlanServices>(
    services: &S,
    workspace: &Workspace,
    host: HostEnvironment,
    cli_layer: ConfigLayer,
    forwarding_resolution: ForwardingResolution,
    update_features: bool,
    skip_global_config: bool,
    sources: PlanSources,
) -> (res: Result<UpPlan, UpError>)
    ensures
        builds_plain_plan(
            services,
            workspace,
            host,
            cli_layer,
            MountResolution::ReadOnly,
            UpPlanResolution {
                forwarding: forwarding_resolution,
                update_features,
                skip_global_config,
            },
            sources,
            res,
        ),
{
    build_plain_plan(
        services,
        workspace,
        host,
        cli_layer,
        MountResolution::ReadOnly,
        UpPlanResolution::new(forwarding_resolution, update_features, skip_global_config),
        sources,
    )
}

/// Builds a plan with its mounts resolved, on what the image sets.
pub fn build_up_plan_with_image_metadata_and_forwarding_resolution<S: PlanServices>(
    services: &S,
    workspace: &Workspace,
    host: HostEnvironment,
    cli_layer: ConfigLayer,
    image_metadata: Vec<ConfigLayer>,
    ignored_image_metadata_forwarding: bool,
    resolution: UpPlanResolution,
    sources: PlanSources,
) -> (res: Result<UpPlan, UpError>)
    ensures
        builds_plan(
            services,
            workspace,
            host,
            UpPlanRequest {
                cli_layer,
                image_metadata,
                ignored_image_metadata_forwarding,
                mount_resolution: MountResolution::Resolve,
                resolution,
            },
            sources,
            res,
        ),
{
    build_up_plan_inner(
        services,
        workspace,
        host,
        UpPlanRequest {
            cli_layer,
            image_metadata,
            ignored_image_metadata_forwarding,
            mount_resolution: MountResolution::Resolve,
            resolution,
        },
        sources,
    )
}

/// Whether layers are those of a plan with what the image sets replaced and
/// what its Features set dropped.
pub open spec fn relayered(
    before: ConfigMergeInput,
    image_metadata: Vec<ConfigLayer>,
    after: ConfigMergeInput,
) -> bool {
    &&& after.image_metadata == image_metadata
    &&& after.feature_metadata@.len() == 0
    &&& after.global == before.global
    &&& after.devcontainer == before.devcontainer
    &&& after.project == before.project
    &&& after.cli == before.cli
}

/// How a plan is built anew on what the image sets.
pub open spec fn rebuilds_plan<S: PlanServices>(
    services: &S,
    workspace: &Workspace,
    host: HostEnvironment,
    plan: UpPlan,
    image_metadata: Vec<ConfigLayer>,
    ignored_image_metadata_forwarding: bool,
    mount_resolution: MountResolution,
    resolution: UpPlanResolution,
    outcome: Result<UpPlan, UpError>,
) -> bool {
    match lookup(plan.resources.labels@, "devcontainer.config_file"@) {
        None => outcome matches Err(error) && error@ == seq![
            "Up plan is missing devcontainer.config_file label"@,
        ],
        Some(file) => exists|layers: ConfigMergeInput|
            relayered(plan.config_layers, image_metadata, layers) && #[trigger] resolves_plan(
                services,
                workspace,
                host,
                &file,
                layers,
                mount_resolution,
                resolution,
                either(plan.ignored_detached_forwarding, ignored_image_metadata_forwarding),
                outcome,
            ),
    }
}

/// Builds a plan anew on what the image sets.
pub fn rebuild_up_plan_with_image_metadata_layers<S: PlanServices>(
    services: &S,
    workspace: &Workspace,
    host: HostEnvironment,
    plan: UpPlan,
    image_metadata: Vec<ConfigLayer>,
    ignored_image_metadata_forwarding: bool,
    mount_resolution: MountResolution,
    resolution: UpPlanResolution,
) -> (res: Result<UpPlan, UpError>)
    ensures
        rebuilds_plan(
            services,
            workspace,
            host,
            plan,
            image_metadata,
            ignored_image_metadata_forwarding,
            mount_resolution,
            resolution,
            res,
        ),
{
    let ghost whole = plan;
    let devcontainer_file = match plan.resources.labels.get("devcontainer.config_file") {
        Some(file) => file.clone(),
        None => {
            return Err(UpError::from_text("Up plan is missing devcontainer.config_file label"));
        },
    };
    let layers = ConfigMergeInput {
        image_metadata,
        feature_metadata: Vec::new(),
        global: plan.config_layers.global,
        devcontainer: plan.config_layers.devcontainer,
        project: plan.config_layers.project,
        cli: plan.config_layers.cli,
    };
    assert(relayered(whole.config_layers, image_metadata, layers));
    let already_ignored = plan.ignored_detached_forwarding || ignored_image_metadata_forwarding;
    let res = resolve_plan(
        services,
        workspace,
        host,
        &devcontainer_file,
        layers,
        mount_resolution,
        resolution,
        already_ignored,
    );
    assert(lookup(whole.resources.labels@, "devcontainer.config_file"@)->0 == devcontainer_file);
    assert(resolves_plan(
        services,
        workspace,
        host,
        &devcontainer_file,
        layers,
        mount_resolution,
        resolution,
        either(whole.ignored_detached_forwarding, ignored_image_metadata_forwarding),
        res,
    ));
    res
}

/// A plan of a start that nothing stays attached to forwards no port, and one
/// that something stays attached to reports no port as left out.
pub proof fn detached_plans_forward_nothing<S: PlanServices>(
    services: &S,
    workspace: &Workspace,
    host: HostEnvironment,
    devcontainer_file: &String,
    layers: ConfigMergeInput,
    mount_resolution: MountResolution,
    resolution: UpPlanResolution,
    already_ignored: bool,
    plan: UpPlan,
)
    requires
        resolves_plan(
            services,
            workspace,
            host,
            devcontainer_file,
            layers,
            mount_resolution,
            resolution,
            already_ignored,
            Ok(plan),
        ),
    ensures
        resolution.forwarding == ForwardingResolution::IgnoreDetached ==> plan.forward_ports@.len()
            == 0,
        resolution.forwarding == ForwardingResolution::Resolve ==> !plan.ignored_detached_forwarding,
        resolution.forwarding == ForwardingResolution::IgnoreDetached && already_ignored
            ==> plan.ignored_detached_forwarding,
{
}

/// A plan whose mounts are resolved later has at most the mount of the
/// workspace, and none where a Compose project brings the workspace in.
pub proof fn deferred_plans_mount_the_workspace_alone<S: PlanServices>(
    services: &S,
    workspace: &Workspace,
    host: HostEnvironment,
    devcontainer_file: &String,
    layers: ConfigMergeInput,
    resolution: UpPlanResolution,
    already_ignored: bool,
    plan: UpPlan,
)
    requires
        resolves_plan(
            services,
            workspace,
            host,
            devcontainer_file,
            layers,
            MountResolution::DeferConfigMounts,
            resolution,
            already_ignored,
            Ok(plan),
        ),
    ensures
        plan.mounts@.len() == if plan.config.spec_is_compose() {
            0nat
        } else {
            1nat
        },
        plan.dotfile_skeletons@.len() == 0,
{
}

/// A plan that was just resolved starts from the layers it was given, with no
/// Feature fetched, no user id changed and root as the user.
pub proof fn resolved_plans_start_plain<S: PlanServices>(
    services: &S,
    workspace: &Workspace,
    host: HostEnvironment,
    devcontainer_file: &String,
    layers: ConfigMergeInput,
    mount_resolution: MountResolution,
    resolution: UpPlanResolution,
    already_ignored: bool,
    plan: UpPlan,
)
    requires
        resolves_plan(
            services,
            workspace,
            host,
            devcontainer_file,
            layers,
            mount_resolution,
            resolution,
            already_ignored,
            Ok(plan),
        ),
    ensures
        plan.config_layers == layers,
        plan.feature_install is None,
        plan.uid_gid_sync_plan is Noop,
        plan.pre_uid_gid_sync_resources is None,
        plan.effective_users.is_root(),
{
}

} // verus!
