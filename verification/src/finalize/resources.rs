//! Mounts, ports, hash and names of a plan, once the users of the image are
//! known.

use crate::compose::override_hash::{compose_generated_override_hash_input, hashes_override};
use crate::compose::ports::{
    compose_published_port_reservation_host_ip, listening_ip, ComposePublishedPortFinalization,
    ComposePublishedPortOverride, ComposePublishedPortPlan, ComposePublishedPortReservation,
};
use crate::config::{ResolvedConfig, ResolvedDevcontainer};
use crate::docker::{
    DockerMountSpec, DockerResources, EffectiveUsers, FeatureLockHashEntry, HostEnvironment,
    HostPortReservation, HostUserIds, ResolvedForwardPort, ResolvedRemoteUser, UidGidSyncPlan,
};
use crate::error::UpError;
use crate::hash_input::{
    BuildHashInput, ComposeGeneratedOverrideHashInput, ConfigHashInput, StartupCommandHashInput,
};
use crate::mounts::{
    describes, given_by, holds_mounts, locates_with_less_known, locates_workspace,
    mount_hash_inputs, mount_variable_context, plans_mounts, resolve_workspace_location,
    workspace_mount_plan_from_resolved, WorkspaceLocationValidation, WorkspaceMountPlan,
};
use crate::plan::assemble::{
    compose_hash_files, holds_internal_versions, project_files, read_build, reads_build,
};
use crate::plan::expand::{
    expand_runtime_devcontainer_fields, expands_settings, same_but_settings, with_folder,
};
use crate::plan::hash::{add_internal_hash_versions, collects_locks, feature_lock_hash_inputs};
use crate::plan::source::{base_image, base_image_source, final_image, final_image_source};
use crate::services::PlanServices;
use crate::text::{opt_view, views};
use crate::text_map::{keys_of, lookup};
use crate::types::{
    join_path, joined_path, ForwardingResolution, MountResolution, TrackedValues, UpPlan,
    VariableContext, Workspace, WorkspaceLocation,
};
use crate::uid_gid::{
    holds_sync_plan, uid_gid_sync_hash_input, uid_gid_sync_plan_requires_layer,
};
use vstd::prelude::*;
use vstd::string::*;

verus! {

/// How a plan is completed.
#[derive(Debug, Clone, Copy)]
pub struct FinalizeUpPlanMountsOptions<'a> {
    /// What becomes of forwarded ports.
    pub forwarding: ForwardingResolution,
    /// Whether locked Features are fetched anew.
    pub update_features: bool,
    /// The Compose model, as JSON text.
    pub compose_canonical_model: Option<&'a String>,
    /// What published ports are planned from.
    pub compose_published_ports: Option<ComposePublishedPortFinalization<'a>>,
}

impl<'a> Default for FinalizeUpPlanMountsOptions<'a> {
    fn default() -> (res: Self)
        ensures
            res.forwarding == ForwardingResolution::Resolve,
            !res.update_features,
            res.compose_canonical_model is None,
            res.compose_published_ports is None,
    {
        FinalizeUpPlanMountsOptions {
            forwarding: ForwardingResolution::Resolve,
            update_features: false,
            compose_canonical_model: None,
            compose_published_ports: None,
        }
    }
}

/// What is known of the users of an image.
#[derive(Debug)]
pub struct ImageUsers {
    /// The users of the container.
    pub effective_users: EffectiveUsers,
    /// The user that tools run as, and its home.
    pub remote_user: ResolvedRemoteUser,
    /// Whether user ids are changed.
    pub uid_gid_sync_plan: UidGidSyncPlan,
}

/// The mounts of a plan, once the users of the image are known.
#[derive(Debug)]
pub struct FinalizedRuntimeMounts {
    /// The folder to work in.
    pub workspace_folder: String,
    /// The mounts.
    pub mount_plan: WorkspaceMountPlan,
}

/// Which variables hold for a folder once the users of the image are known.
pub open spec fn known_at_runtime(
    workspace: Workspace,
    remote_user: Seq<char>,
    remote_user_home: Option<Seq<char>>,
    ids: HostUserIds,
) -> spec_fn(Seq<char>, VariableContext) -> bool {
    |folder: Seq<char>, variables: VariableContext|
        describes(variables, workspace, folder, remote_user, remote_user_home, ids)
}

/// A configuration with the environment of the container replaced.
pub open spec fn with_environment(
    config: ResolvedConfig,
    environment: TrackedValues,
) -> ResolvedConfig {
    ResolvedConfig {
        devcontainer: ResolvedDevcontainer {
            container_env: environment.values,
            ..config.devcontainer
        },
        ..config
    }
}

/// A plan with its configuration and hidden variables replaced.
pub open spec fn with_config(
    plan: UpPlan,
    config: ResolvedConfig,
    environment: TrackedValues,
) -> UpPlan {
    UpPlan {
        config: with_environment(config, environment),
        sensitive_container_env: environment.sensitive,
        ..plan
    }
}

/// How the mounts of a plan are made out, once its variables were replaced.
pub open spec fn mounts_with_environment<S: PlanServices>(
    services: &S,
    workspace: &Workspace,
    plan: UpPlan,
    location: WorkspaceLocation,
    variables: VariableContext,
    config: ResolvedConfig,
    environment: Result<TrackedValues, UpError>,
    after: UpPlan,
    outcome: Result<FinalizedRuntimeMounts, UpError>,
) -> bool {
    match environment {
        Err(error) => outcome == Err::<FinalizedRuntimeMounts, UpError>(error) && after == (UpPlan {
            config,
            ..plan
        }),
        Ok(environment) => {
            &&& after == with_config(plan, config, environment)
            &&& exists|mount_plan: Result<WorkspaceMountPlan, UpError>| #[trigger]
                plans_mounts(
                    services,
                    location.workspace_mount,
                    workspace,
                    &after.config,
                    &variables,
                    MountResolution::Resolve,
                    mount_plan,
                ) && match mount_plan {
                    Err(error) => outcome == Err::<FinalizedRuntimeMounts, UpError>(error),
                    Ok(mount_plan) => outcome == Ok::<FinalizedRuntimeMounts, UpError>(
                        FinalizedRuntimeMounts {
                            workspace_folder: location.workspace_folder,
                            mount_plan,
                        },
                    ),
                }
        },
    }
}

/// How the mounts of a plan are made out, once the workspace was located.
pub open spec fn mounts_with_location<S: PlanServices>(
    services: &S,
    workspace: &Workspace,
    ids: HostUserIds,
    plan: UpPlan,
    remote_user: Seq<char>,
    remote_user_home: Option<Seq<char>>,
    location: WorkspaceLocation,
    after: UpPlan,
    outcome: Result<FinalizedRuntimeMounts, UpError>,
) -> bool {
    let settled = with_folder(plan.config, location.workspace_folder);
    exists|variables: VariableContext, config: ResolvedConfig, settings: Result<(), UpError>|
        {
            &&& describes(
                variables,
                *workspace,
                location.workspace_folder@,
                remote_user,
                remote_user_home,
                ids,
            )
            &&& #[trigger] expands_settings(
                services,
                &variables,
                settled.devcontainer,
                config.devcontainer,
                settings,
            )
            &&& same_but_settings(settled, config)
            &&& match settings {
                Err(error) => outcome == Err::<FinalizedRuntimeMounts, UpError>(error) && after == (
                UpPlan { config, ..plan }),
                Ok(()) => exists|environment: Result<TrackedValues, UpError>| #[trigger]
                    call_ensures(
                        S::expand_container_env,
                        (services, &config.devcontainer.container_env, &variables),
                        environment,
                    ) && mounts_with_environment(
                        services,
                        workspace,
                        plan,
                        location,
                        variables,
                        config,
                        environment,
                        after,
                        outcome,
                    ),
            }
        }
}

/// How the mounts of a plan are made out.
pub open spec fn makes_out_mounts<S: PlanServices>(
    services: &S,
    workspace: &Workspace,
    ids: HostUserIds,
    plan: UpPlan,
    remote_user: Seq<char>,
    remote_user_home: Option<Seq<char>>,
    after: UpPlan,
    outcome: Result<FinalizedRuntimeMounts, UpError>,
) -> bool {
    exists|location: Result<WorkspaceLocation, UpError>| #[trigger]
        locates_workspace(
            services,
            workspace,
            &plan.config,
            WorkspaceLocationValidation::RuntimeResolved,
            MountResolution::Resolve,
            known_at_runtime(*workspace, remote_user, remote_user_home, ids),
            location,
        ) && match location {
            Err(error) => outcome == Err::<FinalizedRuntimeMounts, UpError>(error) && after == plan,
            Ok(location) => mounts_with_location(
                services,
                workspace,
                ids,
                plan,
                remote_user,
                remote_user_home,
                location,
                after,
                outcome,
            ),
        }
}

/// Finds where the workspace stands once the users of the image are known.
pub fn locate_at_runtime<S: PlanServices>(
    services: &S,
    workspace: &Workspace,
    config: &ResolvedConfig,
    remote_user: &String,
    remote_user_home: &Option<String>,
    ids: HostUserIds,
) -> (res: Result<WorkspaceLocation, UpError>)
    ensures
        locates_workspace(
            services,
            workspace,
            config,
            WorkspaceLocationValidation::RuntimeResolved,
            MountResolution::Resolve,
            known_at_runtime(*workspace, remote_user@, opt_view(*remote_user_home), ids),
            res,
        ),
{
    let variables_for = |folder: &String| -> (variables: VariableContext)
        ensures
            describes(
                variables,
                *workspace,
                folder@,
                remote_user@,
                opt_view(*remote_user_home),
                ids,
            ),
        {
            mount_variable_context(
                workspace,
                folder.as_str(),
                remote_user.clone(),
                crate::docker::copy_optional_text(remote_user_home),
                ids,
            )
        };
    let location = resolve_workspace_location(
        services,
        workspace,
        config,
        WorkspaceLocationValidation::RuntimeResolved,
        MountResolution::Resolve,
        variables_for,
    );
    proof {
        locates_with_less_known(
            services,
            workspace,
            config,
            WorkspaceLocationValidation::RuntimeResolved,
            MountResolution::Resolve,
            given_by(variables_for),
            known_at_runtime(*workspace, remote_user@, opt_view(*remote_user_home), ids),
            location,
        );
    }
    location
}

/// Makes out the mounts of a plan and replaces the variables of its
/// configuration, once the users of the image are known.
pub fn finalized_runtime_mounts<S: PlanServices>(
    services: &S,
    workspace: &Workspace,
    ids: HostUserIds,
    plan: &mut UpPlan,
    remote_user_name: &String,
    remote_user_home: &Option<String>,
) -> (res: Result<FinalizedRuntimeMounts, UpError>)
    ensures
        makes_out_mounts(
            services,
            workspace,
            ids,
            *old(plan),
            remote_user_name@,
            opt_view(*remote_user_home),
            *final(plan),
            res,
        ),
        *final(plan) == (UpPlan {
            config: final(plan).config,
            sensitive_container_env: final(plan).sensitive_container_env,
            ..*old(plan)
        }),
{
    let located = locate_at_runtime(
        services,
        workspace,
        &plan.config,
        remote_user_name,
        remote_user_home,
        ids,
    );
    let location = match located {
        Ok(location) => location,
        Err(error) => {
            return Err(error);
        },
    };
    let variables = mount_variable_context(
        workspace,
        location.workspace_folder.as_str(),
        remote_user_name.clone(),
        crate::docker::copy_optional_text(remote_user_home),
        ids,
    );
    plan.config.devcontainer.workspace_folder = Some(location.workspace_folder.clone());
    let ghost settled = plan.config;
    assert(settled == with_folder(old(plan).config, location.workspace_folder));
    let settings = expand_runtime_devcontainer_fields(services, &mut plan.config, &variables);
    let ghost config = plan.config;
    assert(expands_settings(
        services,
        &variables,
        settled.devcontainer,
        config.devcontainer,
        settings,
    ));
    match settings {
        Ok(()) => {},
        Err(error) => {
            return Err(error);
        },
    }
    let environment = match services.expand_container_env(
        &plan.config.devcontainer.container_env,
        &variables,
    ) {
        Ok(environment) => environment,
        Err(error) => {
            return Err(error);
        },
    };
    let ghost expanded = environment;
    plan.config.devcontainer.container_env = environment.values;
    plan.sensitive_container_env = environment.sensitive;
    assert(*plan == with_config(*old(plan), config, expanded));
    let ghost whole = location;
    let mount_plan = workspace_mount_plan_from_resolved(
        services,
        location.workspace_mount,
        workspace,
        &plan.config,
        &variables,
        MountResolution::Resolve,
    );
    assert(plans_mounts(
        services,
        whole.workspace_mount,
        workspace,
        &plan.config,
        &variables,
        MountResolution::Resolve,
        mount_plan,
    ));
    match mount_plan {
        Ok(mount_plan) => Ok(
            FinalizedRuntimeMounts { workspace_folder: location.workspace_folder, mount_plan },
        ),
        Err(error) => Err(error),
    }
}

/// Host ports that the project holds.
pub open spec fn held_by_project(context: Option<ComposePublishedPortFinalization>) -> Seq<
    ComposePublishedPortReservation,
> {
    match context {
        Some(context) => match context.existing_project_published_ports {
            Some(reservations) => reservations@,
            None => Seq::empty(),
        },
        None => Seq::empty(),
    }
}

/// Whether host ports are taken for what the project holds, one for one.
pub open spec fn takes_ports(
    taken: Seq<HostPortReservation>,
    held: Seq<ComposePublishedPortReservation>,
) -> bool {
    &&& taken.len() == held.len()
    &&& forall|i: int|
        0 <= i < held.len() ==> (#[trigger] taken[i]).host_ip@ == listening_ip(held[i].endpoint@)
            && taken[i].host == held[i].endpoint.host_port
}

/// The host ports that the project holds; forwarded ports keep clear of them.
pub fn compose_published_port_host_reservations(
    context: Option<ComposePublishedPortFinalization<'_>>,
) -> (res: Vec<HostPortReservation>)
    ensures
        takes_ports(res@, held_by_project(context)),
{
    let mut taken: Vec<HostPortReservation> = Vec::new();
    if let Some(context) = context {
        if let Some(held) = context.existing_project_published_ports {
            let mut i: usize = 0;
            while i < held.len()
                invariant
                    i <= held@.len(),
                    taken@.len() == i,
                    forall|j: int|
                        0 <= j < i ==> (#[trigger] taken@[j]).host_ip@ == listening_ip(
                            held@[j].endpoint@,
                        ) && taken@[j].host == held@[j].endpoint.host_port,
                decreases held@.len() - i,
            {
                let endpoint = &held[i].endpoint;
                taken.push(
                    HostPortReservation {
                        host_ip: compose_published_port_reservation_host_ip(endpoint).to_owned(),
                        host: endpoint.host_port,
                    },
                );
                i = i + 1;
            }
        }
    }
    taken
}

/// How host ports are chosen for forwarded ports.
pub open spec fn forwards_ports<S: PlanServices>(
    services: &S,
    config: ResolvedConfig,
    options: FinalizeUpPlanMountsOptions,
    outcome: Result<Vec<ResolvedForwardPort>, UpError>,
) -> bool {
    match options.forwarding {
        ForwardingResolution::IgnoreDetached => outcome is Ok && outcome->Ok_0@.len() == 0,
        ForwardingResolution::Resolve => exists|taken: Vec<HostPortReservation>|
            takes_ports(taken@, held_by_project(options.compose_published_ports)) && #[trigger]
                call_ensures(
                    S::resolve_forward_ports_with_host_reservations,
                    (services, &config.ports.entries, &taken),
                    outcome,
                ),
    }
}

fn forward_ports<S: PlanServices>(
    services: &S,
    config: &ResolvedConfig,
    options: FinalizeUpPlanMountsOptions<'_>,
) -> (res: Result<Vec<ResolvedForwardPort>, UpError>)
    ensures
        forwards_ports(services, *config, options, res),
{
    match options.forwarding {
        ForwardingResolution::Resolve => {
            let taken = compose_published_port_host_reservations(options.compose_published_ports);
            services.resolve_forward_ports_with_host_reservations(&config.ports.entries, &taken)
        },
        ForwardingResolution::IgnoreDetached => Ok(Vec::new()),
    }
}

/// Whether published ports may be moved.
pub open spec fn may_move_ports(config: ResolvedConfig) -> bool {
    config.compose.published_ports.automatic_relocation
        || config.compose.published_ports.mappings@.len() > 0
}

/// How published ports are planned.
pub open spec fn plans_published_ports<S: PlanServices>(
    services: &S,
    plan: UpPlan,
    context: Option<ComposePublishedPortFinalization>,
    outcome: Result<(ComposePublishedPortPlan, ComposePublishedPortOverride), UpError>,
) -> bool {
    if !may_move_ports(plan.config) || context is None {
        &&& outcome is Ok
        &&& outcome->Ok_0.0.entries@.len() == 0
        &&& outcome->Ok_0.1.services@.len() == 0
    } else {
        exists|ports: Result<ComposePublishedPortPlan, UpError>| #[trigger]
            call_ensures(
                S::plan_compose_published_ports,
                (
                    services,
                    &context->0,
                    plan.config.compose.published_ports.automatic_relocation,
                    &plan.forward_ports,
                ),
                ports,
            ) && match ports {
                Err(error) => outcome == Err::<
                    (ComposePublishedPortPlan, ComposePublishedPortOverride),
                    UpError,
                >(error),
                Ok(ports) => exists|replaced: Result<ComposePublishedPortOverride, UpError>|
                    #[trigger] call_ensures(
                        S::compose_published_port_override,
                        (services, &context->0.input.port_entries, &ports),
                        replaced,
                    ) && match replaced {
                        Err(error) => outcome == Err::<
                            (ComposePublishedPortPlan, ComposePublishedPortOverride),
                            UpError,
                        >(error),
                        Ok(replaced) => outcome == Ok::<
                            (ComposePublishedPortPlan, ComposePublishedPortOverride),
                            UpError,
                        >((ports, replaced)),
                    },
            }
    }
}

/// Plans the published ports of a Compose project, the forwarded ports having
/// been chosen; none where they may not be moved.
pub fn finalized_compose_published_ports<S: PlanServices>(
    services: &S,
    plan: &UpPlan,
    context: Option<ComposePublishedPortFinalization<'_>>,
) -> (res: Result<(ComposePublishedPortPlan, ComposePublishedPortOverride), UpError>)
    ensures
        plans_published_ports(services, *plan, context, res),
{
    let settings = &plan.config.compose.published_ports;
    if !settings.automatic_relocation && settings.mappings.len() == 0 {
        return Ok((ComposePublishedPortPlan::empty(), ComposePublishedPortOverride::empty()));
    }
    let context = match context {
        Some(context) => context,
        None => {
            return Ok((ComposePublishedPortPlan::empty(), ComposePublishedPortOverride::empty()));
        },
    };
    let ports = match services.plan_compose_published_ports(
        &context,
        settings.automatic_relocation,
        &plan.forward_ports,
    ) {
        Ok(ports) => ports,
        Err(error) => {
            return Err(error);
        },
    };
    match services.compose_published_port_override(&context.input.port_entries, &ports) {
        Ok(replaced) => Ok((ports, replaced)),
        Err(error) => Err(error),
    }
}

/// A result with its digests as a list.
pub open spec fn as_list(locks: Result<Vec<FeatureLockHashEntry>, UpError>) -> Result<
    Seq<FeatureLockHashEntry>,
    UpError,
> {
    match locks {
        Ok(locks) => Ok(locks@),
        Err(error) => Err(error),
    }
}

/// How the digests of Features are found for a plan: those of the fetched
/// ones, or else those of the lock file.
pub open spec fn finds_locks<S: PlanServices>(
    services: &S,
    workspace: &Workspace,
    plan: UpPlan,
    devcontainer_file: &String,
    update_features: bool,
    outcome: Result<Seq<FeatureLockHashEntry>, UpError>,
) -> bool {
    match plan.feature_install {
        Some(install) => outcome == Ok::<Seq<FeatureLockHashEntry>, UpError>(
            install.lock_entries@,
        ),
        None => exists|locks: Result<Vec<FeatureLockHashEntry>, UpError>| #[trigger]
            collects_locks(
                services,
                workspace,
                devcontainer_file,
                plan.config.features@,
                update_features,
                locks,
            ) && outcome == as_list(locks),
    }
}

fn find_locks<S: PlanServices>(
    services: &S,
    workspace: &Workspace,
    plan: &UpPlan,
    devcontainer_file: &String,
    update_features: bool,
) -> (res: Result<Vec<FeatureLockHashEntry>, UpError>)
    ensures
        finds_locks(
            services,
            workspace,
            *plan,
            devcontainer_file,
            update_features,
            as_list(res),
        ),
{
    match &plan.feature_install {
        Some(install) => {
            let mut locks: Vec<FeatureLockHashEntry> = Vec::new();
            let mut i: usize = 0;
            while i < install.lock_entries.len()
                invariant
                    i <= install.lock_entries@.len(),
                    locks@ == install.lock_entries@.take(i as int),
                decreases install.lock_entries@.len() - i,
            {
                let entry = &install.lock_entries[i];
                locks.push(
                    FeatureLockHashEntry {
                        feature_id: entry.feature_id.clone(),
                        digest: entry.digest.clone(),
                    },
                );
                assert(locks@ =~= install.lock_entries@.take(i as int + 1));
                i = i + 1;
            }
            assert(locks@ =~= install.lock_entries@);
            Ok(locks)
        },
        None => feature_lock_hash_inputs(
            services,
            workspace,
            devcontainer_file,
            &plan.config,
            update_features,
        ),
    }
}

/// How the file that adapts a Compose project goes into the hash of a plan.
pub open spec fn hashes_plan_override<S: PlanServices>(
    services: &S,
    plan: UpPlan,
    mounts: Seq<DockerMountSpec>,
    startup: Option<StartupCommandHashInput>,
    ports: ComposePublishedPortOverride,
    outcome: Option<ComposeGeneratedOverrideHashInput>,
) -> bool {
    match plan.compose_project {
        Some(project) => hashes_override(
            services,
            project.generated_override_path,
            plan,
            mounts,
            startup,
            ports,
            outcome,
        ),
        None => outcome is None,
    }
}

/// The Compose model of the options.
pub open spec fn canonical_model(options: FinalizeUpPlanMountsOptions) -> Option<String> {
    match options.compose_canonical_model {
        Some(model) => Some(*model),
        None => None,
    }
}

/// Whether a hash input holds what is known of a plan, apart from user ids.
pub open spec fn holds_final_input<S: PlanServices>(
    services: &S,
    input: ConfigHashInput,
    plan: UpPlan,
    build: Option<BuildHashInput>,
    locks: Seq<FeatureLockHashEntry>,
    mounts: Seq<DockerMountSpec>,
    options: FinalizeUpPlanMountsOptions,
    startup: Option<StartupCommandHashInput>,
    ports: ComposePublishedPortOverride,
) -> bool {
    &&& *input.config == plan.config
    &&& input.build == build
    &&& views(input.sensitive_container_env_keys@) == keys_of(plan.sensitive_container_env@)
    &&& views(input.sensitive_build_arg_keys@) == keys_of(plan.sensitive_build_args@)
    &&& input.compose_files@ == project_files(plan.compose_project)
    &&& input.compose_canonical_model == canonical_model(options)
    &&& input.feature_locks@ == locks
    &&& holds_mounts(input.resolved_mounts@, mounts)
    &&& input.startup_command == startup
    &&& hashes_plan_override(
        services,
        plan,
        mounts,
        startup,
        ports,
        input.compose_generated_override,
    )
    &&& holds_internal_versions(input.internal_versions@, plan.config)
    &&& input.uid_gid_sync is None
}

/// How the input of the hash of a plan is made out.
pub open spec fn makes_hash_input<S: PlanServices>(
    services: &S,
    workspace: &Workspace,
    plan: UpPlan,
    devcontainer_file: &String,
    mounts: Seq<DockerMountSpec>,
    options: FinalizeUpPlanMountsOptions,
    startup: Option<StartupCommandHashInput>,
    ports: ComposePublishedPortOverride,
    outcome: Result<ConfigHashInput, UpError>,
) -> bool {
    exists|build: Result<Option<BuildHashInput>, UpError>| #[trigger]
        reads_build(services, plan.build_context, build) && match build {
            Err(error) => outcome == Err::<ConfigHashInput, UpError>(error),
            Ok(build) => exists|locks: Result<Seq<FeatureLockHashEntry>, UpError>| #[trigger]
                finds_locks(
                    services,
                    workspace,
                    plan,
                    devcontainer_file,
                    options.update_features,
                    locks,
                ) && match locks {
                    Err(error) => outcome == Err::<ConfigHashInput, UpError>(error),
                    Ok(locks) => outcome is Ok && holds_final_input(
                        services,
                        outcome->Ok_0,
                        plan,
                        build,
                        locks,
                        mounts,
                        options,
                        startup,
                        ports,
                    ),
                },
        }
}

/// The devcontainer file that a plan was made for.
pub open spec fn config_file_of(plan: UpPlan) -> Option<String> {
    lookup(plan.resources.labels@, "devcontainer.config_file"@)
}

/// Makes out the input of the hash of a plan, apart from user ids.
pub fn finalized_config_hash_input<'a, S: PlanServices>(
    services: &S,
    workspace: &Workspace,
    plan: &'a UpPlan,
    mounts: &Vec<DockerMountSpec>,
    options: FinalizeUpPlanMountsOptions<'_>,
    startup_command: Option<StartupCommandHashInput>,
    compose_published_port_override: &ComposePublishedPortOverride,
) -> (res: Result<ConfigHashInput<'a>, UpError>)
    requires
        config_file_of(*plan) is Some,
    ensures
        makes_hash_input(
            services,
            workspace,
            *plan,
            &config_file_of(*plan)->0,
            mounts@,
            options,
            startup_command,
            *compose_published_port_override,
            res,
        ),
{
    let build = match read_build(services, &plan.build_context) {
        Ok(build) => build,
        Err(error) => {
            return Err(error);
        },
    };
    let devcontainer_file = match plan.resources.labels.get("devcontainer.config_file") {
        Some(file) => file.clone(),
        None => String::new(),
    };
    let ghost file = config_file_of(*plan)->0;
    assert(devcontainer_file == file);
    let locks = find_locks(
        services,
        workspace,
        plan,
        &devcontainer_file,
        options.update_features,
    );
    let ghost found = as_list(locks);
    assert(finds_locks(services, workspace, *plan, &file, options.update_features, found));
    let locks = match locks {
        Ok(locks) => locks,
        Err(error) => {
            return Err(error);
        },
    };
    let mut input = ConfigHashInput::new(&plan.config);
    input.build = build;
    input.compose_files = compose_hash_files(&plan.compose_project);
    input.sensitive_container_env_keys = plan.sensitive_container_env.keys();
    input.sensitive_build_arg_keys = plan.sensitive_build_args.keys();
    input.compose_canonical_model = match options.compose_canonical_model {
        Some(model) => Some(model.clone()),
        None => None,
    };
    input.feature_locks = locks;
    input.resolved_mounts = mount_hash_inputs(mounts);
    if let Some(project) = &plan.compose_project {
        let startup = match &startup_command {
            Some(startup) => Some(startup),
            None => None,
        };
        input.compose_generated_override = compose_generated_override_hash_input(
            services,
            &project.generated_override_path,
            plan,
            mounts,
            startup,
            compose_published_port_override,
        );
    }
    input.startup_command = startup_command;
    add_internal_hash_versions(&mut input, &plan.config);
    Ok(input)
}

/// The names and images of a plan.
#[derive(Debug)]
pub struct FinalizedResources {
    /// The names under which Docker keeps the results.
    pub resources: DockerResources,
    /// The names of the image below the layer that changes user ids.
    pub pre_uid_gid_sync_resources: Option<DockerResources>,
    /// The image that the container is made from.
    pub image: String,
    /// The image that layers are put on.
    pub base_image: String,
}

/// Whether names were made out from the hash of an input.
pub open spec fn names_from<S: PlanServices>(
    services: &S,
    workspace: &Workspace,
    input: ConfigHashInput,
    config_file: Seq<char>,
    resources: DockerResources,
) -> bool {
    exists|hash: String, file: String|
        {
            &&& #[trigger] call_ensures(S::config_hash, (services, &input), hash)
            &&& file@ == config_file
            &&& #[trigger] call_ensures(
                S::docker_resources,
                (services, workspace, &hash, &file),
                resources,
            )
        }
}

/// The devcontainer file of a plan; empty where it is not known.
pub open spec fn config_file_text(plan: UpPlan) -> Seq<char> {
    match config_file_of(plan) {
        Some(file) => file@,
        None => Seq::empty(),
    }
}

/// Whether a hash input is another with user ids in it.
pub open spec fn adds_user_ids(
    before: ConfigHashInput,
    after: ConfigHashInput,
    plan: UpPlan,
    uid_gid_sync_plan: UidGidSyncPlan,
    host: HostEnvironment,
) -> bool {
    &&& after == (ConfigHashInput { uid_gid_sync: after.uid_gid_sync, ..before })
    &&& holds_sync_plan(
        after.uid_gid_sync,
        uid_gid_sync_plan,
        plan.config.devcontainer.update_remote_user_uid,
        host,
    )
}

/// How the names and images of a plan are made out.
pub open spec fn makes_resources<S: PlanServices>(
    services: &S,
    workspace: &Workspace,
    host: HostEnvironment,
    plan: UpPlan,
    input: ConfigHashInput,
    uid_gid_sync_plan: UidGidSyncPlan,
    compose_base_image: Option<String>,
    outcome: Result<FinalizedResources, UpError>,
) -> bool {
    exists|
        pre: Option<DockerResources>,
        with_ids: ConfigHashInput,
        resources: DockerResources,
    |
        {
            &&& (pre is Some) == (uid_gid_sync_plan is Sync)
            &&& pre is Some ==> names_from(
                services,
                workspace,
                input,
                config_file_text(plan),
                pre->0,
            )
            &&& adds_user_ids(input, with_ids, plan, uid_gid_sync_plan, host)
            &&& #[trigger] names_from(
                services,
                workspace,
                with_ids,
                config_file_text(plan),
                resources,
            )
            &&& #[trigger] resources_come_to(
                plan,
                uid_gid_sync_plan,
                compose_base_image,
                pre,
                resources,
                outcome,
            )
        }
}

/// What names come to: the images, or an error where the container has no
/// source.
pub open spec fn resources_come_to(
    plan: UpPlan,
    uid_gid_sync_plan: UidGidSyncPlan,
    compose_base_image: Option<String>,
    pre: Option<DockerResources>,
    resources: DockerResources,
    outcome: Result<FinalizedResources, UpError>,
) -> bool {
    let image = final_image(plan.config, resources, uid_gid_sync_plan);
    let base = match compose_base_image {
        Some(image) => Some(image@),
        None => base_image(
            plan.config,
            match pre {
                Some(pre) => pre,
                None => resources,
            },
        ),
    };
    match outcome {
        Ok(made) => {
            &&& image == Some(made.image@)
            &&& base == Some(made.base_image@)
            &&& made.resources == resources
            &&& made.pre_uid_gid_sync_resources == pre
        },
        Err(error) => (image is None || base is None) && error@ == seq![
            "Devcontainer image is required"@,
        ],
    }
}

/// Makes out the names and images of a plan. Where user ids are changed, the
/// image below that layer is named by the hash without them.
pub fn finalized_resources<S: PlanServices>(
    services: &S,
    workspace: &Workspace,
    host: HostEnvironment,
    plan: &UpPlan,
    hash_input: ConfigHashInput<'_>,
    uid_gid_sync_plan: &UidGidSyncPlan,
    compose_base_image: Option<String>,
) -> (res: Result<FinalizedResources, UpError>)
    ensures
        makes_resources(
            services,
            workspace,
            host,
            *plan,
            hash_input,
            *uid_gid_sync_plan,
            compose_base_image,
            res,
        ),
{
    let ghost before = hash_input;
    let mut hash_input = hash_input;
    let config_file = match plan.resources.labels.get("devcontainer.config_file") {
        Some(file) => file.clone(),
        None => String::new(),
    };
    assert(config_file@ =~= config_file_text(*plan));
    let pre = if uid_gid_sync_plan_requires_layer(uid_gid_sync_plan) {
        let hash = services.config_hash(&hash_input);
        let resources = services.docker_resources(workspace, &hash, &config_file);
        assert(names_from(services, workspace, before, config_file_text(*plan), resources));
        Some(resources)
    } else {
        None
    };
    hash_input.uid_gid_sync = uid_gid_sync_hash_input(
        uid_gid_sync_plan,
        plan.config.devcontainer.update_remote_user_uid,
        host,
    );
    let ghost with_ids = hash_input;
    assert(adds_user_ids(before, with_ids, *plan, *uid_gid_sync_plan, host));
    let hash = services.config_hash(&hash_input);
    let resources = services.docker_resources(workspace, &hash, &config_file);
    assert(names_from(services, workspace, with_ids, config_file_text(*plan), resources));
    let res = resources_with_images(plan, uid_gid_sync_plan, compose_base_image, pre, resources);
    assert(resources_come_to(
        *plan,
        *uid_gid_sync_plan,
        compose_base_image,
        pre,
        resources,
        res,
    ));
    res
}

fn resources_with_images(
    plan: &UpPlan,
    uid_gid_sync_plan: &UidGidSyncPlan,
    compose_base_image: Option<String>,
    pre: Option<DockerResources>,
    resources: DockerResources,
) -> (res: Result<FinalizedResources, UpError>)
    ensures
        resources_come_to(
            *plan,
            *uid_gid_sync_plan,
            compose_base_image,
            pre,
            resources,
            res,
        ),
{
    let image = match final_image_source(&plan.config, &resources, uid_gid_sync_plan) {
        Ok(image) => image,
        Err(error) => {
            return Err(error);
        },
    };
    let base_image = match compose_base_image {
        Some(base_image) => base_image,
        None => {
            let base_resources = match &pre {
                Some(pre) => pre,
                None => &resources,
            };
            match base_image_source(&plan.config, base_resources, uid_gid_sync_plan) {
                Ok(base_image) => base_image,
                Err(error) => {
                    return Err(error);
                },
            }
        },
    };
    Ok(FinalizedResources { resources, pre_uid_gid_sync_resources: pre, image, base_image })
}

/// A plan with its mounts and ports made out, but not its hash.
#[derive(Debug)]
pub struct FinalizedMounts {
    /// The plan, with its variables replaced and its ports chosen.
    pub plan: UpPlan,
    /// The mounts.
    pub runtime_mounts: FinalizedRuntimeMounts,
    /// The planned host ports of published ports.
    pub compose_published_port_plan: ComposePublishedPortPlan,
    /// The ports that replace those of services.
    pub compose_published_port_override: ComposePublishedPortOverride,
}

/// How mounts and ports end, once the published ports were planned.
pub open spec fn ends_with_published_ports(
    forwarded: UpPlan,
    runtime_mounts: FinalizedRuntimeMounts,
    published: Result<(ComposePublishedPortPlan, ComposePublishedPortOverride), UpError>,
    outcome: Result<FinalizedMounts, UpError>,
) -> bool {
    match published {
        Err(error) => outcome == Err::<FinalizedMounts, UpError>(error),
        Ok(published) => {
            &&& outcome is Ok
            &&& outcome->Ok_0.plan == forwarded
            &&& outcome->Ok_0.runtime_mounts == runtime_mounts
            &&& outcome->Ok_0.compose_published_port_plan == published.0
            &&& outcome->Ok_0.compose_published_port_override == published.1
        },
    }
}

/// How mounts and ports of a plan are made out.
pub open spec fn finalizes_mounts<S: PlanServices>(
    services: &S,
    workspace: &Workspace,
    host: HostEnvironment,
    plan: UpPlan,
    users: ImageUsers,
    options: FinalizeUpPlanMountsOptions,
    outcome: Result<FinalizedMounts, UpError>,
) -> bool {
    exists|expanded: UpPlan, mounts: Result<FinalizedRuntimeMounts, UpError>|
        {
            &&& #[trigger] makes_out_mounts(
                services,
                workspace,
                host.ids,
                plan,
                users.remote_user.user@,
                opt_view(users.remote_user.home),
                expanded,
                mounts,
            )
            &&& expanded == (UpPlan {
                config: expanded.config,
                sensitive_container_env: expanded.sensitive_container_env,
                ..plan
            })
            &&& match mounts {
                Err(error) => outcome == Err::<FinalizedMounts, UpError>(error),
                Ok(mounts) => exists|ports: Result<Vec<ResolvedForwardPort>, UpError>| #[trigger]
                    forwards_ports(services, expanded.config, options, ports) && match ports {
                        Err(error) => outcome == Err::<FinalizedMounts, UpError>(error),
                        Ok(ports) => exists|
                            published: Result<
                                (ComposePublishedPortPlan, ComposePublishedPortOverride),
                                UpError,
                            >,
                        | #[trigger]
                            plans_published_ports(
                                services,
                                with_forward_ports(expanded, ports),
                                options.compose_published_ports,
                                published,
                            ) && ends_with_published_ports(
                                with_forward_ports(expanded, ports),
                                mounts,
                                published,
                                outcome,
                            ),
                    },
            }
        }
}

/// A plan with its forwarded ports chosen.
pub open spec fn with_forward_ports(
    plan: UpPlan,
    forward_ports: Vec<ResolvedForwardPort>,
) -> UpPlan {
    UpPlan { forward_ports, ..plan }
}

/// Makes out mounts and ports of a plan, once the users of the image are
/// known.
pub fn finalize_mounts_for_plan<S: PlanServices>(
    services: &S,
    workspace: &Workspace,
    host: HostEnvironment,
    plan: UpPlan,
    users: &ImageUsers,
    options: FinalizeUpPlanMountsOptions<'_>,
) -> (res: Result<FinalizedMounts, UpError>)
    ensures
        finalizes_mounts(services, workspace, host, plan, *users, options, res),
{
    let ghost before = plan;
    let mut plan = plan;
    let mounts = finalized_runtime_mounts(
        services,
        workspace,
        host.ids,
        &mut plan,
        &users.remote_user.user,
        &users.remote_user.home,
    );
    let ghost expanded = plan;
    assert(makes_out_mounts(
        services,
        workspace,
        host.ids,
        before,
        users.remote_user.user@,
        opt_view(users.remote_user.home),
        expanded,
        mounts,
    ));
    let runtime_mounts = match mounts {
        Ok(runtime_mounts) => runtime_mounts,
        Err(error) => {
            return Err(error);
        },
    };
    let ports = forward_ports(services, &plan.config, options);
    assert(forwards_ports(services, expanded.config, options, ports));
    match ports {
        Ok(ports) => {
            plan.forward_ports = ports;
        },
        Err(error) => {
            return Err(error);
        },
    }
    assert(plan == with_forward_ports(expanded, ports->Ok_0));
    let published = finalized_compose_published_ports(
        services,
        &plan,
        options.compose_published_ports,
    );
    assert(plans_published_ports(
        services,
        with_forward_ports(expanded, ports->Ok_0),
        options.compose_published_ports,
        published,
    ));
    match published {
        Ok((compose_published_port_plan, compose_published_port_override)) => Ok(
            FinalizedMounts {
                plan,
                runtime_mounts,
                compose_published_port_plan,
                compose_published_port_override,
            },
        ),
        Err(error) => Err(error),
    }
}

/// A completed plan and its published ports.
#[derive(Debug)]
pub struct FinalizeMountsAndResourcesResult {
    /// The plan.
    pub plan: UpPlan,
    /// The planned host ports of published ports.
    pub compose_published_port_plan: ComposePublishedPortPlan,
    /// The ports that replace those of services.
    pub compose_published_port_override: ComposePublishedPortOverride,
}

/// Whether a plan is another with its names, users and mounts filled in.
pub open spec fn is_completed(
    workspace: Workspace,
    before: UpPlan,
    mounts: FinalizedRuntimeMounts,
    users: ImageUsers,
    made: FinalizedResources,
    after: UpPlan,
) -> bool {
    &&& after == (UpPlan {
        image: made.image,
        base_image: made.base_image,
        resources: made.resources,
        pre_uid_gid_sync_resources: made.pre_uid_gid_sync_resources,
        effective_users: users.effective_users,
        uid_gid_sync_plan: users.uid_gid_sync_plan,
        uid_gid_sync_build_context_dir: after.uid_gid_sync_build_context_dir,
        workspace_folder: mounts.workspace_folder,
        mounts: mounts.mount_plan.mounts,
        dotfile_skeletons: mounts.mount_plan.dotfile_skeletons,
        ..before
    })
    &&& if users.uid_gid_sync_plan is Sync {
        opt_view(after.uid_gid_sync_build_context_dir) == Some(
            joined_path(workspace.cache_dir@, "uid-gid-sync-build-context"@),
        )
    } else {
        after.uid_gid_sync_build_context_dir == before.uid_gid_sync_build_context_dir
    }
}

/// The image that a Compose project gives, which the tool keeps as its base.
pub open spec fn compose_base(plan: UpPlan) -> Option<String> {
    if plan.config.spec_is_compose() {
        Some(plan.base_image)
    } else {
        None
    }
}

/// How a plan is completed, once its mounts and ports were made out. Whether
/// the base image is that of a Compose project goes by `compose_base_image`.
pub open spec fn finalizes_resources<S: PlanServices>(
    services: &S,
    workspace: &Workspace,
    host: HostEnvironment,
    mounts: FinalizedMounts,
    compose_base_image: Option<String>,
    users: ImageUsers,
    startup: Option<StartupCommandHashInput>,
    options: FinalizeUpPlanMountsOptions,
    outcome: Result<FinalizeMountsAndResourcesResult, UpError>,
) -> bool {
    exists|input: Result<ConfigHashInput, UpError>| #[trigger]
        makes_hash_input(
            services,
            workspace,
            mounts.plan,
            &config_file_of(mounts.plan)->0,
            mounts.runtime_mounts.mount_plan.mounts@,
            options,
            startup,
            mounts.compose_published_port_override,
            input,
        ) && match input {
            Err(error) => outcome == Err::<FinalizeMountsAndResourcesResult, UpError>(error),
            Ok(input) => exists|made: Result<FinalizedResources, UpError>| #[trigger]
                makes_resources(
                    services,
                    workspace,
                    host,
                    mounts.plan,
                    input,
                    users.uid_gid_sync_plan,
                    compose_base_image,
                    made,
                ) && match made {
                    Err(error) => outcome == Err::<FinalizeMountsAndResourcesResult, UpError>(
                        error,
                    ),
                    Ok(made) => {
                        &&& outcome is Ok
                        &&& is_completed(
                            *workspace,
                            mounts.plan,
                            mounts.runtime_mounts,
                            users,
                            made,
                            outcome->Ok_0.plan,
                        )
                        &&& outcome->Ok_0.compose_published_port_plan
                            == mounts.compose_published_port_plan
                        &&& outcome->Ok_0.compose_published_port_override
                            == mounts.compose_published_port_override
                    },
                },
        }
}

/// Completes a plan: makes out its hash, its names and its images, once its
/// mounts and ports were made out and it is known what the container runs by
/// itself.
pub fn finalize_mounts_and_resources_for_plan<S: PlanServices>(
    services: &S,
    workspace: &Workspace,
    host: HostEnvironment,
    mounts: FinalizedMounts,
    users: ImageUsers,
    startup_command: Option<StartupCommandHashInput>,
    options: FinalizeUpPlanMountsOptions<'_>,
) -> (res: Result<FinalizeMountsAndResourcesResult, UpError>)
    requires
        config_file_of(mounts.plan) is Some,
    ensures
        finalizes_resources(
            services,
            workspace,
            host,
            mounts,
            compose_base(mounts.plan),
            users,
            startup_command,
            options,
            res,
        ),
{
    let ghost whole = mounts;
    let ghost given = users;
    let compose_base_image = if mounts.plan.config.is_compose() {
        Some(mounts.plan.base_image.clone())
    } else {
        None
    };
    assert(compose_base_image == compose_base(mounts.plan));
    let input = finalized_config_hash_input(
        services,
        workspace,
        &mounts.plan,
        &mounts.runtime_mounts.mount_plan.mounts,
        options,
        startup_command,
        &mounts.compose_published_port_override,
    );
    assert(makes_hash_input(
        services,
        workspace,
        whole.plan,
        &config_file_of(whole.plan)->0,
        whole.runtime_mounts.mount_plan.mounts@,
        options,
        startup_command,
        whole.compose_published_port_override,
        input,
    ));
    let input = match input {
        Ok(input) => input,
        Err(error) => {
            return Err(error);
        },
    };
    let ghost read = input;
    let made = finalized_resources(
        services,
        workspace,
        host,
        &mounts.plan,
        input,
        &users.uid_gid_sync_plan,
        compose_base_image,
    );
    assert(makes_resources(
        services,
        workspace,
        host,
        whole.plan,
        read,
        given.uid_gid_sync_plan,
        compose_base(whole.plan),
        made,
    ));
    let made = match made {
        Ok(made) => made,
        Err(error) => {
            return Err(error);
        },
    };
    let ghost names = made;
    let mut plan = mounts.plan;
    plan.image = made.image;
    plan.base_image = made.base_image;
    plan.resources = made.resources;
    plan.pre_uid_gid_sync_resources = made.pre_uid_gid_sync_resources;
    plan.effective_users = users.effective_users;
    let changes_ids = uid_gid_sync_plan_requires_layer(&users.uid_gid_sync_plan);
    plan.uid_gid_sync_plan = users.uid_gid_sync_plan;
    if changes_ids {
        plan.uid_gid_sync_build_context_dir = Some(
            join_path(workspace.cache_dir.as_str(), "uid-gid-sync-build-context"),
        );
    }
    plan.workspace_folder = mounts.runtime_mounts.workspace_folder;
    plan.mounts = mounts.runtime_mounts.mount_plan.mounts;
    plan.dotfile_skeletons = mounts.runtime_mounts.mount_plan.dotfile_skeletons;
    assert(is_completed(*workspace, whole.plan, whole.runtime_mounts, given, names, plan));
    Ok(
        FinalizeMountsAndResourcesResult {
            plan,
            compose_published_port_plan: mounts.compose_published_port_plan,
            compose_published_port_override: mounts.compose_published_port_override,
        },
    )
}

/// The base image of a Compose project stays what the project gives; and the
/// names of the image below the layer that changes user ids are there exactly
/// where there is such a layer.
pub proof fn completed_plans_keep_their_base<S: PlanServices>(
    services: &S,
    workspace: &Workspace,
    host: HostEnvironment,
    mounts: FinalizedMounts,
    users: ImageUsers,
    startup: Option<StartupCommandHashInput>,
    options: FinalizeUpPlanMountsOptions,
    outcome: Result<FinalizeMountsAndResourcesResult, UpError>,
)
    requires
        finalizes_resources(
            services,
            workspace,
            host,
            mounts,
            compose_base(mounts.plan),
            users,
            startup,
            options,
            outcome,
        ),
        outcome is Ok,
    ensures
        mounts.plan.config.spec_is_compose() ==> outcome->Ok_0.plan.base_image@
            == mounts.plan.base_image@,
        (outcome->Ok_0.plan.pre_uid_gid_sync_resources is Some) == (
        outcome->Ok_0.plan.uid_gid_sync_plan is Sync),
        outcome->Ok_0.plan.config == mounts.plan.config,
{
}

} // verus!
