//! What a plan comes to once the users of the image are known.

use crate::compose::generate::{
    generates_patch, ComposeIsolationOverridePlans, ComposeOverrideStartup, ServiceForwardRuntime,
};
use crate::compose::isolation::{
    ComposeIsolationEndpointPlan, ComposeIsolationNameRewritePlan, ComposeIsolationSubnetPlan,
};
use crate::compose::patch::ComposeOverridePatch;
use crate::compose::ports::ComposePublishedPortOverride;
use crate::compose::render::{document_view, generates_content, keepalive_startup};
use crate::config::{ResolvedConfig, ResolvedDevcontainer};
use crate::docker::{HostUserIds, ResolvedRemoteUser};
use crate::error::UpError;
use crate::finalize::github_cli::makes_probe_environment;
use crate::finalize::resources::{
    known_at_runtime, makes_out_mounts, mounts_with_environment, mounts_with_location,
    FinalizedRuntimeMounts,
};
use crate::mounts::{
    describes, locates_workspace, plans_mounts, WorkspaceLocationValidation, WorkspaceMountPlan,
};
use crate::plan::expand::{expands_settings, same_but_settings, with_folder};
use crate::services::PlanServices;
use crate::text::opt_view;
use crate::text_map::TextMap;
use crate::types::{
    MountResolution, TrackedValues, UpPlan, VariableContext, Workspace, WorkspaceLocation,
};
use crate::yaml::entries_text;
use vstd::prelude::*;

verus! {

/// Whether variables stand for a workspace, the folder that it is found in, the
/// user that tools run as, and the ids of the host user.
pub open spec fn stand_for(
    variables: VariableContext,
    workspace: Workspace,
    folder: Seq<char>,
    remote_user: Seq<char>,
    remote_user_home: Option<Seq<char>>,
    ids: HostUserIds,
) -> bool {
    &&& variables.local_workspace_folder@ == workspace.root@
    &&& variables.local_workspace_folder_basename@ == workspace.basename@
    &&& variables.container_workspace_folder@ == folder
    &&& variables.devcontainer_id@ == workspace.id@
    &&& variables.uid == ids.uid
    &&& variables.gid == ids.gid
    &&& variables.remote_user@ == remote_user
    &&& variables.remote_user_home is Some <==> remote_user_home is Some
    &&& remote_user_home is Some ==> variables.remote_user_home->0@ == remote_user_home->0
}

/// Whether the environment of a container is what its variables expand to, with
/// those that are hidden.
pub open spec fn expands_environment<S: PlanServices>(
    services: &S,
    given: TextMap<String>,
    variables: VariableContext,
    after: UpPlan,
) -> bool {
    exists|environment: Result<TrackedValues, UpError>|
        {
            &&& #[trigger] call_ensures(
                S::expand_container_env,
                (services, &given, &variables),
                environment,
            )
            &&& environment is Ok
            &&& after.config.devcontainer.container_env == environment->Ok_0.values
            &&& after.sensitive_container_env == environment->Ok_0.sensitive
        }
}

/// Whether the settings of a container are what its variables expand to.
pub open spec fn settles_settings<S: PlanServices>(
    services: &S,
    before: UpPlan,
    folder: String,
    variables: VariableContext,
    after: UpPlan,
) -> bool {
    exists|given: ResolvedDevcontainer, settled: ResolvedDevcontainer|
        {
            &&& #[trigger] expands_settings(services, &variables, given, settled, Ok(()))
            &&& given == (ResolvedDevcontainer {
                workspace_folder: Some(folder),
                ..before.config.devcontainer
            })
            &&& after.config.devcontainer.cap_add == settled.cap_add
            &&& after.config.devcontainer.security_opt == settled.security_opt
            &&& after.config.devcontainer.run_args == settled.run_args
        }
}

/// Whether the mounts of a container were planned from its settled
/// configuration, around the mount of its workspace.
pub open spec fn settles_mounts<S: PlanServices>(
    services: &S,
    workspace: &Workspace,
    variables: VariableContext,
    after: UpPlan,
    mount_plan: WorkspaceMountPlan,
) -> bool {
    exists|location: WorkspaceLocation, planned: Result<WorkspaceMountPlan, UpError>|
        #[trigger] plans_mounts(
            services,
            location.workspace_mount,
            workspace,
            &after.config,
            &variables,
            MountResolution::Resolve,
            planned,
        ) && planned is Ok && planned->Ok_0 == mount_plan
}

/// Once the users of the image are known, the folder to work in is settled in
/// the configuration, and capabilities, security options, container options,
/// environment and mounts are expanded with variables that stand for it. The
/// rest of the plan stays.
pub proof fn plans_are_settled_for_their_user<S: PlanServices>(
    services: &S,
    workspace: &Workspace,
    ids: HostUserIds,
    plan: UpPlan,
    remote_user: Seq<char>,
    remote_user_home: Option<Seq<char>>,
    after: UpPlan,
    outcome: Result<FinalizedRuntimeMounts, UpError>,
) -> (variables: VariableContext)
    requires
        makes_out_mounts(
            services,
            workspace,
            ids,
            plan,
            remote_user,
            remote_user_home,
            after,
            outcome,
        ),
        outcome is Ok,
    ensures
        stand_for(
            variables,
            *workspace,
            outcome->Ok_0.workspace_folder@,
            remote_user,
            remote_user_home,
            ids,
        ),
        after.config.devcontainer.workspace_folder == Some(outcome->Ok_0.workspace_folder),
        expands_environment(services, plan.config.devcontainer.container_env, variables, after),
        settles_settings(services, plan, outcome->Ok_0.workspace_folder, variables, after),
        settles_mounts(services, workspace, variables, after, outcome->Ok_0.mount_plan),
        after.config.features == plan.config.features,
        after.config.mounts == plan.config.mounts,
        after.config.ports == plan.config.ports,
        after.config.compose == plan.config.compose,
        after.config.devcontainer.source == plan.config.devcontainer.source,
        after.config.devcontainer.remote_env == plan.config.devcontainer.remote_env,
        after.resources == plan.resources,
        after.image == plan.image,
{
    let location = choose|location: Result<WorkspaceLocation, UpError>| #[trigger]
        locates_workspace(
            services,
            workspace,
            &plan.config,
            WorkspaceLocationValidation::RuntimeResolved,
            MountResolution::Resolve,
            known_at_runtime(
                *workspace,
                remote_user,
                remote_user_home,
                ids,
            ),
            location,
        ) && location is Ok && mounts_with_location(
            services,
            workspace,
            ids,
            plan,
            remote_user,
            remote_user_home,
            location->Ok_0,
            after,
            outcome,
        );
    let found = location->Ok_0;
    let settled = with_folder(plan.config, found.workspace_folder);
    let (variables, config, settings) = choose|
        variables: VariableContext,
        config: ResolvedConfig,
        settings: Result<(), UpError>,
    |
        {
            &&& describes(
                variables,
                *workspace,
                found.workspace_folder@,
                remote_user,
                remote_user_home,
                ids,
            )
            &&& #[trigger] expands_settings(
                services,
                &variables,
                settled.devcontainer,
                config.devcontainer,
                settings,
            )
            &&& same_but_settings(settled, config)
            &&& settings is Ok
            &&& exists|environment: Result<TrackedValues, UpError>| #[trigger]
                call_ensures(
                    S::expand_container_env,
                    (services, &config.devcontainer.container_env, &variables),
                    environment,
                ) && mounts_with_environment(
                    services,
                    workspace,
                    plan,
                    found,
                    variables,
                    config,
                    environment,
                    after,
                    outcome,
                )
        };
    assert(settings == Ok::<(), UpError>(settings->Ok_0));
    let environment = choose|environment: Result<TrackedValues, UpError>| #[trigger]
        call_ensures(
            S::expand_container_env,
            (services, &config.devcontainer.container_env, &variables),
            environment,
        ) && mounts_with_environment(
            services,
            workspace,
            plan,
            found,
            variables,
            config,
            environment,
            after,
            outcome,
        );
    assert(config.devcontainer.container_env == plan.config.devcontainer.container_env);
    assert(call_ensures(
        S::expand_container_env,
        (services, &plan.config.devcontainer.container_env, &variables),
        environment,
    ));
    variables
}

/// The environment that a command is looked for in is what the container's
/// variables expand to, for the user that tools run as; an error is handed on.
pub proof fn commands_are_looked_for_in_the_environment<S: PlanServices>(
    services: &S,
    workspace: &Workspace,
    ids: HostUserIds,
    plan: UpPlan,
    remote_user: ResolvedRemoteUser,
    outcome: Result<TextMap<String>, UpError>,
)
    requires
        makes_probe_environment(services, workspace, ids, plan, remote_user, outcome),
        outcome is Ok,
    ensures
        exists|variables: VariableContext, environment: Result<TrackedValues, UpError>|
            {
                &&& #[trigger] call_ensures(
                    S::expand_container_env,
                    (services, &plan.config.devcontainer.container_env, &variables),
                    environment,
                )
                &&& environment is Ok
                &&& outcome->Ok_0 == environment->Ok_0.values
                &&& variables.devcontainer_id@ == workspace.id@
                &&& variables.local_workspace_folder@ == workspace.root@
                &&& variables.remote_user@ == remote_user.user@
                &&& opt_view(variables.remote_user_home) == opt_view(remote_user.home)
                &&& variables.uid == ids.uid
                &&& variables.gid == ids.gid
            },
{
}

/// The generated file holds the document of the changes to the project, line by
/// line from the left margin, and nothing of it is renamed or moved for a clone
/// here.
pub proof fn files_hold_the_document<S: PlanServices>(
    services: &S,
    primary_service: Seq<char>,
    plan: UpPlan,
    startup: Option<ComposeOverrideStartup>,
    forwarded: Seq<ServiceForwardRuntime>,
    ports: ComposePublishedPortOverride,
    outcome: Result<String, UpError>,
)
    requires
        generates_content(
            services,
            primary_service,
            plan,
            startup,
            forwarded,
            ports,
            outcome,
        ),
        outcome is Ok,
    ensures
        exists|
            names: ComposeIsolationNameRewritePlan,
            subnets: ComposeIsolationSubnetPlan,
            endpoints: ComposeIsolationEndpointPlan,
            patch: Result<ComposeOverridePatch, UpError>,
        |
            {
                &&& #[trigger] generates_patch(
                    services,
                    primary_service,
                    plan,
                    startup,
                    forwarded,
                    ports,
                    ComposeIsolationOverridePlans {
                        names: &names,
                        subnets: &subnets,
                        endpoints: &endpoints,
                    },
                    patch,
                )
                &&& patch is Ok
                &&& outcome->Ok_0@ == entries_text(document_view(patch->Ok_0@), ""@)
                &&& names.services@.len() == 0
                &&& names.resources@.len() == 0
                &&& subnets.allocations@.len() == 0
                &&& endpoints.services@.len() == 0
            },
{
}

/// The keepalive command is used exactly where the image's own is overridden.
pub proof fn keepalive_is_used_where_overridden(plan: UpPlan, keepalive: ComposeOverrideStartup)
    ensures
        keepalive_startup(plan, keepalive) is Some
            <==> plan.config.devcontainer.override_command,
        keepalive_startup(plan, keepalive) is Some ==> keepalive_startup(plan, keepalive)->0
            == keepalive,
{
}

} // verus!
