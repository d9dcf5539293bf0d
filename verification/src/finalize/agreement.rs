//! What two completed plans of one workspace agree in though they forward
//! different ports.

use crate::canonical::Canonical;
use crate::compose::override_hash::{
    hashes_by_content, hashes_override, mount_content, override_content, port_override_content,
    same_override_hash, semantic_image, semantic_labels,
};
use crate::compose::ports::ComposePublishedPortOverride;
use crate::config::{ResolvedConfig, ResolvedDevcontainerSource};
use crate::docker::{
    DockerMountSpec, DockerResources, FeatureLockHashEntry, HostEnvironment, HostUserIds,
    UidGidSyncPlan,
};
use crate::error::UpError;
use crate::finalize::resources::{
    adds_user_ids, as_list, canonical_model, config_file_of, config_file_text, finalizes_mounts,
    finalizes_resources, finds_locks, holds_final_input, known_at_runtime, makes_hash_input,
    makes_out_mounts, mounts_with_environment, mounts_with_location, names_from, with_config,
    FinalizeMountsAndResourcesResult, FinalizeUpPlanMountsOptions, FinalizedMounts,
    FinalizedRuntimeMounts, ImageUsers,
};
use crate::hash_input::{
    BuildHashInput, ComposeGeneratedOverrideHashInput, ConfigHashInput, StartupCommandHashInput,
};
use crate::mounts::{
    describes, holds_mount, locates_workspace, plans_mounts, WorkspaceLocationValidation,
};
use crate::plan::agreement::{
    answers_apart_from_ports, hashes_apart_from_ports, reads_mounts_steadily, reads_texts_steadily,
    same_build_read, same_but_ports, same_input_but_ports, same_locks_collected, same_mount,
    same_mount_input, same_mounts, same_mounts_planned, same_place_found, same_run_args_expanded,
    same_texts_expanded, same_variables, same_versions,
};
use crate::plan::assemble::reads_build;
use crate::plan::expand::{expands_settings, same_but_settings, with_folder};
use crate::plan::hash::collects_locks;
use crate::services::PlanServices;
use crate::text::opt_view;
use crate::text_map::TextMap;
use crate::types::{
    ForwardingResolution, MountResolution, TrackedValues, UpPlan, VariableContext, Workspace,
    WorkspaceLocation,
};
use vstd::prelude::*;

verus! {

/// Whether two plans agree in what goes into the hash but for the ports to
/// forward.
pub open spec fn same_plan_but_ports(left: UpPlan, right: UpPlan) -> bool {
    &&& same_but_ports(left.config, right.config)
    &&& left.build_context == right.build_context
    &&& left.feature_install == right.feature_install
    &&& left.compose_project == right.compose_project
    &&& left.sensitive_container_env@ == right.sensitive_container_env@
    &&& left.sensitive_build_args@ == right.sensitive_build_args@
    &&& semantic_image(left) == semantic_image(right)
    &&& (left.image@ == left.base_image@) == (right.image@ == right.base_image@)
    &&& semantic_labels(left.resources.labels@) == semantic_labels(right.resources.labels@)
    &&& config_file_of(left) == config_file_of(right)
}

proof fn same_override_hashed<S: PlanServices>(
    services: &S,
    path: String,
    left: UpPlan,
    right: UpPlan,
    left_mounts: Seq<DockerMountSpec>,
    right_mounts: Seq<DockerMountSpec>,
    startup: Option<StartupCommandHashInput>,
    left_ports: ComposePublishedPortOverride,
    right_ports: ComposePublishedPortOverride,
    left_input: Option<ComposeGeneratedOverrideHashInput>,
    right_input: Option<ComposeGeneratedOverrideHashInput>,
)
    requires
        hashes_by_content(services),
        same_plan_but_ports(left, right),
        same_mounts(left_mounts, right_mounts),
        port_override_content(left_ports) == port_override_content(right_ports),
        hashes_override(services, path, left, left_mounts, startup, left_ports, left_input),
        hashes_override(services, path, right, right_mounts, startup, right_ports, right_input),
    ensures
        same_override_hash(left_input, right_input),
{
    if let Some(ResolvedDevcontainerSource::Compose(compose)) = left.config.devcontainer.source {
        let service = compose.service@;
        let (lc, lh) = choose|content: Canonical, hash: String|
            {
                &&& content@ == override_content(service, left, left_mounts, startup, left_ports)
                &&& #[trigger] call_ensures(S::content_hash, (services, &content), hash)
                &&& left_input == Some(
                    ComposeGeneratedOverrideHashInput { path, content_hash: hash },
                )
            };
        let (rc, rh) = choose|content: Canonical, hash: String|
            {
                &&& content@ == override_content(
                    service,
                    right,
                    right_mounts,
                    startup,
                    right_ports,
                )
                &&& #[trigger] call_ensures(S::content_hash, (services, &content), hash)
                &&& right_input == Some(
                    ComposeGeneratedOverrideHashInput { path, content_hash: hash },
                )
            };
        let contents = |mounts: Seq<DockerMountSpec>|
            mounts.map_values(|mount: DockerMountSpec| mount_content(mount));
        assert forall|i: int| 0 <= i < left_mounts.len() implies #[trigger] contents(
            left_mounts,
        )[i] == contents(right_mounts)[i] by {
            assert(same_mount(left_mounts[i], right_mounts[i]));
        }
        assert(contents(left_mounts) =~= contents(right_mounts));
        assert(lc@ == rc@);
    }
}

/// Forwarded ports do not matter to what the hash of a completed plan is taken
/// of either: where two plans are the same but for them, so is what the two
/// hashes are taken of. It is held that the hash of content depends on what it
/// holds alone, and that the published ports of the project come out the same.
pub proof fn final_inputs_agree_but_for_ports<S: PlanServices>(
    services: &S,
    left: ConfigHashInput,
    right: ConfigHashInput,
    left_plan: UpPlan,
    right_plan: UpPlan,
    build: Option<BuildHashInput>,
    locks: Seq<FeatureLockHashEntry>,
    left_mounts: Seq<DockerMountSpec>,
    right_mounts: Seq<DockerMountSpec>,
    left_options: FinalizeUpPlanMountsOptions,
    right_options: FinalizeUpPlanMountsOptions,
    startup: Option<StartupCommandHashInput>,
    left_ports: ComposePublishedPortOverride,
    right_ports: ComposePublishedPortOverride,
)
    requires
        hashes_by_content(services),
        same_plan_but_ports(left_plan, right_plan),
        same_mounts(left_mounts, right_mounts),
        canonical_model(left_options) == canonical_model(right_options),
        port_override_content(left_ports) == port_override_content(right_ports),
        holds_final_input(
            services,
            left,
            left_plan,
            build,
            locks,
            left_mounts,
            left_options,
            startup,
            left_ports,
        ),
        holds_final_input(
            services,
            right,
            right_plan,
            build,
            locks,
            right_mounts,
            right_options,
            startup,
            right_ports,
        ),
    ensures
        same_input_but_ports(left, right),
{
    same_versions(
        left.internal_versions@,
        right.internal_versions@,
        left_plan.config,
        right_plan.config,
    );
    assert forall|i: int| 0 <= i < left.resolved_mounts@.len() implies same_mount_input(
        #[trigger] left.resolved_mounts@[i],
        right.resolved_mounts@[i],
    ) by {
        assert(same_mount(left_mounts[i], right_mounts[i]));
        assert(holds_mount(left.resolved_mounts@[i], left_mounts[i]));
        assert(holds_mount(right.resolved_mounts@[i], right_mounts[i]));
    }
    if let Some(project) = left_plan.compose_project {
        same_override_hashed(
            services,
            project.generated_override_path,
            left_plan,
            right_plan,
            left_mounts,
            right_mounts,
            startup,
            left_ports,
            right_ports,
            left.compose_generated_override,
            right.compose_generated_override,
        );
    }
}

proof fn same_names_made<S: PlanServices>(
    services: &S,
    workspace: &Workspace,
    left_input: ConfigHashInput,
    right_input: ConfigHashInput,
    file: Seq<char>,
    left: DockerResources,
    right: DockerResources,
)
    requires
        hashes_apart_from_ports(services),
        same_input_but_ports(left_input, right_input),
        names_from(services, workspace, left_input, file, left),
        names_from(services, workspace, right_input, file, right),
    ensures
        left.config_hash@ == right.config_hash@,
{
    let (lh, lf) = choose|hash: String, file_text: String|
        {
            &&& #[trigger] call_ensures(S::config_hash, (services, &left_input), hash)
            &&& file_text@ == file
            &&& #[trigger] call_ensures(
                S::docker_resources,
                (services, workspace, &hash, &file_text),
                left,
            )
        };
    let (rh, rf) = choose|hash: String, file_text: String|
        {
            &&& #[trigger] call_ensures(S::config_hash, (services, &right_input), hash)
            &&& file_text@ == file
            &&& #[trigger] call_ensures(
                S::docker_resources,
                (services, workspace, &hash, &file_text),
                right,
            )
        };
    assert(lh@ == rh@);
}

/// Whether names were made out from the hash of an input with user ids in it.
pub open spec fn names_with_ids<S: PlanServices>(
    services: &S,
    workspace: &Workspace,
    host: HostEnvironment,
    plan: UpPlan,
    input: ConfigHashInput,
    uid_gid_sync_plan: UidGidSyncPlan,
    resources: DockerResources,
) -> bool {
    exists|with_ids: ConfigHashInput|
        adds_user_ids(input, with_ids, plan, uid_gid_sync_plan, host) && #[trigger] names_from(
            services,
            workspace,
            with_ids,
            config_file_text(plan),
            resources,
        )
}

proof fn same_names_with_ids<S: PlanServices>(
    services: &S,
    workspace: &Workspace,
    host: HostEnvironment,
    left_plan: UpPlan,
    right_plan: UpPlan,
    left_input: ConfigHashInput,
    right_input: ConfigHashInput,
    uid_gid_sync_plan: UidGidSyncPlan,
    left: DockerResources,
    right: DockerResources,
)
    requires
        hashes_apart_from_ports(services),
        same_plan_but_ports(left_plan, right_plan),
        same_input_but_ports(left_input, right_input),
        names_with_ids(
            services,
            workspace,
            host,
            left_plan,
            left_input,
            uid_gid_sync_plan,
            left,
        ),
        names_with_ids(
            services,
            workspace,
            host,
            right_plan,
            right_input,
            uid_gid_sync_plan,
            right,
        ),
    ensures
        left.config_hash@ == right.config_hash@,
{
    let file = config_file_text(left_plan);
    let li = choose|with_ids: ConfigHashInput|
        adds_user_ids(left_input, with_ids, left_plan, uid_gid_sync_plan, host) && #[trigger]
            names_from(services, workspace, with_ids, file, left);
    let ri = choose|with_ids: ConfigHashInput|
        adds_user_ids(right_input, with_ids, right_plan, uid_gid_sync_plan, host) && #[trigger]
            names_from(services, workspace, with_ids, file, right);
    assert(same_input_but_ports(li, ri));
    same_names_made(services, workspace, li, ri, file, left, right);
}

/// Whether a plan is completed with the names of one hash of what it holds.
pub open spec fn completes_with_hash<S: PlanServices>(
    services: &S,
    workspace: &Workspace,
    host: HostEnvironment,
    plan: UpPlan,
    build: Option<BuildHashInput>,
    locks: Seq<FeatureLockHashEntry>,
    mounts: Seq<DockerMountSpec>,
    options: FinalizeUpPlanMountsOptions,
    startup: Option<StartupCommandHashInput>,
    ports: ComposePublishedPortOverride,
    uid_gid_sync_plan: UidGidSyncPlan,
    resources: DockerResources,
) -> bool {
    exists|input: ConfigHashInput| #[trigger]
        holds_final_input(
            services,
            input,
            plan,
            build,
            locks,
            mounts,
            options,
            startup,
            ports,
        ) && names_with_ids(
            services,
            workspace,
            host,
            plan,
            input,
            uid_gid_sync_plan,
            resources,
        )
}

proof fn build_and_locks_of_plan<S: PlanServices>(
    services: &S,
    workspace: &Workspace,
    host: HostEnvironment,
    mounts: FinalizedMounts,
    compose_base_image: Option<String>,
    users: ImageUsers,
    startup: Option<StartupCommandHashInput>,
    options: FinalizeUpPlanMountsOptions,
    result: FinalizeMountsAndResourcesResult,
) -> (res: (Option<BuildHashInput>, Seq<FeatureLockHashEntry>))
    requires
        finalizes_resources(
            services,
            workspace,
            host,
            mounts,
            compose_base_image,
            users,
            startup,
            options,
            Ok(result),
        ),
    ensures
        reads_build(services, mounts.plan.build_context, Ok(res.0)),
        finds_locks(
            services,
            workspace,
            mounts.plan,
            &config_file_of(mounts.plan)->0,
            options.update_features,
            Ok(res.1),
        ),
        completes_with_hash(
            services,
            workspace,
            host,
            mounts.plan,
            res.0,
            res.1,
            mounts.runtime_mounts.mount_plan.mounts@,
            options,
            startup,
            mounts.compose_published_port_override,
            users.uid_gid_sync_plan,
            result.plan.resources,
        ),
{
    let plan = mounts.plan;
    let specs = mounts.runtime_mounts.mount_plan.mounts@;
    let ports = mounts.compose_published_port_override;
    let file = config_file_of(plan)->0;
    let input = choose|input: Result<ConfigHashInput, UpError>| #[trigger]
        makes_hash_input(
            services,
            workspace,
            plan,
            &file,
            specs,
            options,
            startup,
            ports,
            input,
        ) && input is Ok && names_with_ids(
            services,
            workspace,
            host,
            plan,
            input->Ok_0,
            users.uid_gid_sync_plan,
            result.plan.resources,
        );
    let build = choose|build: Result<Option<BuildHashInput>, UpError>| #[trigger]
        reads_build(services, plan.build_context, build) && match build {
            Err(error) => false,
            Ok(build) => exists|locks: Result<Seq<FeatureLockHashEntry>, UpError>| #[trigger]
                finds_locks(
                    services,
                    workspace,
                    plan,
                    &file,
                    options.update_features,
                    locks,
                ) && match locks {
                    Err(error) => false,
                    Ok(locks) => holds_final_input(
                        services,
                        input->Ok_0,
                        plan,
                        build,
                        locks,
                        specs,
                        options,
                        startup,
                        ports,
                    ),
                },
        };
    let locks = choose|locks: Result<Seq<FeatureLockHashEntry>, UpError>| #[trigger]
        finds_locks(services, workspace, plan, &file, options.update_features, locks)
            && match locks {
            Err(error) => false,
            Ok(locks) => holds_final_input(
                services,
                input->Ok_0,
                plan,
                build->Ok_0,
                locks,
                specs,
                options,
                startup,
                ports,
            ),
        };
    (build->Ok_0, locks->Ok_0)
}

proof fn same_locks_found<S: PlanServices>(
    services: &S,
    workspace: &Workspace,
    left_plan: UpPlan,
    right_plan: UpPlan,
    file: &String,
    update_features: bool,
    left: Seq<FeatureLockHashEntry>,
    right: Seq<FeatureLockHashEntry>,
)
    requires
        answers_apart_from_ports(services),
        same_plan_but_ports(left_plan, right_plan),
        finds_locks(services, workspace, left_plan, file, update_features, Ok(left)),
        finds_locks(services, workspace, right_plan, file, update_features, Ok(right)),
    ensures
        left == right,
{
    if left_plan.feature_install is None {
        let features = left_plan.config.features@;
        let l = choose|locks: Result<Vec<FeatureLockHashEntry>, UpError>| #[trigger]
            collects_locks(services, workspace, file, features, update_features, locks)
                && as_list(locks) == Ok::<Seq<FeatureLockHashEntry>, UpError>(left);
        let r = choose|locks: Result<Vec<FeatureLockHashEntry>, UpError>| #[trigger]
            collects_locks(services, workspace, file, features, update_features, locks)
                && as_list(locks) == Ok::<Seq<FeatureLockHashEntry>, UpError>(right);
        same_locks_collected(
            services,
            workspace,
            file,
            features,
            update_features,
            l->Ok_0,
            r->Ok_0,
        );
    }
}

proof fn same_final_hash<S: PlanServices>(
    services: &S,
    workspace: &Workspace,
    host: HostEnvironment,
    left_mounts: FinalizedMounts,
    right_mounts: FinalizedMounts,
    left_base: Option<String>,
    right_base: Option<String>,
    users: ImageUsers,
    startup: Option<StartupCommandHashInput>,
    left_options: FinalizeUpPlanMountsOptions,
    right_options: FinalizeUpPlanMountsOptions,
    left: FinalizeMountsAndResourcesResult,
    right: FinalizeMountsAndResourcesResult,
)
    requires
        answers_apart_from_ports(services),
        hashes_by_content(services),
        same_plan_but_ports(left_mounts.plan, right_mounts.plan),
        same_mounts(
            left_mounts.runtime_mounts.mount_plan.mounts@,
            right_mounts.runtime_mounts.mount_plan.mounts@,
        ),
        port_override_content(left_mounts.compose_published_port_override)
            == port_override_content(right_mounts.compose_published_port_override),
        left_options.update_features == right_options.update_features,
        canonical_model(left_options) == canonical_model(right_options),
        finalizes_resources(
            services,
            workspace,
            host,
            left_mounts,
            left_base,
            users,
            startup,
            left_options,
            Ok(left),
        ),
        finalizes_resources(
            services,
            workspace,
            host,
            right_mounts,
            right_base,
            users,
            startup,
            right_options,
            Ok(right),
        ),
    ensures
        left.plan.resources.config_hash@ == right.plan.resources.config_hash@,
{
    let (lb, ll) = build_and_locks_of_plan(
        services,
        workspace,
        host,
        left_mounts,
        left_base,
        users,
        startup,
        left_options,
        left,
    );
    let (rb, rl) = build_and_locks_of_plan(
        services,
        workspace,
        host,
        right_mounts,
        right_base,
        users,
        startup,
        right_options,
        right,
    );
    let (lp, rp) = (left_mounts.plan, right_mounts.plan);
    same_build_read(services, lp.build_context, lb, rb);
    same_locks_found(
        services,
        workspace,
        lp,
        rp,
        &config_file_of(lp)->0,
        left_options.update_features,
        ll,
        rl,
    );
    let ls = left_mounts.runtime_mounts.mount_plan.mounts@;
    let rs = right_mounts.runtime_mounts.mount_plan.mounts@;
    let lo = left_mounts.compose_published_port_override;
    let ro = right_mounts.compose_published_port_override;
    let li = choose|input: ConfigHashInput| #[trigger]
        holds_final_input(services, input, lp, lb, ll, ls, left_options, startup, lo)
            && names_with_ids(
            services,
            workspace,
            host,
            lp,
            input,
            users.uid_gid_sync_plan,
            left.plan.resources,
        );
    let ri = choose|input: ConfigHashInput| #[trigger]
        holds_final_input(services, input, rp, rb, rl, rs, right_options, startup, ro)
            && names_with_ids(
            services,
            workspace,
            host,
            rp,
            input,
            users.uid_gid_sync_plan,
            right.plan.resources,
        );
    final_inputs_agree_but_for_ports(
        services,
        li,
        ri,
        lp,
        rp,
        lb,
        ll,
        ls,
        rs,
        left_options,
        right_options,
        startup,
        lo,
        ro,
    );
    same_names_with_ids(
        services,
        workspace,
        host,
        lp,
        rp,
        li,
        ri,
        users.uid_gid_sync_plan,
        left.plan.resources,
        right.plan.resources,
    );
}

/// Whether the environment of the container is expanded with one answer for
/// one question.
pub open spec fn expands_environments_steadily<S: PlanServices>(services: &S) -> bool {
    forall|
        values: TextMap<String>,
        left_variables: VariableContext,
        right_variables: VariableContext,
        left: Result<TrackedValues, UpError>,
        right: Result<TrackedValues, UpError>,
    |
        #![trigger
            call_ensures(S::expand_container_env, (services, &values, &left_variables), left),
            call_ensures(S::expand_container_env, (services, &values, &right_variables), right)]
        {
            &&& same_variables(left_variables, right_variables)
            &&& call_ensures(S::expand_container_env, (services, &values, &left_variables), left)
            &&& call_ensures(
                S::expand_container_env,
                (services, &values, &right_variables),
                right,
            )
            &&& left is Ok
            &&& right is Ok
        } ==> left == right
}

proof fn place_of_mounts<S: PlanServices>(
    services: &S,
    workspace: &Workspace,
    ids: HostUserIds,
    plan: UpPlan,
    remote_user: Seq<char>,
    remote_user_home: Option<Seq<char>>,
    after: UpPlan,
    mounts: FinalizedRuntimeMounts,
) -> (location: WorkspaceLocation)
    requires
        makes_out_mounts(
            services,
            workspace,
            ids,
            plan,
            remote_user,
            remote_user_home,
            after,
            Ok(mounts),
        ),
    ensures
        locates_workspace(
            services,
            workspace,
            &plan.config,
            WorkspaceLocationValidation::RuntimeResolved,
            MountResolution::Resolve,
            known_at_runtime(*workspace, remote_user, remote_user_home, ids),
            Ok(location),
        ),
        mounts_with_location(
            services,
            workspace,
            ids,
            plan,
            remote_user,
            remote_user_home,
            location,
            after,
            Ok(mounts),
        ),
{
    let location = choose|location: Result<WorkspaceLocation, UpError>| #[trigger]
        locates_workspace(
            services,
            workspace,
            &plan.config,
            WorkspaceLocationValidation::RuntimeResolved,
            MountResolution::Resolve,
            known_at_runtime(*workspace, remote_user, remote_user_home, ids),
            location,
        ) && match location {
            Err(error) => false,
            Ok(location) => mounts_with_location(
                services,
                workspace,
                ids,
                plan,
                remote_user,
                remote_user_home,
                location,
                after,
                Ok(mounts),
            ),
        };
    location->Ok_0
}

proof fn variables_and_environment<S: PlanServices>(
    services: &S,
    workspace: &Workspace,
    ids: HostUserIds,
    plan: UpPlan,
    remote_user: Seq<char>,
    remote_user_home: Option<Seq<char>>,
    location: WorkspaceLocation,
    after: UpPlan,
    mounts: FinalizedRuntimeMounts,
) -> (res: (VariableContext, ResolvedConfig, TrackedValues))
    requires
        mounts_with_location(
            services,
            workspace,
            ids,
            plan,
            remote_user,
            remote_user_home,
            location,
            after,
            Ok(mounts),
        ),
    ensures
        describes(
            res.0,
            *workspace,
            location.workspace_folder@,
            remote_user,
            remote_user_home,
            ids,
        ),
        expands_settings(
            services,
            &res.0,
            with_folder(plan.config, location.workspace_folder).devcontainer,
            res.1.devcontainer,
            Ok(()),
        ),
        same_but_settings(with_folder(plan.config, location.workspace_folder), res.1),
        call_ensures(
            S::expand_container_env,
            (services, &res.1.devcontainer.container_env, &res.0),
            Ok::<TrackedValues, UpError>(res.2),
        ),
        after == with_config(plan, res.1, res.2),
        plans_mounts(
            services,
            location.workspace_mount,
            workspace,
            &after.config,
            &res.0,
            MountResolution::Resolve,
            Ok(mounts.mount_plan),
        ),
{
    let settled = with_folder(plan.config, location.workspace_folder);
    let outcome = Ok::<FinalizedRuntimeMounts, UpError>(mounts);
    let (variables, config, settings) = choose|
        variables: VariableContext,
        config: ResolvedConfig,
        settings: Result<(), UpError>,
    |
        {
            &&& describes(
                variables,
                *workspace,
                location.workspace_folder@,
                remote_user,
                remote_user_home,
                ids,
            )
            &&& #[trigger] expands_settings(
                services,
                &variables,
                settled.devcontainer,
                config.devcontainer,
                settings,
            )
            &&& same_but_settings(settled, config)
            &&& settings is Ok
            &&& exists|environment: Result<TrackedValues, UpError>| #[trigger]
                call_ensures(
                    S::expand_container_env,
                    (services, &config.devcontainer.container_env, &variables),
                    environment,
                ) && mounts_with_environment(
                    services,
                    workspace,
                    plan,
                    location,
                    variables,
                    config,
                    environment,
                    after,
                    outcome,
                )
        };
    let environment = choose|environment: Result<TrackedValues, UpError>| #[trigger]
        call_ensures(
            S::expand_container_env,
            (services, &config.devcontainer.container_env, &variables),
            environment,
        ) && mounts_with_environment(
            services,
            workspace,
            plan,
            location,
            variables,
            config,
            environment,
            after,
            outcome,
        );
    (variables, config, environment->Ok_0)
}

proof fn same_settings_expanded<S: PlanServices>(
    services: &S,
    left_variables: VariableContext,
    right_variables: VariableContext,
    left_before: ResolvedConfig,
    right_before: ResolvedConfig,
    left: ResolvedConfig,
    right: ResolvedConfig,
)
    requires
        reads_texts_steadily(services),
        same_variables(left_variables, right_variables),
        same_but_ports(left_before, right_before),
        expands_settings(
            services,
            &left_variables,
            left_before.devcontainer,
            left.devcontainer,
            Ok(()),
        ),
        expands_settings(
            services,
            &right_variables,
            right_before.devcontainer,
            right.devcontainer,
            Ok(()),
        ),
        same_but_settings(left_before, left),
        same_but_settings(right_before, right),
    ensures
        same_but_ports(left, right),
{
    let (lb, rb) = (left_before.devcontainer, right_before.devcontainer);
    let (l, r) = (left.devcontainer, right.devcontainer);
    same_texts_expanded(
        services,
        left_variables,
        right_variables,
        "runArgs value"@,
        lb.cap_add@,
        l.cap_add@,
        r.cap_add@,
    );
    same_texts_expanded(
        services,
        left_variables,
        right_variables,
        "runArgs value"@,
        lb.security_opt@,
        l.security_opt@,
        r.security_opt@,
    );
    same_run_args_expanded(
        services,
        left_variables,
        right_variables,
        lb.run_args@,
        l.run_args@,
        r.run_args@,
    );
}

proof fn same_mounts_made_out<S: PlanServices>(
    services: &S,
    workspace: &Workspace,
    ids: HostUserIds,
    left_plan: UpPlan,
    right_plan: UpPlan,
    remote_user: Seq<char>,
    remote_user_home: Option<Seq<char>>,
    left_after: UpPlan,
    right_after: UpPlan,
    left: FinalizedRuntimeMounts,
    right: FinalizedRuntimeMounts,
)
    requires
        reads_texts_steadily(services),
        reads_mounts_steadily(services),
        expands_environments_steadily(services),
        same_plan_but_ports(left_plan, right_plan),
        makes_out_mounts(
            services,
            workspace,
            ids,
            left_plan,
            remote_user,
            remote_user_home,
            left_after,
            Ok(left),
        ),
        makes_out_mounts(
            services,
            workspace,
            ids,
            right_plan,
            remote_user,
            remote_user_home,
            right_after,
            Ok(right),
        ),
    ensures
        same_plan_but_ports(left_after, right_after),
        same_mounts(left.mount_plan.mounts@, right.mount_plan.mounts@),
{
    let ll = place_of_mounts(
        services,
        workspace,
        ids,
        left_plan,
        remote_user,
        remote_user_home,
        left_after,
        left,
    );
    let rl = place_of_mounts(
        services,
        workspace,
        ids,
        right_plan,
        remote_user,
        remote_user_home,
        right_after,
        right,
    );
    let known = known_at_runtime(*workspace, remote_user, remote_user_home, ids);
    same_place_found(
        services,
        workspace,
        WorkspaceLocationValidation::RuntimeResolved,
        MountResolution::Resolve,
        known,
        known,
        left_plan.config,
        right_plan.config,
        ll,
        rl,
    );
    let (lv, lc, le) = variables_and_environment(
        services,
        workspace,
        ids,
        left_plan,
        remote_user,
        remote_user_home,
        ll,
        left_after,
        left,
    );
    let (rv, rc, re) = variables_and_environment(
        services,
        workspace,
        ids,
        right_plan,
        remote_user,
        remote_user_home,
        rl,
        right_after,
        right,
    );
    same_settings_expanded(
        services,
        lv,
        rv,
        with_folder(left_plan.config, ll.workspace_folder),
        with_folder(right_plan.config, rl.workspace_folder),
        lc,
        rc,
    );
    assert(le == re);
    same_mounts_planned(
        services,
        ll.workspace_mount,
        rl.workspace_mount,
        workspace,
        left_after.config,
        right_after.config,
        lv,
        rv,
        MountResolution::Resolve,
        left.mount_plan,
        right.mount_plan,
    );
}

proof fn expanded_plan<S: PlanServices>(
    services: &S,
    workspace: &Workspace,
    host: HostEnvironment,
    plan: UpPlan,
    users: ImageUsers,
    options: FinalizeUpPlanMountsOptions,
    mounts: FinalizedMounts,
) -> (expanded: UpPlan)
    requires
        finalizes_mounts(services, workspace, host, plan, users, options, Ok(mounts)),
    ensures
        makes_out_mounts(
            services,
            workspace,
            host.ids,
            plan,
            users.remote_user.user@,
            opt_view(users.remote_user.home),
            expanded,
            Ok(mounts.runtime_mounts),
        ),
        mounts.plan == (UpPlan { forward_ports: mounts.plan.forward_ports, ..expanded }),
        options.forwarding == ForwardingResolution::IgnoreDetached
            ==> mounts.plan.forward_ports@.len() == 0,
{
    let (expanded, made) = choose|expanded: UpPlan, made: Result<FinalizedRuntimeMounts, UpError>|
        {
            &&& #[trigger] makes_out_mounts(
                services,
                workspace,
                host.ids,
                plan,
                users.remote_user.user@,
                opt_view(users.remote_user.home),
                expanded,
                made,
            )
            &&& made == Ok::<FinalizedRuntimeMounts, UpError>(mounts.runtime_mounts)
            &&& mounts.plan == (UpPlan { forward_ports: mounts.plan.forward_ports, ..expanded })
        };
    expanded
}

/// Completed plans agree whatever is forwarded: where two plans of one
/// workspace are the same but for the ports to forward, their hashes are the
/// same once they are completed, whether something stays attached or not, and
/// where nothing does none is forwarded. It is held that planning gets one
/// answer for one question, that the answers do not depend on the ports to
/// forward, and that the published ports of the project come out the same.
pub proof fn completed_plans_agree_whatever_is_forwarded<S: PlanServices>(
    services: &S,
    workspace: &Workspace,
    host: HostEnvironment,
    left_plan: UpPlan,
    right_plan: UpPlan,
    users: ImageUsers,
    startup: Option<StartupCommandHashInput>,
    left_options: FinalizeUpPlanMountsOptions,
    right_options: FinalizeUpPlanMountsOptions,
    left_mounts: FinalizedMounts,
    right_mounts: FinalizedMounts,
    left_base: Option<String>,
    right_base: Option<String>,
    left: FinalizeMountsAndResourcesResult,
    right: FinalizeMountsAndResourcesResult,
)
    requires
        answers_apart_from_ports(services),
        expands_environments_steadily(services),
        hashes_by_content(services),
        same_plan_but_ports(left_plan, right_plan),
        left_options.update_features == right_options.update_features,
        canonical_model(left_options) == canonical_model(right_options),
        finalizes_mounts(
            services,
            workspace,
            host,
            left_plan,
            users,
            left_options,
            Ok(left_mounts),
        ),
        finalizes_mounts(
            services,
            workspace,
            host,
            right_plan,
            users,
            right_options,
            Ok(right_mounts),
        ),
        port_override_content(left_mounts.compose_published_port_override)
            == port_override_content(right_mounts.compose_published_port_override),
        finalizes_resources(
            services,
            workspace,
            host,
            left_mounts,
            left_base,
            users,
            startup,
            left_options,
            Ok(left),
        ),
        finalizes_resources(
            services,
            workspace,
            host,
            right_mounts,
            right_base,
            users,
            startup,
            right_options,
            Ok(right),
        ),
    ensures
        left.plan.resources.config_hash@ == right.plan.resources.config_hash@,
        right_options.forwarding == ForwardingResolution::IgnoreDetached
            ==> right.plan.forward_ports@.len() == 0,
{
    let le = expanded_plan(
        services,
        workspace,
        host,
        left_plan,
        users,
        left_options,
        left_mounts,
    );
    let re = expanded_plan(
        services,
        workspace,
        host,
        right_plan,
        users,
        right_options,
        right_mounts,
    );
    same_mounts_made_out(
        services,
        workspace,
        host.ids,
        left_plan,
        right_plan,
        users.remote_user.user@,
        opt_view(users.remote_user.home),
        le,
        re,
        left_mounts.runtime_mounts,
        right_mounts.runtime_mounts,
    );
    same_final_hash(
        services,
        workspace,
        host,
        left_mounts,
        right_mounts,
        left_base,
        right_base,
        users,
        startup,
        left_options,
        right_options,
        left,
        right,
    );
}

} // verus!
