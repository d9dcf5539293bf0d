//! Small decisions, each told of its inputs and its result.

use crate::compose::ports::{
    compose_published_port_reservation_host_ip, ComposePublishedPortEndpoint,
    ComposePublishedPortOverride, ComposePublishedPortPlan, ComposePublishedPortPlanningInput,
};
use crate::config::{ConfigLayer, ConfigMergeInput};
use crate::docker::HostEnvironment;
use crate::error::UpError;
use crate::finalize::feature::feature_extract_directory;
use crate::finalize::github_cli::{
    command_probe_arguments, prepare_command_probe_image_for_plan, CommandProbeImage,
};
use crate::finalize::image::{
    dockerfile_image_metadata_for_plan, note_metadata_read, prepare_image_based_metadata,
    startup_command_image, startup_command_is_hashed, MetadataRead, PullPolicy,
};
use crate::finalize::resources::{
    finalizes_mounts, forwards_ports, makes_out_mounts, plans_published_ports,
    FinalizeUpPlanMountsOptions, FinalizedMounts, FinalizedRuntimeMounts, ImageUsers,
};
use crate::plan::assemble::{plan_keeps_forward_ports, rebuilds_plan, resolves_plan};
use crate::run::{forwarding_for_session, starts_compose_project};
use crate::services::PlanServices;
use crate::shell::clamp_exit_code;
use crate::start::compose::{
    compose_fast_path_resolution, compose_made, compose_start_requires_generated_override,
    compose_startup_diagnostics, handle_compose_published_port_relocations,
    ComposeContainerDecision, ComposePublishedPortStartupDiagnostics, ComposeStartRunOptions,
    ComposeStartupContext,
};
use crate::start::compose_run::{
    active_config_services, lists_external_published_ports, lists_project_published_ports,
    network_removal_context,
};
use crate::start::container::startup_needs_image_command;
use crate::start::creation::{begin_creation, CreationAction, CreationProgress};
use crate::start::credentials::primary_compose_service;
use crate::start::existing::{
    existing_container_config_hash, existing_container_image_id, CredentialRuntimeMountPolicy,
};
use crate::start::fast_path::decides_on_fast_path;
use crate::start::feature_entrypoint::{
    begin_feature_entrypoint_runtime, check_script, feature_entrypoint_sentinel_check_command,
    feature_entrypoint_sentinel_is_current, shell_reads, shell_reads_back, shell_word,
    EntrypointRuntimeAction, EntrypointRuntimeProgress, ShellQuotes,
};
use crate::start::image::{plan_resolution_for_start, tries_existing_container};
use crate::start::reuse::{should_reuse_existing_container, ExistingContainerReusePolicy};
use crate::start::state_sync::{reusable_lifecycle_state, StateContainerSnapshot, WorkspaceState};
use crate::text::{opt_view, views};
use crate::text_map::lookup;
use crate::types::{
    ExistingContainerDecision, ForwardingResolution, MountResolution, UpContainerSummary, UpOptions,
    UpPlan, UpPlanResolution, Workspace,
};
use vstd::prelude::*;
use vstd::string::*;

verus! {

/// A session forwards ports exactly where it is attached, and a plan keeps its
/// forwarded ports exactly where they are resolved.
pub proof fn attached_sessions_forward_ports(
    attached: bool,
    forwarding: ForwardingResolution,
    kept: bool,
)
    requires
        call_ensures(forwarding_for_session, (attached,), forwarding),
        call_ensures(plan_keeps_forward_ports, (forwarding,), kept),
    ensures
        attached <==> forwarding is Resolve,
        attached <==> kept,
{
}

/// An exit code is handed on where a shell can have it; any other failure ends
/// with one, and success is never made up.
pub proof fn exit_codes_are_handed_on(exit_code: i64, code: i32)
    requires
        call_ensures(clamp_exit_code, (exit_code,), code),
    ensures
        0 <= exit_code <= 255 ==> code == exit_code,
        exit_code < 0 || exit_code > 255 ==> code == 1,
{
}

/// A Compose project is started exactly where the plan has one.
pub proof fn compose_plans_start_projects(plan: &UpPlan, starts: bool)
    requires
        call_ensures(starts_compose_project, (plan,), starts),
    ensures
        starts <==> plan.compose_project is Some,
{
}

/// Plans of a start follow the options: Features are updated and the user's
/// own configuration is left out where that is asked for, on the short way
/// too.
pub proof fn plans_follow_the_options(
    forwarding: ForwardingResolution,
    options: &UpOptions,
    resolution: UpPlanResolution,
    short: UpPlanResolution,
)
    requires
        call_ensures(plan_resolution_for_start, (forwarding, options), resolution),
        call_ensures(compose_fast_path_resolution, (forwarding, options), short),
    ensures
        resolution.forwarding == forwarding,
        resolution.update_features == options.build.update_features,
        resolution.skip_global_config == options.config.skip_global_config,
        short.forwarding == forwarding,
        short.update_features == options.build.update_features,
        short.skip_global_config == options.config.skip_global_config,
{
}

/// An existing container is tried first unless everything is rebuilt or there
/// is none; and it is used again where it could be, nothing is pulled and no
/// forwarded service asks for a new one.
pub proof fn existing_containers_are_tried(
    options: &UpOptions,
    containers: &Vec<UpContainerSummary>,
    tried: bool,
    decision: &ExistingContainerDecision,
    policy: ExistingContainerReusePolicy,
    reused: bool,
)
    requires
        call_ensures(tries_existing_container, (options, containers), tried),
        call_ensures(should_reuse_existing_container, (decision, policy), reused),
    ensures
        options.reuse.rebuild ==> !tried,
        containers@.len() == 0 ==> !tried,
        !options.reuse.rebuild && containers@.len() > 0 ==> tried,
        policy.pull || policy.service_forward_requires_recreate ==> !reused,
        decision@ is Create || decision@ is Recreate ==> !reused,
        !policy.pull && !policy.service_forward_requires_recreate && (decision@ is ReuseRunning
            || decision@ is StartStopped) ==> reused,
{
}

/// What is remembered is used again only for the container and configuration
/// that it was written for.
pub proof fn remembered_states_fit_their_container(
    existing: Option<WorkspaceState>,
    ids_match: bool,
    container: &StateContainerSnapshot,
    state_file: &str,
    state: Result<WorkspaceState, UpError>,
)
    requires
        call_ensures(
            reusable_lifecycle_state,
            (existing, ids_match, container, state_file),
            state,
        ),
    ensures
        state is Ok ==> existing is Some && state->Ok_0 == existing->0 && ids_match
            && existing->0.config_hash@ == container.config_hash@,
        existing is Some && ids_match && existing->0.config_hash@ == container.config_hash@
            ==> state is Ok,
        state is Err ==> state->Err_0@ == seq![
            "Cannot safely reuse existing dev container without matching lifecycle state: "@
                + state_file@ + ". Run decune rebuild to recreate it."@,
        ],
{
}

/// The configured image is asked for its command where it is there, and else
/// the image that was looked up; the command goes into the hash exactly where
/// it is not overridden.
pub proof fn images_are_asked_for_their_command(
    plan: &UpPlan,
    found: &String,
    present: bool,
    asked: String,
    hashed: bool,
    needed: bool,
)
    requires
        call_ensures(startup_command_image, (plan, found, present), asked),
        call_ensures(startup_command_is_hashed, (plan,), hashed),
        call_ensures(startup_needs_image_command, (plan,), needed),
    ensures
        !present ==> asked@ == found@,
        present && plan.config.devcontainer.source is Some
            && plan.config.devcontainer.source->0 is Image ==> asked
            == plan.config.devcontainer.source->0->Image_0,
        !(plan.config.devcontainer.source is Some && plan.config.devcontainer.source->0 is Image)
            ==> asked@ == found@,
        hashed <==> !plan.config.devcontainer.override_command,
        needed <==> plan.config.devcontainer.entrypoints@.len() > 0
            && !plan.config.devcontainer.override_command,
{
}

/// The metadata of an image is read from the Dockerfile's where there is one;
/// otherwise the image is pulled, always where that is asked for and else
/// where it is missing. The first read is that of the base image.
pub proof fn metadata_is_read_once(
    plan: &UpPlan,
    pull: bool,
    policy: Option<PullPolicy>,
    built: bool,
    base: MetadataRead,
    existing: MetadataRead,
    found: bool,
    noted: (MetadataRead, MetadataRead),
)
    requires
        call_ensures(prepare_image_based_metadata, (plan, pull), policy),
        call_ensures(dockerfile_image_metadata_for_plan, (plan,), built),
        call_ensures(note_metadata_read, (base, existing, found), noted),
    ensures
        built <==> plan.build_context is Some,
        policy is None <==> built,
        policy is Some ==> (policy->0 is Always <==> pull),
        policy is Some ==> (policy->0 is Missing <==> !pull),
        base is Pending ==> noted.1 == existing && (noted.0 is Found <==> found) && (
        noted.0 is Missing <==> !found),
        !(base is Pending) ==> noted.0 == base && (noted.1 is Found <==> found) && (
        noted.1 is Missing <==> !found),
{
}

/// A command is looked for in the image of the remote user, by a shell that
/// tells whether it knows the command.
pub proof fn commands_are_looked_for_in_the_image(
    image: Option<&String>,
    probed: Option<CommandProbeImage>,
    command: &str,
    arguments: Vec<String>,
)
    requires
        call_ensures(prepare_command_probe_image_for_plan, (image,), probed),
        call_ensures(command_probe_arguments, (command,), arguments),
    ensures
        probed is Some <==> image is Some,
        probed is Some ==> probed->0.image == *image->0 && probed->0.uses_existing_image,
        arguments@.len() == 2,
        arguments@[0]@ == "-c"@,
        arguments@[1]@ == "command -v "@ + command@ + " >/dev/null 2>&1"@,
{
    let told = views(arguments@);
    assert(told.len() == arguments@.len());
    assert(told[0] == arguments@[0]@);
    assert(told[1] == arguments@[1]@);
}

/// Host ports are listed only where published ports may be moved, those of the
/// project only where it has containers.
pub proof fn host_ports_are_listed_where_they_move(
    context: &ComposeStartupContext,
    containers: &Vec<UpContainerSummary>,
    own: bool,
    external: bool,
)
    requires
        call_ensures(lists_project_published_ports, (context, containers), own),
        call_ensures(lists_external_published_ports, (context,), external),
    ensures
        external <==> context.published_port_relocation_enabled,
        own <==> context.published_port_relocation_enabled && containers@.len() > 0,
{
}

/// The model of the started services is read where services are listed.
pub proof fn listed_services_are_read(services: &Vec<String>, read: Option<&Vec<String>>)
    requires
        call_ensures(active_config_services, (services,), read),
    ensures
        read is Some <==> services@.len() > 0,
        read is Some ==> read->0@ == services@,
{
}

/// The adapting file is written unless a running container is used as it is.
pub proof fn the_file_is_written_unless_a_container_runs(
    options: &ComposeStartRunOptions,
    written: bool,
)
    requires
        call_ensures(compose_start_requires_generated_override, (options,), written),
    ensures
        !options.should_reuse ==> written,
        !(options.decision@ is ReuseRunning) ==> written,
        options.should_reuse && options.decision@ is ReuseRunning ==> !written,
{
}

/// Where Compose fails, what was asked for and planned is told, and whether
/// ports could be moved by the tool itself.
pub proof fn failed_starts_tell_their_ports(
    plan: &UpPlan,
    input: &ComposePublishedPortPlanningInput,
    ports: &ComposePublishedPortPlan,
    told: ComposePublishedPortStartupDiagnostics,
    network: &str,
    context: String,
)
    requires
        call_ensures(compose_startup_diagnostics, (plan, input, ports), told),
        call_ensures(network_removal_context, (network,), context),
    ensures
        *told.input == *input,
        *told.plan == *ports,
        told.relocation_enabled == plan.config.compose.published_ports.automatic_relocation,
        context@ == "Failed to recreate Docker network `"@ + network@
            + "` for Compose clone isolation. Run decune down, then decune rebuild."@,
{
}

/// Where a port moved, Compose must be able to replace lists; where it is not,
/// that is the error. Nothing is told where nothing moved or no report is asked
/// for.
pub proof fn moved_ports_need_replaced_lists(
    tag: Result<(), UpError>,
    plan: &UpPlan,
    ports: &ComposePublishedPortPlan,
    told: Result<Vec<String>, UpError>,
)
    requires
        call_ensures(handle_compose_published_port_relocations, (tag, plan, ports), told),
    ensures
        (exists|e: int| 0 <= e < ports.entries@.len() && (#[trigger] ports.entries@[e]).relocated)
            && tag is Err ==> told is Err && told->Err_0 == tag->Err_0,
        tag is Ok ==> told is Ok,
        (forall|e: int| 0 <= e < ports.entries@.len() ==> !(#[trigger] ports.entries@[e]).relocated)
            ==> told is Ok && told->Ok_0@.len() == 0,
        told is Ok && !plan.config.compose.published_ports.warn_on_relocation
            ==> told->Ok_0@.len() == 0,
{
    if told is Ok {
        assert(views(told->Ok_0@).len() == told->Ok_0@.len());
    }
}

/// A container that Compose made goes by its name, or by its id where it has
/// none, and counts as new.
pub proof fn made_services_go_by_their_name(id: String, name: Option<String>)
    ensures
        compose_made(id, name).container_id == id,
        name is Some ==> compose_made(id, name).container_name == name->0,
        name is None ==> compose_made(id, name).container_name == id,
        !compose_made(id, name).reused,
{
}

/// A container is made after its dotfiles were written, and files for
/// entrypoints are prepared only where there are entrypoints.
pub proof fn preparations_begin_at_the_beginning(
    begun: (CreationProgress, CreationAction),
    plan: &UpPlan,
    runtime_dir: &str,
    prepared: (EntrypointRuntimeProgress, EntrypointRuntimeAction),
)
    requires
        call_ensures(begin_creation, (), begun),
        call_ensures(begin_feature_entrypoint_runtime, (plan, runtime_dir), prepared),
    ensures
        begun.0 is Dotfiles,
        begun.1 is MaterializeDotfiles,
        plan.config.devcontainer.entrypoints@.len() == 0 ==> prepared.1 is Done
            && prepared.1->Done_0 is Ok,
        plan.config.devcontainer.entrypoints@.len() > 0 ==> prepared.1 is CreateDirectory
            && prepared.1->CreateDirectory_path@ == runtime_dir@,
{
}

/// The command that tells whether the entrypoints have run is a shell script
/// that names both files as single words and the first process of the
/// container; it tells so by ending with zero, and by nothing else.
pub proof fn sentinels_are_checked_by_a_script(
    sentinel: &str,
    token: &str,
    command: Vec<String>,
    exit_code: Option<i64>,
    current: bool,
    word: String,
)
    requires
        call_ensures(feature_entrypoint_sentinel_check_command, (sentinel, token), command),
        call_ensures(feature_entrypoint_sentinel_is_current, (exit_code,), current),
        call_ensures(shell_word, (sentinel,), word),
    ensures
        command@.len() == 3,
        command@[0]@ == "/bin/sh"@,
        command@[1]@ == "-c"@,
        command@[2]@ == check_script(sentinel@, token@, "/proc/1/stat"@),
        current <==> exit_code == Some(0i64),
        shell_reads(word@, ShellQuotes::Outside) == sentinel@,
        ("sentinel="@ + word@ + "\ntoken_file="@).is_prefix_of(command@[2]@),
{
    let told = views(command@);
    assert(told.len() == command@.len());
    assert(told[0] == command@[0]@);
    assert(told[1] == command@[1]@);
    assert(told[2] == command@[2]@);
    shell_reads_back(sentinel@);
    let start = "sentinel="@ + word@ + "\ntoken_file="@;
    assert(start =~= command@[2]@.subrange(0, start.len() as int));
}

/// A plan that is made again with what the image sets keeps its other layers
/// and its devcontainer file; what Features brought is made out anew. Without
/// the file's label it cannot be made again.
pub proof fn plans_made_again_keep_their_layers<S: PlanServices>(
    services: &S,
    workspace: &Workspace,
    host: HostEnvironment,
    plan: UpPlan,
    image_metadata: Vec<ConfigLayer>,
    ignored: bool,
    mounts: MountResolution,
    resolution: UpPlanResolution,
    outcome: Result<UpPlan, UpError>,
)
    requires
        rebuilds_plan(
            services,
            workspace,
            host,
            plan,
            image_metadata,
            ignored,
            mounts,
            resolution,
            outcome,
        ),
    ensures
        ({
            let file = lookup(plan.resources.labels@, "devcontainer.config_file"@);
            &&& file is None ==> outcome is Err && outcome->Err_0@ == seq![
                "Up plan is missing devcontainer.config_file label"@,
            ]
            &&& file is Some ==> exists|layers: ConfigMergeInput, left_out: bool|
                {
                    &&& #[trigger] resolves_plan(
                        services,
                        workspace,
                        host,
                        &file->0,
                        layers,
                        mounts,
                        resolution,
                        left_out,
                        outcome,
                    )
                    &&& left_out <==> plan.ignored_detached_forwarding || ignored
                    &&& layers.image_metadata == image_metadata
                    &&& layers.feature_metadata@.len() == 0
                    &&& layers.global == plan.config_layers.global
                    &&& layers.devcontainer == plan.config_layers.devcontainer
                    &&& layers.project == plan.config_layers.project
                    &&& layers.cli == plan.config_layers.cli
                }
        }),
{
}

/// On the short way it is decided as on the long one, from the containers of
/// the primary service, the hash of the plan and the mounts that are required:
/// a container is used again only where it was made for the plan's
/// configuration, and nothing is told of ports that move.
pub proof fn the_short_way_decides_alike<S: PlanServices>(
    services: &S,
    plan: &UpPlan,
    context: &ComposeStartupContext,
    options: &UpOptions,
    policy: &CredentialRuntimeMountPolicy,
    ports: &ComposePublishedPortPlan,
    outcome: Result<ComposeContainerDecision, UpError>,
)
    requires
        decides_on_fast_path(services, plan, context, options, policy, ports, outcome),
    ensures
        plan.compose_project is None ==> outcome is Err && outcome->Err_0@ == seq![
            "Docker Compose project plan is missing after finalization"@,
        ],
        outcome is Ok ==> outcome->Ok_0.warnings@.len() == 0,
        outcome is Ok && outcome->Ok_0.decision@ is ReuseRunning ==> {
            let containers = context.existing_compose_containers@;
            &&& containers.len() > 0
            &&& containers[0].running
            &&& outcome->Ok_0.decision@->ReuseRunning_0 == containers[0].id
            &&& outcome->Ok_0.decision@->ReuseRunning_1 == containers[0].name
            &&& opt_view(containers[0].config_hash) == Some(plan.resources.config_hash@)
            &&& !options.reuse.rebuild
        },
{
    if outcome is Ok {
        assert(views(outcome->Ok_0.warnings@).len() == outcome->Ok_0.warnings@.len());
    }
}

/// Whether published ports are told as they were planned.
pub open spec fn tells_ports(
    published: Result<(ComposePublishedPortPlan, ComposePublishedPortOverride), UpError>,
    finalized: FinalizedMounts,
) -> bool {
    let (plan, replaced) = published->Ok_0;
    &&& published is Ok
    &&& finalized.compose_published_port_plan == plan
    &&& finalized.compose_published_port_override == replaced
}

/// Mounts and ports are made out for the users of the image: first the mounts,
/// with the variables of the configuration replaced; then the forwarded ports
/// of that configuration; then the published ports around them. The plan keeps
/// all else.
pub proof fn mounts_come_before_ports<S: PlanServices>(
    services: &S,
    workspace: &Workspace,
    host: HostEnvironment,
    plan: UpPlan,
    users: ImageUsers,
    options: FinalizeUpPlanMountsOptions,
    outcome: Result<FinalizedMounts, UpError>,
)
    requires
        finalizes_mounts(services, workspace, host, plan, users, options, outcome),
        outcome is Ok,
    ensures
        ({
            let after = outcome->Ok_0.plan;
            &&& after == (UpPlan {
                config: after.config,
                sensitive_container_env: after.sensitive_container_env,
                forward_ports: after.forward_ports,
                ..plan
            })
            &&& exists|forwarded: Result<Vec<crate::docker::ResolvedForwardPort>, UpError>|
                #[trigger] forwards_ports(services, after.config, options, forwarded)
                    && forwarded is Ok && after.forward_ports == forwarded->Ok_0
            &&& exists|
                expanded: UpPlan,
                mounts: Result<FinalizedRuntimeMounts, UpError>,
            | #[trigger]
                makes_out_mounts(
                    services,
                    workspace,
                    host.ids,
                    plan,
                    users.remote_user.user@,
                    opt_view(users.remote_user.home),
                    expanded,
                    mounts,
                ) && expanded.config == after.config && expanded.sensitive_container_env
                    == after.sensitive_container_env && mounts is Ok
                    && outcome->Ok_0.runtime_mounts == mounts->Ok_0
            &&& exists|
                published: Result<
                    (ComposePublishedPortPlan, ComposePublishedPortOverride),
                    UpError,
                >,
            | #[trigger]
                plans_published_ports(
                    services,
                    after,
                    options.compose_published_ports,
                    published,
                ) && tells_ports(published, outcome->Ok_0)
        }),
{
}

/// An endpoint without an address listens on all, and one with an address on
/// that. The primary service is that of a Compose configuration, and none
/// otherwise; image and hash of a container are told as they are.
pub proof fn plain_facts_are_told_as_they_are(
    endpoint: &ComposePublishedPortEndpoint,
    address: &str,
    plan: &UpPlan,
    service: Option<&str>,
    container: &UpContainerSummary,
    image: Option<&str>,
    hash: Option<&str>,
)
    requires
        call_ensures(compose_published_port_reservation_host_ip, (endpoint,), address),
        call_ensures(primary_compose_service, (plan,), service),
        call_ensures(existing_container_image_id, (container,), image),
        call_ensures(existing_container_config_hash, (container,), hash),
    ensures
        endpoint@.host_ip is Some ==> address@ == endpoint@.host_ip->0,
        endpoint@.host_ip is None ==> address@ == "0.0.0.0"@,
        service is Some <==> plan.config.devcontainer.source is Some
            && plan.config.devcontainer.source->0 is Compose,
        service is Some ==> service->0@
            == plan.config.devcontainer.source->0->Compose_0.service@,
        image is Some <==> container.image_id is Some,
        image is Some ==> image->0@ == container.image_id->0@,
        hash is Some <==> container.config_hash is Some,
        hash is Some ==> hash->0@ == container.config_hash->0@,
{
}

/// Fetched Features are unpacked below the cache of the workspace.
pub proof fn features_are_unpacked_below_the_cache(workspace: &Workspace, directory: String)
    requires
        call_ensures(feature_extract_directory, (workspace,), directory),
        workspace.cache_dir@.len() > 0,
        workspace.cache_dir@.last() != '/',
    ensures
        directory@ == workspace.cache_dir@ + "/features/extracted"@,
{
    reveal_strlit("/");
    reveal_strlit("features");
    reveal_strlit("extracted");
    reveal_strlit("/features/extracted");
    let outer = workspace.cache_dir@ + "/"@ + "features"@;
    assert(outer.last() == "features"@.last());
    assert(outer.last() == 's');
    assert(outer + "/"@ + "extracted"@ =~= workspace.cache_dir@ + "/features/extracted"@);
}

} // verus!
