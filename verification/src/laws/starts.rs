//! How starts run, step by step.

use crate::compose::isolation::ComposeIsolationSubnetPlan;
use crate::compose::ports::{protocol_word, ComposePublishedPortPlanEntry, EndpointView};
use crate::docker::DockerMountSpec;
use crate::error::UpError;
use crate::laws::containers::is_extended;
use crate::services::PlanServices;
use crate::start::compose::{
    change_warning, compose_start_run_options, finds_plan_source, relocation_messages,
    required_of_compose, ComposePlanSource, ComposePublishedPortRecreateChange,
    ComposeStartRunOptions, ComposeStartupContext,
};
use crate::start::compose_run::{
    finalize_settings, prepares_context, project_start_steps, with_primary_image,
    ComposeProjectFacts,
};
use crate::start::container::ImagePreparation;
use crate::start::existing::DecisionView;
use crate::start::fast_path::{fast_path_outcome, fast_path_start};
use crate::start::image::{existing_steps, finalize_image_start_plan, start_steps};
use crate::start::reuse::{forwards_need_recreate, has_required_mount, ExistingContainerReusePolicy};
use crate::text::decimal;
use crate::types::{
    ExistingContainerDecision, UpContainerSummary, UpMountSummary, UpOptions, UpPlan,
};
use vstd::prelude::*;

verus! {

/// Every container that is replaced is removed, in order and before the new
/// one is made; no other is. What is made is remembered as new.
pub proof fn replaced_containers_are_removed_first(
    decision: DecisionView,
    preparation: ImagePreparation,
)
    requires
        decision is Recreate || decision is Create,
    ensures
        ({
            let steps = start_steps(decision, preparation);
            let count = if decision is Recreate {
                decision->Recreate_0.len() as int
            } else {
                0
            };
            &&& steps.len() == count + 2
            &&& forall|i: int|
                0 <= i < count ==> {
                    &&& (#[trigger] steps[i]) is RemoveContainer
                    &&& steps[i]->RemoveContainer_id == decision->Recreate_0[i].id
                    &&& steps[i]->RemoveContainer_name == decision->Recreate_0[i].name
                }
            &&& steps[count] is CreateAndStart
            &&& steps[count]->preparation == preparation
            &&& steps[count + 1] is RememberContainer
            &&& steps[count + 1]->path is New
        }),
{
}

/// A container that is used again is used as it was decided: a running one as
/// it is, and a stopped one after the check that it is remembered, with its
/// dotfiles written, and watched while it starts.
pub proof fn decided_containers_are_used(decision: DecisionView, preparation: ImagePreparation)
    requires
        decision is ReuseRunning || decision is StartStopped,
    ensures
        ({
            let steps = start_steps(decision, preparation);
            let early = existing_steps(decision);
            &&& decision is ReuseRunning ==> {
                &&& steps.len() == 2
                &&& steps[0] is UseRunning
                &&& steps[0]->UseRunning_id == decision->ReuseRunning_0
                &&& steps[0]->UseRunning_name == decision->ReuseRunning_1
                &&& steps[1] is RememberContainer
                &&& steps[1]->path is Running
            }
            &&& decision is StartStopped ==> {
                &&& steps.len() == 4
                &&& steps[0] is CheckRemembered
                &&& steps[0]->CheckRemembered_id == decision->StartStopped_0
                &&& steps[1] is MaterializeDotfiles
                &&& steps[2] is StartAndVerify
                &&& steps[2]->StartAndVerify_id == decision->StartStopped_0
                &&& steps[2]->StartAndVerify_name == decision->StartStopped_1
                &&& steps[3] is RememberContainer
                &&& steps[3]->path is Started
            }
            &&& early.len() == steps.len() + 1
            &&& early[0] is ReportMessages
            &&& forall|i: int| 0 <= i < steps.len() ==> early[i + 1] == #[trigger] steps[i]
        }),
{
}

/// Before any image is made nothing is done where a container would be made or
/// replaced.
pub proof fn nothing_is_made_early(decision: DecisionView)
    requires
        decision is Recreate || decision is Create,
    ensures
        existing_steps(decision).len() == 0,
{
}

/// An image counts as prepared where it was made to complete the plan, or where
/// it was pulled and nothing is put on it.
pub proof fn pulled_images_are_prepared_unless_extended(
    plan: &UpPlan,
    pulled: bool,
    made: bool,
    prepared: bool,
)
    requires
        call_ensures(finalize_image_start_plan, (plan, pulled, made), prepared),
    ensures
        made ==> prepared,
        !made && !pulled ==> !prepared,
        !made && is_extended(*plan) ==> !prepared,
        pulled && !is_extended(*plan) ==> prepared,
{
}

/// Networks that stand in the way are removed first, each of them and in order.
/// Where a running container is used, neither is the adapting file written nor
/// are services started, and it is remembered as running. Where a stopped one
/// is used, the services are started without replacing anything. Otherwise they
/// are started with the options that were decided on, and what was made is
/// looked up. The file is written right after the networks are out of the way,
/// and a started container is always watched before it is remembered.
pub proof fn projects_start_in_order(
    subnet_plan: ComposeIsolationSubnetPlan,
    options: ComposeStartRunOptions,
)
    ensures
        ({
            let steps = project_start_steps(subnet_plan, options);
            let count = subnet_plan.networks_to_remove@.len() as int;
            let running = options.should_reuse && options.decision@ is ReuseRunning;
            let stopped = options.should_reuse && options.decision@ is StartStopped;
            &&& forall|i: int|
                0 <= i < count ==> (#[trigger] steps[i]) is RemoveNetwork && steps[i]->network
                    == subnet_plan.networks_to_remove@[i]
            &&& running ==> {
                &&& steps.len() == count + 2
                &&& steps[count] is UseContainer
                &&& steps[count]->id == options.decision@->ReuseRunning_0
                &&& steps[count]->name == options.decision@->ReuseRunning_1
                &&& steps[count + 1] is RememberContainer
                &&& steps[count + 1]->path is Running
            }
            &&& !running ==> {
                &&& steps.len() == count + 6
                &&& steps[count] is WriteOverride
                &&& steps[count + 1] is MaterializeDotfiles
                &&& steps[count + 2] is Up
                &&& steps[count + 4] is VerifyRunning
                &&& steps[count + 5] is RememberContainer
            }
            &&& stopped ==> {
                &&& !steps[count + 2]->force_recreate
                &&& !steps[count + 2]->remove_orphans
                &&& steps[count + 3] is UseContainer
                &&& steps[count + 3]->id == options.decision@->StartStopped_0
                &&& steps[count + 3]->name == options.decision@->StartStopped_1
                &&& steps[count + 5]->path is Started
            }
            &&& !running && !stopped ==> {
                &&& steps[count + 2]->force_recreate == options.force_recreate
                &&& steps[count + 2]->remove_orphans == options.remove_orphans
                &&& steps[count + 3] is ResolveContainer
                &&& steps[count + 5]->path is New
            }
        }),
{
}

/// A container of a project is used again exactly where one was decided on,
/// nothing is pulled, no forwarded service lacks its mount, and no network
/// stands in the way. All containers are made anew where any is replaced,
/// everything is rebuilt, images are pulled, a forwarded service lacks its
/// mount, a network stands in the way, or the project has containers but none
/// of the primary service. Containers of services that are gone are removed in
/// the same cases but for a mere pull.
pub proof fn projects_are_made_anew_where_asked(
    decision: ExistingContainerDecision,
    options: &UpOptions,
    context: &ComposeStartupContext,
    forwards_changed: bool,
    run: ComposeStartRunOptions,
)
    requires
        call_ensures(
            compose_start_run_options,
            (decision, options, context, forwards_changed),
            run,
        ),
    ensures
        run.decision == decision,
        run.should_reuse <==> {
            &&& decision@ is ReuseRunning || decision@ is StartStopped
            &&& !options.build.pull
            &&& !forwards_changed
            &&& context.subnet_plan.networks_to_remove@.len() == 0
        },
        run.remove_orphans <==> {
            ||| decision@ is Recreate
            ||| options.reuse.rebuild
            ||| forwards_changed
            ||| context.subnet_plan.networks_to_remove@.len() > 0
            ||| context.existing_compose_project_containers@.len() > 0
                && context.existing_compose_containers@.len() == 0
        },
        run.force_recreate <==> run.remove_orphans || options.build.pull,
{
}

/// Whether a mount of a container has the source, target, type and read-only
/// flag of another.
pub open spec fn is_mounted(given: UpMountSummary, mount: DockerMountSpec) -> bool {
    &&& given.source is Some <==> mount.source is Some
    &&& given.source is Some ==> given.source->0@ == mount.source->0@
    &&& given.target@ == mount.target@
    &&& given.mount_type == mount.mount_type
    &&& given.read_only == mount.read_only
}

/// A forwarded service asks for new containers exactly where the first
/// container of some service has no mount with the source, target, type and
/// read-only flag of the service's mount. Services without a container ask for
/// nothing.
pub proof fn forwarded_services_without_their_mount_are_made_anew(
    containers: Seq<Vec<UpContainerSummary>>,
    mounts: Seq<DockerMountSpec>,
    s: int,
)
    requires
        containers.len() == mounts.len(),
        0 <= s < containers.len(),
    ensures
        !forwards_need_recreate(containers, mounts) && containers[s]@.len() > 0 ==> {
            &&& containers[s]@[0].mounts is Some
            &&& exists|m: int|
                0 <= m < containers[s]@[0].mounts->0@.len() && is_mounted(
                    #[trigger] containers[s]@[0].mounts->0@[m],
                    mounts[s],
                )
        },
        containers[s]@.len() > 0 && containers[s]@[0].mounts is None ==> forwards_need_recreate(
            containers,
            mounts,
        ),
        containers[s]@.len() > 0 && containers[s]@[0].mounts is Some && (forall|m: int|
            0 <= m < containers[s]@[0].mounts->0@.len() ==> (
            #[trigger] containers[s]@[0].mounts->0@[m]).target@ != mounts[s].target@)
            ==> forwards_need_recreate(containers, mounts),
        (forall|t: int| 0 <= t < containers.len() ==> (#[trigger] containers[t])@.len() == 0)
            ==> !forwards_need_recreate(containers, mounts),
{
    if !forwards_need_recreate(containers, mounts) && containers[s]@.len() > 0 {
        assert(has_required_mount(containers[s]@[0], mounts[s]));
        let given = containers[s]@[0].mounts->0@;
        let m = choose|m: int|
            0 <= m < given.len() && crate::start::reuse::mount_matches(
                #[trigger] given[m],
                mounts[s],
            );
        assert(is_mounted(containers[s]@[0].mounts->0@[m], mounts[s]));
    }
    if containers[s]@.len() > 0 && containers[s]@[0].mounts is None {
        assert(!has_required_mount(containers[s]@[0], mounts[s]));
    }
    if containers[s]@.len() > 0 && containers[s]@[0].mounts is Some && (forall|m: int|
        0 <= m < containers[s]@[0].mounts->0@.len() ==> (
        #[trigger] containers[s]@[0].mounts->0@[m]).target@ != mounts[s].target@) {
        assert(!has_required_mount(containers[s]@[0], mounts[s]));
    }
}

/// The short way is open only where nothing is pulled, rebuilt or updated, no
/// network stands in the way, and the first container runs and has a known
/// image; the plan is then completed against that image and hash.
pub proof fn the_short_way_is_for_running_containers(
    options: UpOptions,
    context: ComposeStartupContext,
)
    ensures
        ({
            let containers = context.existing_compose_containers@;
            let start = fast_path_start(options, context);
            &&& start is Some <==> {
                &&& !options.build.pull
                &&& !options.build.no_cache
                &&& !options.build.update_features
                &&& !options.reuse.rebuild
                &&& context.subnet_plan.networks_to_remove@.len() == 0
                &&& containers.len() > 0
                &&& containers[0].running
                &&& containers[0].image_id is Some
            }
            &&& start is Some ==> start->0.existing_image == containers[0].image_id->0
            &&& start is Some ==> start->0.existing_config_hash == containers[0].config_hash
        }),
{
}

/// The short way ends with the running container that was decided on, and only
/// where nothing is pulled and no forwarded service lacks its mount.
pub proof fn the_short_way_ends_with_the_running_container(
    decision: DecisionView,
    policy: ExistingContainerReusePolicy,
)
    ensures
        fast_path_outcome(decision, policy) is Some <==> decision is ReuseRunning && !policy.pull
            && !policy.service_forward_requires_recreate,
        fast_path_outcome(decision, policy) is Some ==> {
            &&& fast_path_outcome(decision, policy)->0.container_id == decision->ReuseRunning_0
            &&& fast_path_outcome(decision, policy)->0.container_name == decision->ReuseRunning_1
            &&& fast_path_outcome(decision, policy)->0.reused
        },
{
}

/// A project is prepared only where the check of its published ports lets it
/// pass; then the plan is put on the image of the primary service and is
/// otherwise unchanged, what the files say is kept, and ports may be moved
/// exactly where the configuration lets the tool move them. A refusal leaves
/// the plan alone.
pub proof fn projects_are_prepared_after_their_check<S: PlanServices>(
    services: &S,
    before: UpPlan,
    facts: ComposeProjectFacts,
    after: UpPlan,
    outcome: Result<ComposeStartupContext, UpError>,
)
    requires
        prepares_context(services, before, facts, after, outcome),
    ensures
        outcome is Ok ==> {
            &&& exists|checked: Result<(), UpError>| #[trigger]
                call_ensures(
                    S::validate_compose_published_port_diagnostics,
                    (services, &facts.published_port_policy_input),
                    checked,
                ) && checked is Ok
            &&& after.base_image == facts.compose_primary_image
            &&& after == (UpPlan { base_image: after.base_image, ..before })
            &&& outcome->Ok_0.published_port_relocation_enabled
                == before.config.compose.published_ports.automatic_relocation
            &&& outcome->Ok_0.compose_primary_image == facts.compose_primary_image
            &&& outcome->Ok_0.primary_service_has_build == facts.primary_service_has_build
            &&& outcome->Ok_0.compose_primary_service == facts.compose_primary_service
            &&& outcome->Ok_0.user_services == facts.user_services
            &&& outcome->Ok_0.canonical_model == facts.canonical_model
            &&& outcome->Ok_0.published_port_policy_input == facts.published_port_policy_input
            &&& outcome->Ok_0.mappings == facts.mappings
            &&& outcome->Ok_0.name_rewrite_plan == facts.name_rewrite_plan
            &&& outcome->Ok_0.subnet_plan == facts.subnet_plan
            &&& outcome->Ok_0.endpoint_plan == facts.endpoint_plan
            &&& outcome->Ok_0.existing_compose_containers@.len() == 0
            &&& outcome->Ok_0.existing_compose_project_containers@.len() == 0
            &&& outcome->Ok_0.existing_project_published_ports@.len() == 0
            &&& outcome->Ok_0.external_host_reservations@.len() == 0
        },
        outcome is Err ==> {
            &&& after == before
            &&& call_ensures(
                S::validate_compose_published_port_diagnostics,
                (services, &facts.published_port_policy_input),
                Err::<(), UpError>(outcome->Err_0),
            )
        },
{
}

/// The plan of a project is completed against the image of the first container
/// of the primary service, unless everything is rebuilt; its hash is told in
/// either case. The base image is pulled first only where there is no such
/// image and the service is not built, and images of built services are never
/// pulled here. Host ports that the project holds are kept unless everything is
/// rebuilt.
pub proof fn plans_are_completed_against_what_is_there(
    options: UpOptions,
    context: ComposeStartupContext,
)
    ensures
        ({
            let containers = context.existing_compose_containers@;
            let settings = finalize_settings(options, context);
            &&& options.reuse.rebuild ==> settings.existing_image is None
            &&& containers.len() == 0 ==> settings.existing_image is None
            &&& containers.len() == 0 ==> settings.existing_config_hash is None
            &&& !options.reuse.rebuild && containers.len() > 0 ==> settings.existing_image
                == containers[0].image_id
            &&& containers.len() > 0 ==> settings.existing_config_hash == containers[0].config_hash
            &&& settings.ensure_base_image <==> settings.existing_image is None
                && !context.primary_service_has_build
            &&& settings.build.no_cache == options.build.no_cache
            &&& context.primary_service_has_build ==> !settings.build.pull
            &&& !context.primary_service_has_build ==> settings.build.pull == options.build.pull
            &&& settings.preserve_existing_bindings == !options.reuse.rebuild
        }),
{
}

/// A plan that puts something on its base image keeps its own image; any other
/// uses the image of the primary service, as base image too.
pub proof fn plain_plans_use_the_primary_image(plan: UpPlan, primary_image: String)
    ensures
        ({
            let after = with_primary_image(plan, primary_image);
            &&& is_extended(plan) ==> after == plan
            &&& !is_extended(plan) ==> after.image == primary_image
            &&& !is_extended(plan) ==> after.base_image == primary_image
            &&& after == (UpPlan { image: after.image, base_image: after.base_image, ..plan })
        }),
{
}

/// A plan has a Compose source only with both a project and a Compose
/// configuration, and then it is those; each is missed with its own message.
pub proof fn compose_sources_are_those_of_the_plan(
    plan: UpPlan,
    project_missing: Seq<char>,
    source_missing: Seq<char>,
    outcome: Result<ComposePlanSource, UpError>,
)
    requires
        finds_plan_source(plan, project_missing, source_missing, outcome),
    ensures
        outcome is Ok <==> plan.compose_project is Some && plan.config.devcontainer.source is Some
            && plan.config.devcontainer.source->0 is Compose,
        outcome is Ok ==> *outcome->Ok_0.project == plan.compose_project->0,
        outcome is Ok ==> *outcome->Ok_0.compose
            == plan.config.devcontainer.source->0->Compose_0,
        plan.compose_project is None ==> outcome->Err_0@ == seq![project_missing],
        plan.compose_project is Some && outcome is Err ==> outcome->Err_0@ == seq![
            source_missing,
        ],
        ({
            let required = required_of_compose(plan);
            &&& required is Some <==> plan.compose_project is Some
                && plan.config.devcontainer.source is Some
                && plan.config.devcontainer.source->0 is Compose
            &&& required is Some ==> {
                let compose = plan.config.devcontainer.source->0->Compose_0;
                &&& required->0.primary_service@ == compose.service@
                &&& required->0.run_services@ == compose.run_services@
                &&& required->0.workspace_folder@ == plan.workspace_folder@
                &&& required->0.project_name@ == plan.compose_project->0.project_name@
            }
        }),
{
}

/// A host port with its address, as it is shown.
pub open spec fn shown(endpoint: EndpointView) -> Seq<char> {
    if endpoint.host_ip is Some {
        endpoint.host_ip->0 + ":"@ + decimal(endpoint.host_port as nat)
    } else {
        decimal(endpoint.host_port as nat)
    }
}

/// Every port that moved is told, with its service, target, protocol, and where
/// it moved from and to; ports that stayed are not.
pub proof fn moved_ports_are_told(entries: Seq<ComposePublishedPortPlanEntry>, e: int)
    requires
        0 <= e < entries.len(),
    ensures
        entries[e].relocated ==> relocation_messages(entries).contains(
            "Compose published port relocation changed service `"@ + entries[e].service@
                + "` target "@ + decimal(entries[e].target_port as nat) + "/"@ + protocol_word(
                entries[e].protocol@,
            ) + " from "@ + shown(entries[e].requested@) + " to "@ + shown(entries[e].planned@),
        ),
        (forall|i: int| 0 <= i < entries.len() ==> !(#[trigger] entries[i]).relocated)
            ==> relocation_messages(entries).len() == 0,
        relocation_messages(entries).len() <= entries.len(),
    decreases entries.len(),
{
    let front = entries.drop_last();
    let before = relocation_messages(front);
    let all = relocation_messages(entries);
    if e < front.len() {
        assert(front[e] == entries[e]);
        moved_ports_are_told(front, e);
        if entries[e].relocated {
            let text = "Compose published port relocation changed service `"@ + entries[e].service@
                + "` target "@ + decimal(entries[e].target_port as nat) + "/"@ + protocol_word(
                entries[e].protocol@,
            ) + " from "@ + shown(entries[e].requested@) + " to "@ + shown(entries[e].planned@);
            let i = choose|i: int| 0 <= i < before.len() && before[i] == text;
            assert(all[i] == text);
        }
    } else {
        if front.len() > 0 {
            moved_ports_are_told(front, 0);
        }
        if entries[e].relocated {
            assert(all[all.len() - 1] == crate::start::compose::relocation_message(entries[e]));
        }
    }
    if forall|i: int| 0 <= i < entries.len() ==> !(#[trigger] entries[i]).relocated {
        assert(!entries[entries.len() - 1].relocated);
        if front.len() > 0 {
            moved_ports_are_told(front, 0);
            assert forall|i: int| 0 <= i < front.len() implies !(#[trigger] front[i]).relocated by {
                assert(front[i] == entries[i]);
            }
        }
    }
}

/// The warning about a port whose move replaces the project names its service,
/// target and protocol, and where it moves from and to.
pub proof fn moving_ports_are_told(change: ComposePublishedPortRecreateChange)
    ensures
        change_warning(change)
            == "Compose published port relocation will recreate the Compose project because service `"@
            + change.service@ + "` target "@ + decimal(change.target_port as nat) + "/"@
            + protocol_word(change.protocol@) + " must move from "@ + shown(change.existing@)
            + " to "@ + shown(change.planned@),
        change.protocol@ is Tcp ==> protocol_word(change.protocol@) == "tcp"@,
        change.protocol@ is Udp ==> protocol_word(change.protocol@) == "udp"@,
{
}

} // verus!
