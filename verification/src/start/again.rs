//! What a second start makes of the container that a first one made.

use crate::compose::override_hash::{hashes_by_content, port_override_content};
use crate::docker::HostEnvironment;
use crate::error::UpError;
use crate::finalize::agreement::{
    completed_plans_agree_whatever_is_forwarded, expands_environments_steadily,
    same_plan_but_ports,
};
use crate::finalize::resources::{
    canonical_model, finalizes_mounts, finalizes_resources, FinalizeMountsAndResourcesResult,
    FinalizeUpPlanMountsOptions, FinalizedMounts, ImageUsers,
};
use crate::hash_input::StartupCommandHashInput;
use crate::plan::agreement::answers_apart_from_ports;
use crate::services::PlanServices;
use crate::start::compose::{
    asks_for_new_containers, compose_made, decides_compose, makes_changes, reuses_compose,
    ComposeContainerDecision, ComposeExistingContainerDecisionInput,
    ComposePublishedPortRecreateChange, ComposeStartRunOptions, ComposeStartupContext,
};
use crate::start::compose_run::{
    compose_outcome_of, project_start_steps, projects_end_with_the_decided_container,
    ComposeStartStep,
};
use crate::start::container::ImagePreparation;
use crate::start::creation::{creates, CreationAction, CreationEvent, CreationProgress};
use crate::start::credentials::{
    credential_targets_agree, hands_in, required_mounts, required_mounts_are_handed_in,
    summary_of, RuntimeAccess,
};
use crate::start::existing::{
    decides, has_mount, meets_policy, same_mount, CredentialRuntimeMountPolicy, DecisionView,
};
use crate::start::image::{
    existing_steps, outcome_of, start_steps, starts_end_with_the_decided_container,
    ImageStartStep,
};
use crate::text::opt_view;
use crate::text_map::lookup;
use crate::types::{UpContainerSummary, UpOptions, UpOutcome, UpPlan, Workspace};
use vstd::prelude::*;

verus! {

/// Whether the labels of a plan tell the hash of its configuration.
pub open spec fn labels_tell_the_hash(plan: UpPlan) -> bool {
    opt_view(lookup(plan.resources.labels@, "decune.config_hash"@)) == Some(
        plan.resources.config_hash@,
    )
}

/// Whether a container is listed as the one that was made from a plan: under
/// its id and name, with the hash that its labels tell, and with the mounts of
/// the plan, running or not.
pub open spec fn is_listed(container: UpContainerSummary, plan: UpPlan, made: UpOutcome) -> bool {
    &&& container.id@ == made.container_id@
    &&& container.name@ == made.container_name@
    &&& opt_view(container.config_hash) == opt_view(
        lookup(plan.resources.labels@, "decune.config_hash"@),
    )
    &&& forall|i: int|
        0 <= i < plan.mounts@.len() ==> has_mount(
            container.mounts,
            summary_of(#[trigger] plan.mounts@[i]),
        )
}

/// Whether a container was made, written down and started.
pub open spec fn is_made(container_name: String, id: String, made: UpOutcome) -> bool {
    creates(
        container_name,
        CreationProgress::Starting { id },
        CreationEvent::Started(Ok(())),
        CreationProgress::Finished,
        CreationAction::Done(Ok(made)),
    )
}

/// Whether a policy asks for no mount but those of the credentials that were
/// handed in.
pub open spec fn asks_for_no_more(
    policy: CredentialRuntimeMountPolicy,
    git_credentials: RuntimeAccess,
    github_cli: RuntimeAccess,
    ssh_agent: RuntimeAccess,
    forward: RuntimeAccess,
) -> bool {
    forall|k: int|
        0 <= k < policy.required_mounts@.len() ==> required_mounts(
            git_credentials,
            github_cli,
            ssh_agent,
            forward,
        ).contains(#[trigger] policy.required_mounts@[k])
}

proof fn listed_containers_meet_the_policy(
    planned: UpPlan,
    git_credentials: RuntimeAccess,
    github_cli: RuntimeAccess,
    ssh_agent: RuntimeAccess,
    forward: RuntimeAccess,
    plan: UpPlan,
    made: UpOutcome,
    container: UpContainerSummary,
    policy: CredentialRuntimeMountPolicy,
)
    requires
        hands_in(planned, git_credentials, github_cli, ssh_agent, forward, plan),
        credential_targets_agree(planned, git_credentials, github_cli, ssh_agent, forward),
        is_listed(container, plan, made),
        asks_for_no_more(policy, git_credentials, github_cli, ssh_agent, forward),
    ensures
        meets_policy(container, policy),
{
    required_mounts_are_handed_in(
        planned,
        git_credentials,
        github_cli,
        ssh_agent,
        forward,
        plan,
    );
    let required = policy.required_mounts@;
    assert forall|k: int| 0 <= k < required.len() implies has_mount(
        container.mounts,
        #[trigger] required[k],
    ) by {
        let handed_in = required_mounts(git_credentials, github_cli, ssh_agent, forward);
        assert(handed_in.contains(required[k]));
        let h = choose|h: int| 0 <= h < handed_in.len() && handed_in[h] == required[k];
        let i = choose|i: int|
            0 <= i < plan.mounts@.len() && same_mount(
                summary_of(#[trigger] plan.mounts@[i]),
                handed_in[h],
            );
        assert(has_mount(container.mounts, summary_of(plan.mounts@[i])));
        let j = choose|j: int|
            0 <= j < container.mounts->0@.len() && same_mount(
                #[trigger] container.mounts->0@[j],
                summary_of(plan.mounts@[i]),
            );
        assert(same_mount(container.mounts->0@[j], required[k]));
    }
}

/// A second start uses the container of the first. The first start finds none
/// and makes one. The second, with the same hash and no further credentials to
/// hand in, decides to use that container again, running or stopped, and ends
/// with it; it makes none and removes none. Left out are plans in which another mount
/// takes the target of a mount that hands credentials in: their container
/// lacks that mount and is made anew.
pub proof fn second_start_uses_the_container(
    planned: UpPlan,
    git_credentials: RuntimeAccess,
    github_cli: RuntimeAccess,
    ssh_agent: RuntimeAccess,
    forward: RuntimeAccess,
    plan: UpPlan,
    policy: CredentialRuntimeMountPolicy,
    preparation: ImagePreparation,
    container_name: String,
    id: String,
    made: UpOutcome,
    containers: Seq<UpContainerSummary>,
    second_hash: Seq<char>,
)
    requires
        hands_in(planned, git_credentials, github_cli, ssh_agent, forward, plan),
        credential_targets_agree(planned, git_credentials, github_cli, ssh_agent, forward),
        asks_for_no_more(policy, git_credentials, github_cli, ssh_agent, forward),
        labels_tell_the_hash(plan),
        is_made(container_name, id, made),
        containers.len() > 0,
        is_listed(containers[0], plan, made),
        second_hash == plan.resources.config_hash@,
    ensures
        decides(Seq::empty(), plan.resources.config_hash@, policy, false) == Ok::<
            DecisionView,
            Seq<Seq<char>>,
        >(DecisionView::Create),
        outcome_of(start_steps(DecisionView::Create, preparation), made) == Some(made),
        !made.reused,
        made.container_id == id,
        made.container_name == container_name,
        ({
            let decided = decides(containers, second_hash, policy, false);
            let second = outcome_of(existing_steps(decided->Ok_0), made);
            &&& decided is Ok
            &&& decided->Ok_0.reuses()
            &&& decided->Ok_0 is ReuseRunning == containers[0].running
            &&& second is Some
            &&& second->0.reused
            &&& second->0.container_id@ == made.container_id@
            &&& second->0.container_name@ == made.container_name@
            &&& forall|i: int|
                0 <= i < existing_steps(decided->Ok_0).len() ==> !((
                #[trigger] existing_steps(decided->Ok_0)[i]) is CreateAndStart) && !(existing_steps(
                    decided->Ok_0,
                )[i] is RemoveContainer)
        }),
{
    listed_containers_meet_the_policy(
        planned,
        git_credentials,
        github_cli,
        ssh_agent,
        forward,
        plan,
        made,
        containers[0],
        policy,
    );
    starts_end_with_the_decided_container(DecisionView::Create, preparation, made);
    starts_end_with_the_decided_container(
        decides(containers, second_hash, policy, false)->Ok_0,
        preparation,
        made,
    );
}

/// A rebuild makes a new container. Whatever the hash and the credentials are,
/// a second start that rebuilds removes all containers that are there, before
/// it makes another and ends with that one. It differs from the first one, as
/// Docker gives a new container an id that no listed one has.
pub proof fn rebuild_makes_a_new_container(
    plan: UpPlan,
    policy: CredentialRuntimeMountPolicy,
    preparation: ImagePreparation,
    made: UpOutcome,
    containers: Seq<UpContainerSummary>,
    second_hash: Seq<char>,
    second_name: String,
    second_id: String,
    second: UpOutcome,
)
    requires
        containers.len() > 0,
        is_listed(containers[0], plan, made),
        is_made(second_name, second_id, second),
        forall|i: int|
            0 <= i < containers.len() ==> (#[trigger] containers[i]).id@ != second_id@,
    ensures
        ({
            let decided = decides(containers, second_hash, policy, true);
            let steps = start_steps(decided->Ok_0, preparation);
            &&& decided is Ok
            &&& outcome_of(steps, second) == Some(second)
            &&& !second.reused
            &&& second.container_id@ != made.container_id@
            &&& steps.len() == containers.len() + 2
            &&& forall|i: int|
                0 <= i < containers.len() ==> #[trigger] steps[i] == (
                ImageStartStep::RemoveContainer {
                    id: containers[i].id,
                    name: containers[i].name,
                })
            &&& steps[containers.len() as int] == (ImageStartStep::CreateAndStart { preparation })
        }),
{
    starts_end_with_the_decided_container(
        decides(containers, second_hash, policy, true)->Ok_0,
        preparation,
        second,
    );
}

/// Whether a start of a Compose project runs as it was decided.
pub open spec fn runs_as_decided(
    decided: ComposeContainerDecision,
    options: UpOptions,
    context: ComposeStartupContext,
    service_forward_requires_recreate: bool,
    run: ComposeStartRunOptions,
) -> bool {
    &&& run.decision == decided.decision
    &&& run.should_reuse == reuses_compose(
        decided.decision@,
        options,
        context,
        service_forward_requires_recreate,
    )
    &&& run.remove_orphans == asks_for_new_containers(
        decided.decision@,
        options,
        context,
        service_forward_requires_recreate,
    )
    &&& run.force_recreate == (run.remove_orphans || options.build.pull)
}

/// A second start of a Compose project uses the container of the first: where
/// the hash is the same, no further credentials are handed in, no published
/// port would move, nothing is pulled, no service with forwarded ports lacks
/// its mount and no network stands in the way, the start ends with the
/// container that was made first.
pub proof fn second_start_uses_the_service_container<S: PlanServices>(
    services: &S,
    planned: UpPlan,
    git_credentials: RuntimeAccess,
    github_cli: RuntimeAccess,
    ssh_agent: RuntimeAccess,
    forward: RuntimeAccess,
    plan: UpPlan,
    made: UpOutcome,
    input: ComposeExistingContainerDecisionInput,
    decided: Result<ComposeContainerDecision, UpError>,
    options: UpOptions,
    context: ComposeStartupContext,
    run: ComposeStartRunOptions,
)
    requires
        hands_in(planned, git_credentials, github_cli, ssh_agent, forward, plan),
        credential_targets_agree(planned, git_credentials, github_cli, ssh_agent, forward),
        asks_for_no_more(
            *input.mount_policy,
            git_credentials,
            github_cli,
            ssh_agent,
            forward,
        ),
        labels_tell_the_hash(plan),
        input.containers@.len() > 0,
        is_listed(input.containers@[0], plan, made),
        input.expected_config_hash@ == plan.resources.config_hash@,
        !input.rebuild,
        forall|changes: Seq<ComposePublishedPortRecreateChange>| #[trigger]
            makes_changes(
                services,
                input.existing_project_published_ports@,
                *input.published_port_plan,
                changes,
            ) ==> changes.len() == 0,
        decides_compose(services, input, decided),
        !options.build.pull,
        context.subnet_plan.networks_to_remove@.len() == 0,
        decided is Ok ==> runs_as_decided(decided->Ok_0, options, context, false, run),
    ensures
        decided is Ok,
        decided->Ok_0.decision@.reuses(),
        decided->Ok_0.decision@ is ReuseRunning == input.containers@[0].running,
        ({
            let second = compose_outcome_of(project_start_steps(context.subnet_plan, run), made);
            &&& second is Some
            &&& second->0.reused
            &&& second->0.container_id@ == made.container_id@
            &&& second->0.container_name@ == made.container_name@
        }),
{
    listed_containers_meet_the_policy(
        planned,
        git_credentials,
        github_cli,
        ssh_agent,
        forward,
        plan,
        made,
        input.containers@[0],
        *input.mount_policy,
    );
    projects_end_with_the_decided_container(context.subnet_plan, run, made);
}

/// A rebuild of a Compose project makes new containers: all of them are forced
/// to be made anew, those of services that are gone are removed, and the start
/// ends with the container that Compose made.
pub proof fn rebuild_makes_new_service_containers<S: PlanServices>(
    services: &S,
    input: ComposeExistingContainerDecisionInput,
    decided: Result<ComposeContainerDecision, UpError>,
    options: UpOptions,
    context: ComposeStartupContext,
    service_forward_requires_recreate: bool,
    run: ComposeStartRunOptions,
    id: String,
    name: Option<String>,
)
    requires
        input.containers@.len() > 0,
        input.rebuild,
        options.reuse.rebuild,
        decides_compose(services, input, decided),
        decided is Ok ==> runs_as_decided(
            decided->Ok_0,
            options,
            context,
            service_forward_requires_recreate,
            run,
        ),
    ensures
        decided is Ok,
        decided->Ok_0.decision@ is Recreate,
        !run.should_reuse,
        project_start_steps(context.subnet_plan, run).contains(
            ComposeStartStep::Up { force_recreate: true, remove_orphans: true },
        ),
        compose_outcome_of(
            project_start_steps(context.subnet_plan, run),
            compose_made(id, name),
        ) == Some(compose_made(id, name)),
        !compose_made(id, name).reused,
{
    projects_end_with_the_decided_container(context.subnet_plan, run, compose_made(id, name));
    let steps = project_start_steps(context.subnet_plan, run);
    let place = steps.len() - 4;
    assert(steps[place] == (ComposeStartStep::Up { force_recreate: true, remove_orphans: true }));
}

/// Where the configuration is unchanged, a second start uses the container of
/// the first, also where it forwards other ports or none. Two plans that are
/// the same but for the ports to forward are completed on the same users and
/// the same command; the container of the first is listed, and no further
/// credentials are to be handed in. It is held that planning gets one
/// answer for one question, that no answer depends on the ports to forward,
/// and that the published ports of a project come out the same.
pub proof fn unchanged_configurations_use_the_container<S: PlanServices>(
    services: &S,
    workspace: &Workspace,
    host: HostEnvironment,
    first_plan: UpPlan,
    second_plan: UpPlan,
    users: ImageUsers,
    startup: Option<StartupCommandHashInput>,
    first_options: FinalizeUpPlanMountsOptions,
    second_options: FinalizeUpPlanMountsOptions,
    first_mounts: FinalizedMounts,
    second_mounts: FinalizedMounts,
    first_base: Option<String>,
    second_base: Option<String>,
    first: FinalizeMountsAndResourcesResult,
    second: FinalizeMountsAndResourcesResult,
    git_credentials: RuntimeAccess,
    github_cli: RuntimeAccess,
    ssh_agent: RuntimeAccess,
    forward: RuntimeAccess,
    first_start: UpPlan,
    policy: CredentialRuntimeMountPolicy,
    made: UpOutcome,
    containers: Seq<UpContainerSummary>,
)
    requires
        answers_apart_from_ports(services),
        expands_environments_steadily(services),
        hashes_by_content(services),
        same_plan_but_ports(first_plan, second_plan),
        first_options.update_features == second_options.update_features,
        canonical_model(first_options) == canonical_model(second_options),
        finalizes_mounts(
            services,
            workspace,
            host,
            first_plan,
            users,
            first_options,
            Ok(first_mounts),
        ),
        finalizes_mounts(
            services,
            workspace,
            host,
            second_plan,
            users,
            second_options,
            Ok(second_mounts),
        ),
        port_override_content(first_mounts.compose_published_port_override)
            == port_override_content(second_mounts.compose_published_port_override),
        finalizes_resources(
            services,
            workspace,
            host,
            first_mounts,
            first_base,
            users,
            startup,
            first_options,
            Ok(first),
        ),
        finalizes_resources(
            services,
            workspace,
            host,
            second_mounts,
            second_base,
            users,
            startup,
            second_options,
            Ok(second),
        ),
        hands_in(first.plan, git_credentials, github_cli, ssh_agent, forward, first_start),
        credential_targets_agree(first.plan, git_credentials, github_cli, ssh_agent, forward),
        asks_for_no_more(policy, git_credentials, github_cli, ssh_agent, forward),
        labels_tell_the_hash(first_start),
        containers.len() > 0,
        is_listed(containers[0], first_start, made),
    ensures
        decides(containers, second.plan.resources.config_hash@, policy, false) == Ok::<
            DecisionView,
            Seq<Seq<char>>,
        >(
            if containers[0].running {
                DecisionView::ReuseRunning(containers[0].id, containers[0].name)
            } else {
                DecisionView::StartStopped(containers[0].id, containers[0].name)
            },
        ),
{
    completed_plans_agree_whatever_is_forwarded(
        services,
        workspace,
        host,
        first_plan,
        second_plan,
        users,
        startup,
        first_options,
        second_options,
        first_mounts,
        second_mounts,
        first_base,
        second_base,
        first,
        second,
    );
    listed_containers_meet_the_policy(
        first.plan,
        git_credentials,
        github_cli,
        ssh_agent,
        forward,
        first_start,
        made,
        containers[0],
        policy,
    );
}

} // verus!
