//! The short way to a running container of a Compose project, which prepares
//! no image.

use crate::compose::ports::ComposePublishedPortPlan;
use crate::docker::copy_optional_text;
use crate::error::UpError;
use crate::services::PlanServices;
use crate::start::compose::{
    compose_running_reuse_fast_path_enabled, decide_existing_compose_container, decides_compose,
    fast_path_is_open, ComposeContainerDecision, ComposeExistingContainerDecisionInput,
    ComposePublishedPortRecreateWarning, ComposeStartupContext,
};
use crate::start::existing::{CredentialRuntimeMountPolicy, DecisionView};
use crate::start::reuse::{
    is_reused, should_reuse_existing_container, ExistingContainerReusePolicy,
};
use crate::types::{ExistingContainerDecision, UpOptions, UpOutcome, UpPlan};
use vstd::prelude::*;

verus! {

/// What a plan is completed against on the short way.
#[derive(Debug)]
pub struct FastPathStart {
    /// The image of the running container.
    pub existing_image: String,
    /// The hash of the configuration that it was made for.
    pub existing_config_hash: Option<String>,
}

/// What a plan is completed against on the short way, where it is open and
/// the image of the running container is known.
pub open spec fn fast_path_start(
    options: UpOptions,
    context: ComposeStartupContext,
) -> Option<FastPathStart> {
    let containers = context.existing_compose_containers@;
    if fast_path_is_open(options, containers, context.subnet_plan) {
        match containers[0].image_id {
            Some(existing_image) => Some(
                FastPathStart { existing_image, existing_config_hash: containers[0].config_hash },
            ),
            None => None,
        }
    } else {
        None
    }
}

/// What a plan is completed against on the short way; nothing where it is
/// closed.
pub fn start_fast_path(options: &UpOptions, context: &ComposeStartupContext) -> (res: Option<
    FastPathStart,
>)
    ensures
        res == fast_path_start(*options, *context),
{
    let containers = &context.existing_compose_containers;
    if !compose_running_reuse_fast_path_enabled(options, containers, &context.subnet_plan) {
        return None;
    }
    match &containers[0].image_id {
        Some(existing_image) => Some(
            FastPathStart {
                existing_image: existing_image.clone(),
                existing_config_hash: copy_optional_text(&containers[0].config_hash),
            },
        ),
        None => None,
    }
}

/// What the decision on the short way is made from.
pub open spec fn fast_path_input<'a>(
    plan: &'a UpPlan,
    context: &'a ComposeStartupContext,
    options: &'a UpOptions,
    mount_policy: &'a CredentialRuntimeMountPolicy,
    published_port_plan: &'a ComposePublishedPortPlan,
) -> ComposeExistingContainerDecisionInput<'a> {
    ComposeExistingContainerDecisionInput {
        containers: &context.existing_compose_containers,
        project_containers: &context.existing_compose_project_containers,
        expected_config_hash: &plan.resources.config_hash,
        mount_policy,
        rebuild: options.reuse.rebuild,
        existing_project_published_ports: &context.existing_project_published_ports,
        published_port_plan,
        warning: ComposePublishedPortRecreateWarning::Suppress,
    }
}

/// How it is decided on the short way what becomes of the running container.
pub open spec fn decides_on_fast_path<S: PlanServices>(
    services: &S,
    plan: &UpPlan,
    context: &ComposeStartupContext,
    options: &UpOptions,
    mount_policy: &CredentialRuntimeMountPolicy,
    published_port_plan: &ComposePublishedPortPlan,
    outcome: Result<ComposeContainerDecision, UpError>,
) -> bool {
    if plan.compose_project is None {
        outcome is Err && outcome->Err_0@ == seq![
            "Docker Compose project plan is missing after finalization"@,
        ]
    } else {
        decides_compose(
            services,
            fast_path_input(plan, context, options, mount_policy, published_port_plan),
            outcome,
        )
    }
}

/// Decides on the short way what becomes of the running container. Changes to
/// published ports are not reported: the long way reports them.
pub fn fast_path_existing_container_decision<S: PlanServices>(
    services: &S,
    plan: &UpPlan,
    context: &ComposeStartupContext,
    options: &UpOptions,
    mount_policy: &CredentialRuntimeMountPolicy,
    published_port_plan: &ComposePublishedPortPlan,
) -> (res: Result<ComposeContainerDecision, UpError>)
    ensures
        decides_on_fast_path(
            services,
            plan,
            context,
            options,
            mount_policy,
            published_port_plan,
            res,
        ),
{
    if plan.compose_project.is_none() {
        return Err(
            UpError::from_text("Docker Compose project plan is missing after finalization"),
        );
    }
    decide_existing_compose_container(
        services,
        &ComposeExistingContainerDecisionInput {
            containers: &context.existing_compose_containers,
            project_containers: &context.existing_compose_project_containers,
            expected_config_hash: &plan.resources.config_hash,
            mount_policy,
            rebuild: options.reuse.rebuild,
            existing_project_published_ports: &context.existing_project_published_ports,
            published_port_plan,
            warning: ComposePublishedPortRecreateWarning::Suppress,
        },
    )
}

/// The container that the short way ends with: the running one, where nothing
/// stands against using it. The long way is taken else.
pub open spec fn fast_path_outcome(
    decision: DecisionView,
    policy: ExistingContainerReusePolicy,
) -> Option<UpOutcome> {
    match decision {
        DecisionView::ReuseRunning(id, name) => if is_reused(decision, policy) {
            Some(UpOutcome { container_id: id, container_name: name, reused: true })
        } else {
            None
        },
        _ => None,
    }
}

/// The container that the short way ends with.
pub fn try_reuse_running_compose_container_before_image_prepare(
    decision: ExistingContainerDecision,
    policy: ExistingContainerReusePolicy,
) -> (res: Option<UpOutcome>)
    ensures
        res == fast_path_outcome(decision@, policy),
{
    let should_reuse = should_reuse_existing_container(&decision, policy);
    match decision {
        ExistingContainerDecision::ReuseRunning { id, name } => if should_reuse {
            Some(UpOutcome { container_id: id, container_name: name, reused: true })
        } else {
            None
        },
        _ => None,
    }
}

/// The short way ends only with the container that it started from, which
/// runs and was made for the same configuration.
pub proof fn fast_path_uses_the_running_container<S: PlanServices>(
    services: &S,
    plan: &UpPlan,
    context: &ComposeStartupContext,
    options: &UpOptions,
    mount_policy: &CredentialRuntimeMountPolicy,
    published_port_plan: &ComposePublishedPortPlan,
    decided: Result<ComposeContainerDecision, UpError>,
    policy: ExistingContainerReusePolicy,
)
    requires
        decides_on_fast_path(
            services,
            plan,
            context,
            options,
            mount_policy,
            published_port_plan,
            decided,
        ),
        decided is Ok,
        fast_path_outcome(decided->Ok_0.decision@, policy) is Some,
    ensures
        context.existing_compose_containers@.len() > 0,
        context.existing_compose_containers@[0].running,
        crate::text::opt_view(context.existing_compose_containers@[0].config_hash) == Some(
            plan.resources.config_hash@,
        ),
        fast_path_outcome(decided->Ok_0.decision@, policy) == Some(
            UpOutcome {
                container_id: context.existing_compose_containers@[0].id,
                container_name: context.existing_compose_containers@[0].name,
                reused: true,
            },
        ),
        !options.reuse.rebuild,
{
}

} // verus!
