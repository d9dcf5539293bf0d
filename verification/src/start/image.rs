//! The start of a container that is made from an image.

use crate::error::UpError;
use crate::finalize::lookup::{has_final_layer, plan_requires_final_image_layer};
use crate::start::container::ImagePreparation;
use crate::start::existing::{
    decide_existing_container, decides, decision_reuses, summaries, CredentialRuntimeMountPolicy,
    DecisionView, SummaryView,
};
use crate::start::state_sync::LifecycleRunPath;
use crate::types::{
    ExistingContainerDecision, ForwardingResolution, UpContainerSummary, UpOptions, UpOutcome,
    UpPlan, UpPlanResolution,
};
use vstd::prelude::*;

verus! {

/// How long a container is given to stop before it is replaced, in seconds.
pub const REBUILD_STOP_TIMEOUT_SECONDS: i32 = 10;

/// Whether it is tried to use an existing container before any image is made:
/// there is one, and not everything is made anew.
pub fn tries_existing_container(options: &UpOptions, containers: &Vec<UpContainerSummary>) -> (res:
    bool)
    ensures
        res == (!options.reuse.rebuild && containers@.len() > 0),
{
    !options.reuse.rebuild && containers.len() > 0
}

/// How the plans of a start are resolved.
pub fn plan_resolution_for_start(
    forwarding_resolution: ForwardingResolution,
    options: &UpOptions,
) -> (res: UpPlanResolution)
    ensures
        res == (UpPlanResolution {
            forwarding: forwarding_resolution,
            update_features: options.build.update_features,
            skip_global_config: options.config.skip_global_config,
        }),
{
    UpPlanResolution::new(
        forwarding_resolution,
        options.build.update_features,
        options.config.skip_global_config,
    )
}

/// Something that is done to start a container.
#[derive(Debug, PartialEq, Eq)]
pub enum ImageStartStep {
    /// An existing container is stopped and removed.
    RemoveContainer {
        /// Its id.
        id: String,
        /// Its name.
        name: String,
    },
    /// A container is made and started.
    CreateAndStart {
        /// How its image is prepared.
        preparation: ImagePreparation,
    },
    /// It is made sure that a container is remembered.
    CheckRemembered {
        /// Its id.
        id: String,
    },
    /// Dotfiles that stand in are written.
    MaterializeDotfiles,
    /// A stopped container is started again and watched while it starts.
    StartAndVerify {
        /// Its id.
        id: String,
        /// Its name.
        name: String,
    },
    /// The user is told about the configuration.
    ReportMessages,
    /// A container that runs is used.
    UseRunning {
        /// Its id.
        id: String,
        /// Its name.
        name: String,
    },
    /// What is remembered of the container is brought up to date.
    RememberContainer {
        /// How the container came to run.
        path: LifecycleRunPath,
    },
}

/// The removal of containers, in order.
pub open spec fn removals(containers: Seq<SummaryView>) -> Seq<ImageStartStep> {
    containers.map_values(
        |container: SummaryView|
            ImageStartStep::RemoveContainer { id: container.id, name: container.name },
    )
}

/// What is done to start a container, once it was decided what becomes of
/// existing ones. A stopped container is started only if it is remembered.
pub open spec fn start_steps(
    decision: DecisionView,
    preparation: ImagePreparation,
) -> Seq<ImageStartStep> {
    match decision {
        DecisionView::Create => seq![
            ImageStartStep::CreateAndStart { preparation },
            ImageStartStep::RememberContainer { path: LifecycleRunPath::New },
        ],
        DecisionView::Recreate(containers) => removals(containers) + seq![
            ImageStartStep::CreateAndStart { preparation },
            ImageStartStep::RememberContainer { path: LifecycleRunPath::New },
        ],
        DecisionView::ReuseRunning(id, name) => seq![
            ImageStartStep::UseRunning { id, name },
            ImageStartStep::RememberContainer { path: LifecycleRunPath::Running },
        ],
        DecisionView::StartStopped(id, name) => stopped_steps(id, name),
    }
}

/// What is done to start a stopped container again.
pub open spec fn stopped_steps(id: String, name: String) -> Seq<ImageStartStep> {
    seq![
        ImageStartStep::CheckRemembered { id },
        ImageStartStep::MaterializeDotfiles,
        ImageStartStep::StartAndVerify { id, name },
        ImageStartStep::RememberContainer { path: LifecycleRunPath::Started },
    ]
}

/// What is done to start a stopped container again: it must be remembered,
/// and it is watched while it starts.
pub fn start_stopped_existing_container(id: String, name: String) -> (res: Vec<ImageStartStep>)
    ensures
        res@ == stopped_steps(id, name),
{
    let mut steps: Vec<ImageStartStep> = Vec::new();
    steps.push(ImageStartStep::CheckRemembered { id: id.clone() });
    steps.push(ImageStartStep::MaterializeDotfiles);
    steps.push(ImageStartStep::StartAndVerify { id, name });
    steps.push(ImageStartStep::RememberContainer { path: LifecycleRunPath::Started });
    assert(steps@ =~= stopped_steps(id, name));
    steps
}

/// What is done to start a container, once it was decided what becomes of
/// existing ones.
pub fn image_start_steps(
    decision: ExistingContainerDecision,
    preparation: ImagePreparation,
) -> (res: Vec<ImageStartStep>)
    ensures
        res@ == start_steps(decision@, preparation),
{
    let ghost decided = decision@;
    let mut steps: Vec<ImageStartStep> = Vec::new();
    match decision {
        ExistingContainerDecision::Create => {
            steps.push(ImageStartStep::CreateAndStart { preparation });
            steps.push(ImageStartStep::RememberContainer { path: LifecycleRunPath::New });
        },
        ExistingContainerDecision::Recreate { containers } => {
            steps = recreate_existing_containers(&containers);
            steps.push(ImageStartStep::CreateAndStart { preparation });
            steps.push(ImageStartStep::RememberContainer { path: LifecycleRunPath::New });
        },
        ExistingContainerDecision::ReuseRunning { id, name } => {
            steps.push(ImageStartStep::UseRunning { id, name });
            steps.push(ImageStartStep::RememberContainer { path: LifecycleRunPath::Running });
        },
        ExistingContainerDecision::StartStopped { id, name } => {
            steps = start_stopped_existing_container(id, name);
        },
    }
    assert(steps@ =~= start_steps(decided, preparation));
    steps
}

/// What is done to start a container from a completed plan: existing
/// containers are used again or replaced, or the first one is made. A
/// container that was made for another configuration is an error, unless
/// everything is made anew. `image_prepared` says whether the image is there.
pub fn start_decided_image_container(
    options: &UpOptions,
    containers: &Vec<UpContainerSummary>,
    plan: &UpPlan,
    mount_policy: &CredentialRuntimeMountPolicy,
    image_prepared: bool,
) -> (res: Result<Vec<ImageStartStep>, UpError>)
    ensures
        match decides(
            containers@,
            plan.resources.config_hash@,
            *mount_policy,
            options.reuse.rebuild,
        ) {
            Ok(decision) => res is Ok && res->Ok_0@ == start_steps(
                decision,
                ImagePreparation {
                    pull: options.build.pull,
                    no_cache: options.build.no_cache,
                    image_prepared,
                },
            ),
            Err(chain) => res is Err && res->Err_0@ == chain,
        },
{
    match decide_existing_container(
        containers,
        plan.resources.config_hash.as_str(),
        mount_policy,
        options.reuse.rebuild,
    ) {
        Ok(decision) => Ok(
            image_start_steps(
                decision,
                ImagePreparation {
                    pull: options.build.pull,
                    no_cache: options.build.no_cache,
                    image_prepared,
                },
            ),
        ),
        Err(error) => Err(error),
    }
}

/// The removal of containers that are replaced, in order.
pub fn recreate_existing_containers(containers: &Vec<UpContainerSummary>) -> (res: Vec<
    ImageStartStep,
>)
    ensures
        res@ == removals(summaries(containers@)),
{
    let mut steps: Vec<ImageStartStep> = Vec::new();
    let mut i: usize = 0;
    while i < containers.len()
        invariant
            i <= containers@.len(),
            steps@.len() == i,
            forall|j: int|
                0 <= j < i ==> #[trigger] steps@[j] == (ImageStartStep::RemoveContainer {
                    id: containers@[j].id,
                    name: containers@[j].name,
                }),
        decreases containers@.len() - i,
    {
        steps.push(
            ImageStartStep::RemoveContainer {
                id: containers[i].id.clone(),
                name: containers[i].name.clone(),
            },
        );
        i = i + 1;
    }
    assert(steps@ =~= removals(summaries(containers@)));
    steps
}

/// What is done to use an existing container before any image is made;
/// nothing where it is not used again.
pub open spec fn existing_steps(decision: DecisionView) -> Seq<ImageStartStep> {
    if decision.reuses() {
        seq![ImageStartStep::ReportMessages] + start_steps(
            decision,
            ImagePreparation { pull: false, no_cache: false, image_prepared: true },
        )
    } else {
        Seq::empty()
    }
}

/// What is done to use an existing container before any image is made: the
/// user is told about the configuration, and the container is used or started
/// again. Nothing is done where it is not used again. A container that was
/// made for another configuration is an error.
pub fn try_start_existing_image_container(
    containers: &Vec<UpContainerSummary>,
    plan: &UpPlan,
    mount_policy: &CredentialRuntimeMountPolicy,
) -> (res: Result<Vec<ImageStartStep>, UpError>)
    ensures
        match decides(containers@, plan.resources.config_hash@, *mount_policy, false) {
            Ok(decision) => res is Ok && res->Ok_0@ == existing_steps(decision),
            Err(chain) => res is Err && res->Err_0@ == chain,
        },
{
    let decision = match decide_existing_container(
        containers,
        plan.resources.config_hash.as_str(),
        mount_policy,
        false,
    ) {
        Ok(decision) => decision,
        Err(error) => {
            return Err(error);
        },
    };
    let ghost decided = decision@;
    let mut steps: Vec<ImageStartStep> = Vec::new();
    if decision_reuses(&decision) {
        steps.push(ImageStartStep::ReportMessages);
        let mut more = image_start_steps(
            decision,
            ImagePreparation { pull: false, no_cache: false, image_prepared: true },
        );
        steps.append(&mut more);
    }
    assert(steps@ =~= existing_steps(decided));
    Ok(steps)
}

/// A container that is used again is never removed or made anew, and one that
/// is replaced is removed before another is made.
pub proof fn start_steps_respect_the_decision(
    decision: DecisionView,
    preparation: ImagePreparation,
)
    ensures
        decision.reuses() ==> forall|i: int|
            0 <= i < start_steps(decision, preparation).len() ==> !((
            #[trigger] start_steps(decision, preparation)[i]) is RemoveContainer) && !(start_steps(
                decision,
                preparation,
            )[i] is CreateAndStart),
        !decision.reuses() ==> {
            let steps = start_steps(decision, preparation);
            let count = steps.len() - 2;
            &&& count >= 0
            &&& steps[count] == (ImageStartStep::CreateAndStart { preparation })
            &&& forall|i: int| 0 <= i < count ==> (#[trigger] steps[i]) is RemoveContainer
        },
{
}

/// A stopped container is started again only after it was made sure that it
/// is remembered.
pub proof fn stopped_containers_are_checked_first(
    decision: DecisionView,
    preparation: ImagePreparation,
    position: int,
)
    requires
        0 <= position < start_steps(decision, preparation).len(),
        start_steps(decision, preparation)[position] is StartAndVerify,
    ensures
        exists|earlier: int|
            0 <= earlier < position && #[trigger] start_steps(decision, preparation)[earlier]
                == (ImageStartStep::CheckRemembered {
                id: start_steps(decision, preparation)[position]->StartAndVerify_id,
            }),
{
    let steps = start_steps(decision, preparation);
    match decision {
        DecisionView::Recreate(containers) => {
            let count = removals(containers).len();
            if position < count {
                assert(steps[position] == removals(containers)[position]);
            }
        },
        DecisionView::StartStopped(id, name) => {
            assert(steps[0] == (ImageStartStep::CheckRemembered { id }));
        },
        _ => {},
    }
}

/// Whether the image of a new container is there: it was made to complete the
/// plan, or it was pulled to be read and no layer is put on it.
pub fn finalize_image_start_plan(
    plan: &UpPlan,
    pulled_to_be_read: bool,
    made_to_complete_the_plan: bool,
) -> (res: bool)
    ensures
        res == (made_to_complete_the_plan || (pulled_to_be_read && !has_final_layer(*plan))),
{
    made_to_complete_the_plan || (pulled_to_be_read && !plan_requires_final_image_layer(plan))
}

/// The container that a step uses though it was there before.
pub open spec fn reused_by(step: ImageStartStep) -> Option<UpOutcome> {
    match step {
        ImageStartStep::UseRunning { id, name } => Some(
            UpOutcome { container_id: id, container_name: name, reused: true },
        ),
        ImageStartStep::StartAndVerify { id, name } => Some(
            UpOutcome { container_id: id, container_name: name, reused: true },
        ),
        _ => None,
    }
}

/// The container that a step uses though it was there before, if it does.
pub fn container_reused_by(step: &ImageStartStep) -> (res: Option<UpOutcome>)
    ensures
        res == reused_by(*step),
{
    match step {
        ImageStartStep::UseRunning { id, name } => Some(reused_outcome(id.clone(), name.clone())),
        ImageStartStep::StartAndVerify { id, name } => Some(
            reused_outcome(id.clone(), name.clone()),
        ),
        _ => None,
    }
}

/// The container that steps end with; `made` is the one that is made, where
/// one is.
pub open spec fn outcome_of(steps: Seq<ImageStartStep>, made: UpOutcome) -> Option<UpOutcome>
    decreases steps.len(),
{
    if steps.len() == 0 {
        None
    } else if steps.last() is CreateAndStart {
        Some(made)
    } else if reused_by(steps.last()) is Some {
        reused_by(steps.last())
    } else {
        outcome_of(steps.drop_last(), made)
    }
}

/// A start ends with the container that it was decided to use again, and else
/// with the one that is made.
pub proof fn starts_end_with_the_decided_container(
    decision: DecisionView,
    preparation: ImagePreparation,
    made: UpOutcome,
)
    ensures
        outcome_of(start_steps(decision, preparation), made) == Some(
            match decision {
                DecisionView::ReuseRunning(id, name) => UpOutcome {
                    container_id: id,
                    container_name: name,
                    reused: true,
                },
                DecisionView::StartStopped(id, name) => UpOutcome {
                    container_id: id,
                    container_name: name,
                    reused: true,
                },
                _ => made,
            },
        ),
        decision.reuses() ==> outcome_of(existing_steps(decision), made) == outcome_of(
            start_steps(decision, preparation),
            made,
        ),
{
    let steps = start_steps(decision, preparation);
    let inner = steps.drop_last();
    reveal_with_fuel(outcome_of, 3);
    assert(inner.len() > 0);
    match decision {
        DecisionView::Create => {
            assert(inner.last() == (ImageStartStep::CreateAndStart { preparation }));
        },
        DecisionView::Recreate(_) => {
            assert(inner.last() == (ImageStartStep::CreateAndStart { preparation }));
        },
        DecisionView::ReuseRunning(id, name) => {
            assert(inner.last() == (ImageStartStep::UseRunning { id, name }));
        },
        DecisionView::StartStopped(id, name) => {
            assert(inner.last() == (ImageStartStep::StartAndVerify { id, name }));
        },
    }
    if decision.reuses() {
        let more = existing_steps(decision);
        let shown = start_steps(
            decision,
            ImagePreparation { pull: false, no_cache: false, image_prepared: true },
        );
        assert(shown =~= steps);
        assert(more.last() == steps.last());
        assert(more.drop_last().last() == inner.last());
    }
}

/// A container that was there before.
pub fn reused_outcome(id: String, name: String) -> (res: UpOutcome)
    ensures
        res == (UpOutcome { container_id: id, container_name: name, reused: true }),
{
    UpOutcome { container_id: id, container_name: name, reused: true }
}

} // verus!
