//! The order in which a plan is completed: Features, images, what the image
//! sets, the GitHub CLI, mounts and names, and what is left to clean up.

use crate::compose::ports::{ComposePublishedPortOverride, ComposePublishedPortPlan};
use crate::finalize::lookup::{
    deferred_layer_lookup, finish_image_lookup, finishing_actions, first_lookup,
    lookup_after_rebuild, lookup_with_layer, looked_at, rebuilt_image_lookup, start_image_lookup,
    ImageAction, ImageLookup, LookupBuild, LookupStep,
};
use crate::types::{ForwardingResolution, UpPlan, UpPlanResolution};
use vstd::prelude::*;

verus! {

/// A completed plan.
#[derive(Debug)]
pub struct FinalizeUpPlanResult {
    /// The plan.
    pub plan: UpPlan,
    /// Whether its image was made on the way.
    pub image_prepared: bool,
    /// The planned host ports of published ports.
    pub compose_published_port_plan: ComposePublishedPortPlan,
    /// The ports that replace those of services.
    pub compose_published_port_override: ComposePublishedPortOverride,
}

impl FinalizeUpPlanResult {
    /// A plan without published ports.
    pub fn new(plan: UpPlan, image_prepared: bool) -> (res: Self)
        ensures
            res.plan == plan,
            res.image_prepared == image_prepared,
            res.compose_published_port_plan.entries@.len() == 0,
            res.compose_published_port_override.services@.len() == 0,
    {
        FinalizeUpPlanResult {
            plan,
            image_prepared,
            compose_published_port_plan: ComposePublishedPortPlan::empty(),
            compose_published_port_override: ComposePublishedPortOverride::empty(),
        }
    }
}

/// How far a plan is completed.
#[derive(Debug, Clone, Copy, PartialEq, Eq, Structural)]
pub enum FinalizePhase {
    /// Its Features are fetched.
    Features,
    /// The image to look at is made.
    FirstImage,
    /// What the image sets is read.
    Metadata,
    /// The plan is built anew on what the image sets.
    Rebuild,
    /// The Features of the new plan are fetched.
    RebuiltFeatures,
    /// The image of the new plan is made.
    RebuiltImage,
    /// The layer that was put off is built.
    DeferredLayer,
    /// The GitHub CLI is added where it is missing.
    GithubCli,
    /// Mounts and names are made out.
    Resources,
    /// What was made only to be looked at is removed.
    CleanUp,
    /// Nothing is left to do.
    Finished,
}

/// What is kept in mind while a plan is completed.
#[derive(Debug)]
pub struct FinalizeProgress {
    /// How far it is completed.
    pub phase: FinalizePhase,
    /// The image that is looked at.
    pub lookup: ImageLookup,
}

/// What stays the same while a plan is completed.
#[derive(Debug, Clone, Copy)]
pub struct FinalizeSettings<'a> {
    /// The image of an existing container.
    pub existing_image: Option<&'a String>,
    /// How images may be built.
    pub build: Option<LookupBuild>,
    /// What becomes of forwarded ports.
    pub forwarding: ForwardingResolution,
    /// Whether locked Features are fetched anew.
    pub update_features: bool,
}

/// What was done last.
#[derive(Debug)]
pub enum FinalizeEvent {
    /// The Features of the plan were fetched.
    FeaturesPrepared,
    /// Things were done with images.
    ImagesDone,
    /// What the image sets was read.
    MetadataRead {
        /// Whether it sets nothing.
        is_empty: bool,
        /// Whether it names ports to forward.
        has_forward_ports: bool,
    },
    /// The plan was built anew.
    PlanRebuilt,
    /// It was settled whether the GitHub CLI is added.
    GithubCliSettled {
        /// The image that is looked at from now on.
        lookup: ImageLookup,
    },
    /// Mounts and names were made out.
    ResourcesFinalized,
}

/// What is to be done next.
#[derive(Debug)]
pub enum FinalizeAction {
    /// The Features of the plan are fetched.
    PrepareFeatures,
    /// Things are done with images, in order.
    RunImageActions {
        /// What is done.
        actions: Vec<ImageAction>,
    },
    /// What an image sets is read, where the plan is built from a Dockerfile.
    ReadMetadata {
        /// The image.
        image: String,
    },
    /// The plan is built anew on what the image sets.
    RebuildPlan {
        /// Whether ports of the image are left out.
        ignored_forwarding: bool,
        /// How the plan is resolved.
        resolution: UpPlanResolution,
    },
    /// It is settled whether the GitHub CLI is added.
    SettleGithubCli {
        /// How images may be built for it.
        build: Option<LookupBuild>,
    },
    /// Mounts and names are made out.
    FinalizeResources {
        /// The image that is looked at.
        lookup_image: String,
        /// Whether the file that locks Features is removed first.
        remove_feature_lock: bool,
    },
    /// The plan is as complete as it gets.
    Done {
        /// Whether its image was made on the way.
        image_prepared: bool,
        /// Whether mounts and names were made out.
        completed: bool,
    },
}

/// Whether an event may come in a phase.
pub open spec fn fits(progress: FinalizeProgress, event: FinalizeEvent) -> bool {
    match progress.phase {
        FinalizePhase::Features | FinalizePhase::RebuiltFeatures => event is FeaturesPrepared,
        FinalizePhase::FirstImage
        | FinalizePhase::RebuiltImage
        | FinalizePhase::DeferredLayer
        | FinalizePhase::CleanUp => event is ImagesDone,
        FinalizePhase::Metadata => event is MetadataRead,
        FinalizePhase::Rebuild => event is PlanRebuilt,
        FinalizePhase::GithubCli => event is GithubCliSettled,
        FinalizePhase::Resources => event is ResourcesFinalized,
        FinalizePhase::Finished => false,
    }
}

/// Whether an image is there to look at, as it must be in every phase but the
/// first and the last.
pub open spec fn has_image(progress: FinalizeProgress, event: FinalizeEvent) -> bool {
    match event {
        FinalizeEvent::GithubCliSettled { lookup } => lookup.image is Some,
        _ => progress.phase == FinalizePhase::Features || progress.lookup.image is Some,
    }
}

/// The plan stays as it is: nothing may be built.
pub open spec fn stops(action: FinalizeAction, after: FinalizeProgress) -> bool {
    &&& action == (FinalizeAction::Done { image_prepared: false, completed: false })
    &&& after.phase == FinalizePhase::Finished
}

/// It is next settled whether the GitHub CLI is added.
pub open spec fn settles_github_cli(
    settings: FinalizeSettings,
    lookup: ImageLookup,
    action: FinalizeAction,
    after: FinalizeProgress,
) -> bool {
    &&& after == (FinalizeProgress { phase: FinalizePhase::GithubCli, lookup })
    &&& action == (FinalizeAction::SettleGithubCli {
        build: if settings.existing_image is Some {
            None
        } else {
            settings.build
        },
    })
}

/// What an image sets is read next.
pub open spec fn reads_metadata(
    lookup: ImageLookup,
    action: FinalizeAction,
    after: FinalizeProgress,
) -> bool {
    &&& after == (FinalizeProgress { phase: FinalizePhase::Metadata, lookup })
    &&& action == (FinalizeAction::ReadMetadata { image: looked_at(lookup) })
}

/// Things are done with images next.
pub open spec fn runs(
    actions: Seq<ImageAction>,
    lookup: ImageLookup,
    phase: FinalizePhase,
    action: FinalizeAction,
    after: FinalizeProgress,
) -> bool {
    &&& after == (FinalizeProgress { phase, lookup })
    &&& action is RunImageActions
    &&& action->actions@ == actions
}

/// The layer that was put off is built next, where one was.
pub open spec fn builds_deferred_layer(
    settings: FinalizeSettings,
    plan: UpPlan,
    lookup: ImageLookup,
    action: FinalizeAction,
    after: FinalizeProgress,
) -> bool {
    match lookup_with_layer(plan, lookup, settings.existing_image is Some, settings.build) {
        None => stops(action, after),
        Some((actions, lookup)) => if actions.len() == 0 {
            settles_github_cli(settings, lookup, action, after)
        } else {
            runs(actions, lookup, FinalizePhase::DeferredLayer, action, after)
        },
    }
}

/// The image of an existing container.
pub open spec fn existing_image_of(settings: FinalizeSettings) -> Option<String> {
    match settings.existing_image {
        Some(image) => Some(*image),
        None => None,
    }
}

/// What is done next, and how far the plan is completed then.
pub open spec fn proceeds(
    settings: FinalizeSettings,
    plan: UpPlan,
    before: FinalizeProgress,
    event: FinalizeEvent,
    action: FinalizeAction,
    after: FinalizeProgress,
) -> bool {
    let lookup = before.lookup;
    match before.phase {
        FinalizePhase::Features => match first_lookup(
            plan,
            existing_image_of(settings),
            settings.build,
        ) {
            None => stops(action, after),
            Some((actions, lookup)) => if actions.len() == 0 {
                reads_metadata(lookup, action, after)
            } else {
                runs(actions, lookup, FinalizePhase::FirstImage, action, after)
            },
        },
        FinalizePhase::FirstImage => reads_metadata(lookup, action, after),
        FinalizePhase::Metadata => if event->is_empty {
            builds_deferred_layer(settings, plan, lookup, action, after)
        } else {
            &&& after == (FinalizeProgress { phase: FinalizePhase::Rebuild, lookup })
            &&& action == (FinalizeAction::RebuildPlan {
                ignored_forwarding: settings.forwarding == ForwardingResolution::IgnoreDetached
                    && event->has_forward_ports,
                resolution: UpPlanResolution {
                    forwarding: settings.forwarding,
                    update_features: settings.update_features,
                    skip_global_config: plan.config_layers.global is None,
                },
            })
        },
        FinalizePhase::Rebuild => {
            &&& after == (FinalizeProgress { phase: FinalizePhase::RebuiltFeatures, lookup })
            &&& action == FinalizeAction::PrepareFeatures
        },
        FinalizePhase::RebuiltFeatures => match lookup_after_rebuild(
            plan,
            lookup,
            settings.existing_image is Some,
            settings.build,
        ) {
            None => stops(action, after),
            Some((actions, lookup)) => if actions.len() == 0 {
                builds_deferred_layer(settings, plan, lookup, action, after)
            } else {
                runs(actions, lookup, FinalizePhase::RebuiltImage, action, after)
            },
        },
        FinalizePhase::RebuiltImage => builds_deferred_layer(
            settings,
            plan,
            lookup,
            action,
            after,
        ),
        FinalizePhase::DeferredLayer => settles_github_cli(settings, lookup, action, after),
        FinalizePhase::GithubCli => {
            &&& after == (FinalizeProgress {
                phase: FinalizePhase::Resources,
                lookup: event->lookup,
            })
            &&& action == (FinalizeAction::FinalizeResources {
                lookup_image: looked_at(event->lookup),
                remove_feature_lock: plan.config.features@.len() == 0,
            })
        },
        FinalizePhase::Resources => {
            let actions = finishing_actions(plan, lookup, settings.build);
            if actions.len() == 0 {
                &&& after == (FinalizeProgress { phase: FinalizePhase::Finished, lookup })
                &&& action == (FinalizeAction::Done {
                    image_prepared: lookup.prepared,
                    completed: true,
                })
            } else {
                runs(actions, lookup, FinalizePhase::CleanUp, action, after)
            }
        },
        FinalizePhase::CleanUp => {
            &&& after == (FinalizeProgress { phase: FinalizePhase::Finished, lookup })
            &&& action == (FinalizeAction::Done {
                image_prepared: lookup.prepared,
                completed: true,
            })
        },
        FinalizePhase::Finished => true,
    }
}

/// No image was looked at yet.
pub open spec fn nothing_seen() -> ImageLookup {
    ImageLookup { image: None, base_image: None, stale: None, prepared: false, deferred: false }
}

/// What is done first: the Features of the plan are fetched.
pub fn begin_finalize() -> (res: (FinalizeProgress, FinalizeAction))
    ensures
        res.0 == (FinalizeProgress { phase: FinalizePhase::Features, lookup: nothing_seen() }),
        res.1 == FinalizeAction::PrepareFeatures,
{
    (
        FinalizeProgress { phase: FinalizePhase::Features, lookup: no_lookup() },
        FinalizeAction::PrepareFeatures,
    )
}

fn stop(lookup: ImageLookup) -> (res: (FinalizeProgress, FinalizeAction))
    ensures
        stops(res.1, res.0),
{
    (
        FinalizeProgress { phase: FinalizePhase::Finished, lookup },
        FinalizeAction::Done { image_prepared: false, completed: false },
    )
}

fn no_lookup() -> (res: ImageLookup)
    ensures
        res == nothing_seen(),
{
    ImageLookup {
        image: None,
        base_image: None,
        stale: None,
        prepared: false,
        deferred: false,
    }
}

fn settle_github_cli(
    settings: &FinalizeSettings<'_>,
    lookup: ImageLookup,
) -> (res: (FinalizeProgress, FinalizeAction))
    ensures
        settles_github_cli(*settings, lookup, res.1, res.0),
{
    let build = if settings.existing_image.is_some() {
        None
    } else {
        settings.build
    };
    (
        FinalizeProgress { phase: FinalizePhase::GithubCli, lookup },
        FinalizeAction::SettleGithubCli { build },
    )
}

fn read_metadata(lookup: ImageLookup) -> (res: (FinalizeProgress, FinalizeAction))
    requires
        lookup.image is Some,
    ensures
        reads_metadata(lookup, res.1, res.0),
{
    let image = match &lookup.image {
        Some(image) => image.clone(),
        None => String::new(),
    };
    (
        FinalizeProgress { phase: FinalizePhase::Metadata, lookup },
        FinalizeAction::ReadMetadata { image },
    )
}

fn build_deferred_layer(
    settings: &FinalizeSettings<'_>,
    plan: &UpPlan,
    lookup: ImageLookup,
) -> (res: (FinalizeProgress, FinalizeAction))
    ensures
        builds_deferred_layer(*settings, *plan, lookup, res.1, res.0),
{
    match deferred_layer_lookup(plan, lookup, settings.existing_image.is_some(), settings.build) {
        LookupStep::Stop => stop(no_lookup()),
        LookupStep::Go { actions, lookup } => if actions.len() == 0 {
            settle_github_cli(settings, lookup)
        } else {
            (
                FinalizeProgress { phase: FinalizePhase::DeferredLayer, lookup },
                FinalizeAction::RunImageActions { actions },
            )
        },
    }
}

/// What is done next to complete a plan, given what was done last. `plan` is
/// the plan as it is now.
pub fn finalize_up_plan_mounts(
    settings: &FinalizeSettings<'_>,
    plan: &UpPlan,
    progress: FinalizeProgress,
    event: FinalizeEvent,
) -> (res: (FinalizeProgress, FinalizeAction))
    requires
        fits(progress, event),
        has_image(progress, event),
    ensures
        proceeds(*settings, *plan, progress, event, res.1, res.0),
{
    let lookup = progress.lookup;
    match event {
        FinalizeEvent::FeaturesPrepared => {
            if progress.phase == FinalizePhase::Features {
                match start_image_lookup(plan, settings.existing_image, settings.build) {
                    LookupStep::Stop => stop(lookup),
                    LookupStep::Go { actions, lookup } => if actions.len() == 0 {
                        read_metadata(lookup)
                    } else {
                        (
                            FinalizeProgress { phase: FinalizePhase::FirstImage, lookup },
                            FinalizeAction::RunImageActions { actions },
                        )
                    },
                }
            } else {
                match rebuilt_image_lookup(
                    plan,
                    lookup,
                    settings.existing_image.is_some(),
                    settings.build,
                ) {
                    LookupStep::Stop => stop(no_lookup()),
                    LookupStep::Go { actions, lookup } => if actions.len() == 0 {
                        build_deferred_layer(settings, plan, lookup)
                    } else {
                        (
                            FinalizeProgress { phase: FinalizePhase::RebuiltImage, lookup },
                            FinalizeAction::RunImageActions { actions },
                        )
                    },
                }
            }
        },
        FinalizeEvent::ImagesDone => match progress.phase {
            FinalizePhase::FirstImage => read_metadata(lookup),
            FinalizePhase::RebuiltImage => build_deferred_layer(settings, plan, lookup),
            FinalizePhase::DeferredLayer => settle_github_cli(settings, lookup),
            _ => {
                let image_prepared = lookup.prepared;
                (
                    FinalizeProgress { phase: FinalizePhase::Finished, lookup },
                    FinalizeAction::Done { image_prepared, completed: true },
                )
            },
        },
        FinalizeEvent::MetadataRead { is_empty, has_forward_ports } => if is_empty {
            build_deferred_layer(settings, plan, lookup)
        } else {
            (
                FinalizeProgress { phase: FinalizePhase::Rebuild, lookup },
                FinalizeAction::RebuildPlan {
                    ignored_forwarding: settings.forwarding == ForwardingResolution::IgnoreDetached
                        && has_forward_ports,
                    resolution: UpPlanResolution::new(
                        settings.forwarding,
                        settings.update_features,
                        plan.config_layers.global.is_none(),
                    ),
                },
            )
        },
        FinalizeEvent::PlanRebuilt => (
            FinalizeProgress { phase: FinalizePhase::RebuiltFeatures, lookup },
            FinalizeAction::PrepareFeatures,
        ),
        FinalizeEvent::GithubCliSettled { lookup } => {
            let lookup_image = match &lookup.image {
                Some(image) => image.clone(),
                None => String::new(),
            };
            (
                FinalizeProgress { phase: FinalizePhase::Resources, lookup },
                FinalizeAction::FinalizeResources {
                    lookup_image,
                    remove_feature_lock: plan.config.features.len() == 0,
                },
            )
        },
        FinalizeEvent::ResourcesFinalized => {
            let actions = finish_image_lookup(plan, &lookup, settings.build);
            if actions.len() == 0 {
                let image_prepared = lookup.prepared;
                (
                    FinalizeProgress { phase: FinalizePhase::Finished, lookup },
                    FinalizeAction::Done { image_prepared, completed: true },
                )
            } else {
                (
                    FinalizeProgress { phase: FinalizePhase::CleanUp, lookup },
                    FinalizeAction::RunImageActions { actions },
                )
            }
        },
    }
}

/// Completing a plan never loses the image that it looks at: in each phase
/// that comes next, save the last, there is one.
pub proof fn image_stays_in_sight(
    settings: FinalizeSettings,
    plan: UpPlan,
    before: FinalizeProgress,
    event: FinalizeEvent,
    action: FinalizeAction,
    after: FinalizeProgress,
)
    requires
        fits(before, event),
        has_image(before, event),
        proceeds(settings, plan, before, event, action, after),
    ensures
        after.phase != FinalizePhase::Features,
        after.phase == FinalizePhase::Finished || after.lookup.image is Some,
{
}

/// How many phases are left at most.
pub open spec fn phases_left(phase: FinalizePhase) -> nat {
    match phase {
        FinalizePhase::Features => 10,
        FinalizePhase::FirstImage => 9,
        FinalizePhase::Metadata => 8,
        FinalizePhase::Rebuild => 7,
        FinalizePhase::RebuiltFeatures => 6,
        FinalizePhase::RebuiltImage => 5,
        FinalizePhase::DeferredLayer => 4,
        FinalizePhase::GithubCli => 3,
        FinalizePhase::Resources => 2,
        FinalizePhase::CleanUp => 1,
        FinalizePhase::Finished => 0,
    }
}

/// Completing a plan comes to an end: each step leaves fewer phases, and the
/// last phase is reached exactly where nothing is left to do.
pub proof fn finalizing_ends(
    settings: FinalizeSettings,
    plan: UpPlan,
    before: FinalizeProgress,
    event: FinalizeEvent,
    action: FinalizeAction,
    after: FinalizeProgress,
)
    requires
        fits(before, event),
        proceeds(settings, plan, before, event, action, after),
    ensures
        phases_left(after.phase) < phases_left(before.phase),
        (action is Done) == (after.phase == FinalizePhase::Finished),
{
}

/// Where an existing container's image is looked at, no image is built before
/// mounts and names are made out.
pub proof fn existing_images_are_not_rebuilt(
    settings: FinalizeSettings,
    plan: UpPlan,
    before: FinalizeProgress,
    event: FinalizeEvent,
    action: FinalizeAction,
    after: FinalizeProgress,
)
    requires
        fits(before, event),
        proceeds(settings, plan, before, event, action, after),
        settings.existing_image is Some,
        before.phase != FinalizePhase::Resources,
    ensures
        !(action is RunImageActions),
        action matches FinalizeAction::SettleGithubCli { build } ==> build is None,
{
}

} // verus!
