//! Which image is looked at to complete a plan, what is built for that, and
//! what is removed afterwards.

use crate::text::{opt_view, same_text};
use crate::types::UpPlan;
use crate::uid_gid::{has_workspace_layer, plan_requires_workspace_layer};
use vstd::prelude::*;

verus! {

/// How images are built to be looked at.
#[derive(Debug, Clone, Copy, PartialEq, Eq, Structural)]
pub struct LookupBuild {
    /// Whether images are pulled though they are there.
    pub pull: bool,
    /// Whether builds go without their cache.
    pub no_cache: bool,
}

/// Something to be done with images.
#[derive(Debug, PartialEq, Eq)]
pub enum ImageAction {
    /// The base image of the plan is pulled or built.
    PrepareBaseImage {
        /// How.
        build: LookupBuild,
    },
    /// The layer for Features and entrypoints is built.
    BuildFeatureLayer {
        /// Whether without its cache.
        no_cache: bool,
    },
    /// All layers on the base image are built.
    BuildWorkspaceLayers {
        /// Whether without their cache.
        no_cache: bool,
    },
    /// An image is given a further name.
    TagImage {
        /// The image.
        from: String,
        /// The further name.
        to: String,
    },
    /// A name of an image is removed.
    RemoveImage {
        /// The name.
        image: String,
    },
}

/// The image that is looked at, and what was made for it.
#[derive(Debug, Clone, PartialEq, Eq)]
pub struct ImageLookup {
    /// The image.
    pub image: Option<String>,
    /// The base image that was prepared for it.
    pub base_image: Option<String>,
    /// An image that was looked at before.
    pub stale: Option<String>,
    /// Whether the image was made.
    pub prepared: bool,
    /// Whether a layer is still to be put on it.
    pub deferred: bool,
}

/// What is done next to have an image to look at.
#[derive(Debug)]
pub enum LookupStep {
    /// Nothing may be built: the plan stays as it is.
    Stop,
    /// These things are done, and the image is there.
    Go {
        /// What is done, in order.
        actions: Vec<ImageAction>,
        /// The image that is there then.
        lookup: ImageLookup,
    },
}

/// Whether a step is to do things and have an image, or to stop.
pub open spec fn step_is(step: LookupStep, expected: Option<(Seq<ImageAction>, ImageLookup)>) -> bool {
    match expected {
        None => step is Stop,
        Some((actions, lookup)) => step is Go && step->actions@ == actions && step->lookup
            == lookup,
    }
}

/// Whether a layer is put on the base image, for whatever reason.
pub open spec fn has_final_layer(plan: UpPlan) -> bool {
    has_workspace_layer(plan) || plan.uid_gid_sync_plan is Sync
}

/// Whether a layer is put on the base image, for whatever reason.
pub fn plan_requires_final_image_layer(plan: &UpPlan) -> (res: bool)
    ensures
        res == has_final_layer(*plan),
{
    plan_requires_workspace_layer(plan) || crate::uid_gid::plan_requires_uid_gid_sync_layer(plan)
}

/// The image that is looked at first: the one of an existing container; or
/// the base image, where it is built, its layer following later; or the image
/// with its layer; or the configured image as it is.
pub open spec fn first_lookup(
    plan: UpPlan,
    existing_image: Option<String>,
    build: Option<LookupBuild>,
) -> Option<(Seq<ImageAction>, ImageLookup)> {
    if existing_image is Some {
        Some(
            (
                Seq::empty(),
                ImageLookup {
                    image: existing_image,
                    base_image: None,
                    stale: None,
                    prepared: false,
                    deferred: false,
                },
            ),
        )
    } else if plan.build_context is Some {
        match build {
            None => None,
            Some(build) => Some(
                (
                    seq![ImageAction::PrepareBaseImage { build }],
                    ImageLookup {
                        image: Some(plan.base_image),
                        base_image: Some(plan.base_image),
                        stale: None,
                        prepared: true,
                        deferred: has_workspace_layer(plan),
                    },
                ),
            ),
        }
    } else if has_workspace_layer(plan) {
        match build {
            None => None,
            Some(build) => Some(
                (
                    seq![
                        ImageAction::PrepareBaseImage { build },
                        ImageAction::BuildFeatureLayer { no_cache: build.no_cache },
                    ],
                    ImageLookup {
                        image: Some(plan.image),
                        base_image: Some(plan.base_image),
                        stale: None,
                        prepared: true,
                        deferred: false,
                    },
                ),
            ),
        }
    } else {
        Some(
            (
                Seq::empty(),
                ImageLookup {
                    image: Some(plan.base_image),
                    base_image: None,
                    stale: None,
                    prepared: false,
                    deferred: false,
                },
            ),
        )
    }
}

/// The image that is looked at first.
pub fn start_image_lookup(
    plan: &UpPlan,
    existing_image: Option<&String>,
    build: Option<LookupBuild>,
) -> (res: LookupStep)
    ensures
        step_is(
            res,
            first_lookup(
                *plan,
                match existing_image {
                    Some(image) => Some(*image),
                    None => None,
                },
                build,
            ),
        ),
{
    let mut actions: Vec<ImageAction> = Vec::new();
    assert(actions@ =~= Seq::empty());
    if let Some(image) = existing_image {
        return LookupStep::Go {
            actions,
            lookup: ImageLookup {
                image: Some(image.clone()),
                base_image: None,
                stale: None,
                prepared: false,
                deferred: false,
            },
        };
    }
    let needs_layer = plan_requires_workspace_layer(plan);
    if plan.build_context.is_none() && !needs_layer {
        return LookupStep::Go {
            actions,
            lookup: ImageLookup {
                image: Some(plan.base_image.clone()),
                base_image: None,
                stale: None,
                prepared: false,
                deferred: false,
            },
        };
    }
    let build = match build {
        Some(build) => build,
        None => {
            return LookupStep::Stop;
        },
    };
    actions.push(ImageAction::PrepareBaseImage { build });
    if plan.build_context.is_some() {
        assert(actions@ =~= seq![ImageAction::PrepareBaseImage { build }]);
        return LookupStep::Go {
            actions,
            lookup: ImageLookup {
                image: Some(plan.base_image.clone()),
                base_image: Some(plan.base_image.clone()),
                stale: None,
                prepared: true,
                deferred: needs_layer,
            },
        };
    }
    actions.push(ImageAction::BuildFeatureLayer { no_cache: build.no_cache });
    assert(actions@ =~= seq![
        ImageAction::PrepareBaseImage { build },
        ImageAction::BuildFeatureLayer { no_cache: build.no_cache },
    ]);
    LookupStep::Go {
        actions,
        lookup: ImageLookup {
            image: Some(plan.image.clone()),
            base_image: Some(plan.base_image.clone()),
            stale: None,
            prepared: true,
            deferred: false,
        },
    }
}

/// The image that is looked at once the plan was built anew on what the image
/// sets: the image with its layer, where it needs one and no existing
/// container is looked at.
pub open spec fn lookup_after_rebuild(
    plan: UpPlan,
    lookup: ImageLookup,
    uses_existing: bool,
    build: Option<LookupBuild>,
) -> Option<(Seq<ImageAction>, ImageLookup)> {
    if !has_workspace_layer(plan) || uses_existing {
        Some((Seq::empty(), lookup))
    } else {
        match build {
            None => None,
            Some(build) => Some(
                (
                    seq![
                        ImageAction::PrepareBaseImage { build },
                        ImageAction::BuildFeatureLayer { no_cache: build.no_cache },
                    ],
                    ImageLookup {
                        image: Some(plan.image),
                        base_image: Some(plan.base_image),
                        stale: if opt_view(lookup.image) != Some(plan.base_image@) {
                            lookup.image
                        } else {
                            lookup.stale
                        },
                        prepared: true,
                        deferred: false,
                    },
                ),
            ),
        }
    }
}

/// The image that is looked at once the plan was built anew on what the image
/// sets.
pub fn rebuilt_image_lookup(
    plan: &UpPlan,
    lookup: ImageLookup,
    uses_existing: bool,
    build: Option<LookupBuild>,
) -> (res: LookupStep)
    ensures
        step_is(res, lookup_after_rebuild(*plan, lookup, uses_existing, build)),
{
    let mut actions: Vec<ImageAction> = Vec::new();
    assert(actions@ =~= Seq::empty());
    if !plan_requires_workspace_layer(plan) || uses_existing {
        return LookupStep::Go { actions, lookup };
    }
    let build = match build {
        Some(build) => build,
        None => {
            return LookupStep::Stop;
        },
    };
    actions.push(ImageAction::PrepareBaseImage { build });
    actions.push(ImageAction::BuildFeatureLayer { no_cache: build.no_cache });
    assert(actions@ =~= seq![
        ImageAction::PrepareBaseImage { build },
        ImageAction::BuildFeatureLayer { no_cache: build.no_cache },
    ]);
    let is_base = match &lookup.image {
        Some(image) => same_text(image.as_str(), plan.base_image.as_str()),
        None => false,
    };
    let stale = if is_base {
        lookup.stale
    } else {
        lookup.image
    };
    LookupStep::Go {
        actions,
        lookup: ImageLookup {
            image: Some(plan.image.clone()),
            base_image: Some(plan.base_image.clone()),
            stale,
            prepared: true,
            deferred: false,
        },
    }
}

/// The image that is looked at once a layer that was put off is built, where
/// one was.
pub open spec fn lookup_with_layer(
    plan: UpPlan,
    lookup: ImageLookup,
    uses_existing: bool,
    build: Option<LookupBuild>,
) -> Option<(Seq<ImageAction>, ImageLookup)> {
    if !lookup.deferred || !has_workspace_layer(plan) || uses_existing {
        Some((Seq::empty(), lookup))
    } else {
        match build {
            None => None,
            Some(build) => Some(
                (
                    seq![ImageAction::BuildFeatureLayer { no_cache: build.no_cache }],
                    ImageLookup { image: Some(plan.image), prepared: true, ..lookup },
                ),
            ),
        }
    }
}

/// The image that is looked at once a layer that was put off is built.
pub fn deferred_layer_lookup(
    plan: &UpPlan,
    lookup: ImageLookup,
    uses_existing: bool,
    build: Option<LookupBuild>,
) -> (res: LookupStep)
    ensures
        step_is(res, lookup_with_layer(*plan, lookup, uses_existing, build)),
{
    let mut actions: Vec<ImageAction> = Vec::new();
    assert(actions@ =~= Seq::empty());
    if !lookup.deferred || !plan_requires_workspace_layer(plan) || uses_existing {
        return LookupStep::Go { actions, lookup };
    }
    let build = match build {
        Some(build) => build,
        None => {
            return LookupStep::Stop;
        },
    };
    actions.push(ImageAction::BuildFeatureLayer { no_cache: build.no_cache });
    assert(actions@ =~= seq![ImageAction::BuildFeatureLayer { no_cache: build.no_cache }]);
    LookupStep::Go {
        actions,
        lookup: ImageLookup {
            image: Some(plan.image.clone()),
            base_image: lookup.base_image,
            stale: lookup.stale,
            prepared: true,
            deferred: lookup.deferred,
        },
    }
}

/// An action where a condition holds.
pub open spec fn action_if(condition: bool, action: ImageAction) -> Seq<ImageAction> {
    if condition {
        seq![action]
    } else {
        Seq::empty()
    }
}

/// The names of the image that was looked at.
pub open spec fn looked_at(lookup: ImageLookup) -> String
    recommends
        lookup.image is Some,
{
    lookup.image->0
}

/// What is done with images once the plan is complete: the layers of the
/// image are built under the names of the plan, or the image that was looked
/// at is given them; what was made only to be looked at is removed.
pub open spec fn finishing_actions(
    plan: UpPlan,
    lookup: ImageLookup,
    build: Option<LookupBuild>,
) -> Seq<ImageAction> {
    let renamed = plan.image@ != looked_at(lookup)@;
    let drop_lookup = ImageAction::RemoveImage { image: looked_at(lookup) };
    let made = if lookup.prepared && has_final_layer(plan) {
        (match build {
            Some(build) => seq![
                ImageAction::PrepareBaseImage { build },
                ImageAction::BuildWorkspaceLayers { no_cache: build.no_cache },
            ],
            None => Seq::empty(),
        }) + action_if(renamed, drop_lookup) + action_if(
            lookup.base_image is Some && lookup.base_image->0@ != plan.base_image@,
            ImageAction::RemoveImage { image: lookup.base_image->0 },
        )
    } else if lookup.prepared && renamed {
        seq![ImageAction::TagImage { from: looked_at(lookup), to: plan.image }, drop_lookup]
    } else {
        Seq::empty()
    };
    made + action_if(
        lookup.stale is Some && lookup.stale->0@ != plan.image@ && lookup.stale->0@
            != plan.base_image@ && lookup.stale->0@ != looked_at(lookup)@,
        ImageAction::RemoveImage { image: lookup.stale->0 },
    )
}

/// What is done with images once the plan is complete.
pub fn finish_image_lookup(
    plan: &UpPlan,
    lookup: &ImageLookup,
    build: Option<LookupBuild>,
) -> (res: Vec<ImageAction>)
    requires
        lookup.image is Some,
    ensures
        res@ == finishing_actions(*plan, *lookup, build),
{
    let mut actions: Vec<ImageAction> = Vec::new();
    let image = match &lookup.image {
        Some(image) => image,
        None => {
            return actions;
        },
    };
    let renamed = !same_text(plan.image.as_str(), image.as_str());
    if lookup.prepared && plan_requires_final_image_layer(plan) {
        if let Some(build) = build {
            actions.push(ImageAction::PrepareBaseImage { build });
            actions.push(ImageAction::BuildWorkspaceLayers { no_cache: build.no_cache });
        }
        if renamed {
            actions.push(ImageAction::RemoveImage { image: image.clone() });
        }
        if let Some(base_image) = &lookup.base_image {
            if !same_text(base_image.as_str(), plan.base_image.as_str()) {
                actions.push(ImageAction::RemoveImage { image: base_image.clone() });
            }
        }
    } else if lookup.prepared && renamed {
        actions.push(ImageAction::TagImage { from: image.clone(), to: plan.image.clone() });
        actions.push(ImageAction::RemoveImage { image: image.clone() });
    }
    if let Some(stale) = &lookup.stale {
        if !same_text(stale.as_str(), plan.image.as_str()) && !same_text(
            stale.as_str(),
            plan.base_image.as_str(),
        ) && !same_text(stale.as_str(), image.as_str()) {
            actions.push(ImageAction::RemoveImage { image: stale.clone() });
        }
    }
    assert(actions@ =~= finishing_actions(*plan, *lookup, build));
    actions
}

/// The image that the container is made from is never removed, unless it
/// carries the name of the base image that was prepared to be looked at; and
/// where nothing was made, nothing but an image that was looked at before is
/// removed.
pub proof fn finishing_keeps_the_image(
    plan: UpPlan,
    lookup: ImageLookup,
    build: Option<LookupBuild>,
    position: int,
)
    requires
        lookup.image is Some,
        0 <= position < finishing_actions(plan, lookup, build).len(),
        finishing_actions(plan, lookup, build)[position] is RemoveImage,
    ensures
        finishing_actions(plan, lookup, build)[position]->image@ == plan.image@
            ==> lookup.base_image == Some(finishing_actions(plan, lookup, build)[position]->image),
        !lookup.prepared ==> lookup.stale == Some(
            finishing_actions(plan, lookup, build)[position]->image,
        ),
{
}

} // verus!
