//! How a plan is completed once images are looked at.

use crate::compose::ports::{
    ComposePublishedPortFinalization, ComposePublishedPortHostIp, ComposePublishedPortOverride,
    ComposePublishedPortPlan, ComposePublishedPortReservation,
};
use crate::config::{GithubCredentialsMode, ResolvedConfig};
use crate::docker::{
    FetchedFeatures, HostEnvironment, HostPortReservation, HostUserIds, ResolvedBuildContext,
    ResolvedForwardPort,
};
use crate::error::UpError;
use crate::finalize::feature::{needs_fetching, takes_features};
use crate::finalize::github_cli::{
    adds_feature, adds_github_cli, choice_after_probe, command_answer, existing_hash_step,
    has_github_cli, probes, CommandProbeImage,
};
use crate::finalize::image::{
    builds_on_compose_image, decision_metadata_step, DecisionMetadataStep, ImageMetadataLayers,
    MetadataRead,
};
use crate::finalize::lookup::{
    finishing_actions, first_lookup, lookup_after_rebuild, lookup_with_layer, ImageAction,
    ImageLookup, LookupBuild,
};
use crate::finalize::machine::{
    fits, has_image, proceeds, FinalizeAction, FinalizeEvent, FinalizePhase, FinalizeProgress,
    FinalizeSettings,
};
use crate::finalize::resources::{
    finalizes_resources, forwards_ports, makes_hash_input, makes_resources, names_from,
    plans_published_ports, takes_ports, FinalizeMountsAndResourcesResult,
    FinalizeUpPlanMountsOptions, FinalizedMounts, ImageUsers,
};
use crate::hash_input::{BuildHashInput, ConfigHashInput, StartupCommandHashInput};
use crate::plan::assemble::{holds_internal_versions, PlanSources};
use crate::plan::hash::with_internal_versions;
use crate::services::PlanServices;
use crate::text::views;
use crate::text_map::{inserted, lookup, lookup_after_insert};
use crate::types::{joined_path, ForwardingResolution, UpPlan, UpPlanResolution, Workspace};
use vstd::prelude::*;
use vstd::string::*;

verus! {

/// Whether a layer for Features or entrypoints is put on the base image.
pub open spec fn is_layered(plan: UpPlan) -> bool {
    plan.feature_install is Some || plan.config.features@.len() > 0
        || plan.config.devcontainer.entrypoints@.len() > 0
}

/// What is done to look at an image.
pub open spec fn actions_of(look: Option<(Seq<ImageAction>, ImageLookup)>) -> Seq<ImageAction> {
    let (actions, _) = look->0;
    actions
}

/// What is in sight once an image is looked at.
pub open spec fn sight_of(look: Option<(Seq<ImageAction>, ImageLookup)>) -> ImageLookup {
    let (_, sight) = look->0;
    sight
}

/// Which image is looked at first. That of an existing container is looked at
/// as it is. Otherwise a Dockerfile is built, and looked at without the layer
/// that may follow; an image that needs a layer is looked at with it; and a
/// configured image is looked at as it is. Without leave to build, nothing that
/// is to be built is looked at.
pub proof fn first_looks_prefer_what_is_there(
    plan: UpPlan,
    existing_image: Option<String>,
    build: Option<LookupBuild>,
)
    ensures
        ({
            let look = first_lookup(plan, existing_image, build);
            let made = plan.build_context is Some || is_layered(plan);
            &&& existing_image is Some ==> look is Some && actions_of(look).len() == 0
                && sight_of(look).image == existing_image && !sight_of(look).prepared
            &&& existing_image is None && !made ==> look is Some && actions_of(look).len() == 0
                && sight_of(look).image == Some(plan.base_image) && !sight_of(look).prepared
            &&& existing_image is None && made ==> (look is Some <==> build is Some)
            &&& existing_image is None && made && build is Some ==> {
                &&& actions_of(look).len() > 0
                &&& actions_of(look)[0] == (ImageAction::PrepareBaseImage { build: build->0 })
                &&& sight_of(look).prepared
                &&& sight_of(look).base_image == Some(plan.base_image)
                &&& plan.build_context is Some ==> actions_of(look).len() == 1 && sight_of(look).image == Some(
                    plan.base_image,
                ) && sight_of(look).deferred == is_layered(plan)
                &&& plan.build_context is None ==> actions_of(look) == seq![
                    ImageAction::PrepareBaseImage { build: build->0 },
                    ImageAction::BuildFeatureLayer { no_cache: build->0.no_cache },
                ] && sight_of(look).image == Some(plan.image) && !sight_of(look).deferred
            }
            &&& look is Some ==> sight_of(look).image is Some && sight_of(look).stale is None
        }),
{
}

/// Once a plan was built anew on what an image sets, its base image and layer
/// are made where it needs one, with the cache as it was asked for, and that
/// image is looked at; an image of an existing container stays in sight. An
/// image that was looked at before and is not the base image is remembered, to
/// be removed.
pub proof fn rebuilt_plans_are_looked_at_with_their_layer(
    plan: UpPlan,
    lookup: ImageLookup,
    uses_existing: bool,
    build: Option<LookupBuild>,
)
    ensures
        ({
            let look = lookup_after_rebuild(plan, lookup, uses_existing, build);
            &&& !is_layered(plan) || uses_existing ==> look == Some(
                (Seq::<ImageAction>::empty(), lookup),
            )
            &&& is_layered(plan) && !uses_existing ==> (look is Some <==> build is Some)
            &&& is_layered(plan) && !uses_existing && build is Some ==> {
                &&& actions_of(look) == seq![
                    ImageAction::PrepareBaseImage { build: build->0 },
                    ImageAction::BuildFeatureLayer { no_cache: build->0.no_cache },
                ]
                &&& sight_of(look).image == Some(plan.image)
                &&& sight_of(look).base_image == Some(plan.base_image)
                &&& sight_of(look).prepared
                &&& !sight_of(look).deferred
                &&& lookup.image is Some && lookup.image->0@ != plan.base_image@
                    ==> sight_of(look).stale == lookup.image
                &&& lookup.image is Some && lookup.image->0@ == plan.base_image@
                    ==> sight_of(look).stale == lookup.stale
            }
        }),
{
}

/// A layer that was put off is built before anything else is done with the
/// image, which is looked at with it from then on; there is none where none was
/// put off, where none is needed any more, or where the image of an existing
/// container is looked at.
pub proof fn deferred_layers_are_built(
    plan: UpPlan,
    lookup: ImageLookup,
    uses_existing: bool,
    build: Option<LookupBuild>,
)
    ensures
        ({
            let look = lookup_with_layer(plan, lookup, uses_existing, build);
            let due = lookup.deferred && is_layered(plan) && !uses_existing;
            &&& !due ==> look == Some((Seq::<ImageAction>::empty(), lookup))
            &&& due ==> (look is Some <==> build is Some)
            &&& due && build is Some ==> {
                &&& actions_of(look) == seq![
                    ImageAction::BuildFeatureLayer { no_cache: build->0.no_cache },
                ]
                &&& sight_of(look).image == Some(plan.image)
                &&& sight_of(look).prepared
                &&& sight_of(look).base_image == lookup.base_image
                &&& sight_of(look).stale == lookup.stale
            }
        }),
{
}

/// Whether all layers of a plan are built, whatever they are for.
pub open spec fn has_layers(plan: UpPlan) -> bool {
    is_layered(plan) || plan.uid_gid_sync_plan is Sync
}

/// What is done with images once a plan is complete. An image that needs layers
/// is built under its names, base image first, before anything is removed. An
/// image without layers that was made under another name is given the name of
/// the plan before that other name is dropped. Nothing is built or named where
/// nothing was made to be looked at.
pub proof fn finished_images_have_the_names_of_the_plan(
    plan: UpPlan,
    lookup: ImageLookup,
    build: Option<LookupBuild>,
)
    requires
        lookup.image is Some,
    ensures
        ({
            let actions = finishing_actions(plan, lookup, build);
            let seen = lookup.image->0;
            &&& lookup.prepared && has_layers(plan) && build is Some ==> actions.len() >= 2
                && actions[0] == (ImageAction::PrepareBaseImage { build: build->0 }) && actions[1]
                == (ImageAction::BuildWorkspaceLayers { no_cache: build->0.no_cache })
            &&& lookup.prepared && !has_layers(plan) && plan.image@ != seen@ ==> actions.len() >= 2
                && actions[0] == (ImageAction::TagImage { from: seen, to: plan.image })
                && actions[1] == (ImageAction::RemoveImage { image: seen })
            &&& lookup.prepared && has_layers(plan) && plan.image@ != seen@ ==> actions.contains(
                ImageAction::RemoveImage { image: seen },
            )
            &&& lookup.prepared && has_layers(plan) && lookup.base_image is Some
                && lookup.base_image->0@ != plan.base_image@ ==> actions.contains(
                ImageAction::RemoveImage { image: lookup.base_image->0 },
            )
            &&& lookup.stale is Some && lookup.stale->0@ != plan.image@ && lookup.stale->0@
                != plan.base_image@ && lookup.stale->0@ != seen@ ==> actions.contains(
                ImageAction::RemoveImage { image: lookup.stale->0 },
            )
            &&& !lookup.prepared ==> actions.len() <= 1
            &&& forall|i: int|
                0 <= i < actions.len() && (#[trigger] actions[i]) is RemoveImage ==> {
                    ||| lookup.prepared && actions[i]->image == seen && seen@ != plan.image@
                    ||| lookup.prepared && lookup.base_image == Some(actions[i]->image)
                        && actions[i]->image@ != plan.base_image@
                    ||| lookup.stale == Some(actions[i]->image) && actions[i]->image@ != plan.image@
                        && actions[i]->image@ != plan.base_image@ && actions[i]->image@ != seen@
                }
        }),
{
    let actions = finishing_actions(plan, lookup, build);
    let seen = lookup.image->0;
    let last = crate::finalize::lookup::action_if(
        lookup.stale is Some && lookup.stale->0@ != plan.image@ && lookup.stale->0@
            != plan.base_image@ && lookup.stale->0@ != seen@,
        ImageAction::RemoveImage { image: lookup.stale->0 },
    );
    if last.len() > 0 {
        assert(actions[actions.len() - 1] == last[0]);
    }
    if lookup.prepared && has_layers(plan) {
        let made: Seq<ImageAction> = match build {
            Some(build) => seq![
                ImageAction::PrepareBaseImage { build },
                ImageAction::BuildWorkspaceLayers { no_cache: build.no_cache },
            ],
            None => Seq::empty(),
        };
        let base = crate::finalize::lookup::action_if(
            lookup.base_image is Some && lookup.base_image->0@ != plan.base_image@,
            ImageAction::RemoveImage { image: lookup.base_image->0 },
        );
        if plan.image@ != seen@ {
            assert(actions[made.len() as int] == (ImageAction::RemoveImage { image: seen }));
            if base.len() > 0 {
                assert(actions[made.len() as int + 1] == base[0]);
            }
        } else if base.len() > 0 {
            assert(actions[made.len() as int] == base[0]);
        }
    }
}

/// What is done after each part of completing a plan. An image is looked at
/// before its settings are read; settings that are read lead to a new plan,
/// which is resolved as it was asked for and without the user's own
/// configuration where the plan had none; then it is settled whether the GitHub
/// CLI is added, on the image that is in sight; then the plan is completed on
/// that image; and then images are cleaned up.
pub proof fn plans_are_completed_in_order(
    settings: FinalizeSettings,
    plan: UpPlan,
    before: FinalizeProgress,
    event: FinalizeEvent,
    action: FinalizeAction,
    after: FinalizeProgress,
)
    requires
        fits(before, event),
        has_image(before, event),
        proceeds(settings, plan, before, event, action, after),
    ensures
        action is ReadMetadata ==> after.lookup.image == Some(action->ReadMetadata_image) && (
        before.phase == FinalizePhase::Features || before.phase == FinalizePhase::FirstImage),
        before.phase == FinalizePhase::Metadata && !event->is_empty ==> {
            &&& action is RebuildPlan
            &&& action->resolution.forwarding == settings.forwarding
            &&& action->resolution.update_features == settings.update_features
            &&& action->resolution.skip_global_config == (plan.config_layers.global is None)
            &&& action->ignored_forwarding <==> settings.forwarding
                == ForwardingResolution::IgnoreDetached && event->has_forward_ports
        },
        before.phase == FinalizePhase::Metadata && event->is_empty ==> !(action is RebuildPlan),
        before.phase == FinalizePhase::Rebuild ==> action is PrepareFeatures,
        before.phase == FinalizePhase::GithubCli ==> {
            &&& action is FinalizeResources
            &&& event->lookup.image is Some ==> action->lookup_image == event->lookup.image->0
            &&& action->remove_feature_lock <==> plan.config.features@.len() == 0
        },
        action is FinalizeResources ==> before.phase == FinalizePhase::GithubCli,
        action is SettleGithubCli ==> (settings.existing_image is Some
            ==> action->SettleGithubCli_build is None) && (settings.existing_image is None
            ==> action->SettleGithubCli_build == settings.build),
        action is Done && action->completed ==> (before.phase == FinalizePhase::Resources
            || before.phase == FinalizePhase::CleanUp) && action->image_prepared
            == before.lookup.prepared,
        action is Done && !action->completed ==> settings.build is None && !action->image_prepared,
{
}

/// The GitHub CLI is added exactly where a token of the host is there and is
/// handed in as a file, installing is allowed, and neither the image nor a
/// configured Feature has it.
pub proof fn github_cli_is_added_where_it_is_missing(
    config: ResolvedConfig,
    host_token_available: bool,
    image_has_gh: bool,
)
    ensures
        adds_github_cli(config, host_token_available, image_has_gh) <==> {
            &&& config.credentials.github.enabled
            &&& config.credentials.github.mode == GithubCredentialsMode::GhTokenFile
            &&& config.credentials.github.install_feature_if_missing
            &&& host_token_available
            &&& !image_has_gh
            &&& forall|i: int|
                0 <= i < config.features@.len() ==> (#[trigger] config.features@[i]).canonical_id@
                    != "ghcr.io/devcontainers/features/github-cli"@
        },
{
}

/// An image is asked for the GitHub CLI only where it would be added if it was
/// missing: that of an existing container, or else the one in sight.
pub proof fn images_are_asked_where_it_matters(
    config: ResolvedConfig,
    host_token_available: bool,
    existing: Option<&String>,
    lookup_image: String,
    outcome: Option<CommandProbeImage>,
)
    requires
        probes(config, host_token_available, existing, lookup_image, outcome),
    ensures
        outcome is Some <==> adds_github_cli(config, host_token_available, false),
        outcome is Some && existing is Some ==> outcome->0.image == *existing->0
            && outcome->0.uses_existing_image,
        outcome is Some && existing is None ==> outcome->0.image == lookup_image
            && !outcome->0.uses_existing_image,
{
}

/// What an image was asked decides: where the image of an existing container
/// has the GitHub CLI, the tool may have added it, and the hash of the container
/// tells; an image that lacks it gets it, where it is to be added; and otherwise
/// the plan stays as it is.
pub proof fn answers_decide_on_the_github_cli(
    config: ResolvedConfig,
    host_token_available: bool,
    uses_existing_image: bool,
    image_has_gh: bool,
)
    ensures
        ({
            let choice = choice_after_probe(
                config,
                host_token_available,
                uses_existing_image,
                image_has_gh,
            );
            &&& choice is CompareWithExisting <==> image_has_gh && uses_existing_image
            &&& choice is AddFeature <==> !image_has_gh && adds_github_cli(
                config,
                host_token_available,
                false,
            )
        }),
{
}

/// The plan with the GitHub CLI is used for an existing container exactly where
/// that plan has the hash of the container and the plan as it is does not. Both
/// are compared in turn, and no more than is needed.
pub proof fn existing_hashes_tell_the_plan(
    config: ResolvedConfig,
    existing: Option<Seq<char>>,
    plan: Option<Seq<char>>,
    candidate: Option<Seq<char>>,
)
    ensures
        ({
            let step = existing_hash_step(config, existing, plan, candidate);
            let possible = adds_github_cli(config, true, false);
            &&& step is UseCandidate <==> existing is Some && plan is Some && candidate is Some
                && plan != existing && candidate == existing && possible
            &&& step is ComparePlan <==> existing is Some && plan is None
            &&& step is CompareCandidate <==> existing is Some && plan is Some && candidate is None
                && plan != existing && possible
        }),
{
}

/// Adding the GitHub CLI asks for it on the command line, behind what was asked
/// for there, and changes no other layer. A plan that has it stays as it is. The
/// names stay; Features are to be fetched again.
pub proof fn github_cli_is_asked_for_on_the_command_line<S: PlanServices>(
    services: &S,
    before: UpPlan,
    after: UpPlan,
)
    requires
        adds_feature(services, before, Ok(after)),
    ensures
        has_github_cli(before.config) ==> after == before,
        !has_github_cli(before.config) ==> {
            let known = if before.config_layers.cli is Some {
                before.config_layers.cli->0.features@
            } else {
                Seq::empty()
            };
            &&& after.config_layers.cli is Some
            &&& after.config_layers.cli->0.features@.len() == known.len() + 1
            &&& after.config_layers.cli->0.features@.last().id@
                == "ghcr.io/devcontainers/features/github-cli:1"@
            &&& forall|i: int|
                0 <= i < known.len() ==> #[trigger] after.config_layers.cli->0.features@[i]
                    == known[i]
            &&& after.config_layers.cli->0.features@.last().options@.len() == 0
            &&& before.config_layers.cli is Some ==> after.config_layers.cli->0.devcontainer
                == before.config_layers.cli->0.devcontainer && after.config_layers.cli->0.ports@
                == before.config_layers.cli->0.ports@
            &&& before.config_layers.cli is None ==> after.config_layers.cli->0.devcontainer is None
                && after.config_layers.cli->0.ports@.len() == 0
            &&& after.config_layers.global == before.config_layers.global
            &&& after.config_layers.devcontainer == before.config_layers.devcontainer
            &&& after.config_layers.project == before.config_layers.project
            &&& after.config_layers.image_metadata == before.config_layers.image_metadata
            &&& after.config_layers.feature_metadata == before.config_layers.feature_metadata
            &&& call_ensures(S::resolve_config, (services, &after.config_layers), after.config)
            &&& after.resources == before.resources
            &&& after.feature_install is None
            &&& before.config.devcontainer.source is Some
                && before.config.devcontainer.source->0 is Compose ==> after.base_image@
                == before.base_image@
            &&& after.mounts == before.mounts
        },
{
    if !has_github_cli(before.config) {
        let known = if before.config_layers.cli is Some {
            before.config_layers.cli->0.features@
        } else {
            Seq::empty()
        };
        let features = after.config_layers.cli->0.features@;
        assert forall|i: int| 0 <= i < known.len() implies #[trigger] features[i] == known[i] by {
            assert(features.drop_last()[i] == features[i]);
        }
    }
}

/// An image has a command exactly where the container that was asked ended with
/// zero; a container that could not be asked, or not be removed, is an error.
pub proof fn commands_are_there_where_the_probe_succeeds(
    name: Seq<char>,
    ended: Result<i64, UpError>,
    removed: Result<(), UpError>,
    outcome: Result<bool, UpError>,
)
    requires
        command_answer(name, ended, removed, outcome),
    ensures
        outcome is Ok <==> ended is Ok && removed is Ok,
        outcome is Ok ==> outcome->Ok_0 == (ended->Ok_0 == 0),
{
}

/// What is read to decide about an existing container: nothing of a Dockerfile
/// build; otherwise the base image, and where that is gone the image of the
/// container. What was found first is used.
pub proof fn base_images_are_read_before_those_of_containers(
    plan: UpPlan,
    existing: Option<String>,
    base_read: MetadataRead,
    existing_read: MetadataRead,
)
    ensures
        ({
            let step = decision_metadata_step(plan, existing, base_read, existing_read);
            &&& plan.build_context is Some ==> step is BuildPlain
            &&& plan.build_context is None && base_read is Pending ==> step == (
            DecisionMetadataStep::Read { image: plan.base_image })
            &&& plan.build_context is None && base_read is Found ==> step is UseRead
            &&& plan.build_context is None && base_read is Missing && existing is Some
                && existing_read is Pending ==> step == (DecisionMetadataStep::Read {
                image: existing->0,
            })
            &&& plan.build_context is None && base_read is Missing && existing is Some
                && existing_read is Found ==> step is UseRead
            &&& plan.build_context is None && base_read is Missing && (existing is None
                || existing_read is Missing) ==> step is BuildPlain
        }),
{
}

/// The plan of a Compose project is built on what the image of its primary
/// service sets: it stays as it is where that sets nothing, and otherwise has
/// those layers and that base image.
pub proof fn compose_plans_are_built_on_their_image<S: PlanServices>(
    services: &S,
    workspace: &Workspace,
    host: HostEnvironment,
    cli_layer: crate::config::ConfigLayer,
    preliminary: UpPlan,
    image: String,
    metadata: ImageMetadataLayers,
    resolution: UpPlanResolution,
    sources: PlanSources,
    plan: UpPlan,
)
    requires
        builds_on_compose_image(
            services,
            workspace,
            host,
            cli_layer,
            preliminary,
            image,
            metadata,
            resolution,
            sources,
            Ok(plan),
        ),
    ensures
        metadata.layers@.len() == 0 ==> plan == preliminary,
        metadata.layers@.len() > 0 ==> plan.base_image == image && plan.config_layers.image_metadata
            == metadata.layers && plan.config_layers.cli == Some(cli_layer)
            && plan.config_layers.devcontainer == Some(sources.devcontainer_layer),
{
}

/// Features are fetched exactly where some are configured and none were
/// fetched. A plan whose Features were fetched has what they bring as its layers
/// of Features, and no other layer changes.
pub proof fn fetched_features_become_layers<S: PlanServices>(
    services: &S,
    workspace: &Workspace,
    ids: HostUserIds,
    before: UpPlan,
    fetched: Option<FetchedFeatures>,
    after: UpPlan,
)
    requires
        takes_features(services, workspace, ids, before, fetched, Ok(after)),
    ensures
        needs_fetching(before) <==> before.feature_install is None && before.config.features@.len()
            > 0,
        before.feature_install is Some ==> after == before,
        before.feature_install is None && before.config.features@.len() > 0 && fetched is Some ==> {
            &&& after.feature_install == Some(fetched->0.install)
            &&& after.config_layers.feature_metadata == fetched->0.metadata_layers
            &&& after.config_layers.image_metadata == before.config_layers.image_metadata
            &&& after.config_layers.global == before.config_layers.global
            &&& after.config_layers.devcontainer == before.config_layers.devcontainer
            &&& after.config_layers.project == before.config_layers.project
            &&& after.config_layers.cli == before.config_layers.cli
            &&& after.resources == before.resources
            &&& after.feature_build_context_dir is Some
            &&& after.feature_build_context_dir->0@ == joined_path(
                workspace.cache_dir@,
                "feature-build-context"@,
            )
            &&& exists|merged: ResolvedConfig| #[trigger]
                call_ensures(S::resolve_config, (services, &after.config_layers), merged)
        },
        before.feature_install is None && before.config.features@.len() == 0
            && before.config.devcontainer.entrypoints@.len() > 0
            ==> after.feature_build_context_dir is Some && after.feature_build_context_dir->0@
            == joined_path(workspace.cache_dir@, "feature-build-context"@),
        before.feature_install is None && before.config.features@.len() == 0 ==> after.config
            == before.config && after.config_layers == before.config_layers,
{
}

/// The address on which an endpoint of a project listens.
pub open spec fn listens_on(reservation: ComposePublishedPortReservation) -> Seq<char> {
    match reservation.endpoint.host_ip {
        ComposePublishedPortHostIp::Omitted => "0.0.0.0"@,
        ComposePublishedPortHostIp::Explicit(address) => address@,
    }
}

/// Forwarded ports keep clear of host ports that the project holds: the tool is
/// told of each of them, with its address, when it chooses host ports. Where
/// nothing stays attached, none is chosen.
pub proof fn forwarded_ports_keep_clear_of_published_ones<S: PlanServices>(
    services: &S,
    config: ResolvedConfig,
    options: FinalizeUpPlanMountsOptions,
    outcome: Result<Vec<ResolvedForwardPort>, UpError>,
)
    requires
        forwards_ports(services, config, options, outcome),
    ensures
        options.forwarding == ForwardingResolution::IgnoreDetached ==> outcome is Ok
            && outcome->Ok_0@.len() == 0,
        options.forwarding == ForwardingResolution::Resolve ==> exists|
            taken: Vec<HostPortReservation>,
        |
            {
                &&& #[trigger] call_ensures(
                    S::resolve_forward_ports_with_host_reservations,
                    (services, &config.ports.entries, &taken),
                    outcome,
                )
                &&& options.compose_published_ports is None ==> taken@.len() == 0
                &&& options.compose_published_ports is Some
                    && options.compose_published_ports->0.existing_project_published_ports is Some
                    ==> {
                    let held =
                        options.compose_published_ports->0.existing_project_published_ports->0@;
                    &&& taken@.len() == held.len()
                    &&& forall|i: int|
                        0 <= i < held.len() ==> (#[trigger] taken@[i]).host
                            == held[i].endpoint.host_port && taken@[i].host_ip@ == listens_on(
                            held[i],
                        )
                }
            },
{
    if options.forwarding == ForwardingResolution::Resolve {
        let taken = choose|taken: Vec<HostPortReservation>|
            takes_ports(
                taken@,
                crate::finalize::resources::held_by_project(options.compose_published_ports),
            ) && #[trigger] call_ensures(
                S::resolve_forward_ports_with_host_reservations,
                (services, &config.ports.entries, &taken),
                outcome,
            );
        assert(call_ensures(
            S::resolve_forward_ports_with_host_reservations,
            (services, &config.ports.entries, &taken),
            outcome,
        ));
    }
}

/// Published ports are planned exactly where they may be moved and a project
/// publishes any: by the tool, given the forwarded ports of the plan, whose
/// answer also replaces the ports of services.
pub proof fn published_ports_are_planned_around_forwarded_ones<S: PlanServices>(
    services: &S,
    plan: UpPlan,
    context: Option<ComposePublishedPortFinalization>,
    ports: ComposePublishedPortPlan,
    replaced: ComposePublishedPortOverride,
)
    requires
        plans_published_ports(services, plan, context, Ok((ports, replaced))),
    ensures
        ({
            let settings = plan.config.compose.published_ports;
            let movable = settings.automatic_relocation || settings.mappings@.len() > 0;
            &&& !movable || context is None ==> ports.entries@.len() == 0
                && replaced.services@.len() == 0
            &&& movable && context is Some ==> call_ensures(
                S::plan_compose_published_ports,
                (services, &context->0, settings.automatic_relocation, &plan.forward_ports),
                Ok::<ComposePublishedPortPlan, UpError>(ports),
            ) && call_ensures(
                S::compose_published_port_override,
                (services, &context->0.input.port_entries, &ports),
                Ok::<ComposePublishedPortOverride, UpError>(replaced),
            )
        }),
{
}

/// Whether this is what a build context holds.
pub open spec fn reads_context<S: PlanServices>(
    services: &S,
    context: ResolvedBuildContext,
    held: BuildHashInput,
) -> bool {
    exists|answer: Result<BuildHashInput, UpError>| #[trigger]
        call_ensures(S::build_hash_input, (services, &context), answer) && answer is Ok
            && answer->Ok_0 == held
}

/// A completed plan has the users of the image, its own mounts and folder, and
/// the names of a hash that was taken of its configuration, of what hides its
/// values, of its Compose files and model, of its mounts and of the start-up
/// command.
pub proof fn completed_plans_are_named_by_their_hash<S: PlanServices>(
    services: &S,
    workspace: &Workspace,
    host: HostEnvironment,
    mounts: FinalizedMounts,
    compose_base_image: Option<String>,
    users: ImageUsers,
    startup: Option<StartupCommandHashInput>,
    options: FinalizeUpPlanMountsOptions,
    result: FinalizeMountsAndResourcesResult,
)
    requires
        finalizes_resources(
            services,
            workspace,
            host,
            mounts,
            compose_base_image,
            users,
            startup,
            options,
            Ok(result),
        ),
    ensures
        result.plan.effective_users == users.effective_users,
        result.plan.uid_gid_sync_plan == users.uid_gid_sync_plan,
        result.plan.workspace_folder == mounts.runtime_mounts.workspace_folder,
        result.plan.mounts == mounts.runtime_mounts.mount_plan.mounts,
        result.plan.dotfile_skeletons == mounts.runtime_mounts.mount_plan.dotfile_skeletons,
        result.plan.config == mounts.plan.config,
        result.plan.forward_ports == mounts.plan.forward_ports,
        result.compose_published_port_plan == mounts.compose_published_port_plan,
        result.compose_published_port_override == mounts.compose_published_port_override,
        compose_base_image is Some ==> result.plan.base_image@ == compose_base_image->0@,
        result.plan.pre_uid_gid_sync_resources is Some <==> users.uid_gid_sync_plan is Sync,
        exists|input: ConfigHashInput, hash: String, file: String|
            {
                &&& #[trigger] call_ensures(S::config_hash, (services, &input), hash)
                &&& #[trigger] call_ensures(
                    S::docker_resources,
                    (services, workspace, &hash, &file),
                    result.plan.resources,
                )
                &&& *input.config == mounts.plan.config
                &&& views(input.sensitive_container_env_keys@)
                    == mounts.plan.sensitive_container_env@.map_values(
                    |entry: (Seq<char>, crate::docker::SensitiveEnvValue)| entry.0,
                )
                &&& views(input.sensitive_build_arg_keys@)
                    == mounts.plan.sensitive_build_args@.map_values(
                    |entry: (Seq<char>, crate::docker::SensitiveEnvValue)| entry.0,
                )
                &&& input.startup_command == startup
                &&& input.resolved_mounts@.len()
                    == mounts.runtime_mounts.mount_plan.mounts@.len()
                &&& mounts.plan.compose_project is Some ==> input.compose_files@
                    == mounts.plan.compose_project->0.config_hash_files@
                &&& options.compose_canonical_model is Some ==> input.compose_canonical_model
                    == Some(*options.compose_canonical_model->0)
                &&& options.compose_canonical_model is None ==> input.compose_canonical_model is None
                &&& mounts.plan.feature_install is Some ==> input.feature_locks@
                    == mounts.plan.feature_install->0.lock_entries@
                &&& input.build is Some <==> mounts.plan.build_context is Some
                &&& mounts.plan.build_context is Some ==> reads_context(
                    services,
                    mounts.plan.build_context->0,
                    input.build->0,
                )
                &&& holds_internal_versions(input.internal_versions@, mounts.plan.config)
            },
{
    let input = choose|input: Result<ConfigHashInput, UpError>| #[trigger]
        makes_hash_input(
            services,
            workspace,
            mounts.plan,
            &crate::finalize::resources::config_file_of(mounts.plan)->0,
            mounts.runtime_mounts.mount_plan.mounts@,
            options,
            startup,
            mounts.compose_published_port_override,
            input,
        ) && input is Ok && exists|made: Result<crate::finalize::resources::FinalizedResources, UpError>|
            #[trigger] makes_resources(
                services,
                workspace,
                host,
                mounts.plan,
                input->Ok_0,
                users.uid_gid_sync_plan,
                compose_base_image,
                made,
            ) && made is Ok && crate::finalize::resources::is_completed(
                *workspace,
                mounts.plan,
                mounts.runtime_mounts,
                users,
                made->Ok_0,
                result.plan,
            );
    assert(crate::text_map::keys_of(mounts.plan.sensitive_container_env@)
        =~= mounts.plan.sensitive_container_env@.map_values(
        |entry: (Seq<char>, crate::docker::SensitiveEnvValue)| entry.0,
    ));
    assert(crate::text_map::keys_of(mounts.plan.sensitive_build_args@)
        =~= mounts.plan.sensitive_build_args@.map_values(
        |entry: (Seq<char>, crate::docker::SensitiveEnvValue)| entry.0,
    ));
    let made = choose|made: Result<crate::finalize::resources::FinalizedResources, UpError>|
        #[trigger] makes_resources(
            services,
            workspace,
            host,
            mounts.plan,
            input->Ok_0,
            users.uid_gid_sync_plan,
            compose_base_image,
            made,
        ) && made is Ok && crate::finalize::resources::is_completed(
            *workspace,
            mounts.plan,
            mounts.runtime_mounts,
            users,
            made->Ok_0,
            result.plan,
        );
    let with_ids = choose|with_ids: ConfigHashInput|
        crate::finalize::resources::adds_user_ids(
            input->Ok_0,
            with_ids,
            mounts.plan,
            users.uid_gid_sync_plan,
            host,
        ) && #[trigger] names_from(
            services,
            workspace,
            with_ids,
            crate::finalize::resources::config_file_text(mounts.plan),
            result.plan.resources,
        );
    let (hash, file) = choose|hash: String, file: String|
        {
            &&& #[trigger] call_ensures(S::config_hash, (services, &with_ids), hash)
            &&& #[trigger] call_ensures(
                S::docker_resources,
                (services, workspace, &hash, &file),
                result.plan.resources,
            )
        };
    assert(call_ensures(S::config_hash, (services, &with_ids), hash));
}

/// The steps of completing a plan follow each other: what the image sets leads
/// to a plan that is made again, its Features are fetched again and its image
/// looked at again; then layers that were put off are built, the GitHub CLI is
/// settled, and names are made out. What was looked at is kept on the way, and
/// nothing follows the end.
pub proof fn steps_follow_each_other(
    settings: FinalizeSettings,
    plan: UpPlan,
    before: FinalizeProgress,
    event: FinalizeEvent,
    action: FinalizeAction,
    after: FinalizeProgress,
)
    requires
        fits(before, event),
        has_image(before, event),
        proceeds(settings, plan, before, event, action, after),
    ensures
        action is ReadMetadata ==> after.phase == FinalizePhase::Metadata,
        action is RebuildPlan ==> after.phase == FinalizePhase::Rebuild && after.lookup
            == before.lookup,
        action is PrepareFeatures ==> after.phase == FinalizePhase::RebuiltFeatures && after.lookup
            == before.lookup,
        action is SettleGithubCli ==> after.phase == FinalizePhase::GithubCli,
        action is FinalizeResources ==> after.phase == FinalizePhase::Resources && after.lookup
            == event->lookup,
        action is Done ==> after.phase == FinalizePhase::Finished,
        action is RunImageActions ==> {
            &&& before.phase == FinalizePhase::Features ==> after.phase
                == FinalizePhase::FirstImage
            &&& before.phase == FinalizePhase::RebuiltFeatures ==> after.phase
                == FinalizePhase::RebuiltImage || after.phase == FinalizePhase::DeferredLayer
            &&& before.phase == FinalizePhase::Resources ==> after.phase == FinalizePhase::CleanUp
                && after.lookup == before.lookup
        },
        before.phase == FinalizePhase::CleanUp ==> action is Done,
        before.phase == FinalizePhase::DeferredLayer ==> action is SettleGithubCli && after.lookup
            == before.lookup,
{
}

/// The versions of what the tool puts into an image go into the hash where it
/// puts something there: that of the layer for Features, and that of the wrapper
/// for entrypoints.
pub proof fn versions_go_into_the_hash(versions: Seq<(Seq<char>, String)>, config: ResolvedConfig)
    requires
        holds_internal_versions(versions, config),
    ensures
        ({
            let layer = lookup(versions, "feature_layer"@);
            let shim = lookup(versions, "feature_entrypoint_shim"@);
            &&& layer is Some <==> config.features@.len() > 0
            &&& layer is Some ==> layer->0@ == "2"@
            &&& shim is Some <==> config.devcontainer.entrypoints@.len() > 0
            &&& shim is Some ==> shim->0@ == "3"@
        }),
{
    let (layer, shim) = choose|layer: String, shim: String|
        layer@ == "2"@ && shim@ == "3"@ && versions == #[trigger] with_internal_versions(
            Seq::empty(),
            config,
            layer,
            shim,
        );
    reveal_strlit("feature_layer");
    reveal_strlit("feature_entrypoint_shim");
    assert("feature_layer"@.len() != "feature_entrypoint_shim"@.len());
    let none = Seq::<(Seq<char>, String)>::empty();
    lookup_after_insert(none, "feature_layer"@, layer, "feature_layer"@);
    lookup_after_insert(none, "feature_layer"@, layer, "feature_entrypoint_shim"@);
    let first = if config.features@.len() > 0 {
        inserted(none, "feature_layer"@, layer)
    } else {
        none
    };
    lookup_after_insert(first, "feature_entrypoint_shim"@, shim, "feature_layer"@);
    lookup_after_insert(first, "feature_entrypoint_shim"@, shim, "feature_entrypoint_shim"@);
}

} // verus!
