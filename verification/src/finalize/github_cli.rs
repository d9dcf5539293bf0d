//! The GitHub CLI, which is added to a plan where a token of the host is
//! handed in and the image lacks it.

use crate::config::{
    ConfigLayer, ConfigMergeInput, GithubCredentialsMode, LayerFeature, ResolvedConfig,
};
use crate::docker::{copy_optional_text, HostUserIds, ResolvedRemoteUser};
use crate::error::UpError;
use crate::finalize::lookup::{ImageAction, ImageLookup, LookupBuild};
use crate::finalize::resources::{known_at_runtime, locate_at_runtime};
use crate::messages::{join, joined};
use crate::mounts::{
    describes, locates_workspace, mount_variable_context, WorkspaceLocationValidation,
};
use crate::plan::source::{base_image, base_image_source, final_image, final_image_source};
use crate::services::PlanServices;
use crate::text::{opt_view, same_text, views};
use crate::text_map::TextMap;
use crate::types::{
    MountResolution, TrackedValues, UpPlan, VariableContext, Workspace, WorkspaceLocation,
};
use vstd::prelude::*;
use vstd::string::*;

verus! {

/// The Feature that installs the GitHub CLI.
pub const GITHUB_CLI_FEATURE_REF: &'static str = "ghcr.io/devcontainers/features/github-cli:1";

/// The same Feature, whatever its version.
pub const GITHUB_CLI_FEATURE_CANONICAL_ID: &'static str =
    "ghcr.io/devcontainers/features/github-cli";

/// Whether a configuration installs the GitHub CLI.
pub open spec fn has_github_cli(config: ResolvedConfig) -> bool {
    exists|i: int|
        0 <= i < config.features@.len() && (#[trigger] config.features@[i]).canonical_id@
            == "ghcr.io/devcontainers/features/github-cli"@
}

/// Whether a configuration installs the GitHub CLI.
pub fn config_has_github_cli_feature(config: &ResolvedConfig) -> (res: bool)
    ensures
        res == has_github_cli(*config),
{
    let mut i: usize = 0;
    while i < config.features.len()
        invariant
            i <= config.features@.len(),
            forall|j: int|
                0 <= j < i ==> (#[trigger] config.features@[j]).canonical_id@
                    != "ghcr.io/devcontainers/features/github-cli"@,
        decreases config.features@.len() - i,
    {
        if same_text(config.features[i].canonical_id.as_str(), GITHUB_CLI_FEATURE_CANONICAL_ID) {
            return true;
        }
        i = i + 1;
    }
    false
}

/// Whether the GitHub CLI is added.
pub open spec fn adds_github_cli(
    config: ResolvedConfig,
    host_token_available: bool,
    image_has_gh: bool,
) -> bool {
    &&& config.credentials.github.enabled
    &&& config.credentials.github.mode == GithubCredentialsMode::GhTokenFile
    &&& config.credentials.github.install_feature_if_missing
    &&& host_token_available
    &&& !image_has_gh
    &&& !has_github_cli(config)
}

/// Whether the GitHub CLI is added: a token of the host is handed in as a
/// file, installing is allowed, and neither the image nor the configuration
/// has the GitHub CLI.
pub fn should_auto_add_github_cli_feature(
    config: &ResolvedConfig,
    host_token_available: bool,
    image_has_gh: bool,
) -> (res: bool)
    ensures
        res == adds_github_cli(*config, host_token_available, image_has_gh),
{
    config.credentials.github.enabled && config.credentials.github.mode
        == GithubCredentialsMode::GhTokenFile
        && config.credentials.github.install_feature_if_missing && host_token_available
        && !image_has_gh && !config_has_github_cli_feature(config)
}

/// Whether layers are others with the GitHub CLI added to the command line.
pub open spec fn layers_with_github_cli(
    before: ConfigMergeInput,
    after: ConfigMergeInput,
) -> bool {
    let known = match before.cli {
        Some(layer) => layer.features@,
        None => Seq::empty(),
    };
    &&& after == (ConfigMergeInput { cli: after.cli, ..before })
    &&& after.cli is Some
    &&& after.cli->0.devcontainer == match before.cli {
        Some(layer) => layer.devcontainer,
        None => None,
    }
    &&& after.cli->0.ports@ == match before.cli {
        Some(layer) => layer.ports@,
        None => Seq::empty(),
    }
    &&& after.cli->0.features@.len() == known.len() + 1
    &&& after.cli->0.features@.drop_last() == known
    &&& after.cli->0.features@.last().id@ == "ghcr.io/devcontainers/features/github-cli:1"@
    &&& after.cli->0.features@.last().options@.len() == 0
}

/// How the images of a plan are chosen anew once its configuration changed.
pub open spec fn chooses_images_anew(
    before: UpPlan,
    layers: ConfigMergeInput,
    config: ResolvedConfig,
    outcome: Result<UpPlan, UpError>,
) -> bool {
    let image = final_image(config, before.resources, before.uid_gid_sync_plan);
    let base = if before.config.spec_is_compose() {
        Some(before.base_image@)
    } else {
        base_image(config, before.resources)
    };
    match outcome {
        Ok(after) => {
            &&& image == Some(after.image@)
            &&& base == Some(after.base_image@)
            &&& after == (UpPlan {
                config_layers: layers,
                config,
                feature_install: None,
                image: after.image,
                base_image: after.base_image,
                ..before
            })
        },
        Err(error) => (image is None || base is None) && error@ == seq![
            "Devcontainer image is required"@,
        ],
    }
}

/// How the GitHub CLI is added to a plan.
pub open spec fn adds_feature<S: PlanServices>(
    services: &S,
    before: UpPlan,
    outcome: Result<UpPlan, UpError>,
) -> bool {
    if has_github_cli(before.config) {
        outcome == Ok::<UpPlan, UpError>(before)
    } else {
        exists|layers: ConfigMergeInput, config: ResolvedConfig|
            {
                &&& layers_with_github_cli(before.config_layers, layers)
                &&& #[trigger] call_ensures(S::resolve_config, (services, &layers), config)
                &&& chooses_images_anew(before, layers, config, outcome)
            }
    }
}

/// Adds the GitHub CLI to a plan, as if the command line had asked for it;
/// nothing is done where the plan has it. The base image of a Compose project
/// stays.
pub fn add_github_cli_feature_to_plan<S: PlanServices>(
    services: &S,
    plan: UpPlan,
) -> (res: Result<UpPlan, UpError>)
    ensures
        adds_feature(services, plan, res),
{
    if config_has_github_cli_feature(&plan.config) {
        return Ok(plan);
    }
    let ghost before = plan;
    let mut plan = plan;
    let preserve_base_image = plan.config.is_compose();
    let mut cli_layer = match plan.config_layers.cli {
        Some(layer) => layer,
        None => ConfigLayer::empty(),
    };
    let ghost known = cli_layer.features@;
    assert(known =~= match before.config_layers.cli {
        Some(layer) => layer.features@,
        None => Seq::empty(),
    });
    assert(cli_layer.ports@ =~= match before.config_layers.cli {
        Some(layer) => layer.ports@,
        None => Seq::empty(),
    });
    cli_layer.features.push(LayerFeature::new(GITHUB_CLI_FEATURE_REF.to_owned()));
    assert(cli_layer.features@.drop_last() =~= known);
    plan.config_layers.cli = Some(cli_layer);
    let ghost layers = plan.config_layers;
    assert(layers_with_github_cli(before.config_layers, layers));
    plan.config = services.resolve_config(&plan.config_layers);
    let ghost config = plan.config;
    assert(call_ensures(S::resolve_config, (services, &layers), config));
    plan.feature_install = None;
    match final_image_source(&plan.config, &plan.resources, &plan.uid_gid_sync_plan) {
        Ok(image) => {
            plan.image = image;
        },
        Err(error) => {
            return Err(error);
        },
    }
    if !preserve_base_image {
        match base_image_source(&plan.config, &plan.resources, &plan.uid_gid_sync_plan) {
            Ok(image) => {
                plan.base_image = image;
            },
            Err(error) => {
                return Err(error);
            },
        }
    }
    Ok(plan)
}

/// The GitHub CLI is added once: a plan that has it stays as it is.
pub proof fn github_cli_is_added_once<S: PlanServices>(
    services: &S,
    plan: UpPlan,
    once: UpPlan,
    twice: Result<UpPlan, UpError>,
)
    requires
        adds_feature(services, plan, Ok(once)),
        has_github_cli(once.config),
        adds_feature(services, once, twice),
    ensures
        twice == Ok::<UpPlan, UpError>(once),
{
}

/// Adding the GitHub CLI to a plan on a configured image keeps that image as
/// the base and makes the container from the tool's own, as soon as the
/// configuration has the Feature.
pub proof fn github_cli_needs_a_layer<S: PlanServices>(
    services: &S,
    plan: UpPlan,
    after: UpPlan,
)
    requires
        !has_github_cli(plan.config),
        !plan.config.spec_is_compose(),
        adds_feature(services, plan, Ok(after)),
        has_github_cli(after.config),
    ensures
        after.image@ == plan.resources.image_tag@,
        after.config.devcontainer.source matches Some(
            crate::config::ResolvedDevcontainerSource::Image(image),
        ) ==> after.base_image@ == image@,
{
}

/// The image that is asked whether it has the GitHub CLI.
#[derive(Debug)]
pub struct CommandProbeImage {
    /// The image.
    pub image: String,
    /// Whether it is that of an existing container.
    pub uses_existing_image: bool,
}

/// The image that is asked whether it has the GitHub CLI: that of an existing
/// container, where there is one. It is not built anew for that, so that
/// changes do not show before it is decided what becomes of the container.
pub fn prepare_command_probe_image_for_plan(remote_user_image: Option<&String>) -> (res: Option<
    CommandProbeImage,
>)
    ensures
        match remote_user_image {
            Some(image) => res == Some(
                CommandProbeImage { image: *image, uses_existing_image: true },
            ),
            None => res is None,
        },
{
    match remote_user_image {
        Some(image) => Some(
            CommandProbeImage { image: image.clone(), uses_existing_image: true },
        ),
        None => None,
    }
}

/// The image that is asked, or that none is.
pub open spec fn probes(
    config: ResolvedConfig,
    host_token_available: bool,
    remote_user_image: Option<&String>,
    lookup_image: String,
    outcome: Option<CommandProbeImage>,
) -> bool {
    if adds_github_cli(config, host_token_available, false) {
        outcome == Some(
            match remote_user_image {
                Some(image) => CommandProbeImage { image: *image, uses_existing_image: true },
                None => CommandProbeImage { image: lookup_image, uses_existing_image: false },
            },
        )
    } else {
        outcome is None
    }
}

/// The image that is asked whether it has the GitHub CLI; none where it would
/// not be added anyway.
pub fn github_cli_probe(
    config: &ResolvedConfig,
    host_token_available: bool,
    remote_user_image: Option<&String>,
    lookup_image: &String,
) -> (res: Option<CommandProbeImage>)
    ensures
        probes(*config, host_token_available, remote_user_image, *lookup_image, res),
{
    if !should_auto_add_github_cli_feature(config, host_token_available, false) {
        return None;
    }
    match prepare_command_probe_image_for_plan(remote_user_image) {
        Some(probe) => Some(probe),
        None => Some(
            CommandProbeImage { image: lookup_image.clone(), uses_existing_image: false },
        ),
    }
}

/// What becomes of the plan once the image was asked.
#[derive(Debug, Clone, Copy, PartialEq, Eq, Structural)]
pub enum GithubCliChoice {
    /// It stays as it is.
    KeepPlan,
    /// The GitHub CLI is added.
    AddFeature,
    /// It is told by the hash of the existing container whether it was added
    /// then.
    CompareWithExisting,
}

/// What becomes of the plan once the image was asked.
pub open spec fn choice_after_probe(
    config: ResolvedConfig,
    host_token_available: bool,
    uses_existing_image: bool,
    image_has_gh: bool,
) -> GithubCliChoice {
    if image_has_gh && uses_existing_image {
        GithubCliChoice::CompareWithExisting
    } else if adds_github_cli(config, host_token_available, image_has_gh) {
        GithubCliChoice::AddFeature
    } else {
        GithubCliChoice::KeepPlan
    }
}

/// What becomes of the plan once the image was asked. The image of an
/// existing container may have the GitHub CLI because the tool added it.
pub fn maybe_auto_add_github_cli_feature_to_plan(
    config: &ResolvedConfig,
    host_token_available: bool,
    uses_existing_image: bool,
    image_has_gh: bool,
) -> (res: GithubCliChoice)
    ensures
        res == choice_after_probe(
            *config,
            host_token_available,
            uses_existing_image,
            image_has_gh,
        ),
{
    if image_has_gh && uses_existing_image {
        return GithubCliChoice::CompareWithExisting;
    }
    if should_auto_add_github_cli_feature(config, host_token_available, image_has_gh) {
        GithubCliChoice::AddFeature
    } else {
        GithubCliChoice::KeepPlan
    }
}

/// What is compared with the hash of an existing container next.
#[derive(Debug, Clone, Copy, PartialEq, Eq, Structural)]
pub enum ExistingHashStep {
    /// The plan stays as it is.
    KeepPlan,
    /// The plan as it is.
    ComparePlan,
    /// The plan with the GitHub CLI added.
    CompareCandidate,
    /// The plan with the GitHub CLI added is used.
    UseCandidate,
}

/// What is compared with the hash of an existing container next, given the
/// hashes that were made out: the plan as it is, then with the GitHub CLI
/// added, where it would be for an image without it. The plan that has the
/// hash of the container is used, and the plan as it is where neither has.
pub open spec fn existing_hash_step(
    config: ResolvedConfig,
    existing_hash: Option<Seq<char>>,
    plan_hash: Option<Seq<char>>,
    candidate_hash: Option<Seq<char>>,
) -> ExistingHashStep {
    match (existing_hash, plan_hash, candidate_hash) {
        (None, _, _) => ExistingHashStep::KeepPlan,
        (Some(_), None, _) => ExistingHashStep::ComparePlan,
        (Some(existing), Some(plan), candidate) => if plan == existing || !adds_github_cli(
            config,
            true,
            false,
        ) {
            ExistingHashStep::KeepPlan
        } else {
            match candidate {
                None => ExistingHashStep::CompareCandidate,
                Some(candidate) => if candidate == existing {
                    ExistingHashStep::UseCandidate
                } else {
                    ExistingHashStep::KeepPlan
                },
            }
        },
    }
}

/// What is compared with the hash of an existing container next.
pub fn choose_github_cli_feature_plan_for_existing_image_probe(
    config: &ResolvedConfig,
    existing_hash: Option<&str>,
    plan_hash: Option<&str>,
    candidate_hash: Option<&str>,
) -> (res: ExistingHashStep)
    ensures
        res == existing_hash_step(
            *config,
            crate::uid_gid::borrowed_view(existing_hash),
            crate::uid_gid::borrowed_view(plan_hash),
            crate::uid_gid::borrowed_view(candidate_hash),
        ),
{
    let existing = match existing_hash {
        Some(existing) => existing,
        None => {
            return ExistingHashStep::KeepPlan;
        },
    };
    let plan = match plan_hash {
        Some(plan) => plan,
        None => {
            return ExistingHashStep::ComparePlan;
        },
    };
    if same_text(plan, existing) || !should_auto_add_github_cli_feature(config, true, false) {
        return ExistingHashStep::KeepPlan;
    }
    match candidate_hash {
        None => ExistingHashStep::CompareCandidate,
        Some(candidate) => if same_text(candidate, existing) {
            ExistingHashStep::UseCandidate
        } else {
            ExistingHashStep::KeepPlan
        },
    }
}

/// What is done with images once the GitHub CLI was added to a plan: its
/// image is made, where that is allowed, and looked at from then on.
pub fn github_cli_image_lookup(
    plan: &UpPlan,
    lookup: ImageLookup,
    build: Option<LookupBuild>,
) -> (res: (Vec<ImageAction>, ImageLookup))
    ensures
        match build {
            None => res.0@.len() == 0 && res.1 == lookup,
            Some(build) => {
                &&& res.0@ == seq![
                    ImageAction::PrepareBaseImage { build },
                    ImageAction::BuildFeatureLayer { no_cache: build.no_cache },
                ]
                &&& res.1 == (ImageLookup {
                    image: Some(plan.image),
                    base_image: Some(plan.base_image),
                    prepared: true,
                    ..lookup
                })
            },
        },
{
    let mut actions: Vec<ImageAction> = Vec::new();
    match build {
        None => (actions, lookup),
        Some(build) => {
            actions.push(ImageAction::PrepareBaseImage { build });
            actions.push(ImageAction::BuildFeatureLayer { no_cache: build.no_cache });
            assert(actions@ =~= seq![
                ImageAction::PrepareBaseImage { build },
                ImageAction::BuildFeatureLayer { no_cache: build.no_cache },
            ]);
            (
                actions,
                ImageLookup {
                    image: Some(plan.image.clone()),
                    base_image: Some(plan.base_image.clone()),
                    stale: lookup.stale,
                    prepared: true,
                    deferred: lookup.deferred,
                },
            )
        },
    }
}

/// The command that tells whether an image has a command.
pub fn command_probe_arguments(command: &str) -> (res: Vec<String>)
    ensures
        views(res@) == seq!["-c"@, "command -v "@ + command@ + " >/dev/null 2>&1"@],
{
    let mut script = "command -v ".to_owned();
    script.append(command);
    script.append(" >/dev/null 2>&1");
    let mut arguments: Vec<String> = Vec::new();
    arguments.push("-c".to_owned());
    arguments.push(script);
    assert(views(arguments@) =~= seq!["-c"@, "command -v "@ + command@ + " >/dev/null 2>&1"@]);
    arguments
}

/// Whether an image has a command, given what the container that was asked
/// ended with and whether it could be removed.
pub open spec fn command_answer(
    name: Seq<char>,
    ended: Result<i64, UpError>,
    removed: Result<(), UpError>,
    outcome: Result<bool, UpError>,
) -> bool {
    match (ended, removed) {
        (Ok(exit_code), Ok(())) => outcome == Ok::<bool, UpError>(exit_code == 0),
        (Err(error), Ok(())) => outcome == Err::<bool, UpError>(error),
        (Ok(_), Err(cause)) => outcome is Err && outcome->Err_0@ == seq![
            "Failed to remove command probe container: "@ + name,
        ] + cause@,
        (Err(error), Err(cause)) => outcome is Err && outcome->Err_0@ == seq![
            "Failed to remove command probe container "@ + name + ": "@ + joined(
                cause.chain@,
                ": "@,
            ),
        ] + error@,
    }
}

/// Whether an image has a command: the container that was asked ended with
/// zero. What went wrong is told, with a container that could not be removed.
pub fn image_has_command(
    name: &str,
    ended: Result<i64, UpError>,
    removed: Result<(), UpError>,
) -> (res: Result<bool, UpError>)
    ensures
        command_answer(name@, ended, removed, res),
{
    match (ended, removed) {
        (Ok(exit_code), Ok(())) => Ok(exit_code == 0),
        (Err(error), Ok(())) => Err(error),
        (Ok(_), Err(cause)) => {
            let mut message = "Failed to remove command probe container: ".to_owned();
            message.append(name);
            Err(cause.context(message.as_str()))
        },
        (Err(error), Err(cause)) => {
            let mut message = "Failed to remove command probe container ".to_owned();
            message.append(name);
            message.append(": ");
            message.append(join(&cause.chain, ": ").as_str());
            Err(error.context(message.as_str()))
        },
    }
}

/// How the environment is made out in which an image is asked.
pub open spec fn makes_probe_environment<S: PlanServices>(
    services: &S,
    workspace: &Workspace,
    ids: HostUserIds,
    plan: UpPlan,
    remote_user: ResolvedRemoteUser,
    outcome: Result<TextMap<String>, UpError>,
) -> bool {
    exists|location: Result<WorkspaceLocation, UpError>| #[trigger]
        locates_workspace(
            services,
            workspace,
            &plan.config,
            WorkspaceLocationValidation::RuntimeResolved,
            MountResolution::Resolve,
            known_at_runtime(
                *workspace,
                remote_user.user@,
                opt_view(remote_user.home),
                ids,
            ),
            location,
        ) && match location {
            Err(error) => outcome == Err::<TextMap<String>, UpError>(error),
            Ok(location) => exists|
                variables: VariableContext,
                environment: Result<TrackedValues, UpError>,
            |
                {
                    &&& describes(
                        variables,
                        *workspace,
                        location.workspace_folder@,
                        remote_user.user@,
                        opt_view(remote_user.home),
                        ids,
                    )
                    &&& #[trigger] call_ensures(
                        S::expand_container_env,
                        (services, &plan.config.devcontainer.container_env, &variables),
                        environment,
                    )
                    &&& outcome == match environment {
                        Ok(environment) => Ok::<TextMap<String>, UpError>(environment.values),
                        Err(error) => Err::<TextMap<String>, UpError>(error),
                    }
                },
        }
}

/// The environment in which an image is asked whether it has the GitHub CLI:
/// that of the container, for the user that tools run as.
pub fn command_probe_container_env<S: PlanServices>(
    services: &S,
    workspace: &Workspace,
    ids: HostUserIds,
    plan: &UpPlan,
    remote_user: &ResolvedRemoteUser,
) -> (res: Result<TextMap<String>, UpError>)
    ensures
        makes_probe_environment(services, workspace, ids, *plan, *remote_user, res),
{
    let location = match locate_at_runtime(
        services,
        workspace,
        &plan.config,
        &remote_user.user,
        &remote_user.home,
        ids,
    ) {
        Ok(location) => location,
        Err(error) => {
            return Err(error);
        },
    };
    let variables = mount_variable_context(
        workspace,
        location.workspace_folder.as_str(),
        remote_user.user.clone(),
        copy_optional_text(&remote_user.home),
        ids,
    );
    match services.expand_container_env(&plan.config.devcontainer.container_env, &variables) {
        Ok(environment) => Ok(environment.values),
        Err(error) => Err(error),
    }
}

} // verus!
