//! Which image a container is made from, and which one layers are put on.

use crate::config::{ResolvedConfig, ResolvedDevcontainerSource};
use crate::docker::{
    copy_optional_text, copy_texts, DockerBuildOptions, DockerResources, ResolvedBuildContext,
    UidGidSyncPlan,
};
use crate::error::UpError;
use crate::services::PlanServices;
use crate::types::Workspace;
use crate::uid_gid::uid_gid_sync_plan_requires_layer;
use vstd::prelude::*;
use vstd::string::*;

verus! {

/// Whether Features or entrypoints need a layer on the base image.
pub open spec fn needs_workspace_layer(config: ResolvedConfig) -> bool {
    config.features@.len() > 0 || config.devcontainer.entrypoints@.len() > 0
}

/// Whether Features or entrypoints need a layer on the base image.
pub fn config_requires_workspace_layer(config: &ResolvedConfig) -> (res: bool)
    ensures
        res == needs_workspace_layer(*config),
{
    config.features.len() > 0 || config.devcontainer.entrypoints.len() > 0
}

/// The image that the container is made from, if a source is configured.
pub open spec fn final_image(
    config: ResolvedConfig,
    resources: DockerResources,
    uid_gid_sync_plan: UidGidSyncPlan,
) -> Option<Seq<char>> {
    if needs_workspace_layer(config) || uid_gid_sync_plan is Sync {
        Some(resources.image_tag@)
    } else {
        match config.devcontainer.source {
            Some(ResolvedDevcontainerSource::Image(image)) => Some(image@),
            Some(_) => Some(resources.image_tag@),
            None => None,
        }
    }
}

/// The image that layers are put on, if a source is configured.
pub open spec fn base_image(config: ResolvedConfig, resources: DockerResources) -> Option<
    Seq<char>,
> {
    match config.devcontainer.source {
        Some(ResolvedDevcontainerSource::Image(image)) => Some(image@),
        Some(ResolvedDevcontainerSource::Dockerfile(_)) => if needs_workspace_layer(config) {
            Some(resources.image_tag@ + "-base"@)
        } else {
            Some(resources.image_tag@)
        },
        Some(ResolvedDevcontainerSource::Compose(_)) => Some(resources.image_tag@),
        None => None,
    }
}

/// Whether a result gives an image, or says that there is none.
pub open spec fn gives_image(image: Option<Seq<char>>, outcome: Result<String, UpError>) -> bool {
    match outcome {
        Ok(text) => image == Some(text@),
        Err(error) => image is None && error@ == seq!["Devcontainer image is required"@],
    }
}

/// The image that the container is made from: the tool's own where a layer is
/// put on the configured one.
pub fn final_image_source(
    config: &ResolvedConfig,
    resources: &DockerResources,
    uid_gid_sync_plan: &UidGidSyncPlan,
) -> (res: Result<String, UpError>)
    ensures
        gives_image(final_image(*config, *resources, *uid_gid_sync_plan), res),
{
    if config_requires_workspace_layer(config) || uid_gid_sync_plan_requires_layer(
        uid_gid_sync_plan,
    ) {
        return Ok(resources.image_tag.clone());
    }
    match &config.devcontainer.source {
        Some(ResolvedDevcontainerSource::Image(image)) => Ok(image.clone()),
        Some(ResolvedDevcontainerSource::Dockerfile(_)) => Ok(resources.image_tag.clone()),
        Some(ResolvedDevcontainerSource::Compose(_)) => Ok(resources.image_tag.clone()),
        None => Err(UpError::from_text("Devcontainer image is required")),
    }
}

/// The image that layers are put on.
pub fn base_image_source(
    config: &ResolvedConfig,
    resources: &DockerResources,
    _uid_gid_sync_plan: &UidGidSyncPlan,
) -> (res: Result<String, UpError>)
    ensures
        gives_image(base_image(*config, *resources), res),
{
    match &config.devcontainer.source {
        Some(ResolvedDevcontainerSource::Image(image)) => Ok(image.clone()),
        Some(ResolvedDevcontainerSource::Dockerfile(_)) => {
            let mut image = resources.image_tag.clone();
            if config_requires_workspace_layer(config) {
                image.append("-base");
            }
            Ok(image)
        },
        Some(ResolvedDevcontainerSource::Compose(_)) => Ok(resources.image_tag.clone()),
        None => Err(UpError::from_text("Devcontainer image is required")),
    }
}

/// A configured image is used as it is exactly where no layer is put on it,
/// unless the tool's own image has the same name.
pub proof fn configured_image_is_used_without_layers(
    config: ResolvedConfig,
    resources: DockerResources,
    uid_gid_sync_plan: UidGidSyncPlan,
)
    requires
        config.devcontainer.source matches Some(ResolvedDevcontainerSource::Image(image)) && image@
            != resources.image_tag@,
    ensures
        (final_image(config, resources, uid_gid_sync_plan) == base_image(config, resources)) == (
        !needs_workspace_layer(config) && !(uid_gid_sync_plan is Sync)),
{
}

/// A Dockerfile's image carries the name of the container's image exactly
/// where Features and entrypoints need no layer of their own.
pub proof fn dockerfile_base_has_its_own_name_below_a_layer(
    config: ResolvedConfig,
    resources: DockerResources,
    uid_gid_sync_plan: UidGidSyncPlan,
)
    requires
        config.devcontainer.source matches Some(ResolvedDevcontainerSource::Dockerfile(_)),
    ensures
        (final_image(config, resources, uid_gid_sync_plan) == base_image(config, resources))
            == !needs_workspace_layer(config),
{
    reveal_strlit("-base");
    assert((resources.image_tag@ + "-base"@).len() == resources.image_tag@.len() + 5);
}

/// How finding the input of a Dockerfile build ends.
pub open spec fn finds_build_input<S: PlanServices>(
    services: &S,
    workspace: &Workspace,
    devcontainer_file: &String,
    config: &ResolvedConfig,
    outcome: Result<(Option<ResolvedBuildContext>, DockerBuildOptions), UpError>,
) -> bool {
    match config.devcontainer.source {
        Some(ResolvedDevcontainerSource::Dockerfile(build)) => exists|
            answer: Result<ResolvedBuildContext, UpError>,
        | #[trigger]
            call_ensures(
                S::resolve_build_context,
                (services, workspace, devcontainer_file, &build),
                answer,
            ) && match answer {
                Ok(context) => {
                    &&& outcome is Ok
                    &&& outcome->Ok_0.0 == Some(context)
                    &&& outcome->Ok_0.1.build_args@ == build.args@
                    &&& outcome->Ok_0.1.build_arg_redactions@.len() == 0
                    &&& outcome->Ok_0.1.options@ == build.options@
                    &&& outcome->Ok_0.1.target == build.target
                    &&& outcome->Ok_0.1.cache_from@ == build.cache_from@
                    &&& !outcome->Ok_0.1.pull
                    &&& !outcome->Ok_0.1.no_cache
                },
                Err(error) => outcome == Err::<
                    (Option<ResolvedBuildContext>, DockerBuildOptions),
                    UpError,
                >(error),
            },
        _ => outcome matches Ok(input) && input.0 is None && input.1.is_plain(),
    }
}

/// What a Dockerfile build works on; nothing where there is no Dockerfile.
pub fn dockerfile_build_input<S: PlanServices>(
    services: &S,
    workspace: &Workspace,
    devcontainer_file: &String,
    config: &ResolvedConfig,
) -> (res: Result<(Option<ResolvedBuildContext>, DockerBuildOptions), UpError>)
    ensures
        finds_build_input(services, workspace, devcontainer_file, config, res),
{
    match &config.devcontainer.source {
        Some(ResolvedDevcontainerSource::Dockerfile(build)) => {
            match services.resolve_build_context(workspace, devcontainer_file, build) {
                Ok(context) => Ok(
                    (
                        Some(context),
                        DockerBuildOptions {
                            build_args: build.args.copied(),
                            build_arg_redactions: Vec::new(),
                            options: copy_texts(&build.options),
                            target: copy_optional_text(&build.target),
                            cache_from: copy_texts(&build.cache_from),
                            pull: false,
                            no_cache: false,
                        },
                    ),
                ),
                Err(error) => Err(error),
            }
        },
        _ => Ok((None, DockerBuildOptions::default())),
    }
}

} // verus!
