//! What an image sets, and which image is looked at for an existing
//! container.

use crate::config::ConfigLayer;
use crate::docker::{HostEnvironment, ImageStartupCommand};
use crate::error::UpError;
use crate::hash_input::StartupCommandHashInput;
use crate::config::ResolvedDevcontainerSource;
use crate::plan::assemble::{
    build_up_plan_with_forwarding_resolution,
    build_up_plan_with_image_metadata_and_forwarding_resolution, builds_plain_plan, builds_plan,
    PlanSources, UpPlanRequest,
};
use crate::services::PlanServices;
use crate::startup_command::{
    effective_command, effective_entrypoint, effective_startup_command, ComposeConfigService,
};
use crate::types::{ForwardingResolution, MountResolution, UpPlan, UpPlanResolution, Workspace};
use crate::uid_gid::{effective_users_depend_on_image_config_user, names_no_user};
use vstd::prelude::*;

verus! {

/// What an image sets.
#[derive(Debug)]
pub struct ImageMetadataLayers {
    /// The layers, weakest first.
    pub layers: Vec<ConfigLayer>,
    /// Whether it names ports to forward.
    pub has_forward_ports: bool,
}

/// How a plan is built on what an image sets: as it is without, where the
/// image sets nothing.
pub open spec fn builds_on_image<S: PlanServices>(
    services: &S,
    workspace: &Workspace,
    host: HostEnvironment,
    cli_layer: ConfigLayer,
    metadata: Option<ImageMetadataLayers>,
    resolution: UpPlanResolution,
    sources: PlanSources,
    outcome: Result<UpPlan, UpError>,
) -> bool {
    if metadata is None || metadata->0.layers@.len() == 0 {
        builds_plain_plan(
            services,
            workspace,
            host,
            cli_layer,
            MountResolution::Resolve,
            resolution,
            sources,
            outcome,
        )
    } else {
        builds_plan(
            services,
            workspace,
            host,
            UpPlanRequest {
                cli_layer,
                image_metadata: metadata->0.layers,
                ignored_image_metadata_forwarding: resolution.forwarding
                    != ForwardingResolution::Resolve && metadata->0.has_forward_ports,
                mount_resolution: MountResolution::Resolve,
                resolution,
            },
            sources,
            outcome,
        )
    }
}

/// Builds a plan on what an image sets; `metadata` is absent where no image
/// was read.
pub fn build_plan_on_image<S: PlanServices>(
    services: &S,
    workspace: &Workspace,
    host: HostEnvironment,
    cli_layer: ConfigLayer,
    metadata: Option<ImageMetadataLayers>,
    resolution: UpPlanResolution,
    sources: PlanSources,
) -> (res: Result<UpPlan, UpError>)
    ensures
        builds_on_image(
            services,
            workspace,
            host,
            cli_layer,
            metadata,
            resolution,
            sources,
            res,
        ),
{
    if let Some(metadata) = metadata {
        if metadata.layers.len() > 0 {
            let ignored = resolution.forwarding != ForwardingResolution::Resolve
                && metadata.has_forward_ports;
            return build_up_plan_with_image_metadata_and_forwarding_resolution(
                services,
                workspace,
                host,
                cli_layer,
                metadata.layers,
                ignored,
                resolution,
                sources,
            );
        }
    }
    build_up_plan_with_forwarding_resolution(
        services,
        workspace,
        host,
        cli_layer,
        resolution.forwarding,
        resolution.update_features,
        resolution.skip_global_config,
        sources,
    )
}

/// Which image's settings are read to decide about an existing container.
#[derive(Debug)]
pub enum DecisionMetadataStep {
    /// None: the plan is built without.
    BuildPlain,
    /// Those of this image, if it is there.
    Read {
        /// The image.
        image: String,
    },
    /// Those that were read.
    UseRead,
}

/// What reading the settings of an image came to.
#[derive(Debug, Clone, Copy, PartialEq, Eq, Structural)]
pub enum MetadataRead {
    /// They were not read yet.
    Pending,
    /// The image is not there.
    Missing,
    /// They were read.
    Found,
}

/// Which image's settings are read next to decide about an existing
/// container: none where the image is built from a Dockerfile; else those of
/// the base image, or, where it is gone, of the image of the container.
pub open spec fn decision_metadata_step(
    plan: UpPlan,
    existing_image: Option<String>,
    base_read: MetadataRead,
    existing_read: MetadataRead,
) -> DecisionMetadataStep {
    if plan.build_context is Some {
        DecisionMetadataStep::BuildPlain
    } else {
        match base_read {
            MetadataRead::Pending => DecisionMetadataStep::Read { image: plan.base_image },
            MetadataRead::Found => DecisionMetadataStep::UseRead,
            MetadataRead::Missing => match existing_image {
                None => DecisionMetadataStep::BuildPlain,
                Some(image) => match existing_read {
                    MetadataRead::Pending => DecisionMetadataStep::Read { image },
                    MetadataRead::Found => DecisionMetadataStep::UseRead,
                    MetadataRead::Missing => DecisionMetadataStep::BuildPlain,
                },
            },
        }
    }
}

/// Which image's settings are read next to decide about an existing
/// container.
pub fn build_existing_container_decision_plan(
    preliminary_plan: &UpPlan,
    existing_container_image_id: Option<&String>,
    base_read: MetadataRead,
    existing_read: MetadataRead,
) -> (res: DecisionMetadataStep)
    ensures
        res == decision_metadata_step(
            *preliminary_plan,
            match existing_container_image_id {
                Some(image) => Some(*image),
                None => None,
            },
            base_read,
            existing_read,
        ),
{
    if preliminary_plan.build_context.is_some() {
        return DecisionMetadataStep::BuildPlain;
    }
    match base_read {
        MetadataRead::Pending => DecisionMetadataStep::Read {
            image: preliminary_plan.base_image.clone(),
        },
        MetadataRead::Found => DecisionMetadataStep::UseRead,
        MetadataRead::Missing => match existing_container_image_id {
            None => DecisionMetadataStep::BuildPlain,
            Some(image) => match existing_read {
                MetadataRead::Pending => DecisionMetadataStep::Read { image: image.clone() },
                MetadataRead::Found => DecisionMetadataStep::UseRead,
                MetadataRead::Missing => DecisionMetadataStep::BuildPlain,
            },
        },
    }
}

/// What the reads came to, once one more was made: that of the base image
/// comes first, that of the container's image after it.
pub fn note_metadata_read(
    base_read: MetadataRead,
    existing_read: MetadataRead,
    found: bool,
) -> (res: (MetadataRead, MetadataRead))
    ensures
        ({
            let read = if found {
                MetadataRead::Found
            } else {
                MetadataRead::Missing
            };
            res == if base_read == MetadataRead::Pending {
                (read, existing_read)
            } else {
                (base_read, read)
            }
        }),
{
    let read = if found {
        MetadataRead::Found
    } else {
        MetadataRead::Missing
    };
    if base_read == MetadataRead::Pending {
        (read, existing_read)
    } else {
        (base_read, read)
    }
}

/// When an image is pulled.
#[derive(Debug, Clone, Copy, PartialEq, Eq, Structural)]
pub enum PullPolicy {
    /// Always.
    Always,
    /// Where it is missing.
    Missing,
}

/// When an image is pulled: where it is missing, unless pulling is asked for.
pub fn pull_policy(pull: bool) -> (res: PullPolicy)
    ensures
        res == if pull {
            PullPolicy::Always
        } else {
            PullPolicy::Missing
        },
{
    if pull {
        PullPolicy::Always
    } else {
        PullPolicy::Missing
    }
}

/// How the base image of a new container is prepared to be read: it is there
/// where it is configured, and is not where it is built from a Dockerfile.
pub fn prepare_image_based_metadata(preliminary_plan: &UpPlan, pull: bool) -> (res: Option<
    PullPolicy,
>)
    ensures
        match res {
            None => preliminary_plan.build_context is Some,
            Some(policy) => preliminary_plan.build_context is None && policy == if pull {
                PullPolicy::Always
            } else {
                PullPolicy::Missing
            },
        },
{
    if preliminary_plan.build_context.is_some() {
        None
    } else {
        Some(pull_policy(pull))
    }
}

/// How a plan of a Compose project is built on what the image of its primary
/// service sets.
pub open spec fn builds_on_compose_image<S: PlanServices>(
    services: &S,
    workspace: &Workspace,
    host: HostEnvironment,
    cli_layer: ConfigLayer,
    preliminary: UpPlan,
    image: String,
    metadata: ImageMetadataLayers,
    resolution: UpPlanResolution,
    sources: PlanSources,
    outcome: Result<UpPlan, UpError>,
) -> bool {
    if metadata.layers@.len() == 0 {
        outcome == Ok::<UpPlan, UpError>(preliminary)
    } else {
        exists|plan: Result<UpPlan, UpError>| #[trigger]
            builds_on_image(
                services,
                workspace,
                host,
                cli_layer,
                Some(metadata),
                resolution,
                sources,
                plan,
            ) && match plan {
                Err(error) => outcome == Err::<UpPlan, UpError>(error),
                Ok(plan) => outcome == Ok::<UpPlan, UpError>(
                    UpPlan { base_image: image, ..plan },
                ),
            }
    }
}

/// Builds a plan of a Compose project on what the image of its primary
/// service sets; the plan stays as it is where it sets nothing.
pub fn prepare_compose_image_metadata<S: PlanServices>(
    services: &S,
    workspace: &Workspace,
    host: HostEnvironment,
    cli_layer: ConfigLayer,
    preliminary_plan: UpPlan,
    compose_primary_image: &String,
    metadata: ImageMetadataLayers,
    resolution: UpPlanResolution,
    sources: PlanSources,
) -> (res: Result<UpPlan, UpError>)
    ensures
        builds_on_compose_image(
            services,
            workspace,
            host,
            cli_layer,
            preliminary_plan,
            *compose_primary_image,
            metadata,
            resolution,
            sources,
            res,
        ),
{
    if metadata.layers.len() == 0 {
        return Ok(preliminary_plan);
    }
    let ghost read = metadata;
    let built = build_plan_on_image(
        services,
        workspace,
        host,
        cli_layer,
        Some(metadata),
        resolution,
        sources,
    );
    assert(builds_on_image(
        services,
        workspace,
        host,
        cli_layer,
        Some(read),
        resolution,
        sources,
        built,
    ));
    match built {
        Err(error) => Err(error),
        Ok(plan) => {
            let mut plan = plan;
            plan.base_image = compose_primary_image.clone();
            Ok(plan)
        },
    }
}

/// Whether the settings of an image are read to complete a plan: only where
/// it was built from a Dockerfile.
pub fn dockerfile_image_metadata_for_plan(plan: &UpPlan) -> (res: bool)
    ensures
        res == (plan.build_context is Some),
{
    plan.build_context.is_some()
}

/// What is done to find the image of which an existing container's users are
/// told.
#[derive(Debug, Clone, Copy, PartialEq, Eq)]
pub enum RemoteUserImageStep<'a> {
    /// It is looked whether the base image is there.
    LookForBaseImage,
    /// The image of the container is used, where it is known.
    UseContainerImage(Option<&'a String>),
    /// The image of the container does not matter.
    UseNone,
}

/// What is done to find the image of which an existing container's users are
/// told, given whether the base image is there: the container's own image
/// where it was built, where no user is named, or where the base image is
/// gone. Whether it is gone is not asked where it makes no difference.
pub fn existing_remote_user_image_for_decision<'a>(
    plan: &UpPlan,
    existing_container_image: Option<&'a String>,
    base_image_present: Option<bool>,
) -> (res: RemoteUserImageStep<'a>)
    ensures
        res == if plan.build_context is Some || names_no_user(plan.config_layers)
            || base_image_present == Some(false) {
            RemoteUserImageStep::UseContainerImage(existing_container_image)
        } else if base_image_present is None {
            RemoteUserImageStep::LookForBaseImage
        } else {
            RemoteUserImageStep::UseNone
        },
{
    if plan.build_context.is_some() || effective_users_depend_on_image_config_user(plan) {
        return RemoteUserImageStep::UseContainerImage(existing_container_image);
    }
    match base_image_present {
        None => RemoteUserImageStep::LookForBaseImage,
        Some(true) => RemoteUserImageStep::UseNone,
        Some(false) => RemoteUserImageStep::UseContainerImage(existing_container_image),
    }
}

/// The image whose own command goes into the hash: the configured one where
/// it is there, and else the one that is looked at.
pub fn startup_command_image(
    plan: &UpPlan,
    lookup_image: &String,
    configured_image_present: bool,
) -> (res: String)
    ensures
        res == match plan.config.devcontainer.source {
            Some(ResolvedDevcontainerSource::Image(image)) => if configured_image_present {
                image
            } else {
                *lookup_image
            },
            _ => *lookup_image,
        },
{
    match &plan.config.devcontainer.source {
        Some(ResolvedDevcontainerSource::Image(image)) => if configured_image_present {
            image.clone()
        } else {
            lookup_image.clone()
        },
        _ => lookup_image.clone(),
    }
}

/// Whether what the container runs by itself goes into the hash: not where
/// its command is overridden.
pub fn startup_command_is_hashed(plan: &UpPlan) -> (res: bool)
    ensures
        res == !plan.config.devcontainer.override_command,
{
    !plan.config.devcontainer.override_command
}

/// What the container runs by itself, for the hash.
pub fn startup_command_hash_input(
    image_startup: ImageStartupCommand,
    compose_primary_service: Option<&ComposeConfigService>,
) -> (res: StartupCommandHashInput)
    ensures
        res.entrypoint@ == effective_entrypoint(image_startup, compose_primary_service),
        res.command@ == effective_command(image_startup, compose_primary_service),
{
    let startup = effective_startup_command(image_startup, compose_primary_service);
    StartupCommandHashInput { entrypoint: startup.entrypoint, command: startup.command }
}

} // verus!
