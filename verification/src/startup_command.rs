//! What a container runs by itself.

use crate::docker::{copy_texts, ImageStartupCommand};
use vstd::prelude::*;

verus! {

/// What the Compose files say of a service.
#[derive(Debug, Clone, Default)]
pub struct ComposeConfigService {
    /// The entrypoint, where it is set.
    pub entrypoint: Option<Vec<String>>,
    /// The command, where it is set.
    pub command: Option<Vec<String>>,
    /// The user, where it is set.
    pub user: Option<String>,
}

/// A part of the start-up command: the service's, where it has one.
pub open spec fn service_part(
    image_part: Seq<String>,
    service: Option<&ComposeConfigService>,
    part: spec_fn(ComposeConfigService) -> Option<Vec<String>>,
) -> Seq<String> {
    match service {
        Some(service) => match part(*service) {
            Some(texts) => texts@,
            None => image_part,
        },
        None => image_part,
    }
}

/// The entrypoint that takes effect.
pub open spec fn effective_entrypoint(
    image: ImageStartupCommand,
    service: Option<&ComposeConfigService>,
) -> Seq<String> {
    service_part(image.entrypoint@, service, |service: ComposeConfigService| service.entrypoint)
}

/// The command that takes effect.
pub open spec fn effective_command(
    image: ImageStartupCommand,
    service: Option<&ComposeConfigService>,
) -> Seq<String> {
    service_part(image.command@, service, |service: ComposeConfigService| service.command)
}

/// What a container runs by itself: the image's entrypoint and command, each
/// replaced by the service's where it has one.
pub fn effective_startup_command(
    image_startup: ImageStartupCommand,
    compose_primary_service: Option<&ComposeConfigService>,
) -> (res: ImageStartupCommand)
    ensures
        res.entrypoint@ == effective_entrypoint(image_startup, compose_primary_service),
        res.command@ == effective_command(image_startup, compose_primary_service),
{
    match compose_primary_service {
        None => image_startup,
        Some(service) => ImageStartupCommand {
            entrypoint: match &service.entrypoint {
                Some(entrypoint) => copy_texts(entrypoint),
                None => image_startup.entrypoint,
            },
            command: match &service.command {
                Some(command) => copy_texts(command),
                None => image_startup.command,
            },
        },
    }
}

} // verus!
