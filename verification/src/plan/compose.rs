//! The Compose project of a plan, and ports that only a Compose project can
//! forward.

use crate::config::{ResolvedConfig, ResolvedDevcontainerSource, ResolvedPortEntry};
use crate::error::UpError;
use crate::paths::has_parent;
use crate::services::PlanServices;
use crate::text::{decimal, decimal_text};
use crate::types::{ComposeProjectPlan, Workspace};
use vstd::prelude::*;
use vstd::string::*;

verus! {

/// How finding the Compose project ends.
pub open spec fn finds_compose_project<S: PlanServices>(
    services: &S,
    workspace: &Workspace,
    devcontainer_file: &String,
    config: &ResolvedConfig,
    outcome: Result<Option<ComposeProjectPlan>, UpError>,
) -> bool {
    match config.devcontainer.source {
        Some(ResolvedDevcontainerSource::Compose(compose)) => if has_parent(devcontainer_file@) {
            exists|answer: Result<ComposeProjectPlan, UpError>| #[trigger]
                call_ensures(
                    S::resolve_compose_project,
                    (services, workspace, devcontainer_file, &compose.files),
                    answer,
                ) && match answer {
                    Ok(project) => outcome == Ok::<Option<ComposeProjectPlan>, UpError>(
                        Some(project),
                    ),
                    Err(error) => outcome == Err::<Option<ComposeProjectPlan>, UpError>(error),
                }
        } else {
            outcome matches Err(error) && error@ == seq![
                "Failed to resolve devcontainer metadata directory: "@ + devcontainer_file@,
            ]
        },
        _ => outcome matches Ok(None),
    }
}

/// Finds the Compose project; there is none where the container is no service
/// of one.
pub fn compose_project_plan<S: PlanServices>(
    services: &S,
    workspace: &Workspace,
    devcontainer_file: &String,
    config: &ResolvedConfig,
) -> (res: Result<Option<ComposeProjectPlan>, UpError>)
    ensures
        finds_compose_project(services, workspace, devcontainer_file, config, res),
{
    match &config.devcontainer.source {
        Some(ResolvedDevcontainerSource::Compose(compose)) => {
            if !crate::paths::path_has_parent(devcontainer_file.as_str()) {
                let mut message = "Failed to resolve devcontainer metadata directory: ".to_owned();
                message.append(devcontainer_file.as_str());
                return Err(UpError::new(message));
            }
            match services.resolve_compose_project(workspace, devcontainer_file, &compose.files) {
                Ok(project) => Ok(Some(project)),
                Err(error) => Err(error),
            }
        },
        _ => Ok(None),
    }
}

/// The first port that names a service.
pub open spec fn first_service_port(entries: Seq<ResolvedPortEntry>) -> Option<ResolvedPortEntry>
    decreases entries.len(),
{
    if entries.len() == 0 {
        None
    } else if entries[0].service is Some {
        Some(entries[0])
    } else {
        first_service_port(entries.drop_first())
    }
}

/// How the check of ports that name a service ends.
pub open spec fn checks_service_ports(
    config: ResolvedConfig,
    outcome: Result<(), UpError>,
) -> bool {
    let port = first_service_port(config.ports.entries@);
    if config.spec_is_compose() || port is None {
        outcome is Ok
    } else {
        outcome matches Err(error) && error@ == seq![
            "Service-qualified port forwarding is only supported in Docker Compose mode: "@
                + port->0.service->0@ + ":"@ + decimal(port->0.container as nat),
        ]
    }
}

/// Rejects ports that name a service where there are no services.
pub fn validate_service_qualified_forward_ports(config: &ResolvedConfig) -> (res: Result<
    (),
    UpError,
>)
    ensures
        checks_service_ports(*config, res),
{
    if config.is_compose() {
        return Ok(());
    }
    let entries = &config.ports.entries;
    let mut i: usize = 0;
    assert(entries@.skip(0) =~= entries@);
    while i < entries.len()
        invariant
            *entries == config.ports.entries,
            !config.spec_is_compose(),
            i <= entries@.len(),
            first_service_port(entries@) == first_service_port(entries@.skip(i as int)),
        decreases entries@.len() - i,
    {
        assert(entries@.skip(i as int).drop_first() =~= entries@.skip(i as int + 1));
        if let Some(service) = &entries[i].service {
            let mut message =
                "Service-qualified port forwarding is only supported in Docker Compose mode: ".to_owned();
            message.append(service.as_str());
            message.append(":");
            message.append(decimal_text(entries[i].container as u128).as_str());
            return Err(UpError::new(message));
        }
        i = i + 1;
    }
    Ok(())
}

} // verus!
