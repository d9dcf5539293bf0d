//! What is done around a start, from the command line to the end of a
//! session.

use crate::config::{ResolvedDevcontainerSource, ResolvedShutdownAction};
use crate::types::{ForwardingResolution, UpPlan};
use vstd::prelude::*;

verus! {

/// How long a container is given to stop when a session ends, in seconds.
pub const SHUTDOWN_STOP_TIMEOUT_SECONDS: i32 = 10;

/// What becomes of forwarded ports: they are forwarded while a session stays
/// attached.
pub fn forwarding_for_session(attached: bool) -> (res: ForwardingResolution)
    ensures
        res == if attached {
            ForwardingResolution::Resolve
        } else {
            ForwardingResolution::IgnoreDetached
        },
{
    if attached {
        ForwardingResolution::Resolve
    } else {
        ForwardingResolution::IgnoreDetached
    }
}

/// What is stopped when an attached session ends.
#[derive(Debug, Clone, Copy, PartialEq, Eq, Structural)]
pub enum ShutdownStep {
    /// Nothing.
    KeepRunning,
    /// The container.
    StopContainer,
    /// The Compose project.
    StopCompose,
}

/// What is stopped when an attached session ends: the container, where a
/// Compose project was to be stopped but there is none.
pub open spec fn shutdown_step(plan: UpPlan) -> ShutdownStep {
    match plan.config.devcontainer.shutdown_action {
        ResolvedShutdownAction::KeepRunning => ShutdownStep::KeepRunning,
        ResolvedShutdownAction::StopContainer => ShutdownStep::StopContainer,
        ResolvedShutdownAction::StopCompose => if plan.compose_project is Some
            && plan.config.spec_is_compose() {
            ShutdownStep::StopCompose
        } else {
            ShutdownStep::StopContainer
        },
    }
}

/// What is stopped when an attached session ends.
pub fn apply_shutdown_action_after_attached_up(plan: &UpPlan) -> (res: ShutdownStep)
    ensures
        res == shutdown_step(*plan),
{
    match plan.config.devcontainer.shutdown_action {
        ResolvedShutdownAction::KeepRunning => ShutdownStep::KeepRunning,
        ResolvedShutdownAction::StopContainer => ShutdownStep::StopContainer,
        ResolvedShutdownAction::StopCompose => {
            if plan.compose_project.is_none() {
                return ShutdownStep::StopContainer;
            }
            match &plan.config.devcontainer.source {
                Some(ResolvedDevcontainerSource::Compose(_)) => ShutdownStep::StopCompose,
                _ => ShutdownStep::StopContainer,
            }
        },
    }
}

/// Whether a container is started as a service of a Compose project.
pub fn starts_compose_project(preliminary_plan: &UpPlan) -> (res: bool)
    ensures
        res == (preliminary_plan.compose_project is Some),
{
    preliminary_plan.compose_project.is_some()
}

} // verus!
