//! How a new container is made, remembered and started, and what happens when
//! one of these fails.

use crate::error::UpError;
use crate::start::container::{
    initial_state_error, start_new_container, unremembered_message, unstarted_message,
};
use crate::types::UpOutcome;
use vstd::prelude::*;

verus! {

/// How far a container is made.
#[derive(Debug)]
pub enum CreationProgress {
    /// Dotfiles that stand in are written.
    Dotfiles,
    /// The container is made.
    Creating,
    /// The container is written down.
    Persisting {
        /// Its id.
        id: String,
    },
    /// The container is started and watched.
    Starting {
        /// Its id.
        id: String,
    },
    /// The container is removed, for it could not be written down.
    RemovingUnremembered {
        /// Why not.
        error: UpError,
    },
    /// The container is removed, for it did not start.
    RemovingUnstarted {
        /// Why not.
        error: UpError,
    },
    /// The container is gone, and what was written down of it is dropped.
    Forgetting {
        /// Why it did not start.
        error: UpError,
    },
    /// Nothing is left to do.
    Finished,
}

/// What was done last, and how it ended.
#[derive(Debug)]
pub enum CreationEvent {
    /// Dotfiles were written.
    DotfilesWritten(Result<(), UpError>),
    /// The container was made, with this id.
    Created(Result<String, UpError>),
    /// The container was written down.
    Persisted(Result<(), UpError>),
    /// The container was started and watched.
    Started(Result<(), UpError>),
    /// The container was removed.
    Removed(Result<(), UpError>),
    /// What was written down of the container was dropped.
    Forgotten(Result<(), UpError>),
}

/// What is to be done next.
#[derive(Debug)]
pub enum CreationAction {
    /// Dotfiles that stand in are written.
    MaterializeDotfiles,
    /// The container is made.
    CreateContainer,
    /// The container is written down.
    PersistState {
        /// Its id.
        id: String,
    },
    /// The container is started and watched.
    StartAndVerify,
    /// The container is removed, though it may run.
    RemoveContainer,
    /// What was written down of the container is dropped.
    ForgetContainer,
    /// The end.
    Done(Result<UpOutcome, UpError>),
}

/// Whether an event may come now.
pub open spec fn fits(progress: CreationProgress, event: CreationEvent) -> bool {
    match progress {
        CreationProgress::Dotfiles => event is DotfilesWritten,
        CreationProgress::Creating => event is Created,
        CreationProgress::Persisting { .. } => event is Persisted,
        CreationProgress::Starting { .. } => event is Started,
        CreationProgress::RemovingUnremembered { .. }
        | CreationProgress::RemovingUnstarted { .. } => event is Removed,
        CreationProgress::Forgetting { .. } => event is Forgotten,
        CreationProgress::Finished => false,
    }
}

/// Whether the making ends with an error.
pub open spec fn fails_with(
    chain: Seq<Seq<char>>,
    after: CreationProgress,
    action: CreationAction,
) -> bool {
    &&& after is Finished
    &&& action is Done
    &&& action->Done_0 is Err
    &&& action->Done_0->Err_0@ == chain
}

/// What is done next, and how far the container is made then. A container
/// that could not be written down, or did not start, is removed, and what was
/// written down of it is dropped once it is gone.
pub open spec fn creates(
    container_name: String,
    before: CreationProgress,
    event: CreationEvent,
    after: CreationProgress,
    action: CreationAction,
) -> bool {
    match before {
        CreationProgress::Dotfiles => match event->DotfilesWritten_0 {
            Ok(()) => after is Creating && action is CreateContainer,
            Err(error) => fails_with(error@, after, action),
        },
        CreationProgress::Creating => match event->Created_0 {
            Ok(id) => after == (CreationProgress::Persisting { id }) && action == (
            CreationAction::PersistState { id }),
            Err(error) => fails_with(error@, after, action),
        },
        CreationProgress::Persisting { id } => match event->Persisted_0 {
            Ok(()) => after == (CreationProgress::Starting { id }) && action is StartAndVerify,
            Err(error) => after == (CreationProgress::RemovingUnremembered { error })
                && action is RemoveContainer,
        },
        CreationProgress::Starting { id } => match event->Started_0 {
            Ok(()) => after is Finished && action == CreationAction::Done(
                Ok(UpOutcome { container_id: id, container_name, reused: false }),
            ),
            Err(error) => after == (CreationProgress::RemovingUnstarted { error })
                && action is RemoveContainer,
        },
        CreationProgress::RemovingUnremembered { error } => fails_with(
            seq![unremembered_message(container_name@, event->Removed_0)] + error@,
            after,
            action,
        ),
        CreationProgress::RemovingUnstarted { error } => match event->Removed_0 {
            Ok(()) => after == (CreationProgress::Forgetting { error })
                && action is ForgetContainer,
            Err(cause) => fails_with(
                seq![unstarted_message(container_name@, cause)] + error@,
                after,
                action,
            ),
        },
        CreationProgress::Forgetting { error } => match event->Forgotten_0 {
            Ok(()) => fails_with(error@, after, action),
            Err(other) => fails_with(other@, after, action),
        },
        CreationProgress::Finished => true,
    }
}

/// The first thing that is done: dotfiles that stand in are written.
pub fn begin_creation() -> (res: (CreationProgress, CreationAction))
    ensures
        res.0 is Dotfiles,
        res.1 is MaterializeDotfiles,
{
    (CreationProgress::Dotfiles, CreationAction::MaterializeDotfiles)
}

fn failed(error: UpError) -> (res: (CreationProgress, CreationAction))
    ensures
        fails_with(error@, res.0, res.1),
{
    (CreationProgress::Finished, CreationAction::Done(Err(error)))
}

/// What is done next to make, write down and start a container.
pub fn create_and_start_container_inner(
    container_name: &String,
    progress: CreationProgress,
    event: CreationEvent,
) -> (res: (CreationProgress, CreationAction))
    requires
        fits(progress, event),
    ensures
        creates(*container_name, progress, event, res.0, res.1),
{
    match (progress, event) {
        (CreationProgress::Dotfiles, CreationEvent::DotfilesWritten(written)) => match written {
            Ok(()) => (CreationProgress::Creating, CreationAction::CreateContainer),
            Err(error) => failed(error),
        },
        (CreationProgress::Creating, CreationEvent::Created(created)) => match created {
            Ok(id) => {
                let action = CreationAction::PersistState { id: id.clone() };
                (CreationProgress::Persisting { id }, action)
            },
            Err(error) => failed(error),
        },
        (CreationProgress::Persisting { id }, CreationEvent::Persisted(persisted)) => match persisted {
            Ok(()) => (CreationProgress::Starting { id }, CreationAction::StartAndVerify),
            Err(error) => (
                CreationProgress::RemovingUnremembered { error },
                CreationAction::RemoveContainer,
            ),
        },
        (CreationProgress::Starting { id }, CreationEvent::Started(started)) => match started {
            Ok(()) => (
                CreationProgress::Finished,
                CreationAction::Done(
                    Ok(
                        UpOutcome {
                            container_id: id,
                            container_name: container_name.clone(),
                            reused: false,
                        },
                    ),
                ),
            ),
            Err(error) => (
                CreationProgress::RemovingUnstarted { error },
                CreationAction::RemoveContainer,
            ),
        },
        (CreationProgress::RemovingUnremembered { error }, CreationEvent::Removed(removed)) => failed(
            initial_state_error(container_name.as_str(), error, removed),
        ),
        (CreationProgress::RemovingUnstarted { error }, CreationEvent::Removed(removed)) => {
            let failure = start_new_container(container_name.as_str(), error, removed);
            if failure.forget_container {
                (
                    CreationProgress::Forgetting { error: failure.error },
                    CreationAction::ForgetContainer,
                )
            } else {
                failed(failure.error)
            }
        },
        (CreationProgress::Forgetting { error }, CreationEvent::Forgotten(forgotten)) => match forgotten {
            Ok(()) => failed(error),
            Err(other) => failed(other),
        },
        _ => failed(UpError::from_text("The container is not being made")),
    }
}

/// How many things are done at most from here on.
pub open spec fn steps_left(progress: CreationProgress) -> nat {
    match progress {
        CreationProgress::Dotfiles => 6,
        CreationProgress::Creating => 5,
        CreationProgress::Persisting { .. } => 4,
        CreationProgress::Starting { .. } => 3,
        CreationProgress::RemovingUnremembered { .. }
        | CreationProgress::RemovingUnstarted { .. } => 2,
        CreationProgress::Forgetting { .. } => 1,
        CreationProgress::Finished => 0,
    }
}

/// The making of a container ends.
pub proof fn creation_ends(
    container_name: String,
    before: CreationProgress,
    event: CreationEvent,
    after: CreationProgress,
    action: CreationAction,
)
    requires
        fits(before, event),
        creates(container_name, before, event, after, action),
    ensures
        steps_left(after) < steps_left(before),
        action is Done <==> after is Finished,
{
}

/// A container is started only once it is written down.
pub proof fn started_containers_are_remembered(
    container_name: String,
    before: CreationProgress,
    event: CreationEvent,
    after: CreationProgress,
    action: CreationAction,
)
    requires
        fits(before, event),
        creates(container_name, before, event, after, action),
        action is StartAndVerify,
    ensures
        before is Persisting,
        event is Persisted,
        event->Persisted_0 is Ok,
{
}

/// Once a container was made, nothing fails before it was tried to remove it.
pub proof fn failures_remove_the_container(
    container_name: String,
    before: CreationProgress,
    event: CreationEvent,
    after: CreationProgress,
    action: CreationAction,
)
    requires
        fits(before, event),
        creates(container_name, before, event, after, action),
        before is Persisting || before is Starting,
    ensures
        action is Done ==> action->Done_0 is Ok,
        action is RemoveContainer <==> (event is Persisted && event->Persisted_0 is Err)
            || (event is Started && event->Started_0 is Err),
{
}

} // verus!
