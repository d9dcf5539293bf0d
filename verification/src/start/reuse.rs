//! Whether a container that could be used again is.

use crate::docker::DockerMountSpec;
use crate::start::existing::{decision_reuses, DecisionView};
use crate::text::{opt_view, same_optional_text, same_text};
use crate::types::{ExistingContainerDecision, UpContainerSummary, UpMountSummary};
use vstd::prelude::*;

verus! {

/// What stands against using a container again.
#[derive(Debug, Clone, Copy, PartialEq, Eq, Structural)]
pub struct ExistingContainerReusePolicy {
    /// Images are pulled though they are there.
    pub pull: bool,
    /// A service whose ports are forwarded lacks its mount.
    pub service_forward_requires_recreate: bool,
}

impl Default for ExistingContainerReusePolicy {
    fn default() -> (res: Self)
        ensures
            res == (ExistingContainerReusePolicy {
                pull: false,
                service_forward_requires_recreate: false,
            }),
    {
        ExistingContainerReusePolicy { pull: false, service_forward_requires_recreate: false }
    }
}

/// Whether a container is used again.
pub open spec fn is_reused(decision: DecisionView, policy: ExistingContainerReusePolicy) -> bool {
    decision.reuses() && !policy.pull && !policy.service_forward_requires_recreate
}

/// Whether a container is used again: it could be, and nothing stands against
/// it.
pub fn should_reuse_existing_container(
    decision: &ExistingContainerDecision,
    policy: ExistingContainerReusePolicy,
) -> (res: bool)
    ensures
        res == is_reused(decision@, policy),
{
    decision_reuses(decision) && !policy.pull && !policy.service_forward_requires_recreate
}

/// Whether a mount of a container is the one that is required.
pub open spec fn mount_matches(existing: UpMountSummary, required: DockerMountSpec) -> bool {
    &&& opt_view(existing.source) == opt_view(required.source)
    &&& existing.target@ == required.target@
    &&& existing.mount_type == required.mount_type
    &&& existing.read_only == required.read_only
}

/// Whether a container has a required mount; it has none that are not known.
pub open spec fn has_required_mount(
    container: UpContainerSummary,
    required: DockerMountSpec,
) -> bool {
    container.mounts is Some && exists|i: int|
        0 <= i < container.mounts->0@.len() && mount_matches(
            #[trigger] container.mounts->0@[i],
            required,
        )
}

/// Whether a container has a required mount.
pub fn container_has_mount(container: &UpContainerSummary, required: &DockerMountSpec) -> (res:
    bool)
    ensures
        res == has_required_mount(*container, *required),
{
    match &container.mounts {
        None => false,
        Some(mounts) => {
            let mut i: usize = 0;
            while i < mounts.len()
                invariant
                    container.mounts == Some(*mounts),
                    i <= mounts@.len(),
                    forall|j: int| 0 <= j < i ==> !mount_matches(#[trigger] mounts@[j], *required),
                decreases mounts@.len() - i,
            {
                let existing = &mounts[i];
                if same_optional_text(&existing.source, &required.source) && same_text(
                    existing.target.as_str(),
                    required.target.as_str(),
                ) && existing.mount_type == required.mount_type && existing.read_only
                    == required.read_only {
                    assert(mount_matches(container.mounts->0@[i as int], *required));
                    return true;
                }
                i = i + 1;
            }
            false
        },
    }
}

/// Whether a service whose ports are forwarded must be made anew: its
/// container lacks the mount.
pub fn compose_service_forward_container_requires_recreate(
    container: &UpContainerSummary,
    required: &DockerMountSpec,
) -> (res: bool)
    ensures
        res == !has_required_mount(*container, *required),
{
    !container_has_mount(container, required)
}

/// Whether some service whose ports are forwarded has a container that lacks
/// its mount. Of each service the first container counts, if there is one.
pub open spec fn forwards_need_recreate(
    containers: Seq<Vec<UpContainerSummary>>,
    mounts: Seq<DockerMountSpec>,
) -> bool {
    exists|i: int|
        0 <= i < containers.len() && i < mounts.len() && (#[trigger] containers[i])@.len() > 0
            && !has_required_mount(containers[i]@[0], mounts[i])
}

/// Whether some service whose ports are forwarded must be made anew, given
/// the containers of each service.
pub fn compose_service_forward_requires_recreate(
    containers: &Vec<Vec<UpContainerSummary>>,
    mounts: &Vec<DockerMountSpec>,
) -> (res: bool)
    requires
        containers@.len() == mounts@.len(),
    ensures
        res == forwards_need_recreate(containers@, mounts@),
{
    let mut i: usize = 0;
    while i < containers.len()
        invariant
            i <= containers@.len() == mounts@.len(),
            forall|j: int|
                0 <= j < i ==> ((#[trigger] containers@[j])@.len() == 0 || has_required_mount(
                    containers@[j]@[0],
                    mounts@[j],
                )),
        decreases containers@.len() - i,
    {
        if containers[i].len() > 0 && compose_service_forward_container_requires_recreate(
            &containers[i][0],
            &mounts[i],
        ) {
            assert(containers@[i as int]@.len() > 0);
            return true;
        }
        i = i + 1;
    }
    false
}

} // verus!
