//! What becomes of containers that are there already.

use crate::docker::copy_optional_text;
use crate::error::UpError;
use crate::text::{same_optional_text, same_text};
use crate::types::{ExistingContainerDecision, UpContainerSummary, UpMountSummary};
use vstd::prelude::*;

verus! {

/// The mounts that a container must have to be used again.
#[derive(Debug, Clone)]
pub struct CredentialRuntimeMountPolicy {
    /// The mounts.
    pub required_mounts: Vec<UpMountSummary>,
}

impl CredentialRuntimeMountPolicy {
    /// The mounts that a container must have to be used again.
    pub fn new(required_mounts: Vec<UpMountSummary>) -> (res: Self)
        ensures
            res.required_mounts == required_mounts,
    {
        CredentialRuntimeMountPolicy { required_mounts }
    }
}

/// A container, with its mounts as a list.
pub struct SummaryView {
    /// Its id.
    pub id: String,
    /// Its name.
    pub name: String,
    /// The image that it was made from.
    pub image_id: Option<String>,
    /// The hash of the configuration that it was made for.
    pub config_hash: Option<String>,
    /// The devcontainer file that it was made for.
    pub config_file: Option<String>,
    /// Its mounts, where they are known.
    pub mounts: Option<Seq<UpMountSummary>>,
    /// Whether it runs.
    pub running: bool,
}

impl View for UpContainerSummary {
    type V = SummaryView;

    open spec fn view(&self) -> SummaryView {
        SummaryView {
            id: self.id,
            name: self.name,
            image_id: self.image_id,
            config_hash: self.config_hash,
            config_file: self.config_file,
            mounts: match self.mounts {
                Some(mounts) => Some(mounts@),
                None => None,
            },
            running: self.running,
        }
    }
}

/// Containers, with their mounts as lists.
pub open spec fn summaries(containers: Seq<UpContainerSummary>) -> Seq<SummaryView> {
    containers.map_values(|container: UpContainerSummary| container@)
}

/// A decision, with containers as lists.
pub enum DecisionView {
    /// There is none: one is made.
    Create,
    /// They are removed, and one is made.
    Recreate(Seq<SummaryView>),
    /// One runs and is used as it is.
    ReuseRunning(String, String),
    /// One is stopped and is started again.
    StartStopped(String, String),
}

impl View for ExistingContainerDecision {
    type V = DecisionView;

    open spec fn view(&self) -> DecisionView {
        match self {
            ExistingContainerDecision::Create => DecisionView::Create,
            ExistingContainerDecision::Recreate { containers } => DecisionView::Recreate(
                summaries(containers@),
            ),
            ExistingContainerDecision::ReuseRunning { id, name } => DecisionView::ReuseRunning(
                *id,
                *name,
            ),
            ExistingContainerDecision::StartStopped { id, name } => DecisionView::StartStopped(
                *id,
                *name,
            ),
        }
    }
}

impl DecisionView {
    /// Whether a container is used again.
    pub open spec fn reuses(self) -> bool {
        self is ReuseRunning || self is StartStopped
    }
}

/// Whether a decision uses a container again.
pub fn decision_reuses(decision: &ExistingContainerDecision) -> (res: bool)
    ensures
        res == decision@.reuses(),
{
    matches!(
        decision,
        ExistingContainerDecision::ReuseRunning { .. } | ExistingContainerDecision::StartStopped {
            ..
        }
    )
}

/// A copy of the mounts of a container.
fn copy_mounts(mounts: &Vec<UpMountSummary>) -> (res: Vec<UpMountSummary>)
    ensures
        res@ == mounts@,
{
    let mut copies: Vec<UpMountSummary> = Vec::new();
    let mut i: usize = 0;
    while i < mounts.len()
        invariant
            i <= mounts@.len(),
            copies@ == mounts@.take(i as int),
        decreases mounts@.len() - i,
    {
        let mount = &mounts[i];
        copies.push(
            UpMountSummary {
                source: copy_optional_text(&mount.source),
                target: mount.target.clone(),
                mount_type: mount.mount_type,
                read_only: mount.read_only,
            },
        );
        assert(copies@ =~= mounts@.take(i as int + 1));
        i = i + 1;
    }
    assert(copies@ =~= mounts@);
    copies
}

/// A copy of containers.
pub fn copy_containers(containers: &Vec<UpContainerSummary>) -> (res: Vec<UpContainerSummary>)
    ensures
        summaries(res@) == summaries(containers@),
{
    let mut copies: Vec<UpContainerSummary> = Vec::new();
    let mut i: usize = 0;
    while i < containers.len()
        invariant
            i <= containers@.len(),
            copies@.len() == i,
            forall|j: int| 0 <= j < i ==> (#[trigger] copies@[j])@ == containers@[j]@,
        decreases containers@.len() - i,
    {
        let container = &containers[i];
        copies.push(
            UpContainerSummary {
                id: container.id.clone(),
                name: container.name.clone(),
                image_id: copy_optional_text(&container.image_id),
                config_hash: copy_optional_text(&container.config_hash),
                config_file: copy_optional_text(&container.config_file),
                mounts: match &container.mounts {
                    Some(mounts) => Some(copy_mounts(mounts)),
                    None => None,
                },
                running: container.running,
            },
        );
        i = i + 1;
    }
    assert(summaries(copies@) =~= summaries(containers@));
    copies
}

/// Whether two mounts are the same.
pub open spec fn same_mount(left: UpMountSummary, right: UpMountSummary) -> bool {
    &&& crate::text::opt_view(left.source) == crate::text::opt_view(right.source)
    &&& left.target@ == right.target@
    &&& left.mount_type == right.mount_type
    &&& left.read_only == right.read_only
}

/// Whether a container has a mount; it has none that are not known.
pub open spec fn has_mount(mounts: Option<Vec<UpMountSummary>>, required: UpMountSummary) -> bool {
    mounts is Some && exists|i: int|
        0 <= i < mounts->0@.len() && same_mount(#[trigger] mounts->0@[i], required)
}

/// Whether a container has a mount.
pub fn summary_has_mount(mounts: &Option<Vec<UpMountSummary>>, required: &UpMountSummary) -> (res:
    bool)
    ensures
        res == has_mount(*mounts, *required),
{
    match mounts {
        None => false,
        Some(known) => {
            let mut i: usize = 0;
            while i < known.len()
                invariant
                    *mounts == Some(*known),
                    i <= known@.len(),
                    forall|j: int| 0 <= j < i ==> !same_mount(#[trigger] known@[j], *required),
                decreases known@.len() - i,
            {
                let mount = &known[i];
                if same_optional_text(&mount.source, &required.source) && same_text(
                    mount.target.as_str(),
                    required.target.as_str(),
                ) && mount.mount_type == required.mount_type && mount.read_only
                    == required.read_only {
                    assert(same_mount(mounts->0@[i as int], *required));
                    return true;
                }
                i = i + 1;
            }
            false
        },
    }
}

/// Whether a container has all mounts that it must have.
pub open spec fn meets_policy(
    container: UpContainerSummary,
    policy: CredentialRuntimeMountPolicy,
) -> bool {
    forall|i: int|
        0 <= i < policy.required_mounts@.len() ==> has_mount(
            container.mounts,
            #[trigger] policy.required_mounts@[i],
        )
}

fn container_meets_policy(
    container: &UpContainerSummary,
    policy: &CredentialRuntimeMountPolicy,
) -> (res: bool)
    ensures
        res == meets_policy(*container, *policy),
{
    let mut i: usize = 0;
    while i < policy.required_mounts.len()
        invariant
            i <= policy.required_mounts@.len(),
            forall|j: int|
                0 <= j < i ==> has_mount(container.mounts, #[trigger] policy.required_mounts@[j]),
        decreases policy.required_mounts@.len() - i,
    {
        if !summary_has_mount(&container.mounts, &policy.required_mounts[i]) {
            return false;
        }
        i = i + 1;
    }
    true
}

/// The message about a container that was made for another configuration.
pub open spec fn changed_message() -> Seq<char> {
    "Existing dev container was created for a different configuration. Run decune rebuild to recreate it."@
}

/// What becomes of existing containers; an error where the first was made for
/// another configuration.
pub open spec fn decides(
    containers: Seq<UpContainerSummary>,
    expected_config_hash: Seq<char>,
    policy: CredentialRuntimeMountPolicy,
    rebuild: bool,
) -> Result<DecisionView, Seq<Seq<char>>> {
    if containers.len() == 0 {
        Ok(DecisionView::Create)
    } else if rebuild {
        Ok(DecisionView::Recreate(summaries(containers)))
    } else if crate::text::opt_view(containers[0].config_hash) != Some(expected_config_hash) {
        Err(seq![changed_message()])
    } else if !meets_policy(containers[0], policy) {
        Ok(DecisionView::Recreate(summaries(containers)))
    } else if containers[0].running {
        Ok(DecisionView::ReuseRunning(containers[0].id, containers[0].name))
    } else {
        Ok(DecisionView::StartStopped(containers[0].id, containers[0].name))
    }
}

/// A decision or an error, by what it holds.
pub open spec fn decision_view(outcome: Result<ExistingContainerDecision, UpError>) -> Result<
    DecisionView,
    Seq<Seq<char>>,
> {
    match outcome {
        Ok(decision) => Ok(decision@),
        Err(error) => Err(error@),
    }
}

/// Decides what becomes of existing containers. The first one counts: it is
/// used again where it was made for the same configuration and has the mounts
/// that it must have. Where it was made for another configuration, only an
/// explicit rebuild replaces it.
pub fn decide_existing_container(
    containers: &Vec<UpContainerSummary>,
    expected_config_hash: &str,
    mount_policy: &CredentialRuntimeMountPolicy,
    rebuild: bool,
) -> (res: Result<ExistingContainerDecision, UpError>)
    ensures
        decision_view(res) == decides(containers@, expected_config_hash@, *mount_policy, rebuild),
{
    if containers.len() == 0 {
        return Ok(ExistingContainerDecision::Create);
    }
    if rebuild {
        return Ok(ExistingContainerDecision::Recreate { containers: copy_containers(containers) });
    }
    let first = &containers[0];
    let same_hash = match &first.config_hash {
        Some(hash) => same_text(hash.as_str(), expected_config_hash),
        None => false,
    };
    if !same_hash {
        return Err(
            UpError::from_text(
                "Existing dev container was created for a different configuration. Run decune rebuild to recreate it.",
            ),
        );
    }
    if !container_meets_policy(first, mount_policy) {
        return Ok(ExistingContainerDecision::Recreate { containers: copy_containers(containers) });
    }
    if first.running {
        Ok(
            ExistingContainerDecision::ReuseRunning {
                id: first.id.clone(),
                name: first.name.clone(),
            },
        )
    } else {
        Ok(
            ExistingContainerDecision::StartStopped {
                id: first.id.clone(),
                name: first.name.clone(),
            },
        )
    }
}

/// The image that a container was made from.
pub fn existing_container_image_id(container: &UpContainerSummary) -> (res: Option<&str>)
    ensures
        crate::uid_gid::borrowed_view(res) == crate::text::opt_view(container.image_id),
{
    match &container.image_id {
        Some(image_id) => Some(image_id.as_str()),
        None => None,
    }
}

/// The hash of the configuration that a container was made for.
pub fn existing_container_config_hash(container: &UpContainerSummary) -> (res: Option<&str>)
    ensures
        crate::uid_gid::borrowed_view(res) == crate::text::opt_view(container.config_hash),
{
    match &container.config_hash {
        Some(config_hash) => Some(config_hash.as_str()),
        None => None,
    }
}

/// A container that is used again was made for the expected configuration,
/// has the mounts that it must have, and is told apart by whether it runs.
pub proof fn reused_containers_match(
    containers: Seq<UpContainerSummary>,
    expected_config_hash: Seq<char>,
    policy: CredentialRuntimeMountPolicy,
    rebuild: bool,
)
    requires
        decides(containers, expected_config_hash, policy, rebuild) is Ok,
        decides(containers, expected_config_hash, policy, rebuild)->Ok_0.reuses(),
    ensures
        !rebuild,
        containers.len() > 0,
        crate::text::opt_view(containers[0].config_hash) == Some(expected_config_hash),
        meets_policy(containers[0], policy),
        decides(containers, expected_config_hash, policy, rebuild)->Ok_0 is ReuseRunning
            == containers[0].running,
{
}

} // verus!
