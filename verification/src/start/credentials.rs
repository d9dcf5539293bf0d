//! Mounts and variables that hand credentials of the host to a container.

use crate::compose::generate::ServiceForwardRuntime;
use crate::config::{ResolvedConfig, ResolvedDevcontainer, ResolvedDevcontainerSource};
use crate::docker::{copy_optional_text, mount_views, DockerMountSpec, MountView};
use crate::paths::{normalize_container_path, normalized_path};
use crate::start::existing::{same_mount, CredentialRuntimeMountPolicy};
use crate::text::{opt_view, same_text};
use crate::text_map::{inserted, TextMap};
use crate::types::{UpMountSummary, UpPlan};
use crate::uid_gid::borrowed_view;
use vstd::prelude::*;

verus! {

/// What hands one kind of credentials to a container.
#[derive(Debug)]
pub struct RuntimeAccess {
    /// The mounts.
    pub mounts: Vec<DockerMountSpec>,
    /// The variables.
    pub container_env: TextMap<String>,
}

/// What hands credentials of the host to a container.
#[derive(Debug)]
pub struct CredentialRuntime {
    /// Git credentials.
    pub git_credentials: RuntimeAccess,
    /// The token of the GitHub CLI.
    pub github_cli: RuntimeAccess,
    /// The SSH agent.
    pub ssh_agent: RuntimeAccess,
    /// Forwarded ports.
    pub forward: RuntimeAccess,
    /// Forwarded ports of other services.
    pub service_forward: Vec<ServiceForwardRuntime>,
    /// The mounts that a container must have to be used again.
    pub mount_policy: CredentialRuntimeMountPolicy,
}

/// A mount, as it is told of an existing container.
pub open spec fn summary_of(mount: DockerMountSpec) -> UpMountSummary {
    UpMountSummary {
        source: mount.source,
        target: mount.target,
        mount_type: mount.mount_type,
        read_only: mount.read_only,
    }
}

/// Mounts, as they are told of an existing container.
pub open spec fn summaries_of(mounts: Seq<DockerMountSpec>) -> Seq<UpMountSummary> {
    mounts.map_values(|mount: DockerMountSpec| summary_of(mount))
}

fn push_summaries(summaries: &mut Vec<UpMountSummary>, mounts: &Vec<DockerMountSpec>)
    ensures
        final(summaries)@ == old(summaries)@ + summaries_of(mounts@),
{
    let ghost before = summaries@;
    let mut i: usize = 0;
    assert(before + summaries_of(mounts@).take(0) =~= before);
    while i < mounts.len()
        invariant
            i <= mounts@.len(),
            summaries@ == before + summaries_of(mounts@).take(i as int),
        decreases mounts@.len() - i,
    {
        let mount = &mounts[i];
        summaries.push(
            UpMountSummary {
                source: copy_optional_text(&mount.source),
                target: mount.target.clone(),
                mount_type: mount.mount_type,
                read_only: mount.read_only,
            },
        );
        assert(summaries@ =~= before + summaries_of(mounts@).take(i as int + 1));
        i = i + 1;
    }
    assert(summaries_of(mounts@).take(mounts@.len() as int) =~= summaries_of(mounts@));
}

impl CredentialRuntime {
    /// What hands credentials to a container. A container must have the
    /// mounts of all kinds to be used again; those of other services are
    /// looked at on their own.
    pub fn new(
        git_credentials: RuntimeAccess,
        github_cli: RuntimeAccess,
        ssh_agent: RuntimeAccess,
        forward: RuntimeAccess,
        service_forward: Vec<ServiceForwardRuntime>,
    ) -> (res: Self)
        ensures
            res.git_credentials == git_credentials,
            res.github_cli == github_cli,
            res.ssh_agent == ssh_agent,
            res.forward == forward,
            res.service_forward == service_forward,
            res.mount_policy.required_mounts@ == required_mounts(
                git_credentials,
                github_cli,
                ssh_agent,
                forward,
            ),
    {
        let mut summaries: Vec<UpMountSummary> = Vec::new();
        push_summaries(&mut summaries, &git_credentials.mounts);
        push_summaries(&mut summaries, &github_cli.mounts);
        push_summaries(&mut summaries, &ssh_agent.mounts);
        push_summaries(&mut summaries, &forward.mounts);
        assert(summaries@ =~= required_mounts(git_credentials, github_cli, ssh_agent, forward));
        CredentialRuntime {
            git_credentials,
            github_cli,
            ssh_agent,
            forward,
            service_forward,
            mount_policy: CredentialRuntimeMountPolicy::new(summaries),
        }
    }

    /// The mounts that a container must have to be used again.
    pub fn mount_policy(&self) -> (res: &CredentialRuntimeMountPolicy)
        ensures
            *res == self.mount_policy,
    {
        &self.mount_policy
    }

    /// Forwarded ports of other services.
    pub fn service_forward(&self) -> (res: &Vec<ServiceForwardRuntime>)
        ensures
            *res == self.service_forward,
    {
        &self.service_forward
    }
}

/// Whether mounts have a target already.
pub open spec fn has_target(mounts: Seq<MountView>, target: Seq<char>) -> bool {
    exists|i: int|
        0 <= i < mounts.len() && normalized_path((#[trigger] mounts[i]).target@)
            == normalized_path(target)
}

/// Mounts with further ones behind them, apart from those whose target is
/// taken.
pub open spec fn extended(mounts: Seq<MountView>, more: Seq<MountView>) -> Seq<MountView>
    decreases more.len(),
{
    if more.len() == 0 {
        mounts
    } else {
        let before = extended(mounts, more.drop_last());
        if has_target(before, more.last().target@) {
            before
        } else {
            before.push(more.last())
        }
    }
}

fn mounts_have_target(mounts: &Vec<DockerMountSpec>, target: &str) -> (res: bool)
    ensures
        res == has_target(mount_views(mounts@), target@),
{
    let wanted = normalize_container_path(target);
    let ghost all = mount_views(mounts@);
    let mut i: usize = 0;
    while i < mounts.len()
        invariant
            i <= mounts@.len(),
            all == mount_views(mounts@),
            wanted@ == normalized_path(target@),
            forall|j: int| 0 <= j < i ==> normalized_path((#[trigger] all[j]).target@) != wanted@,
        decreases mounts@.len() - i,
    {
        let existing = normalize_container_path(mounts[i].target.as_str());
        assert(all[i as int].target == mounts@[i as int].target);
        if same_text(existing.as_str(), wanted.as_str()) {
            return true;
        }
        i = i + 1;
    }
    false
}

/// Adds mounts whose target is not taken: what the configuration mounts comes
/// first.
pub fn extend_runtime_mounts(
    mounts: &mut Vec<DockerMountSpec>,
    runtime_mounts: &Vec<DockerMountSpec>,
)
    ensures
        mount_views(final(mounts)@) == extended(
            mount_views(old(mounts)@),
            mount_views(runtime_mounts@),
        ),
{
    let ghost before = mount_views(mounts@);
    let ghost more = mount_views(runtime_mounts@);
    let mut i: usize = 0;
    assert(more.take(0) =~= Seq::empty());
    while i < runtime_mounts.len()
        invariant
            i <= runtime_mounts@.len(),
            more == mount_views(runtime_mounts@),
            mount_views(mounts@) == extended(before, more.take(i as int)),
        decreases runtime_mounts@.len() - i,
    {
        assert(more.take(i as int + 1).drop_last() =~= more.take(i as int));
        let ghost so_far = mounts@;
        if !mounts_have_target(mounts, runtime_mounts[i].target.as_str()) {
            let copy = runtime_mounts[i].copied();
            mounts.push(copy);
            assert(mount_views(mounts@) =~= mount_views(so_far).push(more[i as int]));
        }
        i = i + 1;
    }
    assert(more.take(more.len() as int) =~= more);
}

/// Adding mounts keeps what was there in its place, adds nothing but further
/// mounts, and hides nothing: an added mount has a target that no mount in
/// front of it has.
pub proof fn added_mounts_hide_nothing(mounts: Seq<MountView>, more: Seq<MountView>)
    ensures
        mounts.len() <= extended(mounts, more).len(),
        extended(mounts, more).take(mounts.len() as int) == mounts,
        forall|i: int|
            mounts.len() <= i < extended(mounts, more).len() ==> more.contains(
                #[trigger] extended(mounts, more)[i],
            ) && !has_target(extended(mounts, more).take(i), extended(mounts, more)[i].target@),
        forall|k: int|
            0 <= k < more.len() ==> has_target(
                extended(mounts, more),
                (#[trigger] more[k]).target@,
            ),
    decreases more.len(),
{
    let after = extended(mounts, more);
    if more.len() == 0 {
        assert(after.take(mounts.len() as int) =~= mounts);
    } else {
        let before = extended(mounts, more.drop_last());
        added_mounts_hide_nothing(mounts, more.drop_last());
        assert(after.take(mounts.len() as int) =~= before.take(mounts.len() as int));
        assert forall|i: int| mounts.len() <= i < after.len() implies more.contains(
            #[trigger] after[i],
        ) && !has_target(after.take(i), after[i].target@) by {
            if i < before.len() {
                assert(after[i] == before[i]);
                assert(after.take(i) =~= before.take(i));
                assert(more.drop_last().contains(before[i]));
                let k = choose|k: int|
                    0 <= k < more.drop_last().len() && more.drop_last()[k] == before[i];
                assert(more[k] == before[i]);
            } else {
                assert(after.take(i) =~= before);
                assert(more[more.len() - 1] == after[i]);
            }
        }
        assert forall|k: int| 0 <= k < more.len() implies has_target(
            after,
            (#[trigger] more[k]).target@,
        ) by {
            if k < more.len() - 1 {
                assert(more.drop_last()[k] == more[k]);
                let i = choose|i: int|
                    0 <= i < before.len() && normalized_path((#[trigger] before[i]).target@)
                        == normalized_path(more[k].target@);
                assert(after[i] == before[i]);
            } else if has_target(before, more.last().target@) {
                assert(after == before);
            } else {
                assert(after[after.len() - 1] == more.last());
            }
        }
    }
}

/// Whether two mounts are told alike of a container.
pub open spec fn told_alike(left: MountView, right: MountView) -> bool {
    &&& opt_view(left.source) == opt_view(right.source)
    &&& left.target@ == right.target@
    &&& left.mount_type == right.mount_type
    &&& left.read_only == right.read_only
}

/// Whether no mount takes the target of another one that differs from it.
pub open spec fn targets_agree(mounts: Seq<MountView>, more: Seq<MountView>) -> bool {
    forall|i: int, k: int|
        0 <= i < mounts.len() && 0 <= k < more.len() && normalized_path(
            (#[trigger] mounts[i]).target@,
        ) == normalized_path((#[trigger] more[k]).target@) ==> told_alike(mounts[i], more[k])
}

/// Whether a mount that is told like another is among several.
pub open spec fn tells_mount(mounts: Seq<MountView>, wanted: MountView) -> bool {
    exists|i: int| 0 <= i < mounts.len() && told_alike(#[trigger] mounts[i], wanted)
}

/// Where no mount takes the target of a further one that differs from it, all
/// further mounts are there once they were added, and what was there still is.
proof fn added_mounts_are_there(
    mounts: Seq<MountView>,
    more: Seq<MountView>,
    all: Seq<MountView>,
    handed_in: Seq<MountView>,
)
    requires
        targets_agree(all, handed_in),
        forall|i: int| 0 <= i < mounts.len() ==> all.contains(#[trigger] mounts[i]),
        forall|i: int|
            0 <= i < more.len() ==> all.contains(#[trigger] more[i]) && handed_in.contains(more[i]),
    ensures
        forall|i: int|
            0 <= i < extended(mounts, more).len() ==> all.contains(
                #[trigger] extended(mounts, more)[i],
            ),
        forall|k: int| 0 <= k < more.len() ==> tells_mount(extended(mounts, more), #[trigger] more[k]),
        forall|wanted: MountView| #[trigger]
            tells_mount(mounts, wanted) ==> tells_mount(extended(mounts, more), wanted),
{
    let after = extended(mounts, more);
    added_mounts_hide_nothing(mounts, more);
    assert forall|i: int| 0 <= i < after.len() implies all.contains(#[trigger] after[i]) by {
        if i < mounts.len() {
            assert(after.take(mounts.len() as int)[i] == after[i]);
            assert(all.contains(mounts[i]));
        } else {
            assert(more.contains(after[i]));
            let k = choose|k: int| 0 <= k < more.len() && more[k] == after[i];
            assert(all.contains(more[k]));
        }
    }
    assert forall|k: int| 0 <= k < more.len() implies tells_mount(after, #[trigger] more[k]) by {
        let i = choose|i: int|
            0 <= i < after.len() && normalized_path((#[trigger] after[i]).target@)
                == normalized_path(more[k].target@);
        assert(all.contains(after[i]) && handed_in.contains(more[k]));
        let a = choose|a: int| 0 <= a < all.len() && all[a] == after[i];
        let b = choose|b: int| 0 <= b < handed_in.len() && handed_in[b] == more[k];
        assert(told_alike(all[a], handed_in[b]));
    }
    assert forall|wanted: MountView| #[trigger] tells_mount(mounts, wanted) implies tells_mount(
        after,
        wanted,
    ) by {
        let i = choose|i: int| 0 <= i < mounts.len() && told_alike(#[trigger] mounts[i], wanted);
        assert(after.take(mounts.len() as int)[i] == after[i]);
        assert(told_alike(after[i], wanted));
    }
}

/// A map with the entries of another stored over it.
pub open spec fn overlaid(
    entries: Seq<(Seq<char>, String)>,
    more: Seq<(Seq<char>, String)>,
) -> Seq<(Seq<char>, String)>
    decreases more.len(),
{
    if more.len() == 0 {
        entries
    } else {
        inserted(overlaid(entries, more.drop_last()), more.last().0, more.last().1)
    }
}

fn overlay(map: &mut TextMap<String>, more: &TextMap<String>)
    ensures
        final(map)@ == overlaid(old(map)@, more@),
{
    let ghost before = map@;
    let mut i: usize = 0;
    assert(more@.take(0) =~= Seq::empty());
    while i < more.len()
        invariant
            i <= more@.len(),
            map@ == overlaid(before, more@.take(i as int)),
        decreases more@.len() - i,
    {
        assert(more@.take(i as int + 1).drop_last() =~= more@.take(i as int));
        map.insert(more.key_at(i).clone(), more.value_at(i).clone());
        i = i + 1;
    }
    assert(more@.take(more@.len() as int) =~= more@);
}

/// Whether a plan is another with credentials handed in: the mounts of all
/// kinds whose target is not taken, and the variables of the GitHub CLI and
/// the SSH agent.
pub open spec fn hands_in(
    before: UpPlan,
    git_credentials: RuntimeAccess,
    github_cli: RuntimeAccess,
    ssh_agent: RuntimeAccess,
    forward: RuntimeAccess,
    after: UpPlan,
) -> bool {
    &&& mount_views(after.mounts@) == extended(
        extended(
            extended(
                extended(mount_views(before.mounts@), mount_views(git_credentials.mounts@)),
                mount_views(github_cli.mounts@),
            ),
            mount_views(ssh_agent.mounts@),
        ),
        mount_views(forward.mounts@),
    )
    &&& after.config.devcontainer.container_env@ == overlaid(
        overlaid(
            before.config.devcontainer.container_env@,
            github_cli.container_env@,
        ),
        ssh_agent.container_env@,
    )
    &&& after == (UpPlan {
        mounts: after.mounts,
        config: ResolvedConfig {
            devcontainer: ResolvedDevcontainer {
                container_env: after.config.devcontainer.container_env,
                ..before.config.devcontainer
            },
            ..before.config
        },
        ..before
    })
}

/// Handing credentials in changes neither the image nor the hash of the
/// configuration: credentials of the host do not lead to a new container.
pub proof fn credentials_do_not_change_the_hash(
    before: UpPlan,
    git_credentials: RuntimeAccess,
    github_cli: RuntimeAccess,
    ssh_agent: RuntimeAccess,
    forward: RuntimeAccess,
    after: UpPlan,
)
    requires
        hands_in(before, git_credentials, github_cli, ssh_agent, forward, after),
    ensures
        after.resources == before.resources,
        after.image == before.image,
        after.base_image == before.base_image,
{
}

/// All mounts of credentials.
pub open spec fn credential_mounts(
    git_credentials: RuntimeAccess,
    github_cli: RuntimeAccess,
    ssh_agent: RuntimeAccess,
    forward: RuntimeAccess,
) -> Seq<MountView> {
    mount_views(git_credentials.mounts@) + mount_views(github_cli.mounts@) + mount_views(
        ssh_agent.mounts@,
    ) + mount_views(forward.mounts@)
}

/// Whether every mount of credentials finds its target free, or taken by a
/// mount that is told like it.
pub open spec fn credential_targets_agree(
    before: UpPlan,
    git_credentials: RuntimeAccess,
    github_cli: RuntimeAccess,
    ssh_agent: RuntimeAccess,
    forward: RuntimeAccess,
) -> bool {
    let handed_in = credential_mounts(git_credentials, github_cli, ssh_agent, forward);
    targets_agree(mount_views(before.mounts@) + handed_in, handed_in)
}

/// The mounts that a container must have to be used again, given what hands
/// credentials in.
pub open spec fn required_mounts(
    git_credentials: RuntimeAccess,
    github_cli: RuntimeAccess,
    ssh_agent: RuntimeAccess,
    forward: RuntimeAccess,
) -> Seq<UpMountSummary> {
    summaries_of(git_credentials.mounts@) + summaries_of(github_cli.mounts@) + summaries_of(
        ssh_agent.mounts@,
    ) + summaries_of(forward.mounts@)
}

/// A plan with credentials handed in has every mount that its container must
/// have to be used again, unless another mount takes the target of one.
pub proof fn required_mounts_are_handed_in(
    before: UpPlan,
    git_credentials: RuntimeAccess,
    github_cli: RuntimeAccess,
    ssh_agent: RuntimeAccess,
    forward: RuntimeAccess,
    after: UpPlan,
)
    requires
        hands_in(before, git_credentials, github_cli, ssh_agent, forward, after),
        credential_targets_agree(before, git_credentials, github_cli, ssh_agent, forward),
    ensures
        ({
            let required = required_mounts(git_credentials, github_cli, ssh_agent, forward);
            forall|k: int|
                0 <= k < required.len() ==> exists|i: int|
                    0 <= i < after.mounts@.len() && same_mount(
                        summary_of(#[trigger] after.mounts@[i]),
                        #[trigger] required[k],
                    )
        }),
{
    let own = mount_views(before.mounts@);
    let git = mount_views(git_credentials.mounts@);
    let cli = mount_views(github_cli.mounts@);
    let ssh = mount_views(ssh_agent.mounts@);
    let fwd = mount_views(forward.mounts@);
    let wanted = credential_mounts(git_credentials, github_cli, ssh_agent, forward);
    let all = own + wanted;
    let (n1, n2) = (git.len(), git.len() + cli.len());
    let n3 = n2 + ssh.len();
    assert forall|i: int| 0 <= i < own.len() implies all.contains(#[trigger] own[i]) by {
        assert(all[i] == own[i]);
    }
    assert forall|i: int| 0 <= i < wanted.len() implies all.contains(#[trigger] wanted[i])
        && wanted.contains(wanted[i]) by {
        assert(all[own.len() + i] == wanted[i]);
    }
    assert forall|i: int| 0 <= i < git.len() implies all.contains(#[trigger] git[i])
        && wanted.contains(git[i]) by {
        assert(wanted[i] == git[i]);
    }
    assert forall|i: int| 0 <= i < cli.len() implies all.contains(#[trigger] cli[i])
        && wanted.contains(cli[i]) by {
        assert(wanted[n1 + i] == cli[i]);
    }
    assert forall|i: int| 0 <= i < ssh.len() implies all.contains(#[trigger] ssh[i])
        && wanted.contains(ssh[i]) by {
        assert(wanted[n2 + i] == ssh[i]);
    }
    assert forall|i: int| 0 <= i < fwd.len() implies all.contains(#[trigger] fwd[i])
        && wanted.contains(fwd[i]) by {
        assert(wanted[n3 + i] == fwd[i]);
    }
    let first = extended(own, git);
    let second = extended(first, cli);
    let third = extended(second, ssh);
    added_mounts_are_there(own, git, all, wanted);
    added_mounts_are_there(first, cli, all, wanted);
    added_mounts_are_there(second, ssh, all, wanted);
    added_mounts_are_there(third, fwd, all, wanted);
    let last = mount_views(after.mounts@);
    let required = required_mounts(git_credentials, github_cli, ssh_agent, forward);
    assert forall|k: int| 0 <= k < required.len() implies exists|i: int|
        0 <= i < after.mounts@.len() && same_mount(
            summary_of(#[trigger] after.mounts@[i]),
            #[trigger] required[k],
        ) by {
        let mount = wanted[k];
        if k < git.len() {
            assert(mount == git[k]);
        } else if k < git.len() + cli.len() {
            assert(mount == cli[k - git.len()]);
        } else if k < git.len() + cli.len() + ssh.len() {
            assert(mount == ssh[k - git.len() - cli.len()]);
        } else {
            assert(mount == fwd[k - git.len() - cli.len() - ssh.len()]);
        }
        assert(tells_mount(last, mount));
        let i = choose|i: int| 0 <= i < last.len() && told_alike(#[trigger] last[i], mount);
        assert(last[i] == after.mounts@[i]@);
        assert(same_mount(summary_of(after.mounts@[i]), required[k]));
    }
}

/// A plan with credentials handed in.
#[derive(Debug)]
pub struct CredentialedPlan {
    /// The plan.
    pub plan: UpPlan,
    /// What hands the credentials in.
    pub credentials: CredentialRuntime,
}

/// Hands credentials of the host in: adds their mounts and variables to a
/// plan. The files for entrypoints of Features are prepared next.
pub fn add_prepared_credential_runtime_mounts(
    plan: UpPlan,
    git_credentials: RuntimeAccess,
    github_cli: RuntimeAccess,
    ssh_agent: RuntimeAccess,
    forward: RuntimeAccess,
    service_forward: Vec<ServiceForwardRuntime>,
) -> (res: CredentialedPlan)
    ensures
        hands_in(plan, git_credentials, github_cli, ssh_agent, forward, res.plan),
        res.credentials.git_credentials == git_credentials,
        res.credentials.github_cli == github_cli,
        res.credentials.ssh_agent == ssh_agent,
        res.credentials.forward == forward,
        res.credentials.service_forward == service_forward,
        res.credentials.mount_policy.required_mounts@ == required_mounts(
            git_credentials,
            github_cli,
            ssh_agent,
            forward,
        ),
{
    let ghost before = plan;
    let mut plan = plan;
    extend_runtime_mounts(&mut plan.mounts, &git_credentials.mounts);
    extend_runtime_mounts(&mut plan.mounts, &github_cli.mounts);
    extend_runtime_mounts(&mut plan.mounts, &ssh_agent.mounts);
    extend_runtime_mounts(&mut plan.mounts, &forward.mounts);
    overlay(&mut plan.config.devcontainer.container_env, &github_cli.container_env);
    overlay(&mut plan.config.devcontainer.container_env, &ssh_agent.container_env);
    assert(hands_in(before, git_credentials, github_cli, ssh_agent, forward, plan));
    CredentialedPlan {
        plan,
        credentials: CredentialRuntime::new(
            git_credentials,
            github_cli,
            ssh_agent,
            forward,
            service_forward,
        ),
    }
}

/// The primary service of a plan, where the container is a service of a
/// Compose project.
pub fn primary_compose_service(plan: &UpPlan) -> (res: Option<&str>)
    ensures
        borrowed_view(res) == match plan.config.devcontainer.source {
            Some(ResolvedDevcontainerSource::Compose(compose)) => Some(compose.service@),
            _ => None,
        },
{
    match &plan.config.devcontainer.source {
        Some(ResolvedDevcontainerSource::Compose(compose)) => Some(compose.service.as_str()),
        _ => None,
    }
}

} // verus!
