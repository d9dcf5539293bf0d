//! How credentials of the host reach a container.

use crate::docker::{mount_views, DockerMountSpec, MountView};
use crate::paths::normalized_path;
use crate::start::credentials::{
    added_mounts_hide_nothing, extended, hands_in, has_target, overlaid, required_mounts,
    RuntimeAccess,
};
use crate::text::{text_less, text_less_irreflexive};
use crate::text_map::{keys_ascend, lookup, lookup_after_insert};
use crate::types::{UpMountSummary, UpPlan};
use vstd::prelude::*;

verus! {

proof fn overlaid_values_count(
    entries: Seq<(Seq<char>, String)>,
    more: Seq<(Seq<char>, String)>,
    key: Seq<char>,
)
    requires
        keys_ascend(entries),
        keys_ascend(more),
    ensures
        keys_ascend(overlaid(entries, more)),
        lookup(overlaid(entries, more), key) == if lookup(more, key) is Some {
            lookup(more, key)
        } else {
            lookup(entries, key)
        },
    decreases more.len(),
{
    if more.len() > 0 {
        let front = more.drop_last();
        let last = more.last();
        assert forall|i: int, j: int| 0 <= i < j < front.len() implies text_less(
            #[trigger] front[i].0,
            #[trigger] front[j].0,
        ) by {
            assert(front[i] == more[i] && front[j] == more[j]);
        }
        overlaid_values_count(entries, front, key);
        lookup_after_insert(overlaid(entries, front), last.0, last.1, key);
        last_entry_is_found(more, key);
    }
}

proof fn last_entry_is_found(entries: Seq<(Seq<char>, String)>, key: Seq<char>)
    requires
        entries.len() > 0,
        keys_ascend(entries),
    ensures
        lookup(entries, key) == if entries.last().0 == key {
            Some(entries.last().1)
        } else {
            lookup(entries.drop_last(), key)
        },
    decreases entries.len(),
{
    if entries.len() > 1 {
        let rest = entries.drop_first();
        assert forall|i: int, j: int| 0 <= i < j < rest.len() implies text_less(
            #[trigger] rest[i].0,
            #[trigger] rest[j].0,
        ) by {
            assert(rest[i] == entries[i + 1] && rest[j] == entries[j + 1]);
        }
        last_entry_is_found(rest, key);
        assert(rest.last() == entries.last());
        assert(rest.drop_last() =~= entries.drop_last().drop_first());
        assert(entries.drop_last()[0] == entries[0]);
        text_less_irreflexive(entries[0].0);
        assert(text_less(entries[0].0, entries[entries.len() - 1].0));
    } else {
        let none = Seq::<(Seq<char>, String)>::empty();
        assert(entries.drop_last() =~= none);
        assert(entries.drop_first() =~= none);
        assert(lookup(none, key) is None);
    }
}

/// The variables of the SSH agent and of the GitHub CLI are all set in the
/// container, the former where both set one; all other variables of the
/// configuration stay as they are.
pub proof fn credential_variables_are_set(
    before: UpPlan,
    git_credentials: RuntimeAccess,
    github_cli: RuntimeAccess,
    ssh_agent: RuntimeAccess,
    forward: RuntimeAccess,
    after: UpPlan,
    key: Seq<char>,
)
    requires
        hands_in(before, git_credentials, github_cli, ssh_agent, forward, after),
        before.config.devcontainer.container_env.wf(),
        github_cli.container_env.wf(),
        ssh_agent.container_env.wf(),
    ensures
        ({
            let agent = lookup(ssh_agent.container_env@, key);
            let cli = lookup(github_cli.container_env@, key);
            let set = lookup(after.config.devcontainer.container_env@, key);
            &&& agent is Some ==> set == agent
            &&& agent is None && cli is Some ==> set == cli
            &&& agent is None && cli is None ==> set == lookup(
                before.config.devcontainer.container_env@,
                key,
            )
        }),
{
    let environment = before.config.devcontainer.container_env@;
    overlaid_values_count(environment, github_cli.container_env@, key);
    overlaid_values_count(
        overlaid(environment, github_cli.container_env@),
        ssh_agent.container_env@,
        key,
    );
}

proof fn targets_stay_taken(mounts: Seq<MountView>, more: Seq<MountView>)
    ensures
        mounts.len() <= extended(mounts, more).len(),
        forall|i: int| 0 <= i < mounts.len() ==> extended(mounts, more)[i] == #[trigger] mounts[i],
        forall|target: Seq<char>| #[trigger]
            has_target(mounts, target) ==> has_target(extended(mounts, more), target),
        forall|k: int|
            0 <= k < more.len() ==> has_target(
                extended(mounts, more),
                (#[trigger] more[k]).target@,
            ),
{
    added_mounts_hide_nothing(mounts, more);
    let all = extended(mounts, more);
    assert forall|i: int| 0 <= i < mounts.len() implies all[i] == #[trigger] mounts[i] by {
        assert(all.take(mounts.len() as int)[i] == all[i]);
    }
    assert forall|target: Seq<char>| #[trigger] has_target(mounts, target) implies has_target(
        all,
        target,
    ) by {
        let i = choose|i: int|
            0 <= i < mounts.len() && normalized_path((#[trigger] mounts[i]).target@)
                == normalized_path(target);
        assert(all[i] == mounts[i]);
    }
}

/// The mounts of a plan stay in front, as they were, and behind them the target
/// of every mount of credentials is taken: of Git, of the GitHub CLI, of the
/// SSH agent and of forwarded ports.
pub proof fn credential_mounts_are_added(
    before: UpPlan,
    git_credentials: RuntimeAccess,
    github_cli: RuntimeAccess,
    ssh_agent: RuntimeAccess,
    forward: RuntimeAccess,
    after: UpPlan,
    mount: DockerMountSpec,
) -> (m: int)
    requires
        hands_in(before, git_credentials, github_cli, ssh_agent, forward, after),
        git_credentials.mounts@.contains(mount) || github_cli.mounts@.contains(mount)
            || ssh_agent.mounts@.contains(mount) || forward.mounts@.contains(mount),
    ensures
        before.mounts@.len() <= after.mounts@.len(),
        forall|i: int|
            0 <= i < before.mounts@.len() ==> after.mounts@[i]@ == (#[trigger] before.mounts@[i])@,
        0 <= m < after.mounts@.len(),
        normalized_path(after.mounts@[m].target@) == normalized_path(mount.target@),
{
    let start = mount_views(before.mounts@);
    let git = mount_views(git_credentials.mounts@);
    let cli = mount_views(github_cli.mounts@);
    let agent = mount_views(ssh_agent.mounts@);
    let ports = mount_views(forward.mounts@);
    let one = extended(start, git);
    let two = extended(one, cli);
    let three = extended(two, agent);
    let all = extended(three, ports);
    targets_stay_taken(start, git);
    targets_stay_taken(one, cli);
    targets_stay_taken(two, agent);
    targets_stay_taken(three, ports);
    assert(all == mount_views(after.mounts@));
    assert(all.len() == after.mounts@.len());
    assert forall|i: int| 0 <= i < before.mounts@.len() implies after.mounts@[i]@ == (
    #[trigger] before.mounts@[i])@ by {
        assert(start[i] == before.mounts@[i]@);
        assert(one[i] == start[i]);
        assert(two[i] == one[i]);
        assert(three[i] == two[i]);
        assert(all[i] == three[i]);
    }
    if git_credentials.mounts@.contains(mount) {
        let k = choose|k: int|
            0 <= k < git_credentials.mounts@.len() && git_credentials.mounts@[k] == mount;
        assert(git[k].target@ == mount.target@);
        assert(has_target(one, git[k].target@));
    } else if github_cli.mounts@.contains(mount) {
        let k = choose|k: int|
            0 <= k < github_cli.mounts@.len() && github_cli.mounts@[k] == mount;
        assert(cli[k].target@ == mount.target@);
        assert(has_target(two, cli[k].target@));
    } else if ssh_agent.mounts@.contains(mount) {
        let k = choose|k: int| 0 <= k < ssh_agent.mounts@.len() && ssh_agent.mounts@[k] == mount;
        assert(agent[k].target@ == mount.target@);
        assert(has_target(three, agent[k].target@));
    } else {
        let k = choose|k: int| 0 <= k < forward.mounts@.len() && forward.mounts@[k] == mount;
        assert(ports[k].target@ == mount.target@);
        assert(has_target(all, ports[k].target@));
    }
    assert(has_target(all, mount.target@));
    let m = choose|m: int|
        0 <= m < all.len() && normalized_path((#[trigger] all[m]).target@) == normalized_path(
            mount.target@,
        );
    assert(all[m] == after.mounts@[m]@);
    m
}

/// Whether a required mount is a mount of credentials: source, target, type
/// and read-only flag.
pub open spec fn is_required_as(required: UpMountSummary, mount: DockerMountSpec) -> bool {
    &&& required.source == mount.source
    &&& required.target == mount.target
    &&& required.mount_type == mount.mount_type
    &&& required.read_only == mount.read_only
}

/// A container must have every mount of every kind of credentials to be used
/// again, and no other.
pub proof fn every_credential_mount_is_required(
    git_credentials: RuntimeAccess,
    github_cli: RuntimeAccess,
    ssh_agent: RuntimeAccess,
    forward: RuntimeAccess,
    k: int,
)
    ensures
        ({
            let required = required_mounts(git_credentials, github_cli, ssh_agent, forward);
            let git = git_credentials.mounts@.len() as int;
            let cli = github_cli.mounts@.len() as int;
            let agent = ssh_agent.mounts@.len() as int;
            let ports = forward.mounts@.len() as int;
            &&& required.len() == git + cli + agent + ports
            &&& 0 <= k < git ==> is_required_as(required[k], git_credentials.mounts@[k])
            &&& 0 <= k < cli ==> is_required_as(required[git + k], github_cli.mounts@[k])
            &&& 0 <= k < agent ==> is_required_as(required[git + cli + k], ssh_agent.mounts@[k])
            &&& 0 <= k < ports ==> is_required_as(
                required[git + cli + agent + k],
                forward.mounts@[k],
            )
        }),
{
}

} // verus!
