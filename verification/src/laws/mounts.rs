//! Mounts, the place of the workspace, and what variables stand for.

use crate::config::{MountType, ResolvedConfig};
use crate::docker::{DockerMountSpec, HostPathCreateMode, HostUserIds};
use crate::error::UpError;
use crate::hash_input::MountHashInput;
use crate::laws::text::names_are_last_steps;
use crate::mounts::{
    blocked, checks_folder, conflicts_with_target, create_mode, describes, describes_statically,
    ends_with_dotfiles, ends_with_mounts, finds_folder, folder_basename, guarded_target,
    holds_mount, holds_mounts, locates_with_folder, locates_workspace, ordered, path_is_under,
    plans_mounts, resolves_workspace_mount, settles_location, WorkspaceLocationValidation,
    WorkspaceMountPlan,
};
use crate::paths::normalized_path;
use crate::services::PlanServices;
use crate::text::has_prefix;
use crate::types::{MountResolution, VariableContext, Workspace, WorkspaceLocation};
use vstd::prelude::*;

verus! {

/// Variables of a workspace stand for its directory on the host, its folder in
/// the container, its id, the ids of the host's user, and the user that tools
/// run as with its home: each variable for the one it is named after.
pub proof fn variables_stand_for_the_workspace(
    variables: VariableContext,
    workspace: Workspace,
    folder: Seq<char>,
    remote_user: Seq<char>,
    remote_user_home: Option<Seq<char>>,
    ids: HostUserIds,
)
    requires
        describes(variables, workspace, folder, remote_user, remote_user_home, ids),
    ensures
        variables.local_workspace_folder@ == workspace.root@,
        variables.local_workspace_folder_basename@ == workspace.basename@,
        variables.container_workspace_folder@ == folder,
        variables.devcontainer_id@ == workspace.id@,
        variables.uid == ids.uid,
        variables.gid == ids.gid,
        variables.remote_user@ == remote_user,
        (variables.remote_user_home is Some) == (remote_user_home is Some),
        remote_user_home is Some ==> variables.remote_user_home->0@ == remote_user_home->0,
{
}

/// Two workspaces with different ids never share the id that their variables
/// tell, whatever else they have in common; nor do two with different
/// directories share the directory.
pub proof fn variables_tell_workspaces_apart(
    left: VariableContext,
    right: VariableContext,
    left_workspace: Workspace,
    right_workspace: Workspace,
    left_folder: Seq<char>,
    right_folder: Seq<char>,
    left_user: Seq<char>,
    right_user: Seq<char>,
    left_home: Option<Seq<char>>,
    right_home: Option<Seq<char>>,
    left_ids: HostUserIds,
    right_ids: HostUserIds,
)
    requires
        describes(left, left_workspace, left_folder, left_user, left_home, left_ids),
        describes(right, right_workspace, right_folder, right_user, right_home, right_ids),
    ensures
        left_workspace.id@ != right_workspace.id@ ==> left.devcontainer_id@
            != right.devcontainer_id@,
        left_workspace.root@ != right_workspace.root@ ==> left.local_workspace_folder@
            != right.local_workspace_folder@,
        left_folder != right_folder ==> left.container_workspace_folder@
            != right.container_workspace_folder@,
        left_user != right_user ==> left.remote_user@ != right.remote_user@,
        left_ids.uid != right_ids.uid ==> left.uid != right.uid,
        left_ids.gid != right_ids.gid ==> left.gid != right.gid,
{
}

/// The name of the workspace folder is its last step; a folder without one has
/// the name of the workspace.
pub proof fn folders_are_named_by_their_last_step(
    variables: VariableContext,
    workspace: Workspace,
    parent: Seq<char>,
    name: Seq<char>,
    remote_user: Seq<char>,
    remote_user_home: Option<Seq<char>>,
    ids: HostUserIds,
)
    requires
        !name.contains('/'),
        name != ""@,
        name != "."@,
        name != ".."@,
        describes(
            variables,
            workspace,
            parent + seq!['/'] + name,
            remote_user,
            remote_user_home,
            ids,
        ),
    ensures
        variables.container_workspace_folder_basename@ == name,
        folder_basename("/"@, workspace) == workspace.basename@,
{
    names_are_last_steps(parent, name);
    reveal_strlit("/");
    reveal_strlit("");
    let none = Seq::<char>::empty();
    names_are_last_steps(none, ""@);
    assert(none + seq!['/'] + ""@ =~= "/"@);
    assert(!(""@.contains('/')));
    assert(crate::paths::split(none, '/') =~= seq![none]);
    assert(seq![none].drop_last() =~= Seq::empty());
    assert(none =~= ""@);
    assert(crate::paths::last_step(Seq::<Seq<char>>::empty()) is None);
    assert(crate::paths::last_step(seq![none]) is None);
}

/// Before the image is known, variables tell the user that tools run as from
/// the configuration: the one that is configured, else that of the container,
/// else root; its home is taken to be that of root.
pub proof fn configured_users_are_known_early(
    variables: VariableContext,
    workspace: Workspace,
    folder: Seq<char>,
    config: ResolvedConfig,
    ids: HostUserIds,
)
    requires
        describes_statically(variables, workspace, folder, config, ids),
    ensures
        variables.devcontainer_id@ == workspace.id@,
        variables.container_workspace_folder@ == folder,
        config.devcontainer.remote_user is Some ==> variables.remote_user@
            == config.devcontainer.remote_user->0@,
        config.devcontainer.remote_user is None && config.devcontainer.container_user is Some
            ==> variables.remote_user@ == config.devcontainer.container_user->0@,
        config.devcontainer.remote_user is None && config.devcontainer.container_user is None
            ==> variables.remote_user@ == "root"@,
        variables.remote_user_home is Some,
        variables.remote_user_home->0@ == "/root"@,
{
}

/// Whether a missing path of the host may be created: not where nothing of the
/// host may be changed.
pub open spec fn creation_for(mount_resolution: MountResolution) -> HostPathCreateMode {
    match mount_resolution {
        MountResolution::ReadOnly => HostPathCreateMode::ReadOnly,
        _ => HostPathCreateMode::Materialize,
    }
}

/// Whether a container path is another one or stands below it.
pub open spec fn stands_below(path: Seq<char>, directory: Seq<char>) -> bool {
    let inner = normalized_path(path);
    let outer = normalized_path(directory);
    ||| outer == "/"@
    ||| inner == outer
    ||| outer.len() < inner.len() && inner.take(outer.len() as int) == outer
        && inner[outer.len() as int] == '/'
}

proof fn below_is_below(path: Seq<char>, directory: Seq<char>)
    ensures
        path_is_under(path, directory) == stands_below(path, directory),
{
    let inner = normalized_path(path);
    let outer = normalized_path(directory);
    reveal_strlit("/");
    assert("/"@ =~= seq!['/']);
    let longer = outer + "/"@;
    if has_prefix(inner, longer) {
        assert(inner.take(longer.len() as int) == longer);
        assert(inner.take(outer.len() as int) =~= longer.take(outer.len() as int));
        assert(longer.take(outer.len() as int) =~= outer);
        assert(inner[outer.len() as int] == longer[outer.len() as int]);
    }
    if outer.len() < inner.len() && inner.take(outer.len() as int) == outer
        && inner[outer.len() as int] == '/' {
        assert(inner.take(longer.len() as int) =~= longer) by {
            assert forall|i: int| 0 <= i < longer.len() implies inner[i] == longer[i] by {
                if i < outer.len() {
                    assert(inner.take(outer.len() as int)[i] == inner[i]);
                }
            }
        }
    }
}

/// Where a workspace is found. Its mount is the configured one, as the tool
/// reads it, or else brings its directory in, writable, below `/workspaces`
/// under its own name. Its folder is the configured one with its variables
/// replaced, which must be absolute, in its shortest form; without one it is
/// the target of the mount. A configured mount without a folder is refused once
/// more than a first look is taken, and once the image is known the folder must
/// stand in the configured mount.
pub proof fn workspaces_are_found_where_configured<S: PlanServices>(
    services: &S,
    workspace: &Workspace,
    config: &ResolvedConfig,
    validation: WorkspaceLocationValidation,
    mount_resolution: MountResolution,
    holds: spec_fn(Seq<char>, VariableContext) -> bool,
    location: WorkspaceLocation,
)
    requires
        locates_workspace(
            services,
            workspace,
            config,
            validation,
            mount_resolution,
            holds,
            Ok(location),
        ),
    ensures
        ({
            let configured = config.devcontainer;
            let mount = location.workspace_mount;
            &&& configured.workspace_mount is Some && configured.workspace_folder is None
                ==> validation == WorkspaceLocationValidation::Preliminary
            &&& configured.workspace_mount is None ==> {
                &&& mount.source is Some && mount.source->0@ == workspace.root@
                &&& mount.target@ == "/workspaces/"@ + workspace.basename@
                &&& mount.mount_type == MountType::Bind
                &&& !mount.read_only
            }
            &&& configured.workspace_mount is Some ==> exists|variables: VariableContext|
                #[trigger] call_ensures(
                    S::devcontainer_mount_spec,
                    (
                        services,
                        &configured.workspace_mount->0,
                        workspace,
                        &variables,
                        creation_for(mount_resolution),
                    ),
                    Ok::<DockerMountSpec, UpError>(mount),
                )
            &&& configured.workspace_folder is None ==> location.workspace_folder@ == mount.target@
            &&& configured.workspace_folder is Some ==> exists|
                variables: VariableContext,
                expanded: String,
            |
                {
                    &&& #[trigger] call_ensures(
                        S::expand_variables,
                        (services, &configured.workspace_folder->0, &variables),
                        Ok::<String, UpError>(expanded),
                    )
                    &&& holds("/workspaces/"@ + workspace.basename@, variables)
                    &&& expanded@.len() > 0 && expanded@[0] == '/'
                    &&& location.workspace_folder@ == normalized_path(expanded@)
                }
            &&& configured.workspace_mount is Some && validation
                == WorkspaceLocationValidation::RuntimeResolved ==> stands_below(
                location.workspace_folder@,
                mount.target@,
            )
        }),
{
    let configured = config.devcontainer;
    let outcome = Ok::<WorkspaceLocation, UpError>(location);
    let default = crate::mounts::default_folder(*workspace);
    let (first, folder) = choose|variables: VariableContext, folder: Result<String, UpError>|
        {
            &&& holds(default, variables)
            &&& #[trigger] finds_folder(services, workspace, config, &variables, folder)
            &&& locates_with_folder(
                services,
                workspace,
                config,
                validation,
                mount_resolution,
                holds,
                folder,
                outcome,
            )
        };
    let (second, mount) = choose|
        variables: VariableContext,
        mount: Result<DockerMountSpec, UpError>,
    |
        {
            &&& holds(folder->Ok_0@, variables)
            &&& #[trigger] resolves_workspace_mount(
                services,
                workspace,
                config,
                &variables,
                mount_resolution,
                mount,
            )
            &&& mount is Ok
            &&& settles_location(config, validation, folder->Ok_0, mount->Ok_0, outcome)
        };
    assert(mount->Ok_0 == location.workspace_mount);
    assert(creation_for(mount_resolution) == create_mode(mount_resolution));
    below_is_below(location.workspace_folder@, location.workspace_mount.target@);
    if configured.workspace_mount is Some {
        assert(call_ensures(
            S::devcontainer_mount_spec,
            (
                services,
                &configured.workspace_mount->0,
                workspace,
                &second,
                create_mode(mount_resolution),
            ),
            Ok::<DockerMountSpec, UpError>(location.workspace_mount),
        ));
    }
    if configured.workspace_folder is Some {
        let answer = choose|answer: Result<String, UpError>| #[trigger]
            call_ensures(
                S::expand_variables,
                (services, &configured.workspace_folder->0, &first),
                answer,
            ) && answer is Ok && checks_folder(answer->Ok_0@, folder);
        let expanded = answer->Ok_0;
        assert(call_ensures(
            S::expand_variables,
            (services, &configured.workspace_folder->0, &first),
            Ok::<String, UpError>(expanded),
        ));
        reveal_strlit("/");
        assert(expanded@.take(1)[0] == expanded@[0]);
    }
}

/// Once the image is known, a workspace folder outside the configured mount is
/// refused, and so is any folder that is not absolute.
pub proof fn folders_outside_their_mount_are_refused(
    config: &ResolvedConfig,
    folder: String,
    mount: DockerMountSpec,
    outcome: Result<WorkspaceLocation, UpError>,
    text: Seq<char>,
    checked: Result<String, UpError>,
)
    requires
        settles_location(
            config,
            WorkspaceLocationValidation::RuntimeResolved,
            folder,
            mount,
            outcome,
        ),
        config.devcontainer.workspace_mount is Some,
        config.devcontainer.workspace_folder is Some,
        checks_folder(text, checked),
    ensures
        outcome is Err <==> !stands_below(folder@, mount.target@),
        checked is Err <==> !(text.len() > 0 && text[0] == '/'),
        checked is Ok ==> checked->Ok_0@ == normalized_path(text),
{
    below_is_below(folder@, mount.target@);
    reveal_strlit("/");
    assert("/"@ =~= seq!['/']);
    if text.len() > 0 {
        assert(text.take(1) =~= seq![text[0]]);
        assert(seq![text[0]][0] == text[0]);
        assert(seq!['/'][0] == '/');
    }
}

/// The mounts of a plan are, in order, that of the workspace, those of the
/// configuration and those of dotfiles. A Compose project brings the workspace
/// in itself. No mount but the first stands where the workspace does.
pub proof fn mounts_come_in_order<S: PlanServices>(
    services: &S,
    workspace_mount: DockerMountSpec,
    workspace: &Workspace,
    config: &ResolvedConfig,
    variables: &VariableContext,
    mount_resolution: MountResolution,
    plan: WorkspaceMountPlan,
)
    requires
        plans_mounts(
            services,
            workspace_mount,
            workspace,
            config,
            variables,
            mount_resolution,
            Ok(plan),
        ),
    ensures
        ({
            let compose = config.devcontainer.source is Some
                && config.devcontainer.source->0 is Compose;
            let first = if compose {
                Seq::empty()
            } else {
                seq![workspace_mount]
            };
            let now = mount_resolution == MountResolution::Resolve || mount_resolution
                == MountResolution::ReadOnly;
            &&& !now ==> plan.mounts@ == first && plan.dotfile_skeletons@.len() == 0
            &&& now ==> exists|configured: Vec<DockerMountSpec>, dotfiles: WorkspaceMountPlan|
                {
                    &&& #[trigger] call_ensures(
                        S::config_mount_specs,
                        (
                            services,
                            config,
                            workspace,
                            variables,
                            creation_for(mount_resolution),
                        ),
                        Ok::<Vec<DockerMountSpec>, UpError>(configured),
                    )
                    &&& #[trigger] call_ensures(
                        S::dotfile_mount_plan,
                        (services, config, workspace, variables),
                        Ok::<WorkspaceMountPlan, UpError>(dotfiles),
                    )
                    &&& plan.mounts@ == first + configured@ + dotfiles.mounts@
                    &&& plan.dotfile_skeletons == dotfiles.dotfile_skeletons
                }
            &&& now && !compose ==> forall|i: int|
                1 <= i < plan.mounts@.len() ==> normalized_path(
                    (#[trigger] plan.mounts@[i]).target@,
                ) != normalized_path(workspace_mount.target@)
        }),
{
    let outcome = Ok::<WorkspaceMountPlan, UpError>(plan);
    assert(creation_for(mount_resolution) == create_mode(mount_resolution));
    if mount_resolution.resolves() {
        let target = guarded_target(workspace_mount, config.spec_is_compose());
        let mounts = choose|mounts: Result<Vec<DockerMountSpec>, UpError>| #[trigger]
            call_ensures(
                S::config_mount_specs,
                (services, config, workspace, variables, create_mode(mount_resolution)),
                mounts,
            ) && ends_with_mounts(
                services,
                workspace_mount,
                workspace,
                config,
                variables,
                mounts,
                outcome,
            );
        let first = if config.spec_is_compose() {
            Seq::empty()
        } else {
            seq![workspace_mount]
        };
        let dotfiles = choose|dotfiles: Result<WorkspaceMountPlan, UpError>| #[trigger]
            call_ensures(
                S::dotfile_mount_plan,
                (services, config, workspace, variables),
                dotfiles,
            ) && ends_with_dotfiles(first + mounts->Ok_0@, target, dotfiles, outcome);
        let (own, dots) = (mounts->Ok_0@, dotfiles->Ok_0.mounts@);
        assert(call_ensures(
            S::config_mount_specs,
            (services, config, workspace, variables, create_mode(mount_resolution)),
            Ok::<Vec<DockerMountSpec>, UpError>(mounts->Ok_0),
        ));
        assert(call_ensures(
            S::dotfile_mount_plan,
            (services, config, workspace, variables),
            Ok::<WorkspaceMountPlan, UpError>(dotfiles->Ok_0),
        ));
        if !config.spec_is_compose() {
            assert(!conflicts_with_target(workspace_mount.target@, own));
            assert(!conflicts_with_target(workspace_mount.target@, dots));
            assert forall|i: int| 1 <= i < plan.mounts@.len() implies normalized_path(
                (#[trigger] plan.mounts@[i]).target@,
            ) != normalized_path(workspace_mount.target@) by {
                if i <= own.len() {
                    assert(plan.mounts@[i] == own[i - 1]);
                } else {
                    assert(plan.mounts@[i] == dots[i - 1 - own.len()]);
                }
            }
        }
    }
}

/// A mount of the configuration that stands where the workspace does is
/// refused, unless a Compose project brings the workspace in.
pub proof fn mounts_over_the_workspace_are_refused<S: PlanServices>(
    services: &S,
    workspace_mount: DockerMountSpec,
    workspace: &Workspace,
    config: &ResolvedConfig,
    variables: &VariableContext,
    configured: Vec<DockerMountSpec>,
    position: int,
    outcome: Result<WorkspaceMountPlan, UpError>,
)
    requires
        ends_with_mounts(
            services,
            workspace_mount,
            workspace,
            config,
            variables,
            Ok(configured),
            outcome,
        ),
        !(config.devcontainer.source is Some && config.devcontainer.source->0 is Compose),
        0 <= position < configured@.len(),
        normalized_path(configured@[position].target@) == normalized_path(workspace_mount.target@),
    ensures
        outcome is Err,
        outcome->Err_0@ == seq![
            "Mount target conflicts with workspace mount target: "@ + normalized_path(
                workspace_mount.target@,
            ),
        ],
{
    assert(conflicts_with_target(workspace_mount.target@, configured@));
    assert(blocked(Some(workspace_mount.target@), configured@));
}

/// What goes into the hash of a mount tells mounts apart: two mounts with the
/// same input have the same source, target, type, right to write and
/// consistency, and their options of bind and volume mounts agree.
pub proof fn hash_inputs_tell_mounts_apart(
    input: MountHashInput,
    left: DockerMountSpec,
    right: DockerMountSpec,
)
    requires
        holds_mount(input, left),
        holds_mount(input, right),
    ensures
        left.source == right.source,
        left.target == right.target,
        left.mount_type == right.mount_type,
        left.read_only == right.read_only,
        left.consistency == right.consistency,
        (left.bind_options is Some) == (right.bind_options is Some),
        left.bind_options is Some ==> {
            let (l, r) = (left.bind_options->0, right.bind_options->0);
            &&& (l.propagation is Some) == (r.propagation is Some)
            &&& l.propagation is Some ==> l.propagation->0.spec_name()
                == r.propagation->0.spec_name()
            &&& l.non_recursive == r.non_recursive
            &&& l.create_mountpoint == r.create_mountpoint
            &&& l.read_only_non_recursive == r.read_only_non_recursive
            &&& l.read_only_force_recursive == r.read_only_force_recursive
        },
        (left.volume_options is Some) == (right.volume_options is Some),
        left.volume_options is Some ==> {
            let (l, r) = (left.volume_options->0, right.volume_options->0);
            &&& l.no_copy == r.no_copy
            &&& l.subpath == r.subpath
            &&& (l.labels is Some) == (r.labels is Some)
            &&& l.labels is Some ==> ordered(l.labels->0@) == ordered(r.labels->0@)
            &&& (l.driver_config is Some) == (r.driver_config is Some)
            &&& l.driver_config is Some ==> l.driver_config->0.name == r.driver_config->0.name
        },
        input.source == left.source,
        input.target == left.target,
        input.mount_type == left.mount_type,
        input.read_only == left.read_only,
{
}

/// Every mount goes into the hash, in its place.
pub proof fn every_mount_goes_into_the_hash(
    inputs: Seq<MountHashInput>,
    mounts: Seq<DockerMountSpec>,
)
    requires
        holds_mounts(inputs, mounts),
    ensures
        inputs.len() == mounts.len(),
        forall|i: int|
            0 <= i < mounts.len() ==> (#[trigger] inputs[i]).target@ == mounts[i].target@
                && inputs[i].source == mounts[i].source && inputs[i].mount_type
                == mounts[i].mount_type && inputs[i].read_only == mounts[i].read_only
                && inputs[i].consistency == mounts[i].consistency,
{
    assert forall|i: int| 0 <= i < mounts.len() implies (#[trigger] inputs[i]).target@
        == mounts[i].target@ && inputs[i].source == mounts[i].source && inputs[i].mount_type
        == mounts[i].mount_type && inputs[i].read_only == mounts[i].read_only
        && inputs[i].consistency == mounts[i].consistency by {
        assert(holds_mount(inputs[i], mounts[i]));
    }
}

} // verus!
