//! Where the workspace stands in the container, and which mounts bring it and
//! the rest in.

use crate::config::{MountType, ResolvedConfig};
use crate::docker::{
    copy_optional_text, DockerMountSpec, DotfileSkeletonPlan, HostPathCreateMode, HostUserIds,
    MountBindOptions, MountVolumeOptions,
};
use crate::error::UpError;
use crate::hash_input::{
    MountBindOptionsHashInput, MountHashInput, MountVolumeDriverConfigHashInput,
    MountVolumeOptionsHashInput,
};
use crate::paths::{file_name, last_step, normalize_container_path, normalized_path, split};
use crate::services::PlanServices;
use crate::text::{has_prefix, opt_view, same_text, starts_with};
use crate::text_map::{inserted, TextMap};
use crate::types::{MountResolution, VariableContext, Workspace, WorkspaceLocation};
use vstd::prelude::*;
use vstd::string::*;

verus! {

/// How strictly the place of the workspace is checked.
#[derive(Debug, Clone, Copy, PartialEq, Eq, Structural)]
pub enum WorkspaceLocationValidation {
    /// Not all layers of the configuration are there yet.
    Preliminary,
    /// The configuration is complete.
    ConfigResolved,
    /// The users of the container are known as well.
    RuntimeResolved,
}

impl WorkspaceLocationValidation {
    /// Whether a workspace mount needs a workspace folder beside it.
    pub fn require_explicit_workspace_folder(self) -> (res: bool)
        ensures
            res == (self != WorkspaceLocationValidation::Preliminary),
    {
        matches!(
            self,
            WorkspaceLocationValidation::ConfigResolved
                | WorkspaceLocationValidation::RuntimeResolved
        )
    }

    /// Whether the workspace folder must stand below the workspace mount.
    pub fn validate_workspace_folder_under_mount(self) -> (res: bool)
        ensures
            res == (self == WorkspaceLocationValidation::RuntimeResolved),
    {
        matches!(self, WorkspaceLocationValidation::RuntimeResolved)
    }
}

/// The mounts of a container and the dotfiles that stand in.
#[derive(Debug, Clone)]
pub struct WorkspaceMountPlan {
    /// The mounts.
    pub mounts: Vec<DockerMountSpec>,
    /// Dotfiles that stand in.
    pub dotfile_skeletons: Vec<DotfileSkeletonPlan>,
}

/// The folder of a workspace where none is configured.
pub open spec fn default_folder(workspace: Workspace) -> Seq<char> {
    "/workspaces/"@ + workspace.basename@
}

/// The folder of a workspace where none is configured.
pub fn default_workspace_folder(workspace: &Workspace) -> (res: String)
    ensures
        res@ == default_folder(*workspace),
{
    let mut folder = "/workspaces/".to_owned();
    folder.append(workspace.basename.as_str());
    folder
}

/// Whether a mount has the same target as the workspace.
pub open spec fn conflicts_with_target(workspace_target: Seq<char>, mounts: Seq<DockerMountSpec>) -> bool {
    exists|i: int|
        0 <= i < mounts.len() && normalized_path((#[trigger] mounts[i]).target@) == normalized_path(
            workspace_target,
        )
}

/// The message about a mount with the same target as the workspace.
pub open spec fn target_conflict_message(workspace_target: Seq<char>) -> Seq<char> {
    "Mount target conflicts with workspace mount target: "@ + normalized_path(workspace_target)
}

/// Rejects mounts that have the same target as the workspace.
pub fn reject_workspace_mount_target_conflicts(
    workspace_target: &str,
    mounts: &Vec<DockerMountSpec>,
) -> (res: Result<(), UpError>)
    ensures
        match res {
            Ok(()) => !conflicts_with_target(workspace_target@, mounts@),
            Err(error) => conflicts_with_target(workspace_target@, mounts@) && error@ == seq![
                target_conflict_message(workspace_target@),
            ],
        },
{
    let target = normalize_container_path(workspace_target);
    let mut i: usize = 0;
    while i < mounts.len()
        invariant
            i <= mounts@.len(),
            target@ == normalized_path(workspace_target@),
            forall|j: int|
                0 <= j < i ==> normalized_path((#[trigger] mounts@[j]).target@) != target@,
        decreases mounts@.len() - i,
    {
        let other = normalize_container_path(mounts[i].target.as_str());
        if same_text(other.as_str(), target.as_str()) {
            assert(normalized_path(mounts@[i as int].target@) == target@);
            let mut message = "Mount target conflicts with workspace mount target: ".to_owned();
            message.append(target.as_str());
            return Err(UpError::new(message));
        }
        i = i + 1;
    }
    Ok(())
}

/// Whether missing host paths may be created.
pub open spec fn create_mode(mount_resolution: MountResolution) -> HostPathCreateMode {
    if mount_resolution == MountResolution::ReadOnly {
        HostPathCreateMode::ReadOnly
    } else {
        HostPathCreateMode::Materialize
    }
}

/// Whether missing host paths may be created.
pub fn host_path_create_mode(mount_resolution: MountResolution) -> (res: HostPathCreateMode)
    ensures
        res == create_mode(mount_resolution),
{
    match mount_resolution {
        MountResolution::ReadOnly => HostPathCreateMode::ReadOnly,
        MountResolution::Resolve | MountResolution::DeferConfigMounts => {
            HostPathCreateMode::Materialize
        },
    }
}

/// Whether a result is the refusal of a mount that stands in the way of the
/// workspace.
pub open spec fn refuses_target<T>(workspace_target: Seq<char>, outcome: Result<T, UpError>) -> bool {
    outcome matches Err(error) && error@ == seq![target_conflict_message(workspace_target)]
}

/// The targets that the mounts of the configuration may not have.
pub open spec fn guarded_target(workspace_mount: DockerMountSpec, compose: bool) -> Option<
    Seq<char>,
> {
    if compose {
        None
    } else {
        Some(workspace_mount.target@)
    }
}

/// Whether mounts may not stand beside the workspace.
pub open spec fn blocked(target: Option<Seq<char>>, mounts: Seq<DockerMountSpec>) -> bool {
    target is Some && conflicts_with_target(target->0, mounts)
}

/// How planning the mounts ends, once those of the configuration were read
/// and the dotfiles were planned.
pub open spec fn ends_with_dotfiles(
    before: Seq<DockerMountSpec>,
    target: Option<Seq<char>>,
    dotfiles: Result<WorkspaceMountPlan, UpError>,
    outcome: Result<WorkspaceMountPlan, UpError>,
) -> bool {
    match dotfiles {
        Err(_) => outcome == dotfiles,
        Ok(dotfiles) => if blocked(target, dotfiles.mounts@) {
            refuses_target(target->0, outcome)
        } else {
            &&& outcome is Ok
            &&& outcome->Ok_0.mounts@ == before + dotfiles.mounts@
            &&& outcome->Ok_0.dotfile_skeletons == dotfiles.dotfile_skeletons
        },
    }
}

/// How planning the mounts ends, once those of the configuration were read.
pub open spec fn ends_with_mounts<S: PlanServices>(
    services: &S,
    workspace_mount: DockerMountSpec,
    workspace: &Workspace,
    config: &ResolvedConfig,
    variables: &VariableContext,
    config_mounts: Result<Vec<DockerMountSpec>, UpError>,
    outcome: Result<WorkspaceMountPlan, UpError>,
) -> bool {
    let target = guarded_target(workspace_mount, config.spec_is_compose());
    let first = if config.spec_is_compose() {
        Seq::empty()
    } else {
        seq![workspace_mount]
    };
    match config_mounts {
        Err(error) => outcome == Err::<WorkspaceMountPlan, UpError>(error),
        Ok(config_mounts) => if blocked(target, config_mounts@) {
            refuses_target(target->0, outcome)
        } else {
            exists|dotfiles: Result<WorkspaceMountPlan, UpError>| #[trigger]
                call_ensures(
                    S::dotfile_mount_plan,
                    (services, config, workspace, variables),
                    dotfiles,
                ) && ends_with_dotfiles(first + config_mounts@, target, dotfiles, outcome)
        },
    }
}

/// How planning the mounts ends.
pub open spec fn plans_mounts<S: PlanServices>(
    services: &S,
    workspace_mount: DockerMountSpec,
    workspace: &Workspace,
    config: &ResolvedConfig,
    variables: &VariableContext,
    mount_resolution: MountResolution,
    outcome: Result<WorkspaceMountPlan, UpError>,
) -> bool {
    if mount_resolution.resolves() {
        exists|config_mounts: Result<Vec<DockerMountSpec>, UpError>| #[trigger]
            call_ensures(
                S::config_mount_specs,
                (services, config, workspace, variables, create_mode(mount_resolution)),
                config_mounts,
            ) && ends_with_mounts(
                services,
                workspace_mount,
                workspace,
                config,
                variables,
                config_mounts,
                outcome,
            )
    } else {
        &&& outcome is Ok
        &&& outcome->Ok_0.dotfile_skeletons@.len() == 0
        &&& outcome->Ok_0.mounts@ == if config.spec_is_compose() {
            Seq::empty()
        } else {
            seq![workspace_mount]
        }
    }
}

/// Plans the mounts of a container: the workspace, unless a Compose project
/// brings it in, then those of the configuration, then the dotfiles. The last
/// two are left out where they are resolved later, and may not have the
/// target of the workspace.
pub fn workspace_mount_plan_from_resolved<S: PlanServices>(
    services: &S,
    workspace_mount: DockerMountSpec,
    workspace: &Workspace,
    config: &ResolvedConfig,
    variables: &VariableContext,
    mount_resolution: MountResolution,
) -> (res: Result<WorkspaceMountPlan, UpError>)
    ensures
        plans_mounts(
            services,
            workspace_mount,
            workspace,
            config,
            variables,
            mount_resolution,
            res,
        ),
{
    let ghost whole = workspace_mount;
    let compose = config.is_compose();
    let workspace_target = workspace_mount.target.clone();
    let mut mounts: Vec<DockerMountSpec> = Vec::new();
    if !compose {
        mounts.push(workspace_mount);
    }
    let ghost first = mounts@;
    assert(first =~= if compose {
        Seq::empty()
    } else {
        seq![whole]
    });
    if !mount_resolution.resolves_config_mounts() {
        return Ok(WorkspaceMountPlan { mounts, dotfile_skeletons: Vec::new() });
    }
    let mut config_mounts = match services.config_mount_specs(
        config,
        workspace,
        variables,
        host_path_create_mode(mount_resolution),
    ) {
        Ok(config_mounts) => config_mounts,
        Err(error) => {
            return Err(error);
        },
    };
    if !compose {
        match reject_workspace_mount_target_conflicts(workspace_target.as_str(), &config_mounts) {
            Ok(()) => {},
            Err(error) => {
                return Err(error);
            },
        }
    }
    mounts.append(&mut config_mounts);
    let mut dotfiles = match services.dotfile_mount_plan(config, workspace, variables) {
        Ok(dotfiles) => dotfiles,
        Err(error) => {
            return Err(error);
        },
    };
    if !compose {
        match reject_workspace_mount_target_conflicts(workspace_target.as_str(), &dotfiles.mounts) {
            Ok(()) => {},
            Err(error) => {
                return Err(error);
            },
        }
    }
    mounts.append(&mut dotfiles.mounts);
    Ok(WorkspaceMountPlan { mounts, dotfile_skeletons: dotfiles.dotfile_skeletons })
}

/// Checks that a workspace folder is absolute, and brings it in its shortest
/// form.
pub fn validate_workspace_folder(workspace_folder: &str) -> (res: Result<String, UpError>)
    ensures
        checks_folder(workspace_folder@, res),
{
    proof {
        reveal_strlit("/");
    }
    if !starts_with(workspace_folder, "/") {
        let mut message = "workspaceFolder must be an absolute container path: ".to_owned();
        message.append(workspace_folder);
        return Err(UpError::new(message));
    }
    Ok(normalize_container_path(workspace_folder))
}

/// How the check of a workspace folder ends.
pub open spec fn checks_folder(folder: Seq<char>, outcome: Result<String, UpError>) -> bool {
    match outcome {
        Ok(normal) => has_prefix(folder, "/"@) && normal@ == normalized_path(folder),
        Err(error) => !has_prefix(folder, "/"@) && error@ == seq![
            "workspaceFolder must be an absolute container path: "@ + folder,
        ],
    }
}

/// Whether a container path is another or stands below it.
pub open spec fn path_is_under(path: Seq<char>, ancestor: Seq<char>) -> bool {
    let path = normalized_path(path);
    let ancestor = normalized_path(ancestor);
    ancestor == "/"@ || path == ancestor || has_prefix(path, ancestor + "/"@)
}

/// The message about a workspace folder outside the workspace mount.
pub open spec fn outside_mount_message(folder: Seq<char>, target: Seq<char>) -> Seq<char> {
    "workspaceFolder must be under the workspaceMount target: workspaceFolder="@ + normalized_path(
        folder,
    ) + ", workspaceMount target="@ + normalized_path(target)
}

/// Checks that the workspace folder stands below the workspace mount.
pub fn validate_workspace_folder_under_mount(
    workspace_folder: &str,
    workspace_mount_target: &str,
) -> (res: Result<(), UpError>)
    ensures
        match res {
            Ok(()) => path_is_under(workspace_folder@, workspace_mount_target@),
            Err(error) => !path_is_under(workspace_folder@, workspace_mount_target@) && error@
                == seq![outside_mount_message(workspace_folder@, workspace_mount_target@)],
        },
{
    let folder = normalize_container_path(workspace_folder);
    let target = normalize_container_path(workspace_mount_target);
    let mut prefix = target.clone();
    prefix.append("/");
    if same_text(target.as_str(), "/") || same_text(folder.as_str(), target.as_str())
        || starts_with(folder.as_str(), prefix.as_str()) {
        return Ok(());
    }
    let mut message =
        "workspaceFolder must be under the workspaceMount target: workspaceFolder=".to_owned();
    message.append(folder.as_str());
    message.append(", workspaceMount target=");
    message.append(target.as_str());
    Err(UpError::new(message))
}

/// How reading the mount of the workspace ends.
pub open spec fn resolves_workspace_mount<S: PlanServices>(
    services: &S,
    workspace: &Workspace,
    config: &ResolvedConfig,
    variables: &VariableContext,
    mount_resolution: MountResolution,
    outcome: Result<DockerMountSpec, UpError>,
) -> bool {
    match config.devcontainer.workspace_mount {
        Some(mount) => exists|answer: Result<DockerMountSpec, UpError>| #[trigger]
            call_ensures(
                S::devcontainer_mount_spec,
                (services, &mount, workspace, variables, create_mode(mount_resolution)),
                answer,
            ) && match answer {
                Ok(_) => outcome == answer,
                Err(cause) => outcome matches Err(error) && error@ == seq![
                    "Failed to resolve workspaceMount"@,
                ] + cause@,
            },
        None => outcome matches Ok(mount) && is_default_mount(*workspace, mount),
    }
}

/// Whether a mount is the one that brings the workspace in where none is
/// configured.
pub open spec fn is_default_mount(workspace: Workspace, mount: DockerMountSpec) -> bool {
    &&& mount.source == Some(workspace.root)
    &&& mount.target@ == default_folder(workspace)
    &&& mount.mount_type == MountType::Bind
    &&& !mount.read_only
    &&& mount.consistency is None
    &&& mount.bind_options is None
    &&& mount.volume_options is None
}

/// Reads the mount of the workspace: the configured one, or the default.
pub fn workspace_mount_spec<S: PlanServices>(
    services: &S,
    workspace: &Workspace,
    config: &ResolvedConfig,
    variables: &VariableContext,
    mount_resolution: MountResolution,
) -> (res: Result<DockerMountSpec, UpError>)
    ensures
        resolves_workspace_mount(services, workspace, config, variables, mount_resolution, res),
{
    match &config.devcontainer.workspace_mount {
        Some(mount) => {
            match services.devcontainer_mount_spec(
                mount,
                workspace,
                variables,
                host_path_create_mode(mount_resolution),
            ) {
                Ok(spec) => Ok(spec),
                Err(cause) => Err(cause.context("Failed to resolve workspaceMount")),
            }
        },
        None => Ok(
            DockerMountSpec {
                source: Some(workspace.root.clone()),
                target: default_workspace_folder(workspace),
                mount_type: MountType::Bind,
                read_only: false,
                consistency: None,
                bind_options: None,
                volume_options: None,
            },
        ),
    }
}

/// How the folder of the workspace is found, given the variables that hold
/// for the default folder.
pub open spec fn finds_folder<S: PlanServices>(
    services: &S,
    workspace: &Workspace,
    config: &ResolvedConfig,
    variables: &VariableContext,
    outcome: Result<String, UpError>,
) -> bool {
    match config.devcontainer.workspace_folder {
        Some(folder) => exists|answer: Result<String, UpError>| #[trigger]
            call_ensures(S::expand_variables, (services, &folder, variables), answer)
                && match answer {
                Ok(expanded) => checks_folder(expanded@, outcome),
                Err(cause) => outcome matches Err(error) && error@ == seq![
                    "Failed to expand workspaceFolder"@,
                ] + cause@,
            },
        None => checks_folder(default_folder(*workspace), outcome),
    }
}

/// How the place of the workspace is settled, once folder and mount were
/// found.
pub open spec fn settles_location(
    config: &ResolvedConfig,
    validation: WorkspaceLocationValidation,
    folder: String,
    mount: DockerMountSpec,
    outcome: Result<WorkspaceLocation, UpError>,
) -> bool {
    let chosen = if config.devcontainer.workspace_folder is Some {
        folder
    } else {
        mount.target
    };
    if config.devcontainer.workspace_mount is Some && validation
        == WorkspaceLocationValidation::RuntimeResolved && !path_is_under(
        chosen@,
        mount.target@,
    ) {
        outcome matches Err(error) && error@ == seq![outside_mount_message(chosen@, mount.target@)]
    } else {
        outcome == Ok::<WorkspaceLocation, UpError>(
            WorkspaceLocation { workspace_folder: chosen, workspace_mount: mount },
        )
    }
}

/// How the place of the workspace is found, once its folder was. `holds` tells
/// which variables hold for a folder.
pub open spec fn locates_with_folder<S: PlanServices>(
    services: &S,
    workspace: &Workspace,
    config: &ResolvedConfig,
    validation: WorkspaceLocationValidation,
    mount_resolution: MountResolution,
    holds: spec_fn(Seq<char>, VariableContext) -> bool,
    folder: Result<String, UpError>,
    outcome: Result<WorkspaceLocation, UpError>,
) -> bool {
    match folder {
        Err(error) => outcome == Err::<WorkspaceLocation, UpError>(error),
        Ok(folder) => exists|
            variables: VariableContext,
            mount: Result<DockerMountSpec, UpError>,
        |
            {
                &&& holds(folder@, variables)
                &&& #[trigger] resolves_workspace_mount(
                    services,
                    workspace,
                    config,
                    &variables,
                    mount_resolution,
                    mount,
                )
                &&& match mount {
                    Err(error) => outcome == Err::<WorkspaceLocation, UpError>(error),
                    Ok(mount) => settles_location(config, validation, folder, mount, outcome),
                }
            },
    }
}

/// How the place of the workspace is found. `holds` tells which variables
/// hold for a folder.
pub open spec fn locates_workspace<S: PlanServices>(
    services: &S,
    workspace: &Workspace,
    config: &ResolvedConfig,
    validation: WorkspaceLocationValidation,
    mount_resolution: MountResolution,
    holds: spec_fn(Seq<char>, VariableContext) -> bool,
    outcome: Result<WorkspaceLocation, UpError>,
) -> bool {
    if config.devcontainer.workspace_mount is Some && config.devcontainer.workspace_folder is None
        && validation != WorkspaceLocationValidation::Preliminary {
        outcome matches Err(error) && error@ == seq![
            "workspaceFolder is required when workspaceMount is specified"@,
        ]
    } else {
        exists|variables: VariableContext, folder: Result<String, UpError>|
            {
                &&& holds(default_folder(*workspace), variables)
                &&& #[trigger] finds_folder(services, workspace, config, &variables, folder)
                &&& locates_with_folder(
                    services,
                    workspace,
                    config,
                    validation,
                    mount_resolution,
                    holds,
                    folder,
                    outcome,
                )
            }
    }
}

/// Which variables a function gives for a folder.
pub open spec fn given_by<F: Fn(&String) -> VariableContext>(variables_for: F) -> spec_fn(
    Seq<char>,
    VariableContext,
) -> bool {
    |folder: Seq<char>, variables: VariableContext|
        exists|text: String| text@ == folder && #[trigger]
            call_ensures(variables_for, (&text,), variables)
}

/// What is known of a place stays known where less is known of the variables.
pub proof fn locates_with_less_known<S: PlanServices>(
    services: &S,
    workspace: &Workspace,
    config: &ResolvedConfig,
    validation: WorkspaceLocationValidation,
    mount_resolution: MountResolution,
    holds: spec_fn(Seq<char>, VariableContext) -> bool,
    known: spec_fn(Seq<char>, VariableContext) -> bool,
    outcome: Result<WorkspaceLocation, UpError>,
)
    requires
        locates_workspace(
            services,
            workspace,
            config,
            validation,
            mount_resolution,
            holds,
            outcome,
        ),
        forall|folder: Seq<char>, variables: VariableContext|
            holds(folder, variables) ==> #[trigger] known(folder, variables),
    ensures
        locates_workspace(
            services,
            workspace,
            config,
            validation,
            mount_resolution,
            known,
            outcome,
        ),
{
    if !(config.devcontainer.workspace_mount is Some && config.devcontainer.workspace_folder is None
        && validation != WorkspaceLocationValidation::Preliminary) {
        let (variables, folder) = choose|
            variables: VariableContext,
            folder: Result<String, UpError>,
        |
            {
                &&& holds(default_folder(*workspace), variables)
                &&& #[trigger] finds_folder(services, workspace, config, &variables, folder)
                &&& locates_with_folder(
                    services,
                    workspace,
                    config,
                    validation,
                    mount_resolution,
                    holds,
                    folder,
                    outcome,
                )
            };
        assert(known(default_folder(*workspace), variables));
        if folder is Ok {
            let (inner, mount) = choose|
                inner: VariableContext,
                mount: Result<DockerMountSpec, UpError>,
            |
                {
                    &&& holds(folder->Ok_0@, inner)
                    &&& #[trigger] resolves_workspace_mount(
                        services,
                        workspace,
                        config,
                        &inner,
                        mount_resolution,
                        mount,
                    )
                    &&& match mount {
                        Err(error) => outcome == Err::<WorkspaceLocation, UpError>(error),
                        Ok(mount) => settles_location(
                            config,
                            validation,
                            folder->Ok_0,
                            mount,
                            outcome,
                        ),
                    }
                };
            assert(known(folder->Ok_0@, inner));
            assert(resolves_workspace_mount(
                services,
                workspace,
                config,
                &inner,
                mount_resolution,
                mount,
            ));
        }
        assert(locates_with_folder(
            services,
            workspace,
            config,
            validation,
            mount_resolution,
            known,
            folder,
            outcome,
        ));
    }
}

/// Finds where the workspace stands in the container. The folder is the
/// configured one with its variables replaced, or else the target of the
/// mount that brings the workspace in.
pub fn resolve_workspace_location<S: PlanServices, F: Fn(&String) -> VariableContext>(
    services: &S,
    workspace: &Workspace,
    config: &ResolvedConfig,
    validation: WorkspaceLocationValidation,
    mount_resolution: MountResolution,
    variables_for_workspace_folder: F,
) -> (res: Result<WorkspaceLocation, UpError>)
    requires
        forall|folder: &String| call_requires(variables_for_workspace_folder, (folder,)),
    ensures
        locates_workspace(
            services,
            workspace,
            config,
            validation,
            mount_resolution,
            given_by(variables_for_workspace_folder),
            res,
        ),
{
    let default_folder = default_workspace_folder(workspace);
    let explicit = config.devcontainer.workspace_folder.is_some();
    if config.devcontainer.workspace_mount.is_some() && !explicit
        && validation.require_explicit_workspace_folder() {
        return Err(
            UpError::from_text("workspaceFolder is required when workspaceMount is specified"),
        );
    }
    let pre_variables = variables_for_workspace_folder(&default_folder);
    let folder: Result<String, UpError> = match &config.devcontainer.workspace_folder {
        Some(workspace_folder) => {
            match services.expand_variables(workspace_folder, &pre_variables) {
                Ok(expanded) => validate_workspace_folder(expanded.as_str()),
                Err(cause) => Err(cause.context("Failed to expand workspaceFolder")),
            }
        },
        None => validate_workspace_folder(default_folder.as_str()),
    };
    assert(finds_folder(services, workspace, config, &pre_variables, folder));
    let workspace_folder = match folder {
        Ok(workspace_folder) => workspace_folder,
        Err(error) => {
            return Err(error);
        },
    };
    let variables = variables_for_workspace_folder(&workspace_folder);
    let workspace_mount = match workspace_mount_spec(
        services,
        workspace,
        config,
        &variables,
        mount_resolution,
    ) {
        Ok(workspace_mount) => workspace_mount,
        Err(error) => {
            return Err(error);
        },
    };
    let workspace_folder = if explicit {
        workspace_folder
    } else {
        workspace_mount.target.clone()
    };
    if config.devcontainer.workspace_mount.is_some()
        && validation.validate_workspace_folder_under_mount() {
        match validate_workspace_folder_under_mount(
            workspace_folder.as_str(),
            workspace_mount.target.as_str(),
        ) {
            Ok(()) => {},
            Err(error) => {
                return Err(error);
            },
        }
    }
    Ok(WorkspaceLocation { workspace_folder, workspace_mount })
}

/// The last part of the workspace folder, or of the workspace where the
/// folder has none.
pub open spec fn folder_basename(folder: Seq<char>, workspace: Workspace) -> Seq<char> {
    match last_step(split(folder, '/')) {
        Some(name) => name,
        None => workspace.basename@,
    }
}

/// The last part of the workspace folder, or of the workspace where the
/// folder has none.
pub fn container_workspace_folder_basename(
    workspace_folder: &str,
    workspace: &Workspace,
) -> (res: String)
    ensures
        res@ == folder_basename(workspace_folder@, *workspace),
{
    match file_name(workspace_folder) {
        Some(name) => name,
        None => workspace.basename.clone(),
    }
}

/// Whether variables stand for the values of a workspace, its folder and the
/// user that tools run as.
pub open spec fn describes(
    variables: VariableContext,
    workspace: Workspace,
    folder: Seq<char>,
    remote_user: Seq<char>,
    remote_user_home: Option<Seq<char>>,
    ids: HostUserIds,
) -> bool {
    &&& variables.local_workspace_folder == workspace.root
    &&& variables.local_workspace_folder_basename == workspace.basename
    &&& variables.container_workspace_folder@ == folder
    &&& variables.container_workspace_folder_basename@ == folder_basename(folder, workspace)
    &&& variables.devcontainer_id == workspace.id
    &&& variables.uid == ids.uid
    &&& variables.gid == ids.gid
    &&& variables.remote_user@ == remote_user
    &&& opt_view(variables.remote_user_home) == remote_user_home
}

/// The variables for a workspace, its folder and the user that tools run as.
pub fn mount_variable_context(
    workspace: &Workspace,
    workspace_folder: &str,
    remote_user: String,
    remote_user_home: Option<String>,
    ids: HostUserIds,
) -> (res: VariableContext)
    ensures
        describes(
            res,
            *workspace,
            workspace_folder@,
            remote_user@,
            opt_view(remote_user_home),
            ids,
        ),
        res.local_workspace_folder == workspace.root,
        res.local_workspace_folder_basename == workspace.basename,
        res.container_workspace_folder@ == workspace_folder@,
        res.devcontainer_id == workspace.id,
        res.uid == ids.uid,
        res.gid == ids.gid,
        res.remote_user == remote_user,
        res.remote_user_home == remote_user_home,
{
    VariableContext {
        local_workspace_folder: workspace.root.clone(),
        local_workspace_folder_basename: workspace.basename.clone(),
        container_workspace_folder: workspace_folder.to_owned(),
        container_workspace_folder_basename: container_workspace_folder_basename(
            workspace_folder,
            workspace,
        ),
        devcontainer_id: workspace.id.clone(),
        uid: ids.uid,
        gid: ids.gid,
        remote_user,
        remote_user_home,
    }
}

/// The user that tools run as, as far as the configuration tells.
pub open spec fn configured_user(config: ResolvedConfig) -> Seq<char> {
    match config.devcontainer.remote_user {
        Some(user) => user@,
        None => match config.devcontainer.container_user {
            Some(user) => user@,
            None => "root"@,
        },
    }
}

/// Whether variables stand for the values that the configuration tells
/// before the image is known.
pub open spec fn describes_statically(
    variables: VariableContext,
    workspace: Workspace,
    folder: Seq<char>,
    config: ResolvedConfig,
    ids: HostUserIds,
) -> bool {
    describes(variables, workspace, folder, configured_user(config), Some("/root"@), ids)
}

/// The variables that the configuration tells before the image is known.
pub fn static_mount_variable_context(
    workspace: &Workspace,
    workspace_folder: &str,
    config: &ResolvedConfig,
    ids: HostUserIds,
) -> (res: VariableContext)
    ensures
        describes_statically(res, *workspace, workspace_folder@, *config, ids),
        res.local_workspace_folder == workspace.root,
        res.local_workspace_folder_basename == workspace.basename,
        res.container_workspace_folder@ == workspace_folder@,
        res.devcontainer_id == workspace.id,
        res.uid == ids.uid,
        res.gid == ids.gid,
        res.remote_user@ == match config.devcontainer.remote_user {
            Some(user) => user@,
            None => match config.devcontainer.container_user {
                Some(user) => user@,
                None => "root"@,
            },
        },
        res.remote_user_home is Some,
        res.remote_user_home->0@ == "/root"@,
{
    let remote_user = match &config.devcontainer.remote_user {
        Some(user) => user.clone(),
        None => match &config.devcontainer.container_user {
            Some(user) => user.clone(),
            None => "root".to_owned(),
        },
    };
    mount_variable_context(
        workspace,
        workspace_folder,
        remote_user,
        Some("/root".to_owned()),
        ids,
    )
}

/// A list of pairs brought in key order; of pairs with one key the last
/// counts.
pub open spec fn ordered(pairs: Seq<(String, String)>) -> Seq<(Seq<char>, String)>
    decreases pairs.len(),
{
    if pairs.len() == 0 {
        Seq::empty()
    } else {
        inserted(ordered(pairs.drop_last()), pairs.last().0@, pairs.last().1)
    }
}

fn ordered_pairs(pairs: &Vec<(String, String)>) -> (res: TextMap<String>)
    ensures
        res@ == ordered(pairs@),
        res.wf(),
{
    let mut map: TextMap<String> = TextMap::new();
    let mut i: usize = 0;
    assert(pairs@.take(0) =~= Seq::empty());
    while i < pairs.len()
        invariant
            i <= pairs@.len(),
            map@ == ordered(pairs@.take(i as int)),
            map.wf(),
        decreases pairs@.len() - i,
    {
        assert(pairs@.take(i as int + 1).drop_last() =~= pairs@.take(i as int));
        map.insert(pairs[i].0.clone(), pairs[i].1.clone());
        i = i + 1;
    }
    assert(pairs@.take(pairs@.len() as int) =~= pairs@);
    map
}

/// Whether an optional map holds an optional list of pairs.
pub open spec fn holds_pairs(
    map: Option<TextMap<String>>,
    pairs: Option<Vec<(String, String)>>,
) -> bool {
    match pairs {
        Some(pairs) => map is Some && map->0@ == ordered(pairs@) && map->0.wf(),
        None => map is None,
    }
}

fn optional_ordered_pairs(pairs: &Option<Vec<(String, String)>>) -> (res: Option<TextMap<String>>)
    ensures
        holds_pairs(res, *pairs),
{
    match pairs {
        Some(pairs) => Some(ordered_pairs(pairs)),
        None => None,
    }
}

/// Whether a hash input holds the options of a bind mount.
pub open spec fn holds_bind_options(
    input: MountBindOptionsHashInput,
    options: MountBindOptions,
) -> bool {
    &&& opt_view(input.propagation) == match options.propagation {
        Some(propagation) => Some(propagation.spec_name()),
        None => None,
    }
    &&& input.non_recursive == options.non_recursive
    &&& input.create_mountpoint == options.create_mountpoint
    &&& input.read_only_non_recursive == options.read_only_non_recursive
    &&& input.read_only_force_recursive == options.read_only_force_recursive
}

/// The options of a bind mount, for the hash.
pub fn bind_options_hash_input(options: &MountBindOptions) -> (res: MountBindOptionsHashInput)
    ensures
        holds_bind_options(res, *options),
{
    MountBindOptionsHashInput {
        propagation: match options.propagation {
            Some(propagation) => Some(propagation.name().to_owned()),
            None => None,
        },
        non_recursive: options.non_recursive,
        create_mountpoint: options.create_mountpoint,
        read_only_non_recursive: options.read_only_non_recursive,
        read_only_force_recursive: options.read_only_force_recursive,
    }
}

/// Whether a hash input holds the options of a volume mount.
pub open spec fn holds_volume_options(
    input: MountVolumeOptionsHashInput,
    options: MountVolumeOptions,
) -> bool {
    &&& input.no_copy == options.no_copy
    &&& holds_pairs(input.labels, options.labels)
    &&& match options.driver_config {
        Some(driver) => {
            &&& input.driver_config is Some
            &&& input.driver_config->0.name == driver.name
            &&& holds_pairs(input.driver_config->0.options, driver.options)
        },
        None => input.driver_config is None,
    }
    &&& input.subpath == options.subpath
}

/// The options of a volume mount, for the hash.
pub fn volume_options_hash_input(options: &MountVolumeOptions) -> (res: MountVolumeOptionsHashInput)
    ensures
        holds_volume_options(res, *options),
{
    MountVolumeOptionsHashInput {
        no_copy: options.no_copy,
        labels: optional_ordered_pairs(&options.labels),
        driver_config: match &options.driver_config {
            Some(driver) => Some(
                MountVolumeDriverConfigHashInput {
                    name: copy_optional_text(&driver.name),
                    options: optional_ordered_pairs(&driver.options),
                },
            ),
            None => None,
        },
        subpath: copy_optional_text(&options.subpath),
    }
}

/// Whether a hash input holds a mount.
pub open spec fn holds_mount(input: MountHashInput, mount: DockerMountSpec) -> bool {
    &&& input.source == mount.source
    &&& input.target == mount.target
    &&& input.mount_type == mount.mount_type
    &&& input.read_only == mount.read_only
    &&& input.consistency == mount.consistency
    &&& match mount.bind_options {
        Some(options) => input.bind_options is Some && holds_bind_options(
            input.bind_options->0,
            options,
        ),
        None => input.bind_options is None,
    }
    &&& match mount.volume_options {
        Some(options) => input.volume_options is Some && holds_volume_options(
            input.volume_options->0,
            options,
        ),
        None => input.volume_options is None,
    }
}

/// Whether hash inputs hold mounts, one for one.
pub open spec fn holds_mounts(inputs: Seq<MountHashInput>, mounts: Seq<DockerMountSpec>) -> bool {
    &&& inputs.len() == mounts.len()
    &&& forall|i: int| 0 <= i < mounts.len() ==> holds_mount(#[trigger] inputs[i], mounts[i])
}

/// The mounts, for the hash.
pub fn mount_hash_inputs(mounts: &Vec<DockerMountSpec>) -> (res: Vec<MountHashInput>)
    ensures
        holds_mounts(res@, mounts@),
{
    let mut inputs: Vec<MountHashInput> = Vec::new();
    let mut i: usize = 0;
    while i < mounts.len()
        invariant
            i <= mounts@.len(),
            inputs@.len() == i,
            forall|j: int| 0 <= j < i ==> holds_mount(#[trigger] inputs@[j], mounts@[j]),
        decreases mounts@.len() - i,
    {
        let mount = &mounts[i];
        let input = MountHashInput {
            source: copy_optional_text(&mount.source),
            target: mount.target.clone(),
            mount_type: mount.mount_type,
            read_only: mount.read_only,
            consistency: copy_optional_text(&mount.consistency),
            bind_options: match &mount.bind_options {
                Some(options) => Some(bind_options_hash_input(options)),
                None => None,
            },
            volume_options: match &mount.volume_options {
                Some(options) => Some(volume_options_hash_input(options)),
                None => None,
            },
        };
        inputs.push(input);
        i = i + 1;
    }
    inputs
}

} // verus!
