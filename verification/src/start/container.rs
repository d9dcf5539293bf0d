//! How a container is made, started, and watched while it starts.

use crate::compose::generate::ComposeOverrideStartup;
use crate::docker::{
    BuildOptionsView, DockerBuildOptions, ImageStartupCommand, ResolvedBuildContext,
};
use crate::error::UpError;
use crate::finalize::lookup::{has_final_layer, plan_requires_final_image_layer};
use crate::messages::{join, joined};
use crate::services::PlanServices;
use crate::start::inspect::ContainerState;
use crate::startup_command::{
    effective_command, effective_entrypoint, effective_startup_command, ComposeConfigService,
};
use crate::text::{signed_decimal, signed_decimal_text, views};
use crate::text_map::TextMap;
use crate::types::{StartupVerification, UpPlan};
use vstd::prelude::*;
use vstd::string::*;

verus! {

/// The script of the image that runs entrypoints of Features first.
pub const FEATURE_ENTRYPOINT_WRAPPER: &'static str =
    "/usr/local/share/decune/feature-entrypoint-wrapper.sh";

/// How images are prepared for a container.
#[derive(Debug, Clone, Copy, PartialEq, Eq, Structural)]
pub struct ImagePreparation {
    /// Whether images are pulled though they are there.
    pub pull: bool,
    /// Whether builds go without their cache.
    pub no_cache: bool,
    /// Whether the image is there already.
    pub image_prepared: bool,
}

/// An image build.
#[derive(Debug, Clone)]
pub struct DockerBuildInput<'a> {
    /// The name that the image is given.
    pub image_tag: &'a String,
    /// The labels that the image is given.
    pub labels: &'a TextMap<String>,
    /// What it is built from.
    pub context: &'a ResolvedBuildContext,
    /// Options of the build.
    pub options: DockerBuildOptions,
}

/// What is done to have the image of a container.
#[derive(Debug, Clone)]
pub enum ImagePreparationAction<'a> {
    /// Nothing.
    Nothing,
    /// The base image is prepared, and layers are put on it.
    BuildLayers {
        /// Whether the base image is pulled though it is there.
        pull: bool,
        /// Whether the builds go without their cache.
        no_cache: bool,
    },
    /// The base image is built from its Dockerfile.
    BuildBaseImage(DockerBuildInput<'a>),
    /// The base image is pulled.
    PullBaseImage {
        /// The image.
        image: &'a String,
        /// Whether it is pulled though it is there.
        always: bool,
    },
}

/// Whether `action` gives the container of a plan its image.
pub open spec fn prepares_image(
    plan: UpPlan,
    preparation: ImagePreparation,
    action: ImagePreparationAction,
) -> bool {
    if preparation.image_prepared {
        action is Nothing
    } else if has_final_layer(plan) {
        action == (ImagePreparationAction::BuildLayers {
            pull: preparation.pull,
            no_cache: preparation.no_cache,
        })
    } else {
        match plan.build_context {
            Some(context) => {
                &&& action is BuildBaseImage
                &&& *action->BuildBaseImage_0.image_tag == plan.base_image
                &&& *action->BuildBaseImage_0.labels == plan.resources.labels
                &&& *action->BuildBaseImage_0.context == context
                &&& action->BuildBaseImage_0.options@ == (BuildOptionsView {
                    pull: preparation.pull,
                    no_cache: preparation.no_cache,
                    ..plan.build_options@
                })
            },
            None => {
                &&& action is PullBaseImage
                &&& *action->image == plan.base_image
                &&& action->always == preparation.pull
            },
        }
    }
}

/// What is done to have the image of a container: nothing where it is there;
/// else its layers are built, or its Dockerfile, or it is pulled.
pub fn prepare_image_for_create<'a>(plan: &'a UpPlan, preparation: ImagePreparation) -> (res:
    ImagePreparationAction<'a>)
    ensures
        prepares_image(*plan, preparation, res),
{
    if plan_requires_final_image_layer(plan) {
        if preparation.image_prepared {
            ImagePreparationAction::Nothing
        } else {
            ImagePreparationAction::BuildLayers {
                pull: preparation.pull,
                no_cache: preparation.no_cache,
            }
        }
    } else if let Some(context) = &plan.build_context {
        if preparation.image_prepared {
            ImagePreparationAction::Nothing
        } else {
            let mut options = plan.build_options.copied();
            options.pull = preparation.pull;
            options.no_cache = preparation.no_cache;
            ImagePreparationAction::BuildBaseImage(
                DockerBuildInput {
                    image_tag: &plan.base_image,
                    labels: &plan.resources.labels,
                    context,
                    options,
                },
            )
        }
    } else if preparation.image_prepared {
        ImagePreparationAction::Nothing
    } else {
        ImagePreparationAction::PullBaseImage {
            image: &plan.base_image,
            always: preparation.pull,
        }
    }
}

/// How it is told that the container of a plan has started.
pub open spec fn verification_of(plan: UpPlan) -> StartupVerification {
    if plan.config.devcontainer.entrypoints@.len() > 0 {
        StartupVerification::FeatureEntrypoints {
            monitor_delegated_command: !plan.config.devcontainer.override_command,
        }
    } else if plan.config.devcontainer.override_command {
        StartupVerification::Keepalive
    } else {
        StartupVerification::OriginalCommand
    }
}

/// How it is told that the container of a plan has started.
pub fn startup_verification_for_plan(plan: &UpPlan) -> (res: StartupVerification)
    ensures
        res == verification_of(*plan),
{
    if plan.config.devcontainer.entrypoints.len() > 0 {
        return StartupVerification::FeatureEntrypoints {
            monitor_delegated_command: !plan.config.devcontainer.override_command,
        };
    }
    if plan.config.devcontainer.override_command {
        StartupVerification::Keepalive
    } else {
        StartupVerification::OriginalCommand
    }
}

/// A look at a container that was just started.
#[derive(Debug, Clone, Copy, PartialEq, Eq, Structural)]
pub enum StartupCheck {
    /// It is given a moment.
    WaitBriefly,
    /// It must run now.
    MustRun,
    /// It must not end for a while.
    MustNotEnd,
    /// The entrypoints of Features must have run, and it must not end before.
    MustRunEntrypoints,
}

/// The looks at a container that was just started, in order.
pub open spec fn checks_of(verification: StartupVerification) -> Seq<StartupCheck> {
    match verification {
        StartupVerification::Keepalive => seq![StartupCheck::WaitBriefly, StartupCheck::MustRun],
        StartupVerification::OriginalCommand => seq![
            StartupCheck::MustNotEnd,
            StartupCheck::MustRun,
        ],
        StartupVerification::FeatureEntrypoints { monitor_delegated_command } => if monitor_delegated_command {
            seq![
                StartupCheck::MustRunEntrypoints,
                StartupCheck::MustRun,
                StartupCheck::MustNotEnd,
                StartupCheck::MustRun,
            ]
        } else {
            seq![StartupCheck::MustRunEntrypoints, StartupCheck::MustRun]
        },
    }
}

/// The looks at a container that was just started, in order.
pub fn ensure_container_running_after_start(verification: StartupVerification) -> (res: Vec<
    StartupCheck,
>)
    ensures
        res@ == checks_of(verification),
{
    let mut checks: Vec<StartupCheck> = Vec::new();
    match verification {
        StartupVerification::Keepalive => {
            checks.push(StartupCheck::WaitBriefly);
            checks.push(StartupCheck::MustRun);
        },
        StartupVerification::OriginalCommand => {
            checks.push(StartupCheck::MustNotEnd);
            checks.push(StartupCheck::MustRun);
        },
        StartupVerification::FeatureEntrypoints { monitor_delegated_command } => {
            checks.push(StartupCheck::MustRunEntrypoints);
            checks.push(StartupCheck::MustRun);
            if monitor_delegated_command {
                checks.push(StartupCheck::MustNotEnd);
                checks.push(StartupCheck::MustRun);
            }
        },
    }
    assert(checks@ =~= checks_of(verification));
    checks
}

/// However a start is watched, the last look is whether the container runs.
pub proof fn start_ends_with_a_running_container(verification: StartupVerification)
    ensures
        checks_of(verification).len() > 0,
        checks_of(verification).last() == StartupCheck::MustRun,
{
}

/// The message about a container that ended while it started.
pub open spec fn exited_message(container_name: Seq<char>, exit_code: Option<i64>) -> Seq<char> {
    "Container exited during startup: "@ + container_name + match exit_code {
        Some(code) => " with exit code "@ + signed_decimal(code as int),
        None => Seq::empty(),
    }
}

/// The error about a container that ended while it started.
pub fn container_exited_during_startup_error(
    container_name: &str,
    exit_code: Option<i64>,
) -> (res: UpError)
    ensures
        res@ == seq![exited_message(container_name@, exit_code)],
{
    let mut message = "Container exited during startup: ".to_owned();
    message.append(container_name);
    if let Some(code) = exit_code {
        message.append(" with exit code ");
        message.append(signed_decimal_text(code).as_str());
    }
    assert(message@ =~= exited_message(container_name@, exit_code));
    UpError::new(message)
}

/// How the look whether a container runs ends.
pub open spec fn runs_now(
    container_name: Seq<char>,
    state: Option<ContainerState>,
    outcome: Result<(), UpError>,
) -> bool {
    match state {
        None => outcome is Err && outcome->Err_0@ == seq![
            "Container state is unavailable after start: "@ + container_name,
        ],
        Some(state) => if state.running == Some(true) {
            outcome is Ok
        } else {
            outcome is Err && outcome->Err_0@ == seq![
                exited_message(container_name, state.exit_code),
            ]
        },
    }
}

/// Whether a container runs, as Docker tells it.
pub fn ensure_container_running_now(container_name: &str, state: &Option<ContainerState>) -> (res:
    Result<(), UpError>)
    ensures
        runs_now(container_name@, *state, res),
{
    match state {
        None => {
            let mut message = "Container state is unavailable after start: ".to_owned();
            message.append(container_name);
            Err(UpError::new(message))
        },
        Some(state) => if state.running == Some(true) {
            Ok(())
        } else {
            Err(container_exited_during_startup_error(container_name, state.exit_code))
        },
    }
}

/// Whether a container kept running while it was watched: `ended` is what it
/// ended with, and absent where it did not.
pub fn ensure_original_command_kept_container_running(
    container_name: &str,
    ended: Option<i64>,
) -> (res: Result<(), UpError>)
    ensures
        match ended {
            None => res is Ok,
            Some(code) => res is Err && res->Err_0@ == seq![
                exited_message(container_name@, Some(code)),
            ],
        },
{
    match ended {
        None => Ok(()),
        Some(code) => Err(container_exited_during_startup_error(container_name, Some(code))),
    }
}

/// What came first while entrypoints of Features ran.
#[derive(Debug)]
pub enum EntrypointRace {
    /// The container ended, or could not be watched.
    Ended(Result<i64, UpError>),
    /// The entrypoints ran, or could not be asked.
    Ready(Result<(), UpError>),
}

/// Whether the entrypoints of Features have run before the container ended.
pub fn ensure_feature_entrypoints_completed(container_name: &str, race: EntrypointRace) -> (res:
    Result<(), UpError>)
    ensures
        match race {
            EntrypointRace::Ready(ready) => res == ready,
            EntrypointRace::Ended(Err(error)) => res == Err::<(), UpError>(error),
            EntrypointRace::Ended(Ok(code)) => res is Err && res->Err_0@ == seq![
                exited_message(container_name@, Some(code)),
            ],
        },
{
    match race {
        EntrypointRace::Ready(ready) => ready,
        EntrypointRace::Ended(Err(error)) => Err(error),
        EntrypointRace::Ended(Ok(code)) => Err(
            container_exited_during_startup_error(container_name, Some(code)),
        ),
    }
}

/// Whether what the image runs by itself must be known to start a container:
/// entrypoints of Features hand over to it.
pub open spec fn needs_image_startup(plan: UpPlan) -> bool {
    plan.config.devcontainer.entrypoints@.len() > 0 && !plan.config.devcontainer.override_command
}

/// Whether what the image runs by itself must be known to start a container.
pub fn startup_needs_image_command(plan: &UpPlan) -> (res: bool)
    ensures
        res == needs_image_startup(*plan),
{
    plan.config.devcontainer.entrypoints.len() > 0 && !plan.config.devcontainer.override_command
}

/// The command that keeps a container alive, as words for the wrapper: the
/// entrypoint as one word, and the command behind it.
pub open spec fn wrapped_keepalive(keepalive: ComposeOverrideStartup) -> Seq<Seq<char>> {
    seq![joined(keepalive.entrypoint@, " "@)] + views(keepalive.command@)
}

fn wrap_keepalive(keepalive: ComposeOverrideStartup) -> (res: Vec<String>)
    ensures
        views(res@) == wrapped_keepalive(keepalive),
{
    let ghost whole = keepalive;
    let mut words: Vec<String> = Vec::new();
    words.push(join(&keepalive.entrypoint, " "));
    let mut command = keepalive.command;
    words.append(&mut command);
    assert(views(words@) =~= wrapped_keepalive(whole));
    words
}

/// Entrypoint and command of a container.
#[derive(Debug)]
pub struct ContainerStartup {
    /// What it runs first; absent where that is left to the image.
    pub entrypoint: Option<Vec<String>>,
    /// What it runs; absent where that is left to the image.
    pub command: Option<Vec<String>>,
}

/// Whether a container is made to run the wrapper, and this behind it.
pub open spec fn runs_wrapper(startup: ContainerStartup, command: Option<Seq<Seq<char>>>) -> bool {
    &&& startup.entrypoint is Some
    &&& views(startup.entrypoint->0@) == seq![
        "/usr/local/share/decune/feature-entrypoint-wrapper.sh"@,
    ]
    &&& match command {
        Some(command) => startup.command is Some && views(startup.command->0@) == command,
        None => startup.command is None,
    }
}

/// The image's entrypoint and command behind each other.
pub open spec fn image_words(image: ImageStartupCommand) -> Seq<Seq<char>> {
    views(image.entrypoint@ + image.command@)
}

/// What a container is made to run: the wrapper, where there are entrypoints
/// of Features, with the command that keeps it alive, or the image's own,
/// behind it; the command that keeps it alive where the image's is
/// overridden; and else what the image says.
pub open spec fn starts_with(
    plan: UpPlan,
    keepalive: ComposeOverrideStartup,
    image: Option<ImageStartupCommand>,
    startup: ContainerStartup,
) -> bool {
    if plan.config.devcontainer.entrypoints@.len() > 0 {
        if plan.config.devcontainer.override_command {
            runs_wrapper(startup, Some(wrapped_keepalive(keepalive)))
        } else {
            runs_wrapper(
                startup,
                if image_words(image->0).len() > 0 {
                    Some(image_words(image->0))
                } else {
                    None
                },
            )
        }
    } else if plan.config.devcontainer.override_command {
        startup.entrypoint == Some(keepalive.entrypoint) && startup.command == Some(
            keepalive.command,
        )
    } else {
        startup.entrypoint is None && startup.command is None
    }
}

fn wrapper_entrypoint() -> (res: Vec<String>)
    ensures
        views(res@) == seq!["/usr/local/share/decune/feature-entrypoint-wrapper.sh"@],
{
    let mut entrypoint: Vec<String> = Vec::new();
    entrypoint.push(FEATURE_ENTRYPOINT_WRAPPER.to_owned());
    assert(views(entrypoint@) =~= seq!["/usr/local/share/decune/feature-entrypoint-wrapper.sh"@]);
    entrypoint
}

/// What a container is made to run. `keepalive` is the command that keeps it
/// alive, and `image` what the image runs by itself.
pub fn container_startup(
    plan: &UpPlan,
    keepalive: ComposeOverrideStartup,
    image: Option<ImageStartupCommand>,
) -> (res: ContainerStartup)
    requires
        needs_image_startup(*plan) ==> image is Some,
    ensures
        starts_with(*plan, keepalive, image, res),
{
    if plan.config.devcontainer.entrypoints.len() > 0 {
        let command = if plan.config.devcontainer.override_command {
            Some(wrap_keepalive(keepalive))
        } else {
            match image {
                Some(image) => {
                    let mut words = image.entrypoint;
                    let mut command = image.command;
                    words.append(&mut command);
                    assert(views(words@).len() == words@.len());
                    if words.len() > 0 {
                        Some(words)
                    } else {
                        None
                    }
                },
                None => None,
            }
        };
        return ContainerStartup { entrypoint: Some(wrapper_entrypoint()), command };
    }
    if plan.config.devcontainer.override_command {
        ContainerStartup {
            entrypoint: Some(keepalive.entrypoint),
            command: Some(keepalive.command),
        }
    } else {
        ContainerStartup { entrypoint: None, command: None }
    }
}

/// What the primary service of a Compose project is made to run: as for a
/// single container, but where the wrapper hands over to the image's own
/// command, the service's parts replace the image's, and an empty command is
/// given as it is.
pub open spec fn compose_starts_with(
    plan: UpPlan,
    keepalive: ComposeOverrideStartup,
    image: Option<ImageStartupCommand>,
    service: Option<&ComposeConfigService>,
    startup: Option<ComposeOverrideStartup>,
) -> bool {
    if plan.config.devcontainer.entrypoints@.len() > 0 {
        &&& startup is Some
        &&& views(startup->0.entrypoint@) == seq![
            "/usr/local/share/decune/feature-entrypoint-wrapper.sh"@,
        ]
        &&& views(startup->0.command@) == if plan.config.devcontainer.override_command {
            wrapped_keepalive(keepalive)
        } else {
            views(effective_entrypoint(image->0, service) + effective_command(image->0, service))
        }
    } else if plan.config.devcontainer.override_command {
        startup == Some(keepalive)
    } else {
        startup is None
    }
}

/// What the primary service of a Compose project is made to run.
pub fn compose_override_startup(
    plan: &UpPlan,
    keepalive: ComposeOverrideStartup,
    image: Option<ImageStartupCommand>,
    compose_primary_service: Option<&ComposeConfigService>,
) -> (res: Option<ComposeOverrideStartup>)
    requires
        needs_image_startup(*plan) ==> image is Some,
    ensures
        compose_starts_with(*plan, keepalive, image, compose_primary_service, res),
{
    if plan.config.devcontainer.entrypoints.len() > 0 {
        let command = if plan.config.devcontainer.override_command {
            wrap_keepalive(keepalive)
        } else {
            match image {
                Some(image) => {
                    let startup = effective_startup_command(image, compose_primary_service);
                    let mut words = startup.entrypoint;
                    let mut command = startup.command;
                    words.append(&mut command);
                    words
                },
                None => Vec::new(),
            }
        };
        return Some(ComposeOverrideStartup { entrypoint: wrapper_entrypoint(), command });
    }
    if plan.config.devcontainer.override_command {
        Some(keepalive)
    } else {
        None
    }
}

/// What a new container is made from.
#[derive(Debug)]
pub struct ContainerCreatePlan<'a> {
    /// The plan.
    pub plan: &'a UpPlan,
    /// What the container runs first; absent where that is left to the image.
    pub entrypoint: Option<Vec<String>>,
    /// What it runs; absent where that is left to the image.
    pub command: Option<Vec<String>>,
    /// The user that it runs as.
    pub user: String,
    /// The folder that it starts in.
    pub working_dir: &'a String,
}

/// How it is made out what a new container is made from.
pub open spec fn plans_container<S: PlanServices>(
    services: &S,
    plan: &UpPlan,
    startup: ContainerStartup,
    outcome: Result<ContainerCreatePlan, UpError>,
) -> bool {
    exists|user: Result<String, UpError>| #[trigger]
        call_ensures(
            S::uid_gid_sync_runtime_user,
            (services, &plan.effective_users.container_user.user, &plan.uid_gid_sync_plan),
            user,
        ) && match user {
            Err(error) => outcome == Err::<ContainerCreatePlan, UpError>(error),
            Ok(user) => outcome == Ok::<ContainerCreatePlan, UpError>(
                ContainerCreatePlan {
                    plan,
                    entrypoint: startup.entrypoint,
                    command: startup.command,
                    user,
                    working_dir: &plan.workspace_folder,
                },
            ),
        }
}

/// Makes out what a new container is made from. It runs as the user of the
/// plan, under the name that the user has once ids were changed.
pub fn create_and_start_container<'a, S: PlanServices>(
    services: &S,
    plan: &'a UpPlan,
    startup: ContainerStartup,
) -> (res: Result<ContainerCreatePlan<'a>, UpError>)
    ensures
        plans_container(services, plan, startup, res),
{
    match services.uid_gid_sync_runtime_user(
        &plan.effective_users.container_user.user,
        &plan.uid_gid_sync_plan,
    ) {
        Err(error) => Err(error),
        Ok(user) => Ok(
            ContainerCreatePlan {
                plan,
                entrypoint: startup.entrypoint,
                command: startup.command,
                user,
                working_dir: &plan.workspace_folder,
            },
        ),
    }
}

/// The message about a container that was made but not remembered.
pub open spec fn unremembered_message(
    container_name: Seq<char>,
    removed: Result<(), UpError>,
) -> Seq<char> {
    "Failed to persist initial lifecycle state for Docker container: "@ + container_name
        + match removed {
        Ok(()) => Seq::empty(),
        Err(cause) => ". Failed to remove Docker container after state failure: "@ + container_name
            + ": "@ + joined(cause.chain@, ": "@),
    }
}

/// The message about a container that did not start and could not be removed.
pub open spec fn unstarted_message(container_name: Seq<char>, cause: UpError) -> Seq<char> {
    "Failed to remove Docker container after start failure: "@ + container_name + ": "@ + joined(
        cause.chain@,
        ": "@,
    )
}

/// The error about a container that was made but not remembered; `removed`
/// says whether it could be removed again.
pub fn initial_state_error(
    container_name: &str,
    state_error: UpError,
    removed: Result<(), UpError>,
) -> (res: UpError)
    ensures
        res@ == seq![unremembered_message(container_name@, removed)] + state_error@,
{
    let mut message = "Failed to persist initial lifecycle state for Docker container: ".to_owned();
    message.append(container_name);
    let ghost head = message@;
    match removed {
        Ok(()) => {
            assert(message@ =~= head + Seq::<char>::empty());
        },
        Err(cause) => {
            message.append(". Failed to remove Docker container after state failure: ");
            message.append(container_name);
            message.append(": ");
            message.append(join(&cause.chain, ": ").as_str());
            assert(message@ =~= head + (
            ". Failed to remove Docker container after state failure: "@ + container_name@ + ": "@
                + joined(cause.chain@, ": "@)));
        },
    }
    state_error.context(message.as_str())
}

/// What is told about a new container that did not start.
#[derive(Debug)]
pub struct StartFailure {
    /// The error.
    pub error: UpError,
    /// Whether what is remembered of the container is dropped.
    pub forget_container: bool,
}

/// What is told about a new container that did not start; `removed` says
/// whether it could be removed again. What is remembered of it is dropped
/// only then.
pub fn start_new_container(
    container_name: &str,
    start_error: UpError,
    removed: Result<(), UpError>,
) -> (res: StartFailure)
    ensures
        match removed {
            Ok(()) => res == (StartFailure { error: start_error, forget_container: true }),
            Err(cause) => !res.forget_container && res.error@ == seq![
                unstarted_message(container_name@, cause),
            ] + start_error@,
        },
{
    match removed {
        Ok(()) => StartFailure { error: start_error, forget_container: true },
        Err(cause) => {
            let mut message = "Failed to remove Docker container after start failure: ".to_owned();
            message.append(container_name);
            message.append(": ");
            message.append(join(&cause.chain, ": ").as_str());
            StartFailure { error: start_error.context(message.as_str()), forget_container: false }
        },
    }
}

} // verus!
