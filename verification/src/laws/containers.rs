//! How containers are made and started.

use crate::compose::generate::ComposeOverrideStartup;
use crate::docker::ImageStartupCommand;
use crate::error::UpError;
use crate::messages::joined;
use crate::services::PlanServices;
use crate::start::container::{
    checks_of, compose_starts_with, ensure_feature_entrypoints_completed,
    ensure_original_command_kept_container_running, initial_state_error, plans_container,
    prepares_image, runs_now, start_new_container, starts_with, verification_of,
    ContainerCreatePlan, ContainerStartup, EntrypointRace, ImagePreparation,
    ImagePreparationAction, StartFailure,
};
use crate::start::inspect::ContainerState;
use crate::startup_command::ComposeConfigService;
use crate::text::{signed_decimal, views};
use crate::types::UpPlan;
use vstd::prelude::*;

verus! {

/// Whether something is put on the base image of a plan: Features,
/// entrypoints, or a change of ids.
pub open spec fn is_extended(plan: UpPlan) -> bool {
    ||| plan.feature_install is Some
    ||| plan.config.features@.len() > 0
    ||| plan.config.devcontainer.entrypoints@.len() > 0
    ||| plan.uid_gid_sync_plan is Sync
}

/// A container gets its image as the plan and the options say. An image that is
/// there is left alone; where anything is put on the base image, layers are
/// built; otherwise the Dockerfile of the plan is built, under the name of the
/// base image and with the labels and build settings of the plan; and where
/// there is none, the base image is pulled. Options to pull and to go without
/// the cache are handed on.
pub proof fn images_are_prepared_as_planned(
    plan: UpPlan,
    preparation: ImagePreparation,
    action: ImagePreparationAction,
)
    requires
        prepares_image(plan, preparation, action),
    ensures
        preparation.image_prepared <==> action is Nothing,
        !preparation.image_prepared ==> (action is BuildLayers <==> is_extended(plan)),
        action is BuildLayers ==> {
            &&& action->BuildLayers_pull == preparation.pull
            &&& action->BuildLayers_no_cache == preparation.no_cache
        },
        action is BuildBaseImage ==> {
            &&& plan.build_context is Some
            &&& action->BuildBaseImage_0.image_tag@ == plan.base_image@
            &&& action->BuildBaseImage_0.labels@ == plan.resources.labels@
            &&& *action->BuildBaseImage_0.context == plan.build_context->0
            &&& action->BuildBaseImage_0.options@.pull == preparation.pull
            &&& action->BuildBaseImage_0.options@.no_cache == preparation.no_cache
            &&& action->BuildBaseImage_0.options@.build_args == plan.build_options@.build_args
            &&& action->BuildBaseImage_0.options@.target == plan.build_options@.target
            &&& action->BuildBaseImage_0.options@.cache_from == plan.build_options@.cache_from
            &&& action->BuildBaseImage_0.options@.options == plan.build_options@.options
            &&& action->BuildBaseImage_0.options@.build_arg_redactions
                == plan.build_options@.build_arg_redactions
        },
        action is PullBaseImage ==> {
            &&& plan.build_context is None
            &&& action->image@ == plan.base_image@
            &&& action->always == preparation.pull
        },
{
}

/// A container that was started is looked at as its start-up asks for. The last
/// look always is that it runs. The image's own command, where it is left in
/// place, is watched for its end; the entrypoints of Features are waited for,
/// first of all; and a container that is only kept alive is waited for briefly
/// and not watched.
pub proof fn started_containers_are_looked_at(plan: UpPlan)
    ensures
        ({
            let checks = checks_of(verification_of(plan));
            let has_entrypoints = plan.config.devcontainer.entrypoints@.len() > 0;
            let overridden = plan.config.devcontainer.override_command;
            &&& checks.len() >= 2
            &&& checks[checks.len() - 1] is MustRun
            &&& checks[0] is MustRunEntrypoints <==> has_entrypoints
            &&& forall|i: int|
                0 < i < checks.len() ==> !((#[trigger] checks[i]) is MustRunEntrypoints)
            &&& overridden ==> forall|i: int|
                0 <= i < checks.len() ==> !((#[trigger] checks[i]) is MustNotEnd)
            &&& !overridden ==> checks[checks.len() - 2] is MustNotEnd
            &&& has_entrypoints ==> checks[1] is MustRun
            &&& !has_entrypoints && overridden ==> checks[0] is WaitBriefly
        }),
{
}

/// A started container is taken for running exactly where Docker says that it
/// runs. Otherwise the one line of the error names the container, and the exit
/// code where it is known.
pub proof fn containers_that_ended_are_told(
    container_name: Seq<char>,
    state: Option<ContainerState>,
    outcome: Result<(), UpError>,
)
    requires
        runs_now(container_name, state, outcome),
    ensures
        outcome is Ok <==> state is Some && state->0.running == Some(true),
        state is None ==> outcome->Err_0@ == seq![
            "Container state is unavailable after start: "@ + container_name,
        ],
        outcome is Err && state is Some && state->0.exit_code is Some ==> outcome->Err_0@ == seq![
            "Container exited during startup: "@ + container_name + (" with exit code "@
                + signed_decimal(state->0.exit_code->0 as int)),
        ],
        outcome is Err && state is Some && state->0.exit_code is None ==> outcome->Err_0@ == seq![
            "Container exited during startup: "@ + container_name,
        ],
{
    assert("Container exited during startup: "@ + container_name + Seq::<char>::empty()
        =~= "Container exited during startup: "@ + container_name);
}

/// A command that ends while it is watched is an error with its exit code, and
/// so is one that ends before the entrypoints of Features have run.
pub proof fn commands_that_end_early_are_told(
    container_name: &str,
    ended: Option<i64>,
    watched: Result<(), UpError>,
    race: EntrypointRace,
    raced: Result<(), UpError>,
)
    requires
        call_ensures(
            ensure_original_command_kept_container_running,
            (container_name, ended),
            watched,
        ),
        call_ensures(ensure_feature_entrypoints_completed, (container_name, race), raced),
    ensures
        watched is Ok <==> ended is None,
        ended is Some ==> watched->Err_0@ == seq![
            "Container exited during startup: "@ + container_name@ + (" with exit code "@
                + signed_decimal(ended->0 as int)),
        ],
        raced is Ok <==> race is Ready && race->Ready_0 is Ok,
        race is Ready ==> raced == race->Ready_0,
        race is Ended && race->Ended_0 is Err ==> raced->Err_0 == race->Ended_0->Err_0,
        race is Ended && race->Ended_0 is Ok ==> raced->Err_0@ == seq![
            "Container exited during startup: "@ + container_name@ + (" with exit code "@
                + signed_decimal(race->Ended_0->Ok_0 as int)),
        ],
{
}

/// A container is made to run what the image says where nothing asks for
/// anything else. Entrypoints of Features are run by the wrapper, which hands
/// over to the keepalive command where the image's own is overridden, and else
/// to the image's own entrypoint and command, one behind the other. Without
/// such entrypoints an overridden command is replaced by the keepalive command.
pub proof fn containers_run_what_is_configured(
    plan: UpPlan,
    keepalive: ComposeOverrideStartup,
    image: Option<ImageStartupCommand>,
    startup: ContainerStartup,
)
    requires
        starts_with(plan, keepalive, image, startup),
    ensures
        ({
            let has_entrypoints = plan.config.devcontainer.entrypoints@.len() > 0;
            let overridden = plan.config.devcontainer.override_command;
            &&& startup.entrypoint is Some <==> has_entrypoints || overridden
            &&& !has_entrypoints && !overridden ==> startup.command is None
            &&& !has_entrypoints && overridden ==> {
                &&& startup.command is Some
                &&& startup.entrypoint->0@ == keepalive.entrypoint@
                &&& startup.command->0@ == keepalive.command@
            }
            &&& has_entrypoints ==> {
                &&& startup.entrypoint->0@.len() == 1
                &&& startup.entrypoint->0@[0]@
                    == "/usr/local/share/decune/feature-entrypoint-wrapper.sh"@
            }
            &&& has_entrypoints && overridden ==> {
                &&& startup.command is Some
                &&& startup.command->0@.len() == keepalive.command@.len() + 1
                &&& startup.command->0@[0]@ == joined(keepalive.entrypoint@, " "@)
                &&& forall|i: int|
                    0 <= i < keepalive.command@.len() ==> startup.command->0@[i + 1]@ == (
                    #[trigger] keepalive.command@[i])@
            }
            &&& has_entrypoints && !overridden ==> {
                let words = image->0.entrypoint@ + image->0.command@;
                &&& startup.command is Some <==> words.len() > 0
                &&& words.len() > 0 ==> startup.command->0@.len() == words.len()
                &&& words.len() > 0 ==> forall|i: int|
                    0 <= i < words.len() ==> startup.command->0@[i]@ == (#[trigger] words[i])@
            }
        }),
{
    let has_entrypoints = plan.config.devcontainer.entrypoints@.len() > 0;
    if has_entrypoints {
        let wrapper = views(startup.entrypoint->0@);
        assert(wrapper.len() == startup.entrypoint->0@.len());
        assert(wrapper[0] == startup.entrypoint->0@[0]@);
        if plan.config.devcontainer.override_command {
            let words = views(startup.command->0@);
            assert(words.len() == startup.command->0@.len());
            assert(words[0] == startup.command->0@[0]@);
            assert forall|i: int| 0 <= i < keepalive.command@.len() implies startup.command->0@[i
                + 1]@ == (#[trigger] keepalive.command@[i])@ by {
                assert(words[i + 1] == views(keepalive.command@)[i]);
            }
        } else {
            let given = image->0.entrypoint@ + image->0.command@;
            if given.len() > 0 {
                let words = views(startup.command->0@);
                assert(words == views(given));
                assert(words.len() == startup.command->0@.len());
                assert forall|i: int| 0 <= i < given.len() implies startup.command->0@[i]@ == (
                #[trigger] given[i])@ by {
                    assert(words[i] == views(given)[i]);
                }
            }
        }
    }
}

/// The primary service of a Compose project is made to run what a single
/// container is made to run, with what the service itself sets in the place of
/// the image's entrypoint and command; where nothing asks for anything, it is
/// left alone.
pub proof fn services_run_what_is_configured(
    plan: UpPlan,
    keepalive: ComposeOverrideStartup,
    image: Option<ImageStartupCommand>,
    service: ComposeConfigService,
    startup: Option<ComposeOverrideStartup>,
)
    requires
        compose_starts_with(plan, keepalive, image, Some(&service), startup),
    ensures
        ({
            let has_entrypoints = plan.config.devcontainer.entrypoints@.len() > 0;
            let overridden = plan.config.devcontainer.override_command;
            let entrypoint = if service.entrypoint is Some {
                service.entrypoint->0@
            } else {
                image->0.entrypoint@
            };
            let command = if service.command is Some {
                service.command->0@
            } else {
                image->0.command@
            };
            &&& startup is Some <==> has_entrypoints || overridden
            &&& !has_entrypoints && overridden ==> {
                &&& startup->0.entrypoint@ == keepalive.entrypoint@
                &&& startup->0.command@ == keepalive.command@
            }
            &&& has_entrypoints ==> {
                &&& startup->0.entrypoint@.len() == 1
                &&& startup->0.entrypoint@[0]@
                    == "/usr/local/share/decune/feature-entrypoint-wrapper.sh"@
            }
            &&& has_entrypoints && overridden ==> {
                &&& startup->0.command@.len() == keepalive.command@.len() + 1
                &&& startup->0.command@[0]@ == joined(keepalive.entrypoint@, " "@)
                &&& forall|i: int|
                    0 <= i < keepalive.command@.len() ==> startup->0.command@[i + 1]@ == (
                    #[trigger] keepalive.command@[i])@
            }
            &&& has_entrypoints && !overridden ==> {
                &&& startup->0.command@.len() == entrypoint.len() + command.len()
                &&& forall|i: int|
                    0 <= i < entrypoint.len() ==> startup->0.command@[i]@ == (
                    #[trigger] entrypoint[i])@
                &&& forall|i: int|
                    0 <= i < command.len() ==> startup->0.command@[entrypoint.len() + i]@ == (
                    #[trigger] command[i])@
            }
        }),
{
    if plan.config.devcontainer.entrypoints@.len() > 0 {
        let wrapper = views(startup->0.entrypoint@);
        assert(wrapper.len() == startup->0.entrypoint@.len());
        assert(wrapper[0] == startup->0.entrypoint@[0]@);
        let words = views(startup->0.command@);
        assert(words.len() == startup->0.command@.len());
        if plan.config.devcontainer.override_command {
            assert(words[0] == startup->0.command@[0]@);
            assert forall|i: int| 0 <= i < keepalive.command@.len() implies startup->0.command@[i
                + 1]@ == (#[trigger] keepalive.command@[i])@ by {
                assert(words[i + 1] == views(keepalive.command@)[i]);
            }
        } else {
            let entrypoint = if service.entrypoint is Some {
                service.entrypoint->0@
            } else {
                image->0.entrypoint@
            };
            let command = if service.command is Some {
                service.command->0@
            } else {
                image->0.command@
            };
            assert(words == views(entrypoint + command));
            assert forall|i: int| 0 <= i < entrypoint.len() implies startup->0.command@[i]@ == (
            #[trigger] entrypoint[i])@ by {
                assert(words[i] == (entrypoint + command)[i]@);
            }
            assert forall|i: int| 0 <= i < command.len() implies startup->0.command@[
            entrypoint.len() + i]@ == (#[trigger] command[i])@ by {
                assert(words[entrypoint.len() + i] == (entrypoint + command)[entrypoint.len() + i]@);
            }
        }
    }
}

/// A new container is made from the plan: what it runs is the start-up that is
/// handed in, it works in the plan's workspace folder, and its user is the one
/// that is told for the plan's container user and change of ids. Without that
/// user none is made.
pub proof fn containers_are_made_from_the_plan<S: PlanServices>(
    services: &S,
    plan: &UpPlan,
    startup: ContainerStartup,
    outcome: Result<ContainerCreatePlan, UpError>,
)
    requires
        plans_container(services, plan, startup, outcome),
    ensures
        outcome is Ok ==> {
            &&& *outcome->Ok_0.plan == *plan
            &&& outcome->Ok_0.entrypoint == startup.entrypoint
            &&& outcome->Ok_0.command == startup.command
            &&& outcome->Ok_0.working_dir@ == plan.workspace_folder@
            &&& call_ensures(
                S::uid_gid_sync_runtime_user,
                (services, &plan.effective_users.container_user.user, &plan.uid_gid_sync_plan),
                Ok::<String, UpError>(outcome->Ok_0.user),
            )
        },
        outcome is Err ==> call_ensures(
            S::uid_gid_sync_runtime_user,
            (services, &plan.effective_users.container_user.user, &plan.uid_gid_sync_plan),
            Err::<String, UpError>(outcome->Err_0),
        ),
{
}

/// A container that did not start is forgotten exactly where it could be
/// removed, and the cause of the failure is always told; where it could not be
/// removed, that comes first, with its own causes.
pub proof fn containers_that_do_not_start_are_removed(
    container_name: &str,
    start_error: UpError,
    removed: Result<(), UpError>,
    failure: StartFailure,
    unremembered: UpError,
)
    requires
        call_ensures(start_new_container, (container_name, start_error, removed), failure),
        call_ensures(initial_state_error, (container_name, start_error, removed), unremembered),
    ensures
        failure.forget_container <==> removed is Ok,
        removed is Ok ==> failure.error@ == start_error@,
        removed is Err ==> failure.error@ == seq![
            "Failed to remove Docker container after start failure: "@ + container_name@ + ": "@
                + joined(removed->Err_0.chain@, ": "@),
        ] + start_error@,
        removed is Ok ==> unremembered@ == seq![
            "Failed to persist initial lifecycle state for Docker container: "@ + container_name@,
        ] + start_error@,
        removed is Err ==> unremembered@ == seq![
            "Failed to persist initial lifecycle state for Docker container: "@ + container_name@
                + (". Failed to remove Docker container after state failure: "@ + container_name@
                + ": "@ + joined(removed->Err_0.chain@, ": "@)),
        ] + start_error@,
{
    assert("Failed to persist initial lifecycle state for Docker container: "@ + container_name@
        + Seq::<char>::empty()
        =~= "Failed to persist initial lifecycle state for Docker container: "@ + container_name@);
}

} // verus!
