//! Variables in the configuration: which are replaced before the image is
//! known, which only afterwards, and which may not be used at all.

use crate::config::{
    LayerDevcontainerBuild, LayerRunArg, ResolvedConfig, ResolvedDevcontainer,
    ResolvedDevcontainerSource,
};
use crate::docker::{
    redaction_values, redactions_of, DockerBuildOptions, HostUserIds, ResolvedBuildContext,
    SensitiveEnvMap,
};
use crate::error::UpError;
use crate::mounts::{
    default_folder, default_workspace_folder, describes_statically, given_by,
    locates_with_less_known, locates_workspace,
    resolve_workspace_location, static_mount_variable_context, WorkspaceLocationValidation,
};
use crate::plan::source::{dockerfile_build_input, finds_build_input};
use crate::services::PlanServices;
use crate::text::views;
use crate::text_map::values_of;
use crate::types::{
    MountResolution, TrackedValues, VariableContext, Workspace, WorkspaceLocation,
};
use vstd::prelude::*;
use vstd::string::*;

verus! {

/// Whether each item of a list was replaced, or the first one that could not
/// be is told by an error and the list is as it was from there on.
pub open spec fn walks<T>(
    before: Seq<T>,
    after: Seq<T>,
    replaces: spec_fn(T, T) -> bool,
    fails: spec_fn(T, UpError) -> bool,
    outcome: Result<(), UpError>,
) -> bool {
    &&& before.len() == after.len()
    &&& match outcome {
        Ok(()) => forall|i: int| 0 <= i < before.len() ==> replaces(#[trigger] before[i], after[i]),
        Err(error) => exists|k: int|
            {
                &&& 0 <= k < before.len()
                &&& fails(#[trigger] before[k], error)
                &&& forall|i: int| 0 <= i < k ==> replaces(#[trigger] before[i], after[i])
                &&& forall|i: int| k <= i < before.len() ==> #[trigger] after[i] == before[i]
            },
    }
}

/// Whether a text became another by replacing its variables.
pub open spec fn expands<S: PlanServices>(
    services: &S,
    variables: &VariableContext,
    before: String,
    after: String,
) -> bool {
    call_ensures(
        S::expand_variables,
        (services, &before, variables),
        Ok::<String, UpError>(after),
    )
}

/// Whether replacing the variables of a text failed, told in the context of a
/// field.
pub open spec fn fails_to_expand<S: PlanServices>(
    services: &S,
    variables: &VariableContext,
    context: Seq<char>,
    before: String,
    error: UpError,
) -> bool {
    exists|cause: UpError| #[trigger]
        call_ensures(
            S::expand_variables,
            (services, &before, variables),
            Err::<String, UpError>(cause),
        ) && error@ == seq![context] + cause@
}

/// Whether a text was left as it is because it refers to the user that tools
/// run as, or became another by replacing its variables.
pub open spec fn expands_early<S: PlanServices>(
    services: &S,
    variables: &VariableContext,
    before: String,
    after: String,
) -> bool {
    ||| call_ensures(
        S::references_remote_user,
        (services, &before),
        Ok::<bool, UpError>(true),
    ) && after == before
    ||| call_ensures(
        S::references_remote_user,
        (services, &before),
        Ok::<bool, UpError>(false),
    ) && expands(services, variables, before, after)
}

/// Whether a text could not be read, or not be expanded though it does not
/// refer to the user that tools run as.
pub open spec fn fails_to_expand_early<S: PlanServices>(
    services: &S,
    variables: &VariableContext,
    context: Seq<char>,
    before: String,
    error: UpError,
) -> bool {
    ||| call_ensures(
        S::references_remote_user,
        (services, &before),
        Err::<bool, UpError>(error),
    )
    ||| call_ensures(
        S::references_remote_user,
        (services, &before),
        Ok::<bool, UpError>(false),
    ) && fails_to_expand(services, variables, context, before, error)
}

/// How replacing the variables of texts ends.
pub open spec fn expands_texts<S: PlanServices>(
    services: &S,
    variables: &VariableContext,
    field: Seq<char>,
    before: Seq<String>,
    after: Seq<String>,
    outcome: Result<(), UpError>,
) -> bool {
    walks(
        before,
        after,
        |from: String, to: String| expands(services, variables, from, to),
        |from: String, error: UpError|
            fails_to_expand(services, variables, "Failed to expand "@ + field, from, error),
        outcome,
    )
}

/// How replacing the variables of texts ends where the user that tools run as
/// is not known yet.
pub open spec fn expands_texts_early<S: PlanServices>(
    services: &S,
    variables: &VariableContext,
    field: Seq<char>,
    before: Seq<String>,
    after: Seq<String>,
    outcome: Result<(), UpError>,
) -> bool {
    walks(
        before,
        after,
        |from: String, to: String| expands_early(services, variables, from, to),
        |from: String, error: UpError|
            fails_to_expand_early(services, variables, "Failed to expand "@ + field, from, error),
        outcome,
    )
}

/// How replacing the variables of container options ends.
pub open spec fn expands_run_args<S: PlanServices>(
    services: &S,
    variables: &VariableContext,
    before: Seq<LayerRunArg>,
    after: Seq<LayerRunArg>,
    outcome: Result<(), UpError>,
) -> bool {
    walks(
        before,
        after,
        |from: LayerRunArg, to: LayerRunArg|
            to == from.spec_with_value(to.spec_value()) && expands(
                services,
                variables,
                from.spec_value(),
                to.spec_value(),
            ),
        |from: LayerRunArg, error: UpError|
            fails_to_expand(
                services,
                variables,
                "Failed to expand runArgs value"@,
                from.spec_value(),
                error,
            ),
        outcome,
    )
}

/// How replacing the variables of container options ends where the user that
/// tools run as is not known yet.
pub open spec fn expands_run_args_early<S: PlanServices>(
    services: &S,
    variables: &VariableContext,
    before: Seq<LayerRunArg>,
    after: Seq<LayerRunArg>,
    outcome: Result<(), UpError>,
) -> bool {
    walks(
        before,
        after,
        |from: LayerRunArg, to: LayerRunArg|
            to == from.spec_with_value(to.spec_value()) && expands_early(
                services,
                variables,
                from.spec_value(),
                to.spec_value(),
            ),
        |from: LayerRunArg, error: UpError|
            fails_to_expand_early(
                services,
                variables,
                "Failed to expand runArgs value"@,
                from.spec_value(),
                error,
            ),
        outcome,
    )
}

fn expansion_context(field: &str) -> (res: String)
    ensures
        res@ == "Failed to expand "@ + field@,
{
    let mut context = "Failed to expand ".to_owned();
    context.append(field);
    context
}

/// Replaces the variables of texts.
pub fn expand_string_values<S: PlanServices>(
    services: &S,
    values: &mut Vec<String>,
    variables: &VariableContext,
    field: &str,
) -> (res: Result<(), UpError>)
    ensures
        expands_texts(services, variables, field@, old(values)@, final(values)@, res),
{
    let ghost before = values@;
    let mut i: usize = 0;
    while i < values.len()
        invariant
            before == old(values)@,
            i <= values@.len() == before.len(),
            forall|j: int|
                0 <= j < i ==> expands(services, variables, #[trigger] before[j], values@[j]),
            forall|j: int| i <= j < before.len() ==> #[trigger] values@[j] == before[j],
        decreases values@.len() - i,
    {
        match services.expand_variables(&values[i], variables) {
            Ok(expanded) => {
                values.set(i, expanded);
            },
            Err(cause) => {
                let error = cause.context(expansion_context(field).as_str());
                assert(fails_to_expand(
                    services,
                    variables,
                    "Failed to expand "@ + field@,
                    before[i as int],
                    error,
                ));
                return Err(error);
            },
        }
        i = i + 1;
    }
    Ok(())
}

/// Replaces the variables of texts that do not refer to the user that tools
/// run as.
pub fn expand_runtime_independent_string_values<S: PlanServices>(
    services: &S,
    values: &mut Vec<String>,
    variables: &VariableContext,
    field: &str,
) -> (res: Result<(), UpError>)
    ensures
        expands_texts_early(services, variables, field@, old(values)@, final(values)@, res),
{
    let ghost before = values@;
    let mut i: usize = 0;
    while i < values.len()
        invariant
            before == old(values)@,
            i <= values@.len() == before.len(),
            forall|j: int|
                0 <= j < i ==> expands_early(services, variables, #[trigger] before[j], values@[j]),
            forall|j: int| i <= j < before.len() ==> #[trigger] values@[j] == before[j],
        decreases values@.len() - i,
    {
        let refers = match services.references_remote_user(&values[i]) {
            Ok(refers) => refers,
            Err(error) => {
                assert(fails_to_expand_early(
                    services,
                    variables,
                    "Failed to expand "@ + field@,
                    before[i as int],
                    error,
                ));
                return Err(error);
            },
        };
        if !refers {
            match services.expand_variables(&values[i], variables) {
                Ok(expanded) => {
                    values.set(i, expanded);
                },
                Err(cause) => {
                    let error = cause.context(expansion_context(field).as_str());
                    assert(fails_to_expand(
                        services,
                        variables,
                        "Failed to expand "@ + field@,
                        before[i as int],
                        error,
                    ));
                    return Err(error);
                },
            }
        }
        i = i + 1;
    }
    Ok(())
}

fn run_arg_value(run_arg: &LayerRunArg) -> (res: &String)
    ensures
        *res == run_arg.spec_value(),
{
    match run_arg {
        LayerRunArg::AddHost(value) => value,
        LayerRunArg::Dns(value) => value,
        LayerRunArg::DnsSearch(value) => value,
        LayerRunArg::Passthrough { option: _, value } => value,
    }
}

fn run_arg_with_value(run_arg: &LayerRunArg, new_value: String) -> (res: LayerRunArg)
    ensures
        res == run_arg.spec_with_value(new_value),
{
    match run_arg {
        LayerRunArg::AddHost(_) => LayerRunArg::AddHost(new_value),
        LayerRunArg::Dns(_) => LayerRunArg::Dns(new_value),
        LayerRunArg::DnsSearch(_) => LayerRunArg::DnsSearch(new_value),
        LayerRunArg::Passthrough { option, value: _ } => LayerRunArg::Passthrough {
            option: option.clone(),
            value: new_value,
        },
    }
}

/// Replaces the variables of container options.
pub fn expand_run_args<S: PlanServices>(
    services: &S,
    run_args: &mut Vec<LayerRunArg>,
    variables: &VariableContext,
) -> (res: Result<(), UpError>)
    ensures
        expands_run_args(services, variables, old(run_args)@, final(run_args)@, res),
{
    let ghost before = run_args@;
    let mut i: usize = 0;
    while i < run_args.len()
        invariant
            before == old(run_args)@,
            i <= run_args@.len() == before.len(),
            forall|j: int|
                0 <= j < i ==> run_args@[j] == (#[trigger] before[j]).spec_with_value(
                    run_args@[j].spec_value(),
                ) && expands(services, variables, before[j].spec_value(), run_args@[j].spec_value()),
            forall|j: int| i <= j < before.len() ==> #[trigger] run_args@[j] == before[j],
        decreases run_args@.len() - i,
    {
        match services.expand_variables(run_arg_value(&run_args[i]), variables) {
            Ok(expanded) => {
                let replaced = run_arg_with_value(&run_args[i], expanded);
                run_args.set(i, replaced);
            },
            Err(cause) => {
                let error = cause.context("Failed to expand runArgs value");
                assert(fails_to_expand(
                    services,
                    variables,
                    "Failed to expand runArgs value"@,
                    before[i as int].spec_value(),
                    error,
                ));
                return Err(error);
            },
        }
        i = i + 1;
    }
    Ok(())
}

/// Replaces the variables of container options that do not refer to the user
/// that tools run as.
pub fn expand_runtime_independent_run_args<S: PlanServices>(
    services: &S,
    run_args: &mut Vec<LayerRunArg>,
    variables: &VariableContext,
) -> (res: Result<(), UpError>)
    ensures
        expands_run_args_early(services, variables, old(run_args)@, final(run_args)@, res),
{
    let ghost before = run_args@;
    let mut i: usize = 0;
    while i < run_args.len()
        invariant
            before == old(run_args)@,
            i <= run_args@.len() == before.len(),
            forall|j: int|
                0 <= j < i ==> run_args@[j] == (#[trigger] before[j]).spec_with_value(
                    run_args@[j].spec_value(),
                ) && expands_early(
                    services,
                    variables,
                    before[j].spec_value(),
                    run_args@[j].spec_value(),
                ),
            forall|j: int| i <= j < before.len() ==> #[trigger] run_args@[j] == before[j],
        decreases run_args@.len() - i,
    {
        let refers = match services.references_remote_user(run_arg_value(&run_args[i])) {
            Ok(refers) => refers,
            Err(error) => {
                assert(fails_to_expand_early(
                    services,
                    variables,
                    "Failed to expand runArgs value"@,
                    before[i as int].spec_value(),
                    error,
                ));
                return Err(error);
            },
        };
        if !refers {
            match services.expand_variables(run_arg_value(&run_args[i]), variables) {
                Ok(expanded) => {
                    let replaced = run_arg_with_value(&run_args[i], expanded);
                    run_args.set(i, replaced);
                },
                Err(cause) => {
                    let error = cause.context("Failed to expand runArgs value");
                    assert(fails_to_expand(
                        services,
                        variables,
                        "Failed to expand runArgs value"@,
                        before[i as int].spec_value(),
                        error,
                    ));
                    return Err(error);
                },
            }
        }
        i = i + 1;
    }
    Ok(())
}

/// How replacing the variables of the container's settings ends, once all of
/// them are known.
pub open spec fn expands_settings<S: PlanServices>(
    services: &S,
    variables: &VariableContext,
    before: ResolvedDevcontainer,
    after: ResolvedDevcontainer,
    outcome: Result<(), UpError>,
) -> bool {
    exists|capabilities: Result<(), UpError>| #[trigger]
        expands_texts(
            services,
            variables,
            "runArgs value"@,
            before.cap_add@,
            after.cap_add@,
            capabilities,
        ) && match capabilities {
            Err(_) => {
                &&& outcome == capabilities
                &&& after.security_opt == before.security_opt
                &&& after.run_args == before.run_args
            },
            Ok(()) => exists|options: Result<(), UpError>| #[trigger]
                expands_texts(
                    services,
                    variables,
                    "runArgs value"@,
                    before.security_opt@,
                    after.security_opt@,
                    options,
                ) && match options {
                    Err(_) => outcome == options && after.run_args == before.run_args,
                    Ok(()) => expands_run_args(
                        services,
                        variables,
                        before.run_args@,
                        after.run_args@,
                        outcome,
                    ),
                },
        }
}

/// Whether two configurations differ at most in capabilities, security
/// options and container options.
pub open spec fn same_but_settings(before: ResolvedConfig, after: ResolvedConfig) -> bool {
    after == (ResolvedConfig {
        devcontainer: ResolvedDevcontainer {
            cap_add: after.devcontainer.cap_add,
            security_opt: after.devcontainer.security_opt,
            run_args: after.devcontainer.run_args,
            ..before.devcontainer
        },
        ..before
    })
}

/// Replaces the variables of the container's settings, once all of them are
/// known.
pub fn expand_runtime_devcontainer_fields<S: PlanServices>(
    services: &S,
    config: &mut ResolvedConfig,
    variables: &VariableContext,
) -> (res: Result<(), UpError>)
    ensures
        expands_settings(
            services,
            variables,
            old(config).devcontainer,
            final(config).devcontainer,
            res,
        ),
        same_but_settings(*old(config), *final(config)),
{
    let capabilities = expand_string_values(
        services,
        &mut config.devcontainer.cap_add,
        variables,
        "runArgs value",
    );
    if capabilities.is_err() {
        return capabilities;
    }
    let options = expand_string_values(
        services,
        &mut config.devcontainer.security_opt,
        variables,
        "runArgs value",
    );
    if options.is_err() {
        return options;
    }
    let arguments = expand_run_args(services, &mut config.devcontainer.run_args, variables);
    assert(expands_texts(
        services,
        variables,
        "runArgs value"@,
        old(config).devcontainer.cap_add@,
        config.devcontainer.cap_add@,
        capabilities,
    ));
    assert(expands_texts(
        services,
        variables,
        "runArgs value"@,
        old(config).devcontainer.security_opt@,
        config.devcontainer.security_opt@,
        options,
    ));
    assert(expands_run_args(
        services,
        variables,
        old(config).devcontainer.run_args@,
        config.devcontainer.run_args@,
        arguments,
    ));
    assert(expands_settings(
        services,
        variables,
        old(config).devcontainer,
        config.devcontainer,
        arguments,
    ));
    arguments
}

/// What a value of a Dockerfile build may not refer to.
#[derive(Debug, Clone, Copy, PartialEq, Eq, Structural)]
pub enum BuildReference {
    /// The home of the user that tools run as.
    UserHome,
    /// The user that tools run as.
    User,
}

/// Whether asking what a value refers to gave an answer.
pub open spec fn answers<S: PlanServices>(
    services: &S,
    reference: BuildReference,
    value: String,
    answer: Result<bool, UpError>,
) -> bool {
    match reference {
        BuildReference::UserHome => call_ensures(
            S::references_remote_user_home,
            (services, &value),
            answer,
        ),
        BuildReference::User => call_ensures(S::references_remote_user, (services, &value), answer),
    }
}

/// The message about a value of a Dockerfile build that refers to what is not
/// known when the image is built.
pub open spec fn build_reference_message(field: Seq<char>, reference: BuildReference) -> Seq<char> {
    match reference {
        BuildReference::UserHome => field
            + " must not reference ${remoteUserHome} because it is resolved from the runtime container passwd database after the image is built"@,
        BuildReference::User => field
            + " must not reference ${remoteUser} unless remoteUser or containerUser is configured before the Dockerfile build"@,
    }
}

/// Whether no value refers to what it may not.
pub open spec fn all_clear<S: PlanServices>(
    services: &S,
    reference: BuildReference,
    values: Seq<String>,
) -> bool {
    forall|i: int|
        0 <= i < values.len() ==> answers(
            services,
            reference,
            #[trigger] values[i],
            Ok::<bool, UpError>(false),
        )
}

/// Whether an error tells of the first value that refers to what it may not,
/// or that could not be read.
pub open spec fn tells_of_reference<S: PlanServices>(
    services: &S,
    reference: BuildReference,
    values: Seq<String>,
    field: Seq<char>,
    error: UpError,
) -> bool {
    exists|k: int|
        {
            &&& 0 <= k < values.len()
            &&& all_clear(services, reference, values.take(k))
            &&& {
                ||| answers(services, reference, #[trigger] values[k], Ok::<bool, UpError>(true))
                    && error@ == seq![build_reference_message(field, reference)]
                ||| answers(services, reference, values[k], Err::<bool, UpError>(error))
            }
        }
}

/// How the check of values of a Dockerfile build ends.
pub open spec fn checks_values<S: PlanServices>(
    services: &S,
    reference: BuildReference,
    values: Seq<String>,
    field: Seq<char>,
    outcome: Result<(), UpError>,
) -> bool {
    match outcome {
        Ok(()) => all_clear(services, reference, values),
        Err(error) => tells_of_reference(services, reference, values, field, error),
    }
}

fn reject_reference<S: PlanServices>(
    services: &S,
    reference: BuildReference,
    values: &Vec<String>,
    field: &str,
) -> (res: Result<(), UpError>)
    ensures
        checks_values(services, reference, values@, field@, res),
{
    let mut i: usize = 0;
    while i < values.len()
        invariant
            i <= values@.len(),
            forall|j: int|
                0 <= j < i ==> answers(
                    services,
                    reference,
                    #[trigger] values@[j],
                    Ok::<bool, UpError>(false),
                ),
        decreases values@.len() - i,
    {
        let answer = match reference {
            BuildReference::UserHome => services.references_remote_user_home(&values[i]),
            BuildReference::User => services.references_remote_user(&values[i]),
        };
        assert(answers(services, reference, values@[i as int], answer));
        assert(all_clear(services, reference, values@.take(i as int)));
        match answer {
            Ok(refers) => {
                if refers {
                    let mut message = field.to_owned();
                    match reference {
                        BuildReference::UserHome => message.append(
                            " must not reference ${remoteUserHome} because it is resolved from the runtime container passwd database after the image is built",
                        ),
                        BuildReference::User => message.append(
                            " must not reference ${remoteUser} unless remoteUser or containerUser is configured before the Dockerfile build",
                        ),
                    }
                    return Err(UpError::new(message));
                }
            },
            Err(error) => {
                return Err(error);
            },
        }
        i = i + 1;
    }
    Ok(())
}

/// Rejects values of a Dockerfile build that refer to the home of the user
/// that tools run as.
pub fn reject_runtime_user_home_in_build_value<S: PlanServices>(
    services: &S,
    values: &Vec<String>,
    field: &str,
) -> (res: Result<(), UpError>)
    ensures
        checks_values(services, BuildReference::UserHome, values@, field@, res),
{
    reject_reference(services, BuildReference::UserHome, values, field)
}

/// Rejects values of a Dockerfile build that refer to the user that tools run
/// as.
pub fn reject_remote_user_in_build_value<S: PlanServices>(
    services: &S,
    values: &Vec<String>,
    field: &str,
) -> (res: Result<(), UpError>)
    ensures
        checks_values(services, BuildReference::User, values@, field@, res),
{
    reject_reference(services, BuildReference::User, values, field)
}

fn reject_in_build_value<S: PlanServices>(
    services: &S,
    reference: BuildReference,
    values: &Vec<String>,
    field: &str,
) -> (res: Result<(), UpError>)
    ensures
        checks_values(services, reference, values@, field@, res),
{
    match reference {
        BuildReference::UserHome => reject_runtime_user_home_in_build_value(
            services,
            values,
            field,
        ),
        BuildReference::User => reject_remote_user_in_build_value(services, values, field),
    }
}

/// An optional text as a list.
pub open spec fn optional_list(value: Option<String>) -> Seq<String> {
    match value {
        Some(text) => seq![text],
        None => Seq::empty(),
    }
}

fn optional_texts(value: &Option<String>) -> (res: Vec<String>)
    ensures
        res@ == optional_list(*value),
{
    let mut values: Vec<String> = Vec::new();
    if let Some(text) = value {
        values.push(text.clone());
    }
    assert(values@ =~= optional_list(*value));
    values
}

/// How the checks of arguments, stage and caches of a Dockerfile build end
/// for one kind of reference.
pub open spec fn checks_reference<S: PlanServices>(
    services: &S,
    reference: BuildReference,
    build: LayerDevcontainerBuild,
    outcome: Result<(), UpError>,
) -> bool {
    exists|args: Result<(), UpError>| #[trigger]
        checks_values(services, reference, values_of(build.args@), "build.args"@, args)
            && match args {
            Err(_) => outcome == args,
            Ok(()) => exists|target: Result<(), UpError>| #[trigger]
                checks_values(
                    services,
                    reference,
                    optional_list(build.target),
                    "build.target"@,
                    target,
                ) && match target {
                    Err(_) => outcome == target,
                    Ok(()) => checks_values(
                        services,
                        reference,
                        build.cache_from@,
                        "build.cacheFrom"@,
                        outcome,
                    ),
                },
        }
}

fn reject_reference_in_build<S: PlanServices>(
    services: &S,
    reference: BuildReference,
    build: &LayerDevcontainerBuild,
) -> (res: Result<(), UpError>)
    ensures
        checks_reference(services, reference, *build, res),
{
    let args = reject_in_build_value(services, reference, &build.args.values(), "build.args");
    if args.is_err() {
        return args;
    }
    let target = reject_in_build_value(
        services,
        reference,
        &optional_texts(&build.target),
        "build.target",
    );
    if target.is_err() {
        return target;
    }
    reject_in_build_value(services, reference, &build.cache_from, "build.cacheFrom")
}

/// How the checks of a Dockerfile build end: nothing may refer to the home of
/// the user that tools run as, nor to that user where it is not configured.
pub open spec fn checks_build<S: PlanServices>(
    services: &S,
    build: LayerDevcontainerBuild,
    user_known: bool,
    outcome: Result<(), UpError>,
) -> bool {
    exists|home: Result<(), UpError>| #[trigger]
        checks_reference(services, BuildReference::UserHome, build, home) && match home {
            Err(_) => outcome == home,
            Ok(()) => if user_known {
                outcome is Ok
            } else {
                checks_reference(services, BuildReference::User, build, outcome)
            },
        }
}

fn check_build<S: PlanServices>(
    services: &S,
    build: &LayerDevcontainerBuild,
    user_known: bool,
) -> (res: Result<(), UpError>)
    ensures
        checks_build(services, *build, user_known, res),
{
    let home = reject_reference_in_build(services, BuildReference::UserHome, build);
    if home.is_err() || user_known {
        return home;
    }
    reject_reference_in_build(services, BuildReference::User, build)
}

/// How replacing the variables of a build stage ends.
pub open spec fn expands_target<S: PlanServices>(
    services: &S,
    variables: &VariableContext,
    before: Option<String>,
    after: Option<String>,
    outcome: Result<(), UpError>,
) -> bool {
    match before {
        None => after is None && outcome is Ok,
        Some(target) => match outcome {
            Ok(()) => after is Some && expands(services, variables, target, after->0),
            Err(error) => after == before && fails_to_expand(
                services,
                variables,
                "Failed to expand build.target"@,
                target,
                error,
            ),
        },
    }
}

/// How replacing the variables of a Dockerfile build ends, the checks having
/// passed.
pub open spec fn expands_build<S: PlanServices>(
    services: &S,
    variables: &VariableContext,
    before: LayerDevcontainerBuild,
    after: LayerDevcontainerBuild,
    outcome: Result<SensitiveEnvMap, UpError>,
) -> bool {
    exists|args: Result<TrackedValues, UpError>| #[trigger]
        call_ensures(S::expand_string_map, (services, &before.args, variables), args)
            && match args {
            Err(cause) => after == before && (outcome matches Err(error) && error@ == seq![
                "Failed to expand build.args"@,
            ] + cause@),
            Ok(args) => after.args == args.values && exists|target: Result<(), UpError>|
                #[trigger] expands_target(
                    services,
                    variables,
                    before.target,
                    after.target,
                    target,
                ) && match target {
                    Err(error) => outcome == Err::<SensitiveEnvMap, UpError>(error)
                        && after.cache_from == before.cache_from,
                    Ok(()) => exists|caches: Result<(), UpError>| #[trigger]
                        expands_texts(
                            services,
                            variables,
                            "build.cacheFrom"@,
                            before.cache_from@,
                            after.cache_from@,
                            caches,
                        ) && match caches {
                            Err(error) => outcome == Err::<SensitiveEnvMap, UpError>(error),
                            Ok(()) => outcome == Ok::<SensitiveEnvMap, UpError>(args.sensitive),
                        },
                },
        }
}

fn expand_build<S: PlanServices>(
    services: &S,
    build: &mut LayerDevcontainerBuild,
    variables: &VariableContext,
) -> (res: Result<SensitiveEnvMap, UpError>)
    ensures
        expands_build(services, variables, *old(build), *final(build), res),
        final(build).dockerfile == old(build).dockerfile,
        final(build).context == old(build).context,
        final(build).options == old(build).options,
{
    let args = match services.expand_string_map(&build.args, variables) {
        Ok(args) => args,
        Err(cause) => {
            return Err(cause.context("Failed to expand build.args"));
        },
    };
    build.args = args.values;
    if let Some(target) = &build.target {
        match services.expand_variables(target, variables) {
            Ok(expanded) => {
                build.target = Some(expanded);
            },
            Err(cause) => {
                let error = cause.context("Failed to expand build.target");
                assert(expands_target(
                    services,
                    variables,
                    old(build).target,
                    build.target,
                    Err(error),
                ));
                return Err(error);
            },
        }
    }
    assert(expands_target(services, variables, old(build).target, build.target, Ok(())));
    let caches = expand_string_values(services, &mut build.cache_from, variables, "build.cacheFrom");
    assert(expands_texts(
        services,
        variables,
        "build.cacheFrom"@,
        old(build).cache_from@,
        build.cache_from@,
        caches,
    ));
    assert(expands_target(services, variables, old(build).target, build.target, Ok(())));
    match caches {
        Ok(()) => Ok(args.sensitive),
        Err(error) => Err(error),
    }
}

/// Whether the configuration names a user.
pub open spec fn user_is_configured(devcontainer: ResolvedDevcontainer) -> bool {
    devcontainer.remote_user is Some || devcontainer.container_user is Some
}

/// How checking and replacing the variables of the container's source ends;
/// only a Dockerfile build has any.
pub open spec fn expands_source<S: PlanServices>(
    services: &S,
    variables: &VariableContext,
    before: ResolvedDevcontainer,
    after: Option<ResolvedDevcontainerSource>,
    outcome: Result<SensitiveEnvMap, UpError>,
) -> bool {
    match before.source {
        Some(ResolvedDevcontainerSource::Dockerfile(build)) => {
            &&& after matches Some(ResolvedDevcontainerSource::Dockerfile(_))
            &&& exists|checks: Result<(), UpError>| #[trigger]
                checks_build(
                    services,
                    build,
                    user_is_configured(before),
                    checks,
                ) && match checks {
                    Err(error) => outcome == Err::<SensitiveEnvMap, UpError>(error) && after
                        == before.source,
                    Ok(()) => expands_build(
                        services,
                        variables,
                        build,
                        after->0->Dockerfile_0,
                        outcome,
                    ) && (after->0->Dockerfile_0).dockerfile == build.dockerfile && (
                    after->0->Dockerfile_0).context == build.context && (
                    after->0->Dockerfile_0).options == build.options,
                }
        },
        _ => after == before.source && outcome is Ok && outcome->Ok_0@.len() == 0,
    }
}

fn expand_source<S: PlanServices>(
    services: &S,
    config: &mut ResolvedConfig,
    variables: &VariableContext,
) -> (res: Result<SensitiveEnvMap, UpError>)
    ensures
        expands_source(
            services,
            variables,
            old(config).devcontainer,
            final(config).devcontainer.source,
            res,
        ),
        *final(config) == (ResolvedConfig {
            devcontainer: ResolvedDevcontainer {
                source: final(config).devcontainer.source,
                ..old(config).devcontainer
            },
            ..*old(config)
        }),
{
    let user_known = config.devcontainer.remote_user.is_some()
        || config.devcontainer.container_user.is_some();
    let ghost before = config.devcontainer;
    match &mut config.devcontainer.source {
        Some(ResolvedDevcontainerSource::Dockerfile(build)) => {
            let checks = check_build(services, build, user_known);
            assert(checks_build(
                services,
                before.source->0->Dockerfile_0,
                user_is_configured(before),
                checks,
            ));
            match checks {
                Ok(()) => expand_build(services, build, variables),
                Err(error) => Err(error),
            }
        },
        _ => Ok(SensitiveEnvMap::new()),
    }
}

/// How replacing the variables of the container's settings ends where the
/// user that tools run as is not known yet.
pub open spec fn expands_settings_early<S: PlanServices>(
    services: &S,
    variables: &VariableContext,
    before: ResolvedDevcontainer,
    after: ResolvedDevcontainer,
    outcome: Result<(), UpError>,
) -> bool {
    exists|capabilities: Result<(), UpError>| #[trigger]
        expands_texts_early(
            services,
            variables,
            "runArgs value"@,
            before.cap_add@,
            after.cap_add@,
            capabilities,
        ) && match capabilities {
            Err(_) => {
                &&& outcome == capabilities
                &&& after.security_opt == before.security_opt
                &&& after.run_args == before.run_args
            },
            Ok(()) => exists|options: Result<(), UpError>| #[trigger]
                expands_texts_early(
                    services,
                    variables,
                    "runArgs value"@,
                    before.security_opt@,
                    after.security_opt@,
                    options,
                ) && match options {
                    Err(_) => outcome == options && after.run_args == before.run_args,
                    Ok(()) => expands_run_args_early(
                        services,
                        variables,
                        before.run_args@,
                        after.run_args@,
                        outcome,
                    ),
                },
        }
}

fn expand_settings_early<S: PlanServices>(
    services: &S,
    config: &mut ResolvedConfig,
    variables: &VariableContext,
) -> (res: Result<(), UpError>)
    ensures
        expands_settings_early(
            services,
            variables,
            old(config).devcontainer,
            final(config).devcontainer,
            res,
        ),
        same_but_settings(*old(config), *final(config)),
{
    let capabilities = expand_runtime_independent_string_values(
        services,
        &mut config.devcontainer.cap_add,
        variables,
        "runArgs value",
    );
    if capabilities.is_err() {
        return capabilities;
    }
    let options = expand_runtime_independent_string_values(
        services,
        &mut config.devcontainer.security_opt,
        variables,
        "runArgs value",
    );
    if options.is_err() {
        assert(expands_texts_early(
            services,
            variables,
            "runArgs value"@,
            old(config).devcontainer.cap_add@,
            config.devcontainer.cap_add@,
            capabilities,
        ));
        return options;
    }
    let arguments = expand_runtime_independent_run_args(
        services,
        &mut config.devcontainer.run_args,
        variables,
    );
    assert(expands_texts_early(
        services,
        variables,
        "runArgs value"@,
        old(config).devcontainer.cap_add@,
        config.devcontainer.cap_add@,
        capabilities,
    ));
    assert(expands_texts_early(
        services,
        variables,
        "runArgs value"@,
        old(config).devcontainer.security_opt@,
        config.devcontainer.security_opt@,
        options,
    ));
    assert(expands_run_args_early(
        services,
        variables,
        old(config).devcontainer.run_args@,
        config.devcontainer.run_args@,
        arguments,
    ));
    arguments
}

/// How replacing variables before the image is known ends.
pub open spec fn expands_early_fields<S: PlanServices>(
    services: &S,
    variables: &VariableContext,
    before: ResolvedConfig,
    after: ResolvedConfig,
    outcome: Result<SensitiveEnvMap, UpError>,
) -> bool {
    exists|source: Result<SensitiveEnvMap, UpError>| #[trigger]
        expands_source(
            services,
            variables,
            before.devcontainer,
            after.devcontainer.source,
            source,
        ) && match source {
            Err(_) => {
                &&& outcome == source
                &&& after.devcontainer.cap_add == before.devcontainer.cap_add
                &&& after.devcontainer.security_opt == before.devcontainer.security_opt
                &&& after.devcontainer.run_args == before.devcontainer.run_args
            },
            Ok(_) => exists|settings: Result<(), UpError>| #[trigger]
                expands_settings_early(
                    services,
                    variables,
                    before.devcontainer,
                    after.devcontainer,
                    settings,
                ) && match settings {
                    Err(error) => outcome == Err::<SensitiveEnvMap, UpError>(error),
                    Ok(()) => outcome == source,
                },
        }
}

/// Whether two configurations differ at most in source, capabilities,
/// security options and container options.
pub open spec fn same_but_source_and_settings(
    before: ResolvedConfig,
    after: ResolvedConfig,
) -> bool {
    after == (ResolvedConfig {
        devcontainer: ResolvedDevcontainer {
            source: after.devcontainer.source,
            cap_add: after.devcontainer.cap_add,
            security_opt: after.devcontainer.security_opt,
            run_args: after.devcontainer.run_args,
            ..before.devcontainer
        },
        ..before
    })
}

/// Replaces the variables that are known before the image is, and gives the
/// build arguments whose values are to be hidden.
pub fn expand_static_devcontainer_fields<S: PlanServices>(
    services: &S,
    config: &mut ResolvedConfig,
    variables: &VariableContext,
) -> (res: Result<SensitiveEnvMap, UpError>)
    ensures
        expands_early_fields(services, variables, *old(config), *final(config), res),
        same_but_source_and_settings(*old(config), *final(config)),
{
    let source = match expand_source(services, config, variables) {
        Ok(source) => source,
        Err(error) => {
            return Err(error);
        },
    };
    let ghost expanded: Result<SensitiveEnvMap, UpError> = Ok(source);
    let settings = expand_settings_early(services, config, variables);
    assert(expands_source(
        services,
        variables,
        old(config).devcontainer,
        config.devcontainer.source,
        expanded,
    ));
    assert(expands_settings_early(
        services,
        variables,
        old(config).devcontainer,
        config.devcontainer,
        settings,
    ));
    match settings {
        Ok(()) => Ok(source),
        Err(error) => Err(error),
    }
}

/// How replacing the variables of an optional user ends.
pub open spec fn expands_user<S: PlanServices>(
    services: &S,
    variables: &VariableContext,
    context: Seq<char>,
    before: Option<String>,
    after: Option<String>,
    outcome: Result<(), UpError>,
) -> bool {
    match before {
        None => after is None && outcome is Ok,
        Some(user) => match outcome {
            Ok(()) => after is Some && expands(services, variables, user, after->0),
            Err(error) => after == before && fails_to_expand(
                services,
                variables,
                context,
                user,
                error,
            ),
        },
    }
}

fn expand_user<S: PlanServices>(
    services: &S,
    user: &mut Option<String>,
    variables: &VariableContext,
    context: &str,
) -> (res: Result<(), UpError>)
    ensures
        expands_user(services, variables, context@, *old(user), *final(user), res),
{
    if let Some(text) = user {
        match services.expand_variables(text, variables) {
            Ok(expanded) => {
                *user = Some(expanded);
            },
            Err(cause) => {
                let error = cause.context(context);
                assert(fails_to_expand(
                    services,
                    variables,
                    context@,
                    old(user)->0,
                    error,
                ));
                return Err(error);
            },
        }
    }
    Ok(())
}

/// How replacing the variables of the users ends.
pub open spec fn expands_users<S: PlanServices>(
    services: &S,
    variables: &VariableContext,
    before: ResolvedDevcontainer,
    after: ResolvedDevcontainer,
    outcome: Result<(), UpError>,
) -> bool {
    exists|remote: Result<(), UpError>| #[trigger]
        expands_user(
            services,
            variables,
            "Failed to expand remoteUser"@,
            before.remote_user,
            after.remote_user,
            remote,
        ) && match remote {
            Err(_) => outcome == remote && after.container_user == before.container_user,
            Ok(()) => expands_user(
                services,
                variables,
                "Failed to expand containerUser"@,
                before.container_user,
                after.container_user,
                outcome,
            ),
        }
}

/// Replaces the variables of the users.
pub fn expand_static_user_fields<S: PlanServices>(
    services: &S,
    config: &mut ResolvedConfig,
    variables: &VariableContext,
) -> (res: Result<(), UpError>)
    ensures
        expands_users(
            services,
            variables,
            old(config).devcontainer,
            final(config).devcontainer,
            res,
        ),
        *final(config) == (ResolvedConfig {
            devcontainer: ResolvedDevcontainer {
                remote_user: final(config).devcontainer.remote_user,
                container_user: final(config).devcontainer.container_user,
                ..old(config).devcontainer
            },
            ..*old(config)
        }),
{
    let remote = expand_user(
        services,
        &mut config.devcontainer.remote_user,
        variables,
        "Failed to expand remoteUser",
    );
    if remote.is_err() {
        return remote;
    }
    let container = expand_user(
        services,
        &mut config.devcontainer.container_user,
        variables,
        "Failed to expand containerUser",
    );
    assert(expands_user(
        services,
        variables,
        "Failed to expand remoteUser"@,
        old(config).devcontainer.remote_user,
        config.devcontainer.remote_user,
        remote,
    ));
    container
}

/// How it is told whether the folder of the workspace is settled before the
/// image is known.
pub open spec fn tells_folder_is_settled<S: PlanServices>(
    services: &S,
    config: ResolvedConfig,
    outcome: Result<bool, UpError>,
) -> bool {
    match config.devcontainer.workspace_folder {
        Some(folder) => exists|answer: Result<bool, UpError>| #[trigger]
            call_ensures(S::references_remote_user, (services, &folder), answer) && match answer {
                Ok(refers) => outcome == Ok::<bool, UpError>(!refers),
                Err(_) => outcome == answer,
            },
        None => outcome == Ok::<bool, UpError>(true),
    }
}

/// Whether the folder of the workspace is settled before the image is known:
/// it does not refer to the user that tools run as.
pub fn should_store_static_workspace_folder<S: PlanServices>(
    services: &S,
    config: &ResolvedConfig,
) -> (res: Result<bool, UpError>)
    ensures
        tells_folder_is_settled(services, *config, res),
{
    match &config.devcontainer.workspace_folder {
        Some(folder) => match services.references_remote_user(folder) {
            Ok(refers) => Ok(!refers),
            Err(error) => Err(error),
        },
        None => Ok(true),
    }
}

/// What is known of a plan before the image is.
#[derive(Debug)]
pub struct StaticPlanExpansion {
    /// Where the workspace stands in the container.
    pub workspace_location: WorkspaceLocation,
    /// What the image is built from, where it is built.
    pub build_context: Option<ResolvedBuildContext>,
    /// Options of the build.
    pub build_options: DockerBuildOptions,
    /// Build arguments whose values are hidden.
    pub sensitive_build_args: SensitiveEnvMap,
}

/// A configuration whose workspace folder is settled.
pub open spec fn with_folder(config: ResolvedConfig, folder: String) -> ResolvedConfig {
    ResolvedConfig {
        devcontainer: ResolvedDevcontainer {
            workspace_folder: Some(folder),
            ..config.devcontainer
        },
        ..config
    }
}

/// A configuration with its users replaced.
pub open spec fn with_users(
    config: ResolvedConfig,
    remote_user: Option<String>,
    container_user: Option<String>,
) -> ResolvedConfig {
    ResolvedConfig {
        devcontainer: ResolvedDevcontainer {
            remote_user,
            container_user,
            ..config.devcontainer
        },
        ..config
    }
}

/// Which variables hold for a folder before the image is known.
pub open spec fn known_statically(
    workspace: Workspace,
    config: ResolvedConfig,
    ids: HostUserIds,
) -> spec_fn(Seq<char>, VariableContext) -> bool {
    |folder: Seq<char>, variables: VariableContext|
        describes_statically(variables, workspace, folder, config, ids)
}

/// How the rest of a plan is made out before the image is known, once the
/// workspace was located in a configuration whose folder is settled.
pub open spec fn expands_located<S: PlanServices>(
    services: &S,
    workspace: &Workspace,
    devcontainer_file: &String,
    ids: HostUserIds,
    settled: ResolvedConfig,
    after: ResolvedConfig,
    location: WorkspaceLocation,
    outcome: Result<StaticPlanExpansion, UpError>,
) -> bool {
    exists|variables: VariableContext, sensitive: Result<SensitiveEnvMap, UpError>|
        {
            &&& describes_statically(
                variables,
                *workspace,
                location.workspace_folder@,
                settled,
                ids,
            )
            &&& #[trigger] expands_early_fields(services, &variables, settled, after, sensitive)
            &&& same_but_source_and_settings(settled, after)
            &&& match sensitive {
                Err(error) => outcome == Err::<StaticPlanExpansion, UpError>(error),
                Ok(sensitive) => exists|
                    input: Result<(Option<ResolvedBuildContext>, DockerBuildOptions), UpError>,
                | #[trigger]
                    finds_build_input(services, workspace, devcontainer_file, &after, input)
                        && match input {
                        Err(error) => outcome == Err::<StaticPlanExpansion, UpError>(error),
                        Ok(input) => {
                            &&& outcome is Ok
                            &&& outcome->Ok_0.workspace_location == location
                            &&& outcome->Ok_0.build_context == input.0
                            &&& outcome->Ok_0.build_options == (DockerBuildOptions {
                                build_arg_redactions: outcome->Ok_0.build_options.build_arg_redactions,
                                ..input.1
                            })
                            &&& views(outcome->Ok_0.build_options.build_arg_redactions@)
                                == redactions_of(sensitive@)
                            &&& outcome->Ok_0.sensitive_build_args == sensitive
                        },
                    },
            }
        }
}

/// How a plan is made out before the image is known, once the users were
/// expanded.
pub open spec fn expands_with_users<S: PlanServices>(
    services: &S,
    workspace: &Workspace,
    devcontainer_file: &String,
    validation: WorkspaceLocationValidation,
    mount_resolution: MountResolution,
    ids: HostUserIds,
    config: ResolvedConfig,
    after: ResolvedConfig,
    outcome: Result<StaticPlanExpansion, UpError>,
) -> bool {
    exists|location: Result<WorkspaceLocation, UpError>| #[trigger]
        locates_workspace(
            services,
            workspace,
            &config,
            validation,
            mount_resolution,
            known_statically(*workspace, config, ids),
            location,
        ) && match location {
            Err(error) => outcome == Err::<StaticPlanExpansion, UpError>(error) && after == config,
            Ok(location) => exists|settled: Result<bool, UpError>| #[trigger]
                tells_folder_is_settled(services, config, settled) && match settled {
                    Err(error) => outcome == Err::<StaticPlanExpansion, UpError>(error) && after
                        == config,
                    Ok(settled) => expands_located(
                        services,
                        workspace,
                        devcontainer_file,
                        ids,
                        if settled {
                            with_folder(config, location.workspace_folder)
                        } else {
                            config
                        },
                        after,
                        location,
                        outcome,
                    ),
                },
        }
}

/// How a plan is made out before the image is known.
pub open spec fn expands_statically<S: PlanServices>(
    services: &S,
    workspace: &Workspace,
    devcontainer_file: &String,
    validation: WorkspaceLocationValidation,
    mount_resolution: MountResolution,
    ids: HostUserIds,
    before: ResolvedConfig,
    after: ResolvedConfig,
    outcome: Result<StaticPlanExpansion, UpError>,
) -> bool {
    exists|variables: VariableContext, users: ResolvedDevcontainer, result: Result<(), UpError>|
        {
            &&& describes_statically(
                variables,
                *workspace,
                default_folder(*workspace),
                before,
                ids,
            )
            &&& #[trigger] expands_users(
                services,
                &variables,
                before.devcontainer,
                users,
                result,
            )
            &&& match result {
                Err(error) => outcome == Err::<StaticPlanExpansion, UpError>(error) && after
                    == with_users(before, users.remote_user, users.container_user),
                Ok(()) => expands_with_users(
                    services,
                    workspace,
                    devcontainer_file,
                    validation,
                    mount_resolution,
                    ids,
                    with_users(before, users.remote_user, users.container_user),
                    after,
                    outcome,
                ),
            }
        }
}

/// Makes out what is known of a plan before the image is: the users, where
/// the workspace stands, and what the image is built from.
pub fn expand_static_plan_fields<S: PlanServices>(
    services: &S,
    workspace: &Workspace,
    devcontainer_file: &String,
    config: &mut ResolvedConfig,
    workspace_validation: WorkspaceLocationValidation,
    mount_resolution: MountResolution,
    ids: HostUserIds,
) -> (res: Result<StaticPlanExpansion, UpError>)
    ensures
        expands_statically(
            services,
            workspace,
            devcontainer_file,
            workspace_validation,
            mount_resolution,
            ids,
            *old(config),
            *final(config),
            res,
        ),
{
    let preliminary = static_mount_variable_context(
        workspace,
        default_workspace_folder(workspace).as_str(),
        config,
        ids,
    );
    match expand_static_user_fields(services, config, &preliminary) {
        Ok(()) => {},
        Err(error) => {
            return Err(error);
        },
    }
    let ghost with_users_config = *config;
    let located = locate_statically(
        services,
        workspace,
        config,
        workspace_validation,
        mount_resolution,
        ids,
    );
    let workspace_location = match located {
        Ok(workspace_location) => workspace_location,
        Err(error) => {
            return Err(error);
        },
    };
    let settled = match should_store_static_workspace_folder(services, config) {
        Ok(settled) => settled,
        Err(error) => {
            return Err(error);
        },
    };
    if settled {
        config.devcontainer.workspace_folder = Some(workspace_location.workspace_folder.clone());
    }
    let ghost settled_config = *config;
    let mount_variables = static_mount_variable_context(
        workspace,
        workspace_location.workspace_folder.as_str(),
        config,
        ids,
    );
    let sensitive_build_args = match expand_static_devcontainer_fields(
        services,
        config,
        &mount_variables,
    ) {
        Ok(sensitive_build_args) => sensitive_build_args,
        Err(error) => {
            return Err(error);
        },
    };
    let (build_context, mut build_options) = match dockerfile_build_input(
        services,
        workspace,
        devcontainer_file,
        config,
    ) {
        Ok(input) => input,
        Err(error) => {
            return Err(error);
        },
    };
    build_options.build_arg_redactions = redaction_values(&sensitive_build_args);
    Ok(
        StaticPlanExpansion {
            workspace_location,
            build_context,
            build_options,
            sensitive_build_args,
        },
    )
}

fn locate_statically<S: PlanServices>(
    services: &S,
    workspace: &Workspace,
    config: &ResolvedConfig,
    validation: WorkspaceLocationValidation,
    mount_resolution: MountResolution,
    ids: HostUserIds,
) -> (res: Result<WorkspaceLocation, UpError>)
    ensures
        locates_workspace(
            services,
            workspace,
            config,
            validation,
            mount_resolution,
            known_statically(*workspace, *config, ids),
            res,
        ),
{
    let variables_for = |folder: &String| -> (variables: VariableContext)
        ensures
            describes_statically(variables, *workspace, folder@, *config, ids),
        { static_mount_variable_context(workspace, folder.as_str(), config, ids) };
    let location = resolve_workspace_location(
        services,
        workspace,
        config,
        validation,
        mount_resolution,
        variables_for,
    );
    proof {
        locates_with_less_known(
            services,
            workspace,
            config,
            validation,
            mount_resolution,
            given_by(variables_for),
            known_statically(*workspace, *config, ids),
            location,
        );
    }
    location
}

/// Whether the tool can tell of every text what it refers to, and always tells
/// the same.
pub open spec fn tells_references<S: PlanServices>(
    services: &S,
    reference: BuildReference,
    refers: spec_fn(Seq<char>) -> bool,
) -> bool {
    forall|text: String, answer: Result<bool, UpError>| #[trigger]
        answers(services, reference, text, answer) ==> answer == Ok::<bool, UpError>(
            refers(text@),
        )
}

/// Whether one of several texts refers to something.
pub open spec fn refers_somewhere(values: Seq<String>, refers: spec_fn(Seq<char>) -> bool) -> bool {
    exists|i: int| 0 <= i < values.len() && refers((#[trigger] values[i])@)
}

/// Whether an argument, the stage or a cache of a Dockerfile build refers to
/// something.
pub open spec fn build_refers(
    build: LayerDevcontainerBuild,
    refers: spec_fn(Seq<char>) -> bool,
) -> bool {
    ||| refers_somewhere(values_of(build.args@), refers)
    ||| refers_somewhere(optional_list(build.target), refers)
    ||| refers_somewhere(build.cache_from@, refers)
}

/// Whether messages name the field of a Dockerfile build that refers to
/// something, and what it refers to.
pub open spec fn names_reference(
    build: LayerDevcontainerBuild,
    reference: BuildReference,
    refers: spec_fn(Seq<char>) -> bool,
    chain: Seq<Seq<char>>,
) -> bool {
    ||| refers_somewhere(values_of(build.args@), refers) && chain == seq![
        build_reference_message("build.args"@, reference),
    ]
    ||| refers_somewhere(optional_list(build.target), refers) && chain == seq![
        build_reference_message("build.target"@, reference),
    ]
    ||| refers_somewhere(build.cache_from@, refers) && chain == seq![
        build_reference_message("build.cacheFrom"@, reference),
    ]
}

proof fn values_are_told<S: PlanServices>(
    services: &S,
    reference: BuildReference,
    refers: spec_fn(Seq<char>) -> bool,
    values: Seq<String>,
    field: Seq<char>,
    outcome: Result<(), UpError>,
)
    requires
        tells_references(services, reference, refers),
        checks_values(services, reference, values, field, outcome),
    ensures
        outcome is Err <==> refers_somewhere(values, refers),
        outcome is Err ==> outcome->Err_0@ == seq![build_reference_message(field, reference)],
{
    match outcome {
        Ok(()) => {
            assert forall|i: int| 0 <= i < values.len() implies !refers(
                (#[trigger] values[i])@,
            ) by {
                assert(answers(services, reference, values[i], Ok::<bool, UpError>(false)));
            }
        },
        Err(error) => {
            let k = choose|k: int|
                {
                    &&& 0 <= k < values.len()
                    &&& all_clear(services, reference, values.take(k))
                    &&& {
                        ||| answers(
                            services,
                            reference,
                            #[trigger] values[k],
                            Ok::<bool, UpError>(true),
                        ) && error@ == seq![build_reference_message(field, reference)]
                        ||| answers(services, reference, values[k], Err::<bool, UpError>(error))
                    }
                };
            assert(refers(values[k]@));
        },
    }
}

proof fn references_are_told<S: PlanServices>(
    services: &S,
    reference: BuildReference,
    refers: spec_fn(Seq<char>) -> bool,
    build: LayerDevcontainerBuild,
    outcome: Result<(), UpError>,
)
    requires
        tells_references(services, reference, refers),
        checks_reference(services, reference, build, outcome),
    ensures
        outcome is Err <==> build_refers(build, refers),
        outcome is Err ==> names_reference(build, reference, refers, outcome->Err_0@),
{
    let args = choose|args: Result<(), UpError>| #[trigger]
        checks_values(services, reference, values_of(build.args@), "build.args"@, args)
            && match args {
            Err(_) => outcome == args,
            Ok(()) => exists|target: Result<(), UpError>| #[trigger]
                checks_values(
                    services,
                    reference,
                    optional_list(build.target),
                    "build.target"@,
                    target,
                ) && match target {
                    Err(_) => outcome == target,
                    Ok(()) => checks_values(
                        services,
                        reference,
                        build.cache_from@,
                        "build.cacheFrom"@,
                        outcome,
                    ),
                },
        };
    values_are_told(services, reference, refers, values_of(build.args@), "build.args"@, args);
    if args is Ok {
        let target = choose|target: Result<(), UpError>| #[trigger]
            checks_values(
                services,
                reference,
                optional_list(build.target),
                "build.target"@,
                target,
            ) && match target {
                Err(_) => outcome == target,
                Ok(()) => checks_values(
                    services,
                    reference,
                    build.cache_from@,
                    "build.cacheFrom"@,
                    outcome,
                ),
            };
        values_are_told(
            services,
            reference,
            refers,
            optional_list(build.target),
            "build.target"@,
            target,
        );
        if target is Ok {
            values_are_told(
                services,
                reference,
                refers,
                build.cache_from@,
                "build.cacheFrom"@,
                outcome,
            );
        }
    }
}

/// Where the tool can tell what each text refers to, a Dockerfile build that
/// refers to the home of the user that tools run as is refused, and so is one
/// that refers to that user where none is configured. The refusal names the
/// field and what it may not refer to, and the configuration stays as it was.
pub proof fn refused_builds_change_nothing<S: PlanServices>(
    services: &S,
    variables: &VariableContext,
    before: ResolvedConfig,
    after: ResolvedConfig,
    outcome: Result<SensitiveEnvMap, UpError>,
    build: LayerDevcontainerBuild,
    refers_to_home: spec_fn(Seq<char>) -> bool,
    refers_to_user: spec_fn(Seq<char>) -> bool,
)
    requires
        expands_early_fields(services, variables, before, after, outcome),
        same_but_source_and_settings(before, after),
        before.devcontainer.source == Some(ResolvedDevcontainerSource::Dockerfile(build)),
        tells_references(services, BuildReference::UserHome, refers_to_home),
        tells_references(services, BuildReference::User, refers_to_user),
        build_refers(build, refers_to_home) || (!user_is_configured(before.devcontainer)
            && build_refers(build, refers_to_user)),
    ensures
        after == before,
        outcome is Err,
        names_reference(build, BuildReference::UserHome, refers_to_home, outcome->Err_0@) || (
        !user_is_configured(before.devcontainer) && names_reference(
            build,
            BuildReference::User,
            refers_to_user,
            outcome->Err_0@,
        )),
{
    let known = user_is_configured(before.devcontainer);
    assert forall|checks: Result<(), UpError>| #[trigger]
        checks_build(services, build, known, checks) implies {
        &&& checks is Err
        &&& names_reference(build, BuildReference::UserHome, refers_to_home, checks->Err_0@) || (
        !known && names_reference(build, BuildReference::User, refers_to_user, checks->Err_0@))
    } by {
        let home = choose|home: Result<(), UpError>| #[trigger]
            checks_reference(services, BuildReference::UserHome, build, home) && match home {
                Err(_) => checks == home,
                Ok(()) => if known {
                    checks is Ok
                } else {
                    checks_reference(services, BuildReference::User, build, checks)
                },
            };
        references_are_told(services, BuildReference::UserHome, refers_to_home, build, home);
        if home is Ok && !known {
            references_are_told(services, BuildReference::User, refers_to_user, build, checks);
        }
    }
}

} // verus!
