//! The Features of a plan, and what they bring to its configuration.

use crate::config::{ConfigMergeInput, ResolvedConfig};
use crate::docker::{FetchedFeatures, HostUserIds};
use crate::error::UpError;
use crate::finalize::resources::config_file_of;
use crate::mounts::WorkspaceLocationValidation;
use crate::plan::expand::{expand_static_plan_fields, expands_statically, StaticPlanExpansion};
use crate::services::PlanServices;
use crate::text::opt_view;
use crate::types::{join_path, joined_path, MountResolution, UpPlan, Workspace};
use vstd::prelude::*;

verus! {

/// Whether the Features of a plan are still to be fetched.
pub open spec fn needs_fetching(plan: UpPlan) -> bool {
    plan.feature_install is None && plan.config.features@.len() > 0
}

/// Whether the Features of a plan are still to be fetched.
pub fn plan_needs_feature_fetch(plan: &UpPlan) -> (res: bool)
    ensures
        res == needs_fetching(*plan),
{
    plan.feature_install.is_none() && plan.config.features.len() > 0
}

/// Where the layer for Features and entrypoints is built.
pub open spec fn build_directory(workspace: Workspace) -> Seq<char> {
    joined_path(workspace.cache_dir@, "feature-build-context"@)
}

/// Where fetched Features are unpacked.
pub fn feature_extract_directory(workspace: &Workspace) -> (res: String)
    ensures
        res@ == joined_path(joined_path(workspace.cache_dir@, "features"@), "extracted"@),
{
    let features = join_path(workspace.cache_dir.as_str(), "features");
    join_path(features.as_str(), "extracted")
}

/// Whether layers are others with what Features bring replaced.
pub open spec fn layers_with_features(
    before: ConfigMergeInput,
    fetched: FetchedFeatures,
) -> ConfigMergeInput {
    ConfigMergeInput { feature_metadata: fetched.metadata_layers, ..before }
}

/// Whether a plan is another on what its Features bring.
pub open spec fn has_features(
    workspace: Workspace,
    before: UpPlan,
    fetched: FetchedFeatures,
    config: ResolvedConfig,
    expansion: StaticPlanExpansion,
    after: UpPlan,
) -> bool {
    &&& after == (UpPlan {
        config_layers: layers_with_features(before.config_layers, fetched),
        config,
        build_context: expansion.build_context,
        build_options: expansion.build_options,
        sensitive_build_args: expansion.sensitive_build_args,
        workspace_folder: expansion.workspace_location.workspace_folder,
        feature_install: Some(fetched.install),
        feature_build_context_dir: after.feature_build_context_dir,
        ..before
    })
    &&& opt_view(after.feature_build_context_dir) == Some(build_directory(workspace))
}

/// How the Features of a plan are taken into account.
pub open spec fn takes_features<S: PlanServices>(
    services: &S,
    workspace: &Workspace,
    ids: HostUserIds,
    before: UpPlan,
    fetched: Option<FetchedFeatures>,
    outcome: Result<UpPlan, UpError>,
) -> bool {
    if before.feature_install is Some {
        outcome == Ok::<UpPlan, UpError>(before)
    } else if before.config.features@.len() == 0 {
        &&& outcome is Ok
        &&& outcome->Ok_0 == (UpPlan {
            feature_build_context_dir: outcome->Ok_0.feature_build_context_dir,
            ..before
        })
        &&& if before.config.devcontainer.entrypoints@.len() > 0 {
            opt_view(outcome->Ok_0.feature_build_context_dir) == Some(build_directory(*workspace))
        } else {
            outcome->Ok_0.feature_build_context_dir == before.feature_build_context_dir
        }
    } else if fetched is None {
        outcome == Ok::<UpPlan, UpError>(before)
    } else {
        exists|
            merged: ResolvedConfig,
            config: ResolvedConfig,
            expansion: Result<StaticPlanExpansion, UpError>,
        |
            {
                &&& call_ensures(
                    S::resolve_config,
                    (services, &layers_with_features(before.config_layers, fetched->0)),
                    merged,
                )
                &&& #[trigger] expands_statically(
                    services,
                    workspace,
                    &config_file_of(before)->0,
                    WorkspaceLocationValidation::Preliminary,
                    MountResolution::DeferConfigMounts,
                    ids,
                    merged,
                    config,
                    expansion,
                )
                &&& match expansion {
                    Err(error) => outcome == Err::<UpPlan, UpError>(error),
                    Ok(expansion) => outcome is Ok && has_features(
                        *workspace,
                        before,
                        fetched->0,
                        config,
                        expansion,
                        outcome->Ok_0,
                    ),
                }
            }
    }
}

/// Takes the Features of a plan into account, once they were fetched: what
/// they bring is merged into the configuration, and what is known before the
/// image is made out anew. `fetched` is absent where nothing was to be
/// fetched.
pub fn prepare_feature_metadata_for_plan<S: PlanServices>(
    services: &S,
    workspace: &Workspace,
    ids: HostUserIds,
    plan: UpPlan,
    fetched: Option<FetchedFeatures>,
) -> (res: Result<UpPlan, UpError>)
    requires
        needs_fetching(plan) ==> config_file_of(plan) is Some,
    ensures
        takes_features(services, workspace, ids, plan, fetched, res),
{
    if plan.feature_install.is_some() {
        return Ok(plan);
    }
    let mut plan = plan;
    if plan.config.features.len() == 0 {
        if plan.config.devcontainer.entrypoints.len() > 0 {
            plan.feature_build_context_dir = Some(
                join_path(workspace.cache_dir.as_str(), "feature-build-context"),
            );
        }
        return Ok(plan);
    }
    let ghost before = plan;
    let ghost given = fetched;
    let fetched = match fetched {
        Some(fetched) => fetched,
        None => {
            return Ok(plan);
        },
    };
    let devcontainer_file = match plan.resources.labels.get("devcontainer.config_file") {
        Some(file) => file.clone(),
        None => String::new(),
    };
    assert(devcontainer_file == config_file_of(before)->0);
    plan.config_layers.feature_metadata = fetched.metadata_layers;
    let ghost layers = plan.config_layers;
    assert(layers == layers_with_features(before.config_layers, given->0));
    plan.config = services.resolve_config(&plan.config_layers);
    let ghost merged = plan.config;
    let expansion = expand_static_plan_fields(
        services,
        workspace,
        &devcontainer_file,
        &mut plan.config,
        WorkspaceLocationValidation::Preliminary,
        MountResolution::DeferConfigMounts,
        ids,
    );
    assert(expands_statically(
        services,
        workspace,
        &config_file_of(before)->0,
        WorkspaceLocationValidation::Preliminary,
        MountResolution::DeferConfigMounts,
        ids,
        merged,
        plan.config,
        expansion,
    ));
    match expansion {
        Err(error) => Err(error),
        Ok(expansion) => {
            plan.build_context = expansion.build_context;
            plan.build_options = expansion.build_options;
            plan.sensitive_build_args = expansion.sensitive_build_args;
            plan.workspace_folder = expansion.workspace_location.workspace_folder;
            plan.feature_install = Some(fetched.install);
            plan.feature_build_context_dir = Some(
                join_path(workspace.cache_dir.as_str(), "feature-build-context"),
            );
            Ok(plan)
        },
    }
}

} // verus!
