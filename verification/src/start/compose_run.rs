//! What is done, in order, to start a Compose project.

use crate::compose::isolation::{
    ComposeIsolationEndpointPlan, ComposeIsolationNameRewritePlan, ComposeIsolationSubnetPlan,
};
use crate::compose::ports::{
    ComposePublishedPortPlanningInput, ComposePublishedPortReservation,
};
use crate::docker::{copy_optional_text, HostPortReservation};
use crate::error::UpError;
use crate::finalize::lookup::{has_final_layer, plan_requires_final_image_layer, LookupBuild};
use crate::services::PlanServices;
use crate::start::compose::{
    compose_start_requires_generated_override, ComposeStartRunOptions, ComposeStartupContext,
};
use crate::start::container::ImagePreparation;
use crate::start::existing::DecisionView;
use crate::start::image::reused_outcome;
use crate::start::state_sync::LifecycleRunPath;
use crate::startup_command::ComposeConfigService;
use crate::types::{
    ExistingContainerDecision, UpContainerSummary, UpOptions, UpOutcome, UpPlan,
};
use crate::config::ComposePublishedPortMapping;

use vstd::prelude::*;
use vstd::string::*;

verus! {

/// The services that the active Compose model is read for; it is the full
/// model where no service is listed.
pub fn active_config_services(services: &Vec<String>) -> (res: Option<&Vec<String>>)
    ensures
        res == if services@.len() == 0 {
            None
        } else {
            Some(services)
        },
{
    if services.len() == 0 {
        None
    } else {
        Some(services)
    }
}

/// What the Compose files say of a project.
#[derive(Debug)]
pub struct ComposeUserConfigs<C> {
    /// What they say of all services.
    pub full: C,
    /// What they say of the services that are started, where these are listed.
    pub active: Option<C>,
}

impl<C> ComposeUserConfigs<C> {
    /// What clones are kept apart by and published ports are planned from.
    pub open spec fn spec_active_config(self) -> C {
        match self.active {
            Some(config) => config,
            None => self.full,
        }
    }

    /// What clones are kept apart by and published ports are planned from: what
    /// is said of the services that are started. The primary service and the
    /// hash go by what is said of all.
    pub fn active_config(&self) -> (res: &C)
        ensures
            *res == self.spec_active_config(),
    {
        match &self.active {
            Some(config) => config,
            None => &self.full,
        }
    }
}

/// What the Compose files say of a project, and how it is kept apart.
#[derive(Debug)]
pub struct ComposeProjectFacts {
    /// The services that are started; all, where none is listed.
    pub user_services: Vec<String>,
    /// The Compose model of all services, as JSON text.
    pub canonical_model: String,
    /// The image of the primary service.
    pub compose_primary_image: String,
    /// Whether that image is built.
    pub primary_service_has_build: bool,
    /// The primary service, as the Compose files give it.
    pub compose_primary_service: Option<ComposeConfigService>,
    /// The published ports of the services that are started.
    pub published_port_policy_input: ComposePublishedPortPlanningInput,
    /// Ports that are moved by configuration.
    pub mappings: Vec<ComposePublishedPortMapping>,
    /// What is renamed.
    pub name_rewrite_plan: ComposeIsolationNameRewritePlan,
    /// Which networks are given addresses.
    pub subnet_plan: ComposeIsolationSubnetPlan,
    /// Which variables are rewritten.
    pub endpoint_plan: ComposeIsolationEndpointPlan,
}

/// Whether a context holds what the Compose files say of a project, with no
/// container looked up yet.
pub open spec fn holds_facts(
    context: ComposeStartupContext,
    facts: ComposeProjectFacts,
    relocation_enabled: bool,
) -> bool {
    &&& context.user_services == facts.user_services
    &&& context.canonical_model == facts.canonical_model
    &&& context.compose_primary_image == facts.compose_primary_image
    &&& context.primary_service_has_build == facts.primary_service_has_build
    &&& context.compose_primary_service == facts.compose_primary_service
    &&& context.published_port_policy_input == facts.published_port_policy_input
    &&& context.mappings == facts.mappings
    &&& context.existing_compose_project_containers@.len() == 0
    &&& context.existing_compose_containers@.len() == 0
    &&& context.existing_project_published_ports@.len() == 0
    &&& context.external_host_reservations@.len() == 0
    &&& context.published_port_relocation_enabled == relocation_enabled
    &&& context.name_rewrite_plan == facts.name_rewrite_plan
    &&& context.subnet_plan == facts.subnet_plan
    &&& context.endpoint_plan == facts.endpoint_plan
}

/// How preparing a start ends: the published ports are checked, and only then
/// the plan is put on the image of the primary service.
pub open spec fn prepares_context<S: PlanServices>(
    services: &S,
    before: UpPlan,
    facts: ComposeProjectFacts,
    after: UpPlan,
    outcome: Result<ComposeStartupContext, UpError>,
) -> bool {
    exists|checked: Result<(), UpError>| #[trigger]
        call_ensures(
            S::validate_compose_published_port_diagnostics,
            (services, &facts.published_port_policy_input),
            checked,
        ) && match checked {
            Err(error) => {
                &&& outcome == Err::<ComposeStartupContext, UpError>(error)
                &&& after == before
            },
            Ok(()) => {
                &&& outcome is Ok
                &&& holds_facts(
                    outcome->Ok_0,
                    facts,
                    before.config.compose.published_ports.automatic_relocation,
                )
                &&& after == (UpPlan { base_image: facts.compose_primary_image, ..before })
            },
        }
}

/// What is known of a Compose project before its containers are looked up. A
/// start is refused where the check of its published ports refuses it;
/// otherwise the plan's base image becomes that of the primary service. Ports
/// may be moved where the configuration lets the tool move them by itself
/// (`automatic_relocation`); ports that are moved by configuration
/// (`mappings`) do not open the way on their own.
pub fn prepare_compose_startup_context<S: PlanServices>(
    services: &S,
    plan: &mut UpPlan,
    facts: ComposeProjectFacts,
) -> (res: Result<ComposeStartupContext, UpError>)
    ensures
        prepares_context(services, *old(plan), facts, *final(plan), res),
{
    let ghost known = facts;
    let checked = services.validate_compose_published_port_diagnostics(
        &facts.published_port_policy_input,
    );
    assert(call_ensures(
        S::validate_compose_published_port_diagnostics,
        (services, &known.published_port_policy_input),
        checked,
    ));
    if let Err(error) = checked {
        return Err(error);
    }
    plan.base_image = facts.compose_primary_image.clone();
    let published_port_relocation_enabled =
        plan.config.compose.published_ports.automatic_relocation;
    Ok(
        ComposeStartupContext {
            user_services: facts.user_services,
            canonical_model: facts.canonical_model,
            compose_primary_image: facts.compose_primary_image,
            primary_service_has_build: facts.primary_service_has_build,
            compose_primary_service: facts.compose_primary_service,
            published_port_policy_input: facts.published_port_policy_input,
            mappings: facts.mappings,
            existing_compose_project_containers: Vec::new(),
            existing_compose_containers: Vec::new(),
            existing_project_published_ports: Vec::new(),
            external_host_reservations: Vec::new(),
            published_port_relocation_enabled,
            name_rewrite_plan: facts.name_rewrite_plan,
            subnet_plan: facts.subnet_plan,
            endpoint_plan: facts.endpoint_plan,
        },
    )
}

/// Whether the host ports that a project holds are listed: they may be moved,
/// and the project has containers.
pub fn lists_project_published_ports(
    context: &ComposeStartupContext,
    project_containers: &Vec<UpContainerSummary>,
) -> (res: bool)
    ensures
        res == (context.published_port_relocation_enabled && project_containers@.len() > 0),
{
    context.published_port_relocation_enabled && project_containers.len() > 0
}

/// Whether the host ports that others hold are listed: published ports may be
/// moved.
pub fn lists_external_published_ports(context: &ComposeStartupContext) -> (res: bool)
    ensures
        res == context.published_port_relocation_enabled,
{
    context.published_port_relocation_enabled
}

/// The containers of a Compose project that are there, and the host ports that
/// they and others hold.
#[derive(Debug)]
pub struct ExistingComposeContainers {
    /// The containers of the project.
    pub project_containers: Vec<UpContainerSummary>,
    /// The containers of the primary service.
    pub containers: Vec<UpContainerSummary>,
    /// The host ports that the project holds, if they were listed.
    pub published_ports: Vec<ComposePublishedPortReservation>,
    /// The host ports that others hold, if they were listed.
    pub external_host_reservations: Vec<HostPortReservation>,
}

/// Adds the containers that are there to what is known of a Compose project.
pub fn add_existing_compose_containers(
    context: &mut ComposeStartupContext,
    existing: ExistingComposeContainers,
)
    ensures
        *final(context) == (ComposeStartupContext {
            existing_compose_project_containers: existing.project_containers,
            existing_compose_containers: existing.containers,
            existing_project_published_ports: final(context).existing_project_published_ports,
            external_host_reservations: final(context).external_host_reservations,
            ..*old(context)
        }),
        final(context).existing_project_published_ports@ == if old(
            context,
        ).published_port_relocation_enabled && existing.project_containers@.len() > 0 {
            existing.published_ports@
        } else {
            Seq::empty()
        },
        final(context).external_host_reservations@ == if old(
            context,
        ).published_port_relocation_enabled {
            existing.external_host_reservations@
        } else {
            Seq::empty()
        },
{
    context.existing_project_published_ports =
    if lists_project_published_ports(context, &existing.project_containers) {
        existing.published_ports
    } else {
        Vec::new()
    };
    context.external_host_reservations =
    if lists_external_published_ports(context) {
        existing.external_host_reservations
    } else {
        Vec::new()
    };
    context.existing_compose_project_containers = existing.project_containers;
    context.existing_compose_containers = existing.containers;
}

/// Puts a plan on the image of the primary service.
pub fn use_compose_base_image(plan: &mut UpPlan, context: &ComposeStartupContext)
    ensures
        *final(plan) == (UpPlan { base_image: context.compose_primary_image, ..*old(plan) }),
{
    plan.base_image = context.compose_primary_image.clone();
}

/// Something that is done with the images of a Compose project.
#[derive(Debug, Clone, Copy, PartialEq, Eq, Structural)]
pub enum ComposeImageAction {
    /// Images that are not built are pulled, with those of services that are
    /// depended on.
    Pull,
    /// Images are built, with those of services that are depended on.
    Build {
        /// Whether without their cache.
        no_cache: bool,
        /// Whether what they are built on is pulled.
        pull: bool,
    },
}

/// What is done with the images of a Compose project.
pub open spec fn user_image_actions(
    options: UpOptions,
    context: ComposeStartupContext,
) -> Seq<ComposeImageAction> {
    let builds = options.reuse.rebuild || options.build.no_cache || options.build.pull || (
    context.primary_service_has_build && context.existing_compose_containers@.len() == 0);
    (if options.build.pull {
        seq![ComposeImageAction::Pull]
    } else {
        Seq::empty()
    }) + (if builds {
        seq![
            ComposeImageAction::Build {
                no_cache: options.build.no_cache,
                pull: options.build.pull,
            },
        ]
    } else {
        Seq::empty()
    })
}

/// What is done with the images of a Compose project before the plan is
/// completed: they are pulled where that is asked for, and built where
/// anything is made anew or the primary service was never built.
pub fn prepare_compose_user_images(options: &UpOptions, context: &ComposeStartupContext) -> (res: Vec<
    ComposeImageAction,
>)
    ensures
        res@ == user_image_actions(*options, *context),
{
    let mut actions: Vec<ComposeImageAction> = Vec::new();
    if options.build.pull {
        actions.push(ComposeImageAction::Pull);
    }
    if options.reuse.rebuild || options.build.no_cache || options.build.pull || (
    context.primary_service_has_build && context.existing_compose_containers.len() == 0) {
        actions.push(
            ComposeImageAction::Build {
                no_cache: options.build.no_cache,
                pull: options.build.pull,
            },
        );
    }
    assert(actions@ =~= user_image_actions(*options, *context));
    actions
}

/// How the plan of a Compose project is completed.
#[derive(Debug)]
pub struct ComposeFinalizeSettings {
    /// The image of an existing container.
    pub existing_image: Option<String>,
    /// The hash of the configuration that it was made for.
    pub existing_config_hash: Option<String>,
    /// Whether the base image is pulled first, where it is missing.
    pub ensure_base_image: bool,
    /// How images may be built.
    pub build: LookupBuild,
    /// Whether host ports that the project holds are kept.
    pub preserve_existing_bindings: bool,
}

/// The image and hash of the first container.
pub open spec fn first_container(containers: Seq<UpContainerSummary>) -> (
    Option<String>,
    Option<String>,
) {
    if containers.len() == 0 {
        (None, None)
    } else {
        (containers[0].image_id, containers[0].config_hash)
    }
}

/// How the plan of a Compose project is completed: against the image of an
/// existing container, unless everything is made anew.
pub open spec fn finalize_settings(
    options: UpOptions,
    context: ComposeStartupContext,
) -> ComposeFinalizeSettings {
    let (image, hash) = first_container(context.existing_compose_containers@);
    let existing_image = if options.reuse.rebuild {
        None
    } else {
        image
    };
    ComposeFinalizeSettings {
        existing_image,
        existing_config_hash: hash,
        ensure_base_image: existing_image is None && !context.primary_service_has_build,
        build: LookupBuild {
            pull: options.build.pull && !context.primary_service_has_build,
            no_cache: options.build.no_cache,
        },
        preserve_existing_bindings: !options.reuse.rebuild,
    }
}

/// How the plan of a Compose project is completed.
pub fn finalize_compose_start_plan(options: &UpOptions, context: &ComposeStartupContext) -> (res:
    ComposeFinalizeSettings)
    ensures
        res == finalize_settings(*options, *context),
{
    let containers = &context.existing_compose_containers;
    let (image, existing_config_hash) = if containers.len() == 0 {
        (None, None)
    } else {
        (
            copy_optional_text(&containers[0].image_id),
            copy_optional_text(&containers[0].config_hash),
        )
    };
    let existing_image = if options.reuse.rebuild {
        None
    } else {
        image
    };
    let ensure_base_image = existing_image.is_none() && !context.primary_service_has_build;
    ComposeFinalizeSettings {
        existing_image,
        existing_config_hash,
        ensure_base_image,
        build: LookupBuild {
            pull: options.build.pull && !context.primary_service_has_build,
            no_cache: options.build.no_cache,
        },
        preserve_existing_bindings: !options.reuse.rebuild,
    }
}

/// A plan without layers of its own uses the image of the primary service.
pub open spec fn with_primary_image(plan: UpPlan, primary_image: String) -> UpPlan {
    if has_final_layer(plan) {
        plan
    } else {
        UpPlan { image: primary_image, base_image: primary_image, ..plan }
    }
}

/// Makes a plan without layers of its own use the image of the primary
/// service.
pub fn use_compose_primary_image(plan: &mut UpPlan, compose_primary_image: &String)
    ensures
        *final(plan) == with_primary_image(*old(plan), *compose_primary_image),
{
    if !plan_requires_final_image_layer(plan) {
        plan.image = compose_primary_image.clone();
        plan.base_image = compose_primary_image.clone();
    }
}

/// Makes a completed plan use the image of the primary service where it has
/// no layers of its own, and tells how its image is prepared, where it was not
/// made on the way. It is not pulled again.
pub fn prepare_finalized_compose_image(
    options: &UpOptions,
    context: &ComposeStartupContext,
    plan: &mut UpPlan,
    image_prepared: bool,
) -> (res: Option<ImagePreparation>)
    ensures
        *final(plan) == with_primary_image(*old(plan), context.compose_primary_image),
        res == if image_prepared {
            None
        } else {
            Some(
                ImagePreparation {
                    pull: false,
                    no_cache: options.build.no_cache,
                    image_prepared: false,
                },
            )
        },
{
    use_compose_primary_image(plan, &context.compose_primary_image);
    if image_prepared {
        None
    } else {
        Some(
            ImagePreparation {
                pull: false,
                no_cache: options.build.no_cache,
                image_prepared: false,
            },
        )
    }
}

/// Something that is done to start a Compose project.
#[derive(Debug, PartialEq, Eq)]
pub enum ComposeStartStep {
    /// A network that stands in the way is removed.
    RemoveNetwork {
        /// The network.
        network: String,
    },
    /// The file that adapts the project is written.
    WriteOverride,
    /// Dotfiles that stand in are written.
    MaterializeDotfiles,
    /// The services are started.
    Up {
        /// Whether all containers are made anew.
        force_recreate: bool,
        /// Whether containers of services that are gone are removed.
        remove_orphans: bool,
    },
    /// The container of the primary service is looked up.
    ResolveContainer,
    /// An existing container is used.
    UseContainer {
        /// Its id.
        id: String,
        /// Its name.
        name: String,
    },
    /// The container is watched while it starts.
    VerifyRunning,
    /// What is remembered of the container is brought up to date.
    RememberContainer {
        /// How the container came to run.
        path: LifecycleRunPath,
    },
}

/// The removal of networks, in order.
pub open spec fn network_removals(networks: Seq<String>) -> Seq<ComposeStartStep> {
    networks.map_values(|network: String| ComposeStartStep::RemoveNetwork { network })
}

/// What is done once networks are out of the way and the file is written.
pub open spec fn main_steps(
    decision: DecisionView,
    should_reuse: bool,
    force_recreate: bool,
    remove_orphans: bool,
) -> Seq<ComposeStartStep> {
    if should_reuse && decision is ReuseRunning {
        seq![
            ComposeStartStep::UseContainer {
                id: decision->ReuseRunning_0,
                name: decision->ReuseRunning_1,
            },
            ComposeStartStep::RememberContainer { path: LifecycleRunPath::Running },
        ]
    } else if should_reuse && decision is StartStopped {
        seq![
            ComposeStartStep::MaterializeDotfiles,
            ComposeStartStep::Up { force_recreate: false, remove_orphans: false },
            ComposeStartStep::UseContainer {
                id: decision->StartStopped_0,
                name: decision->StartStopped_1,
            },
            ComposeStartStep::VerifyRunning,
            ComposeStartStep::RememberContainer { path: LifecycleRunPath::Started },
        ]
    } else {
        seq![
            ComposeStartStep::MaterializeDotfiles,
            ComposeStartStep::Up { force_recreate, remove_orphans },
            ComposeStartStep::ResolveContainer,
            ComposeStartStep::VerifyRunning,
            ComposeStartStep::RememberContainer { path: LifecycleRunPath::New },
        ]
    }
}

/// What is done to start a Compose project, once it was decided how.
pub open spec fn project_start_steps(
    subnet_plan: ComposeIsolationSubnetPlan,
    options: ComposeStartRunOptions,
) -> Seq<ComposeStartStep> {
    network_removals(subnet_plan.networks_to_remove@) + (if options.decision@ is ReuseRunning
        && options.should_reuse {
        Seq::empty()
    } else {
        seq![ComposeStartStep::WriteOverride]
    }) + main_steps(
        options.decision@,
        options.should_reuse,
        options.force_recreate,
        options.remove_orphans,
    )
}

/// The removal of networks that stand in the way.
pub fn remove_stale_compose_isolation_networks(subnet_plan: &ComposeIsolationSubnetPlan) -> (res: Vec<
    ComposeStartStep,
>)
    ensures
        res@ == network_removals(subnet_plan.networks_to_remove@),
{
    let networks = &subnet_plan.networks_to_remove;
    let mut steps: Vec<ComposeStartStep> = Vec::new();
    let mut i: usize = 0;
    while i < networks.len()
        invariant
            i <= networks@.len(),
            steps@.len() == i,
            forall|j: int|
                0 <= j < i ==> #[trigger] steps@[j] == (ComposeStartStep::RemoveNetwork {
                    network: networks@[j],
                }),
        decreases networks@.len() - i,
    {
        steps.push(ComposeStartStep::RemoveNetwork { network: networks[i].clone() });
        i = i + 1;
    }
    assert(steps@ =~= network_removals(subnet_plan.networks_to_remove@));
    steps
}

/// The context of an error about a network that could not be removed.
pub fn network_removal_context(network: &str) -> (res: String)
    ensures
        res@ == "Failed to recreate Docker network `"@ + network@
            + "` for Compose clone isolation. Run decune down, then decune rebuild."@,
{
    let mut context = "Failed to recreate Docker network `".to_owned();
    context.append(network);
    context.append("` for Compose clone isolation. Run decune down, then decune rebuild.");
    context
}

/// What is done with a container that is used again; nothing where none is.
pub fn try_start_reusable_compose_container(
    decision: &ExistingContainerDecision,
    should_reuse: bool,
) -> (res: Vec<ComposeStartStep>)
    ensures
        res@ == if should_reuse && decision@.reuses() {
            main_steps(decision@, should_reuse, false, false)
        } else {
            Seq::empty()
        },
{
    let mut steps: Vec<ComposeStartStep> = Vec::new();
    if should_reuse {
        match decision {
            ExistingContainerDecision::ReuseRunning { id, name } => {
                steps.push(ComposeStartStep::UseContainer { id: id.clone(), name: name.clone() });
                steps.push(ComposeStartStep::RememberContainer { path: LifecycleRunPath::Running });
            },
            ExistingContainerDecision::StartStopped { id, name } => {
                steps.push(ComposeStartStep::MaterializeDotfiles);
                steps.push(ComposeStartStep::Up { force_recreate: false, remove_orphans: false });
                steps.push(ComposeStartStep::UseContainer { id: id.clone(), name: name.clone() });
                steps.push(ComposeStartStep::VerifyRunning);
                steps.push(ComposeStartStep::RememberContainer { path: LifecycleRunPath::Started });
            },
            _ => {},
        }
    }
    assert(steps@ =~= if should_reuse && decision@.reuses() {
        main_steps(decision@, should_reuse, false, false)
    } else {
        Seq::empty()
    });
    steps
}

/// What is done to have new containers.
pub fn start_new_compose_container(force_recreate: bool, remove_orphans: bool) -> (res: Vec<
    ComposeStartStep,
>)
    ensures
        res@ == seq![
            ComposeStartStep::MaterializeDotfiles,
            ComposeStartStep::Up { force_recreate, remove_orphans },
            ComposeStartStep::ResolveContainer,
            ComposeStartStep::VerifyRunning,
            ComposeStartStep::RememberContainer { path: LifecycleRunPath::New },
        ],
{
    let mut steps: Vec<ComposeStartStep> = Vec::new();
    steps.push(ComposeStartStep::MaterializeDotfiles);
    steps.push(ComposeStartStep::Up { force_recreate, remove_orphans });
    steps.push(ComposeStartStep::ResolveContainer);
    steps.push(ComposeStartStep::VerifyRunning);
    steps.push(ComposeStartStep::RememberContainer { path: LifecycleRunPath::New });
    assert(steps@ =~= seq![
        ComposeStartStep::MaterializeDotfiles,
        ComposeStartStep::Up { force_recreate, remove_orphans },
        ComposeStartStep::ResolveContainer,
        ComposeStartStep::VerifyRunning,
        ComposeStartStep::RememberContainer { path: LifecycleRunPath::New },
    ]);
    steps
}

/// What is done to start a Compose project, once it was decided how: networks
/// that stand in the way are removed, the file that adapts the project is
/// written, and the container is used again, started again, or made.
pub fn start_finalized_compose_project(
    subnet_plan: &ComposeIsolationSubnetPlan,
    options: &ComposeStartRunOptions,
) -> (res: Vec<ComposeStartStep>)
    ensures
        res@ == project_start_steps(*subnet_plan, *options),
{
    let mut steps = remove_stale_compose_isolation_networks(subnet_plan);
    if compose_start_requires_generated_override(options) {
        steps.push(ComposeStartStep::WriteOverride);
    }
    let mut reusable = try_start_reusable_compose_container(
        &options.decision,
        options.should_reuse,
    );
    if reusable.len() > 0 {
        steps.append(&mut reusable);
    } else {
        let mut fresh = start_new_compose_container(
            options.force_recreate,
            options.remove_orphans,
        );
        steps.append(&mut fresh);
    }
    assert(steps@ =~= project_start_steps(*subnet_plan, *options));
    steps
}

/// The container that a step uses though it was there before.
pub open spec fn compose_reused_by(step: ComposeStartStep) -> Option<UpOutcome> {
    match step {
        ComposeStartStep::UseContainer { id, name } => Some(
            UpOutcome { container_id: id, container_name: name, reused: true },
        ),
        _ => None,
    }
}

/// The container that a step uses though it was there before, if it does.
pub fn compose_container_reused_by(step: &ComposeStartStep) -> (res: Option<UpOutcome>)
    ensures
        res == compose_reused_by(*step),
{
    match step {
        ComposeStartStep::UseContainer { id, name } => Some(
            reused_outcome(id.clone(), name.clone()),
        ),
        _ => None,
    }
}

/// The container that steps end with; `made` is the one that is looked up
/// once Compose has made it.
pub open spec fn compose_outcome_of(steps: Seq<ComposeStartStep>, made: UpOutcome) -> Option<
    UpOutcome,
>
    decreases steps.len(),
{
    if steps.len() == 0 {
        None
    } else if steps.last() is ResolveContainer {
        Some(made)
    } else if compose_reused_by(steps.last()) is Some {
        compose_reused_by(steps.last())
    } else {
        compose_outcome_of(steps.drop_last(), made)
    }
}

/// A start of a Compose project ends with the container that is used again,
/// and else with the one that Compose makes.
pub proof fn projects_end_with_the_decided_container(
    subnet_plan: ComposeIsolationSubnetPlan,
    options: ComposeStartRunOptions,
    made: UpOutcome,
)
    ensures
        compose_outcome_of(project_start_steps(subnet_plan, options), made) == Some(
            match options.decision@ {
                DecisionView::ReuseRunning(id, name) if options.should_reuse => UpOutcome {
                    container_id: id,
                    container_name: name,
                    reused: true,
                },
                DecisionView::StartStopped(id, name) if options.should_reuse => UpOutcome {
                    container_id: id,
                    container_name: name,
                    reused: true,
                },
                _ => made,
            },
        ),
{
    let steps = project_start_steps(subnet_plan, options);
    let inner = steps.drop_last();
    reveal_with_fuel(compose_outcome_of, 4);
    let main = main_steps(
        options.decision@,
        options.should_reuse,
        options.force_recreate,
        options.remove_orphans,
    );
    assert(steps.last() == main.last());
    assert(inner.last() == main.drop_last().last());
    if main.len() > 2 {
        assert(inner.drop_last().last() == main.drop_last().drop_last().last());
    }
}

/// Before services are started, the file that adapts the project is written.
pub proof fn services_start_with_the_file_written(
    subnet_plan: ComposeIsolationSubnetPlan,
    options: ComposeStartRunOptions,
    position: int,
)
    requires
        0 <= position < project_start_steps(subnet_plan, options).len(),
        project_start_steps(subnet_plan, options)[position] is Up,
    ensures
        exists|earlier: int|
            0 <= earlier < position && #[trigger] project_start_steps(
                subnet_plan,
                options,
            )[earlier] == ComposeStartStep::WriteOverride,
{
    let removals = network_removals(subnet_plan.networks_to_remove@);
    let steps = project_start_steps(subnet_plan, options);
    if position < removals.len() {
        assert(steps[position] == removals[position]);
    } else {
        assert(steps[removals.len() as int] == ComposeStartStep::WriteOverride);
    }
}

} // verus!
