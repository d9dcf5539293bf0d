//! Decisions about the start of a Compose project.

use crate::compose::isolation::{
    ComposeIsolationEndpointPlan, ComposeIsolationNameRewritePlan, ComposeIsolationSubnetPlan,
};
use crate::compose::ports::{
    compose_port_protocol_name, compose_published_port_endpoint_display,
    compose_published_port_reservation_host_ip, endpoint_words, listening_ip, protocol_word,
    ComposePortProtocol, ComposePublishedPortEndpoint, ComposePublishedPortFinalization,
    ComposePublishedPortPlan, ComposePublishedPortPlanEntry, ComposePublishedPortPlanningInput,
    ComposePublishedPortReservation,
};
use crate::config::{
    ComposePublishedPortMapping, LayerDevcontainerCompose, ResolvedDevcontainerSource,
};
use crate::docker::HostPortReservation;
use crate::error::UpError;
use crate::services::PlanServices;
use crate::start::existing::{
    copy_containers, decide_existing_container, decides, decision_reuses, summaries,
    CredentialRuntimeMountPolicy, DecisionView,
};
use crate::start::reuse::{
    is_reused, should_reuse_existing_container, ExistingContainerReusePolicy,
};
use crate::startup_command::ComposeConfigService;
use crate::text::{decimal, decimal_text, same_text, views};
use crate::types::{
    ComposeProjectPlan, ExistingContainerDecision, ForwardingResolution, UpContainerSummary,
    UpOptions, UpOutcome, UpPlan, UpPlanResolution,
};
use vstd::prelude::*;
use vstd::string::*;

verus! {

/// Whether a running container may be used again before any image is
/// prepared: nothing is to be made anew, no network is in the way, and the
/// first container runs.
pub open spec fn fast_path_is_open(
    options: UpOptions,
    containers: Seq<UpContainerSummary>,
    subnet_plan: ComposeIsolationSubnetPlan,
) -> bool {
    &&& !options.build.pull
    &&& !options.reuse.rebuild
    &&& !options.build.no_cache
    &&& !options.build.update_features
    &&& subnet_plan.networks_to_remove@.len() == 0
    &&& containers.len() > 0
    &&& containers[0].running
}

/// Whether a running container may be used again before any image is
/// prepared.
pub fn compose_running_reuse_fast_path_enabled(
    options: &UpOptions,
    existing_compose_containers: &Vec<UpContainerSummary>,
    subnet_plan: &ComposeIsolationSubnetPlan,
) -> (res: bool)
    ensures
        res == fast_path_is_open(*options, existing_compose_containers@, *subnet_plan),
{
    !(options.build.pull || options.reuse.rebuild || options.build.no_cache
        || options.build.update_features) && subnet_plan.networks_to_remove.len() == 0
        && existing_compose_containers.len() > 0 && existing_compose_containers[0].running
}

/// How a plan is resolved on the fast path.
pub fn compose_fast_path_resolution(
    forwarding_resolution: ForwardingResolution,
    options: &UpOptions,
) -> (res: UpPlanResolution)
    ensures
        res == (UpPlanResolution {
            forwarding: forwarding_resolution,
            update_features: options.build.update_features,
            skip_global_config: options.config.skip_global_config,
        }),
{
    UpPlanResolution::new(
        forwarding_resolution,
        options.build.update_features,
        options.config.skip_global_config,
    )
}

/// What is known of a Compose project before it is started.
#[derive(Debug)]
pub struct ComposeStartupContext {
    /// The services that are started; all, where none is listed.
    pub user_services: Vec<String>,
    /// The Compose model, as JSON text.
    pub canonical_model: String,
    /// The image of the primary service.
    pub compose_primary_image: String,
    /// Whether that image is built.
    pub primary_service_has_build: bool,
    /// The primary service, as the Compose files give it.
    pub compose_primary_service: Option<ComposeConfigService>,
    /// The published ports.
    pub published_port_policy_input: ComposePublishedPortPlanningInput,
    /// Ports that are moved by configuration.
    pub mappings: Vec<ComposePublishedPortMapping>,
    /// The containers of the project.
    pub existing_compose_project_containers: Vec<UpContainerSummary>,
    /// The containers of the primary service.
    pub existing_compose_containers: Vec<UpContainerSummary>,
    /// The host ports that the project holds.
    pub existing_project_published_ports: Vec<ComposePublishedPortReservation>,
    /// The host ports that others hold.
    pub external_host_reservations: Vec<HostPortReservation>,
    /// Whether published ports may be moved: the configuration lets the tool
    /// move them by itself. Ports that are moved by configuration count only
    /// then.
    pub published_port_relocation_enabled: bool,
    /// What is renamed.
    pub name_rewrite_plan: ComposeIsolationNameRewritePlan,
    /// Which networks are given addresses.
    pub subnet_plan: ComposeIsolationSubnetPlan,
    /// Which variables are rewritten.
    pub endpoint_plan: ComposeIsolationEndpointPlan,
}

impl ComposeStartupContext {
    /// What published ports are planned from, where they may be moved. The
    /// host ports that the project holds count only where they are kept.
    pub fn compose_published_ports(&self, preserve_existing_bindings: bool) -> (res: Option<
        ComposePublishedPortFinalization<'_>,
    >)
        ensures
            self.published_port_relocation_enabled ==> res == Some(
                ComposePublishedPortFinalization {
                    input: &self.published_port_policy_input,
                    mappings: &self.mappings,
                    existing_project_published_ports: if preserve_existing_bindings {
                        Some(&self.existing_project_published_ports)
                    } else {
                        None
                    },
                    external_host_reservations: &self.external_host_reservations,
                },
            ),
            !self.published_port_relocation_enabled ==> res is None,
    {
        let existing_project_published_ports = if preserve_existing_bindings {
            Some(&self.existing_project_published_ports)
        } else {
            None
        };
        if self.published_port_relocation_enabled {
            Some(
                ComposePublishedPortFinalization {
                    input: &self.published_port_policy_input,
                    mappings: &self.mappings,
                    existing_project_published_ports,
                    external_host_reservations: &self.external_host_reservations,
                },
            )
        } else {
            None
        }
    }
}

/// A published port that a running or stopped container holds elsewhere than
/// planned.
#[derive(Debug)]
pub struct ComposePublishedPortRecreateChange {
    /// The service.
    pub service: String,
    /// The port in the container.
    pub target_port: u16,
    /// The protocol.
    pub protocol: ComposePortProtocol,
    /// Where it is.
    pub existing: ComposePublishedPortEndpoint,
    /// Where it is to be.
    pub planned: ComposePublishedPortEndpoint,
}

/// Whether asking if two endpoints listen on overlapping addresses gave an
/// answer.
pub open spec fn tells_overlap<S: PlanServices>(
    services: &S,
    existing: ComposePublishedPortEndpoint,
    planned: ComposePublishedPortEndpoint,
    answer: bool,
) -> bool {
    exists|existing_ip: String, planned_ip: String|
        {
            &&& existing_ip@ == listening_ip(existing@)
            &&& planned_ip@ == listening_ip(planned@)
            &&& #[trigger] call_ensures(
                S::host_addresses_overlap,
                (services, &existing_ip, &planned_ip),
                answer,
            )
        }
}

/// Whether two endpoints listen on overlapping addresses, whatever their
/// ports.
pub fn compose_published_port_host_ips_conflict<S: PlanServices>(
    services: &S,
    existing: &ComposePublishedPortEndpoint,
    planned: &ComposePublishedPortEndpoint,
) -> (res: bool)
    ensures
        tells_overlap(services, *existing, *planned, res),
{
    let existing_ip = compose_published_port_reservation_host_ip(existing).to_owned();
    let planned_ip = compose_published_port_reservation_host_ip(planned).to_owned();
    services.host_addresses_overlap(&existing_ip, &planned_ip)
}

/// Whether asking if a container holds a planned port gave an answer.
pub open spec fn tells_match<S: PlanServices>(
    services: &S,
    reservation: ComposePublishedPortReservation,
    entry: ComposePublishedPortPlanEntry,
    answer: bool,
) -> bool {
    if reservation.service@ == entry.service@ && reservation.target_port == entry.target_port
        && reservation.protocol@ == entry.protocol@ {
        tells_overlap(services, reservation.endpoint, entry.planned, answer)
    } else {
        !answer
    }
}

/// Whether a container holds a planned port, on whatever host port.
pub fn compose_published_port_reservation_matches_entry<S: PlanServices>(
    services: &S,
    reservation: &ComposePublishedPortReservation,
    entry: &ComposePublishedPortPlanEntry,
) -> (res: bool)
    ensures
        tells_match(services, *reservation, *entry, res),
{
    same_text(reservation.service.as_str(), entry.service.as_str()) && reservation.target_port
        == entry.target_port && reservation.protocol.same(&entry.protocol)
        && compose_published_port_host_ips_conflict(
        services,
        &reservation.endpoint,
        &entry.planned,
    )
}

/// The first reservation among those that were found.
pub open spec fn first_found(
    reservations: Seq<ComposePublishedPortReservation>,
    found: Seq<bool>,
) -> Option<ComposePublishedPortReservation>
    decreases reservations.len(),
{
    if reservations.len() == 0 || found.len() == 0 {
        None
    } else if found[0] {
        Some(reservations[0])
    } else {
        first_found(reservations.drop_first(), found.drop_first())
    }
}

/// Whether some reservation that was found has the planned host port.
pub open spec fn keeps_port(
    reservations: Seq<ComposePublishedPortReservation>,
    found: Seq<bool>,
    host_port: u16,
) -> bool {
    exists|i: int|
        0 <= i < reservations.len() && i < found.len() && #[trigger] found[i]
            && reservations[i].endpoint.host_port == host_port
}

/// The change that a planned port makes to what was found.
pub open spec fn change_to(
    reservations: Seq<ComposePublishedPortReservation>,
    found: Seq<bool>,
    entry: ComposePublishedPortPlanEntry,
) -> Option<ComposePublishedPortRecreateChange> {
    match first_found(reservations, found) {
        Some(existing) => if keeps_port(reservations, found, entry.planned.host_port) {
            None
        } else {
            Some(
                ComposePublishedPortRecreateChange {
                    service: entry.service,
                    target_port: entry.target_port,
                    protocol: entry.protocol,
                    existing: existing.endpoint,
                    planned: entry.planned,
                },
            )
        },
        None => None,
    }
}

/// Whether answers tell which reservations hold a planned port.
pub open spec fn tells_matches<S: PlanServices>(
    services: &S,
    reservations: Seq<ComposePublishedPortReservation>,
    entry: ComposePublishedPortPlanEntry,
    found: Seq<bool>,
) -> bool {
    &&& found.len() == reservations.len()
    &&& forall|i: int|
        0 <= i < found.len() ==> tells_match(
            services,
            reservations[i],
            entry,
            #[trigger] found[i],
        )
}

/// Whether a change is what a planned port makes to what containers hold.
pub open spec fn makes_change<S: PlanServices>(
    services: &S,
    reservations: Seq<ComposePublishedPortReservation>,
    entry: ComposePublishedPortPlanEntry,
    change: Option<ComposePublishedPortRecreateChange>,
) -> bool {
    exists|found: Seq<bool>| #[trigger]
        tells_matches(services, reservations, entry, found) && change == change_to(
            reservations,
            found,
            entry,
        )
}

/// The change that a planned port makes to what containers hold: one where
/// some hold it, but none on the planned host port.
pub fn compose_published_port_recreate_change<S: PlanServices>(
    services: &S,
    existing_project_published_ports: &Vec<ComposePublishedPortReservation>,
    entry: &ComposePublishedPortPlanEntry,
) -> (res: Option<ComposePublishedPortRecreateChange>)
    ensures
        makes_change(services, existing_project_published_ports@, *entry, res),
{
    let all = existing_project_published_ports;
    let ghost mut found: Seq<bool> = Seq::empty();
    let mut first: Option<usize> = None;
    let mut keeps = false;
    let mut i: usize = 0;
    while i < all.len()
        invariant
            i <= all@.len(),
            *all == *existing_project_published_ports,
            found.len() == i,
            forall|j: int|
                0 <= j < found.len() ==> tells_match(services, all@[j], *entry, #[trigger] found[j]),
            match first {
                Some(k) => k < i && found[k as int] && forall|j: int|
                    0 <= j < k ==> !#[trigger] found[j],
                None => forall|j: int| 0 <= j < i ==> !#[trigger] found[j],
            },
            keeps == exists|j: int|
                0 <= j < i && #[trigger] found[j] && all@[j].endpoint.host_port
                    == entry.planned.host_port,
        decreases all@.len() - i,
    {
        let matches = compose_published_port_reservation_matches_entry(services, &all[i], entry);
        let ghost before = found;
        proof {
            found = found.push(matches);
            assert forall|j: int| 0 <= j < found.len() implies tells_match(
                services,
                all@[j],
                *entry,
                #[trigger] found[j],
            ) by {
                if j < i {
                    assert(found[j] == before[j]);
                }
            }
        }
        let here = matches && all[i].endpoint.host_port == entry.planned.host_port;
        proof {
            if here {
                assert(found[i as int]);
            }
            if keeps {
                let j = choose|j: int|
                    0 <= j < i && #[trigger] before[j] && all@[j].endpoint.host_port
                        == entry.planned.host_port;
                assert(found[j]);
            }
            assert forall|j: int| 0 <= j < i implies found[j] == before[j] by {}
        }
        keeps = keeps || here;
        if matches && first.is_none() {
            first = Some(i);
        }
        i = i + 1;
    }
    assert(tells_matches(services, all@, *entry, found));
    proof {
        first_found_is_first(all@, found);
    }
    match first {
        Some(k) => if keeps {
            None
        } else {
            Some(
                ComposePublishedPortRecreateChange {
                    service: entry.service.clone(),
                    target_port: entry.target_port,
                    protocol: entry.protocol.copied(),
                    existing: all[k].endpoint.copied(),
                    planned: entry.planned.copied(),
                },
            )
        },
        None => None,
    }
}

proof fn first_found_is_first(
    reservations: Seq<ComposePublishedPortReservation>,
    found: Seq<bool>,
)
    requires
        reservations.len() == found.len(),
    ensures
        (forall|j: int| 0 <= j < found.len() ==> !#[trigger] found[j]) ==> first_found(
            reservations,
            found,
        ) is None,
        forall|k: int|
            0 <= k < found.len() && (#[trigger] found[k]) && (forall|j: int|
                0 <= j < k ==> !#[trigger] found[j]) ==> first_found(reservations, found) == Some(
                reservations[k],
            ),
    decreases found.len(),
{
    if found.len() > 0 && !found[0] {
        let rest = found.drop_first();
        first_found_is_first(reservations.drop_first(), rest);
        if forall|j: int| 0 <= j < found.len() ==> !#[trigger] found[j] {
            assert forall|j: int| 0 <= j < rest.len() implies !#[trigger] rest[j] by {
                assert(!found[j + 1]);
            }
        }
        assert forall|k: int|
            0 <= k < found.len() && (#[trigger] found[k]) && (forall|j: int|
                0 <= j < k ==> !#[trigger] found[j]) implies first_found(reservations, found)
            == Some(reservations[k]) by {
            assert(k > 0);
            assert(rest[k - 1]);
            assert forall|j: int| 0 <= j < k - 1 implies !#[trigger] rest[j] by {
                assert(!found[j + 1]);
            }
        }
    }
}

/// The changes among optional ones.
pub open spec fn actual_changes(
    changes: Seq<Option<ComposePublishedPortRecreateChange>>,
) -> Seq<ComposePublishedPortRecreateChange>
    decreases changes.len(),
{
    if changes.len() == 0 {
        Seq::empty()
    } else {
        let before = actual_changes(changes.drop_last());
        match changes.last() {
            Some(change) => before.push(change),
            None => before,
        }
    }
}

/// Whether each planned port makes its change.
pub open spec fn makes_each_change<S: PlanServices>(
    services: &S,
    reservations: Seq<ComposePublishedPortReservation>,
    entries: Seq<ComposePublishedPortPlanEntry>,
    changes: Seq<Option<ComposePublishedPortRecreateChange>>,
) -> bool {
    &&& changes.len() == entries.len()
    &&& forall|i: int|
        0 <= i < entries.len() ==> makes_change(
            services,
            reservations,
            entries[i],
            #[trigger] changes[i],
        )
}

/// Whether changes are those that a port plan makes to what containers hold,
/// in the order of the plan.
pub open spec fn makes_changes<S: PlanServices>(
    services: &S,
    reservations: Seq<ComposePublishedPortReservation>,
    plan: ComposePublishedPortPlan,
    changes: Seq<ComposePublishedPortRecreateChange>,
) -> bool {
    exists|each: Seq<Option<ComposePublishedPortRecreateChange>>| #[trigger]
        makes_each_change(services, reservations, plan.entries@, each) && changes
            == actual_changes(each)
}

/// The changes that a port plan makes to what containers hold.
pub fn compose_published_port_recreate_changes<S: PlanServices>(
    services: &S,
    existing_project_published_ports: &Vec<ComposePublishedPortReservation>,
    published_port_plan: &ComposePublishedPortPlan,
) -> (res: Vec<ComposePublishedPortRecreateChange>)
    ensures
        makes_changes(
            services,
            existing_project_published_ports@,
            *published_port_plan,
            res@,
        ),
{
    let entries = &published_port_plan.entries;
    let mut changes: Vec<ComposePublishedPortRecreateChange> = Vec::new();
    let ghost mut each: Seq<Option<ComposePublishedPortRecreateChange>> = Seq::empty();
    let mut i: usize = 0;
    while i < entries.len()
        invariant
            i <= entries@.len(),
            each.len() == i,
            forall|j: int|
                0 <= j < each.len() ==> makes_change(
                    services,
                    existing_project_published_ports@,
                    entries@[j],
                    #[trigger] each[j],
                ),
            changes@ == actual_changes(each),
        decreases entries@.len() - i,
    {
        let change = compose_published_port_recreate_change(
            services,
            existing_project_published_ports,
            &entries[i],
        );
        let ghost before = each;
        proof {
            each = each.push(change);
            assert(each.drop_last() =~= before);
            assert forall|j: int| 0 <= j < each.len() implies makes_change(
                services,
                existing_project_published_ports@,
                entries@[j],
                #[trigger] each[j],
            ) by {
                if j < i {
                    assert(each[j] == before[j]);
                }
            }
        }
        if let Some(change) = change {
            changes.push(change);
        }
        i = i + 1;
    }
    assert(makes_each_change(
        services,
        existing_project_published_ports@,
        published_port_plan.entries@,
        each,
    ));
    changes
}

/// The warning about a change.
pub open spec fn change_warning(change: ComposePublishedPortRecreateChange) -> Seq<char> {
    "Compose published port relocation will recreate the Compose project because service `"@
        + change.service@ + "` target "@ + decimal(change.target_port as nat) + "/"@
        + protocol_word(change.protocol@) + " must move from "@ + endpoint_words(change.existing@)
        + " to "@ + endpoint_words(change.planned@)
}

/// The warnings about changes, one each.
pub fn warn_on_compose_published_port_recreate(
    changes: &Vec<ComposePublishedPortRecreateChange>,
) -> (res: Vec<String>)
    ensures
        views(res@) == changes@.map_values(
            |change: ComposePublishedPortRecreateChange| change_warning(change),
        ),
{
    let mut warnings: Vec<String> = Vec::new();
    let mut i: usize = 0;
    while i < changes.len()
        invariant
            i <= changes@.len(),
            warnings@.len() == i,
            forall|j: int|
                0 <= j < i ==> (#[trigger] warnings@[j])@ == change_warning(changes@[j]),
        decreases changes@.len() - i,
    {
        let change = &changes[i];
        let mut warning =
            "Compose published port relocation will recreate the Compose project because service `".to_owned();
        warning.append(change.service.as_str());
        warning.append("` target ");
        warning.append(decimal_text(change.target_port as u128).as_str());
        warning.append("/");
        warning.append(compose_port_protocol_name(&change.protocol));
        warning.append(" must move from ");
        warning.append(compose_published_port_endpoint_display(&change.existing).as_str());
        warning.append(" to ");
        warning.append(compose_published_port_endpoint_display(&change.planned).as_str());
        warnings.push(warning);
        i = i + 1;
    }
    assert(views(warnings@) =~= changes@.map_values(
        |change: ComposePublishedPortRecreateChange| change_warning(change),
    ));
    warnings
}

/// Whether changes to published ports are reported.
#[derive(Debug, Clone, Copy, PartialEq, Eq, Structural)]
pub enum ComposePublishedPortRecreateWarning {
    /// They are.
    Emit,
    /// They are not.
    Suppress,
}

/// What a decision about containers of a Compose project is made from.
#[derive(Debug, Clone, Copy)]
pub struct ComposeExistingContainerDecisionInput<'a> {
    /// The containers of the primary service.
    pub containers: &'a Vec<UpContainerSummary>,
    /// The containers of the project.
    pub project_containers: &'a Vec<UpContainerSummary>,
    /// The hash of the configuration.
    pub expected_config_hash: &'a String,
    /// The mounts that a container must have.
    pub mount_policy: &'a CredentialRuntimeMountPolicy,
    /// Whether everything is made anew.
    pub rebuild: bool,
    /// The host ports that the project holds.
    pub existing_project_published_ports: &'a Vec<ComposePublishedPortReservation>,
    /// The planned host ports.
    pub published_port_plan: &'a ComposePublishedPortPlan,
    /// Whether changes to published ports are reported.
    pub warning: ComposePublishedPortRecreateWarning,
}

/// What becomes of containers of a Compose project, and what the user is
/// told.
#[derive(Debug)]
pub struct ComposeContainerDecision {
    /// What becomes of them.
    pub decision: ExistingContainerDecision,
    /// What the user is told.
    pub warnings: Vec<String>,
}

/// The containers that are removed where published ports change.
pub open spec fn changed_containers(input: ComposeExistingContainerDecisionInput) -> Seq<
    UpContainerSummary,
> {
    if input.project_containers@.len() == 0 {
        input.containers@
    } else {
        input.project_containers@
    }
}

/// How a decision about containers of a Compose project ends.
pub open spec fn decides_compose<S: PlanServices>(
    services: &S,
    input: ComposeExistingContainerDecisionInput,
    outcome: Result<ComposeContainerDecision, UpError>,
) -> bool {
    match decides(
        input.containers@,
        input.expected_config_hash@,
        *input.mount_policy,
        input.rebuild,
    ) {
        Err(error) => outcome is Err && outcome->Err_0@ == error,
        Ok(decision) => {
            &&& outcome is Ok
            &&& if !decision.reuses() {
                outcome->Ok_0.decision@ == decision && outcome->Ok_0.warnings@.len() == 0
            } else {
                exists|changes: Seq<ComposePublishedPortRecreateChange>| #[trigger]
                    makes_changes(
                        services,
                        input.existing_project_published_ports@,
                        *input.published_port_plan,
                        changes,
                    ) && if changes.len() == 0 {
                        outcome->Ok_0.decision@ == decision && outcome->Ok_0.warnings@.len() == 0
                    } else {
                        outcome->Ok_0.decision@ == DecisionView::Recreate(
                            summaries(changed_containers(input)),
                        ) && views(outcome->Ok_0.warnings@) == if input.warning
                            == ComposePublishedPortRecreateWarning::Emit {
                            changes.map_values(
                                |change: ComposePublishedPortRecreateChange|
                                    change_warning(change),
                            )
                        } else {
                            Seq::empty()
                        }
                    }
            }
        },
    }
}

/// Decides what becomes of containers of a Compose project: as for a single
/// container, but a container that could be used again is made anew, with its
/// project, where a published port would move.
pub fn decide_existing_compose_container<S: PlanServices>(
    services: &S,
    input: &ComposeExistingContainerDecisionInput<'_>,
) -> (res: Result<ComposeContainerDecision, UpError>)
    ensures
        decides_compose(services, *input, res),
{
    let decision = match decide_existing_container(
        input.containers,
        input.expected_config_hash.as_str(),
        input.mount_policy,
        input.rebuild,
    ) {
        Ok(decision) => decision,
        Err(error) => {
            return Err(error);
        },
    };
    if !decision_reuses(&decision) {
        return Ok(ComposeContainerDecision { decision, warnings: Vec::new() });
    }
    let changes = compose_published_port_recreate_changes(
        services,
        input.existing_project_published_ports,
        input.published_port_plan,
    );
    if changes.len() == 0 {
        return Ok(ComposeContainerDecision { decision, warnings: Vec::new() });
    }
    let warnings = if input.warning == ComposePublishedPortRecreateWarning::Emit {
        warn_on_compose_published_port_recreate(&changes)
    } else {
        let none: Vec<String> = Vec::new();
        assert(views(none@) =~= Seq::empty());
        none
    };
    let containers = if input.project_containers.len() == 0 {
        copy_containers(input.containers)
    } else {
        copy_containers(input.project_containers)
    };
    Ok(
        ComposeContainerDecision {
            decision: ExistingContainerDecision::Recreate { containers },
            warnings,
        },
    )
}

/// The Compose project and source of a plan.
#[derive(Debug, Clone, Copy)]
pub struct ComposePlanSource<'a> {
    /// The project.
    pub project: &'a ComposeProjectPlan,
    /// The source.
    pub compose: &'a LayerDevcontainerCompose,
}

/// How finding the Compose project and source of a plan ends.
pub open spec fn finds_plan_source(
    plan: UpPlan,
    project_missing: Seq<char>,
    source_missing: Seq<char>,
    outcome: Result<ComposePlanSource, UpError>,
) -> bool {
    match plan.compose_project {
        None => outcome is Err && outcome->Err_0@ == seq![project_missing],
        Some(project) => match plan.config.devcontainer.source {
            Some(ResolvedDevcontainerSource::Compose(compose)) => outcome == Ok::<
                ComposePlanSource,
                UpError,
            >(ComposePlanSource { project: &project, compose: &compose }),
            _ => outcome is Err && outcome->Err_0@ == seq![source_missing],
        },
    }
}

/// Finds the Compose project and source of a plan.
pub fn compose_plan_source<'a>(
    plan: &'a UpPlan,
    project_missing: &str,
    source_missing: &str,
) -> (res: Result<ComposePlanSource<'a>, UpError>)
    ensures
        finds_plan_source(*plan, project_missing@, source_missing@, res),
{
    match &plan.compose_project {
        None => Err(UpError::from_text(project_missing)),
        Some(project) => match &plan.config.devcontainer.source {
            Some(ResolvedDevcontainerSource::Compose(compose)) => Ok(
                ComposePlanSource { project, compose },
            ),
            _ => Err(UpError::from_text(source_missing)),
        },
    }
}

/// What the Compose files must say for a plan.
#[derive(Debug, Clone, Copy)]
pub struct ComposeServiceValidation<'a> {
    /// The primary service, which must be there.
    pub primary_service: &'a String,
    /// The services that are started, where they are listed.
    pub run_services: &'a Option<Vec<String>>,
    /// The folder to work in.
    pub workspace_folder: &'a String,
    /// The name of the project.
    pub project_name: &'a String,
}

/// What the Compose files must say for a plan; nothing where it has no
/// Compose project.
pub open spec fn required_of_compose(plan: UpPlan) -> Option<ComposeServiceValidation<'static>> {
    match plan.compose_project {
        Some(project) => match plan.config.devcontainer.source {
            Some(ResolvedDevcontainerSource::Compose(compose)) => Some(
                ComposeServiceValidation {
                    primary_service: &compose.service,
                    run_services: &compose.run_services,
                    workspace_folder: &plan.workspace_folder,
                    project_name: &project.project_name,
                },
            ),
            _ => None,
        },
        None => None,
    }
}

/// What the Compose files must say for a plan; nothing where it has no
/// Compose project.
pub fn validate_compose_canonical_model<'a>(plan: &'a UpPlan) -> (res: Option<
    ComposeServiceValidation<'a>,
>)
    ensures
        res == required_of_compose(*plan),
{
    match &plan.compose_project {
        Some(project) => match &plan.config.devcontainer.source {
            Some(ResolvedDevcontainerSource::Compose(compose)) => Some(
                ComposeServiceValidation {
                    primary_service: &compose.service,
                    run_services: &compose.run_services,
                    workspace_folder: &plan.workspace_folder,
                    project_name: &project.project_name,
                },
            ),
            _ => None,
        },
        None => None,
    }
}

/// The container of the primary service, once Compose has made it. One
/// without a name goes by its id.
pub open spec fn compose_made(id: String, name: Option<String>) -> UpOutcome {
    UpOutcome {
        container_id: id,
        container_name: match name {
            Some(name) => name,
            None => id,
        },
        reused: false,
    }
}

/// The container of the primary service, once Compose has made it.
pub fn compose_created_outcome(id: String, name: Option<String>) -> (res: UpOutcome)
    ensures
        res == compose_made(id, name),
{
    let container_name = match name {
        Some(name) => name,
        None => id.clone(),
    };
    UpOutcome { container_id: id, container_name, reused: false }
}

/// How a Compose project is started.
#[derive(Debug)]
pub struct ComposeStartRunOptions {
    /// What becomes of existing containers.
    pub decision: ExistingContainerDecision,
    /// Whether a container is used again.
    pub should_reuse: bool,
    /// Whether all containers are made anew.
    pub force_recreate: bool,
    /// Whether containers of services that are gone are removed.
    pub remove_orphans: bool,
}

/// Whether a project has containers, but none of the primary service.
pub open spec fn is_stale(context: ComposeStartupContext) -> bool {
    context.existing_compose_project_containers@.len() > 0
        && context.existing_compose_containers@.len() == 0
}

/// Whether something other than pulled images asks for new containers.
pub open spec fn asks_for_new_containers(
    decision: DecisionView,
    options: UpOptions,
    context: ComposeStartupContext,
    service_forward_requires_recreate: bool,
) -> bool {
    ||| decision is Recreate
    ||| options.reuse.rebuild
    ||| is_stale(context)
    ||| service_forward_requires_recreate
    ||| context.subnet_plan.networks_to_remove@.len() > 0
}

/// Whether a container of a Compose project is used again.
pub open spec fn reuses_compose(
    decision: DecisionView,
    options: UpOptions,
    context: ComposeStartupContext,
    service_forward_requires_recreate: bool,
) -> bool {
    context.subnet_plan.networks_to_remove@.len() == 0 && is_reused(
        decision,
        ExistingContainerReusePolicy { pull: options.build.pull, service_forward_requires_recreate },
    )
}

/// How a Compose project is started, once it was decided what becomes of
/// existing containers.
pub fn compose_start_run_options(
    decision: ExistingContainerDecision,
    options: &UpOptions,
    context: &ComposeStartupContext,
    service_forward_requires_recreate: bool,
) -> (res: ComposeStartRunOptions)
    ensures
        res.decision == decision,
        res.should_reuse == reuses_compose(
            decision@,
            *options,
            *context,
            service_forward_requires_recreate,
        ),
        res.remove_orphans == asks_for_new_containers(
            decision@,
            *options,
            *context,
            service_forward_requires_recreate,
        ),
        res.force_recreate == (res.remove_orphans || options.build.pull),
{
    let stale_compose_project = context.existing_compose_project_containers.len() > 0
        && context.existing_compose_containers.len() == 0;
    let subnet_requires_recreate = context.subnet_plan.networks_to_remove.len() > 0;
    let should_reuse = !subnet_requires_recreate && should_reuse_existing_container(
        &decision,
        ExistingContainerReusePolicy {
            pull: options.build.pull,
            service_forward_requires_recreate,
        },
    );
    let recreate = matches!(decision, ExistingContainerDecision::Recreate { .. });
    let force_recreate = recreate || options.reuse.rebuild || options.build.pull
        || stale_compose_project || service_forward_requires_recreate || subnet_requires_recreate;
    let remove_orphans = recreate || options.reuse.rebuild || stale_compose_project
        || service_forward_requires_recreate || subnet_requires_recreate;
    ComposeStartRunOptions { decision, should_reuse, force_recreate, remove_orphans }
}

/// A container that is used again is never made anew: nothing forces new
/// containers, and none is removed.
pub proof fn reuse_excludes_recreation<S: PlanServices>(
    services: &S,
    input: ComposeExistingContainerDecisionInput,
    outcome: Result<ComposeContainerDecision, UpError>,
    options: UpOptions,
    context: ComposeStartupContext,
    service_forward_requires_recreate: bool,
)
    requires
        decides_compose(services, input, outcome),
        outcome is Ok,
        *input.containers == context.existing_compose_containers,
        input.rebuild == options.reuse.rebuild,
        reuses_compose(
            outcome->Ok_0.decision@,
            options,
            context,
            service_forward_requires_recreate,
        ),
    ensures
        !options.build.pull,
        !asks_for_new_containers(
            outcome->Ok_0.decision@,
            options,
            context,
            service_forward_requires_recreate,
        ),
{
}

/// Whether the generated file must be written: not where a running container
/// is used as it is.
pub fn compose_start_requires_generated_override(options: &ComposeStartRunOptions) -> (res: bool)
    ensures
        res == !(options.decision@ is ReuseRunning && options.should_reuse),
{
    !matches!(options.decision, ExistingContainerDecision::ReuseRunning { .. })
        || !options.should_reuse
}

/// What is told where Compose fails to publish ports.
#[derive(Debug, Clone, Copy)]
pub struct ComposePublishedPortStartupDiagnostics<'a> {
    /// The published ports.
    pub input: &'a ComposePublishedPortPlanningInput,
    /// The planned host ports.
    pub plan: &'a ComposePublishedPortPlan,
    /// Whether published ports may be moved.
    pub relocation_enabled: bool,
}

/// What is told where Compose fails to publish ports.
pub fn compose_startup_diagnostics<'a>(
    plan: &UpPlan,
    input: &'a ComposePublishedPortPlanningInput,
    published_port_plan: &'a ComposePublishedPortPlan,
) -> (res: ComposePublishedPortStartupDiagnostics<'a>)
    ensures
        res == (ComposePublishedPortStartupDiagnostics {
            input,
            plan: published_port_plan,
            relocation_enabled: plan.config.compose.published_ports.automatic_relocation,
        }),
{
    ComposePublishedPortStartupDiagnostics {
        input,
        plan: published_port_plan,
        relocation_enabled: plan.config.compose.published_ports.automatic_relocation,
    }
}

/// Whether any planned port is moved.
pub open spec fn has_relocations(plan: ComposePublishedPortPlan) -> bool {
    exists|i: int| 0 <= i < plan.entries@.len() && (#[trigger] plan.entries@[i]).relocated
}

/// Whether any planned port is moved.
pub fn compose_published_port_plan_has_relocations(plan: &ComposePublishedPortPlan) -> (res: bool)
    ensures
        res == has_relocations(*plan),
{
    let mut i: usize = 0;
    while i < plan.entries.len()
        invariant
            i <= plan.entries@.len(),
            forall|j: int| 0 <= j < i ==> !(#[trigger] plan.entries@[j]).relocated,
        decreases plan.entries@.len() - i,
    {
        if plan.entries[i].relocated {
            return true;
        }
        i = i + 1;
    }
    false
}

/// The message about a moved port.
pub open spec fn relocation_message(entry: ComposePublishedPortPlanEntry) -> Seq<char> {
    "Compose published port relocation changed service `"@ + entry.service@ + "` target "@
        + decimal(entry.target_port as nat) + "/"@ + protocol_word(entry.protocol@) + " from "@
        + endpoint_words(entry.requested@) + " to "@ + endpoint_words(entry.planned@)
}

/// The messages about moved ports.
pub open spec fn relocation_messages(
    entries: Seq<ComposePublishedPortPlanEntry>,
) -> Seq<Seq<char>>
    decreases entries.len(),
{
    if entries.len() == 0 {
        Seq::empty()
    } else {
        let before = relocation_messages(entries.drop_last());
        if entries.last().relocated {
            before.push(relocation_message(entries.last()))
        } else {
            before
        }
    }
}

/// The messages about moved ports, where they are asked for.
pub fn compose_published_port_relocation_warning_messages(
    plan: &UpPlan,
    port_plan: &ComposePublishedPortPlan,
) -> (res: Vec<String>)
    ensures
        views(res@) == if plan.config.compose.published_ports.warn_on_relocation {
            relocation_messages(port_plan.entries@)
        } else {
            Seq::empty()
        },
{
    let entries = &port_plan.entries;
    let mut messages: Vec<String> = Vec::new();
    assert(views(messages@) =~= Seq::empty());
    if !plan.config.compose.published_ports.warn_on_relocation {
        return messages;
    }
    let mut i: usize = 0;
    assert(entries@.take(0) =~= Seq::empty());
    while i < entries.len()
        invariant
            i <= entries@.len(),
            views(messages@) == relocation_messages(entries@.take(i as int)),
        decreases entries@.len() - i,
    {
        assert(entries@.take(i as int + 1).drop_last() =~= entries@.take(i as int));
        let entry = &entries[i];
        if entry.relocated {
            let ghost before = messages@;
            let mut message = "Compose published port relocation changed service `".to_owned();
            message.append(entry.service.as_str());
            message.append("` target ");
            message.append(decimal_text(entry.target_port as u128).as_str());
            message.append("/");
            message.append(compose_port_protocol_name(&entry.protocol));
            message.append(" from ");
            message.append(compose_published_port_endpoint_display(&entry.requested).as_str());
            message.append(" to ");
            message.append(compose_published_port_endpoint_display(&entry.planned).as_str());
            messages.push(message);
            assert(views(messages@) =~= views(before).push(relocation_message(*entry)));
        }
        i = i + 1;
    }
    assert(entries@.take(entries@.len() as int) =~= entries@);
    messages
}

/// What is told about moved ports. Compose must then be able to replace lists
/// of other files; `override_tag` says whether it is.
pub fn handle_compose_published_port_relocations(
    override_tag: Result<(), UpError>,
    plan: &UpPlan,
    published_port_plan: &ComposePublishedPortPlan,
) -> (res: Result<Vec<String>, UpError>)
    ensures
        if has_relocations(*published_port_plan) && override_tag is Err {
            res == Err::<Vec<String>, UpError>(override_tag->Err_0)
        } else {
            res is Ok && views(res->Ok_0@) == if has_relocations(*published_port_plan)
                && plan.config.compose.published_ports.warn_on_relocation {
                relocation_messages(published_port_plan.entries@)
            } else {
                Seq::empty()
            }
        },
{
    if compose_published_port_plan_has_relocations(published_port_plan) {
        return match override_tag {
            Ok(()) => Ok(
                compose_published_port_relocation_warning_messages(plan, published_port_plan),
            ),
            Err(error) => Err(error),
        };
    }
    let none: Vec<String> = Vec::new();
    assert(views(none@) =~= Seq::empty());
    Ok(none)
}

} // verus!
