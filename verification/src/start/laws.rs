//! What the start of a container comes to, told of its inputs and results.

use crate::compose::ports::{
    ComposePortProtocol, ComposePublishedPortEndpoint, ComposePublishedPortHostIp,
    ComposePublishedPortPlanEntry, ComposePublishedPortReservation,
};
use crate::error::UpError;
use crate::services::PlanServices;
use crate::start::compose::{
    actual_changes, change_to, decides_compose, first_found, keeps_port, makes_change,
    makes_changes, makes_each_change, tells_match, tells_matches, ComposeContainerDecision,
    ComposeExistingContainerDecisionInput, ComposePublishedPortRecreateChange,
    ComposeStartupContext,
};
use crate::start::compose_run::{user_image_actions, ComposeImageAction};
use crate::start::existing::{decides, decision_view, CredentialRuntimeMountPolicy};
use crate::types::{ExistingContainerDecision, UpContainerSummary, UpMountSummary, UpOptions};
use vstd::prelude::*;

verus! {

/// An optional text, as characters.
pub open spec fn text_of(text: Option<String>) -> Option<Seq<char>> {
    match text {
        Some(text) => Some(text@),
        None => None,
    }
}

/// A container is used again only where nothing is rebuilt, where it was made
/// for the expected configuration, and where each mount that it must have is
/// among its mounts: with the same source, the same target, the same type and
/// the same right to write. It is the first of the containers, and it is used
/// as it is exactly where it runs.
pub proof fn reused_containers_have_every_required_mount(
    containers: Seq<UpContainerSummary>,
    expected_config_hash: Seq<char>,
    policy: CredentialRuntimeMountPolicy,
    rebuild: bool,
    outcome: Result<ExistingContainerDecision, UpError>,
)
    requires
        decision_view(outcome) == decides(containers, expected_config_hash, policy, rebuild),
        outcome matches Ok(ExistingContainerDecision::ReuseRunning { .. }) || outcome matches Ok(
            ExistingContainerDecision::StartStopped { .. },
        ),
    ensures
        !rebuild,
        containers.len() > 0,
        containers[0].config_hash is Some,
        containers[0].config_hash->0@ == expected_config_hash,
        forall|k: int|
            0 <= k < policy.required_mounts@.len() ==> containers[0].mounts is Some
                && containers[0].mounts->0@.map_values(
                |mount: UpMountSummary|
                    (text_of(mount.source), mount.target@, mount.mount_type, mount.read_only),
            ).contains(
                (
                    text_of((#[trigger] policy.required_mounts@[k]).source),
                    policy.required_mounts@[k].target@,
                    policy.required_mounts@[k].mount_type,
                    policy.required_mounts@[k].read_only,
                ),
            ),
        match outcome->Ok_0 {
            ExistingContainerDecision::ReuseRunning { id, name } => containers[0].running && id
                == containers[0].id && name == containers[0].name,
            ExistingContainerDecision::StartStopped { id, name } => !containers[0].running && id
                == containers[0].id && name == containers[0].name,
            _ => false,
        },
{
    let first = containers[0];
    assert forall|k: int| 0 <= k < policy.required_mounts@.len() implies first.mounts is Some
        && first.mounts->0@.map_values(
        |mount: UpMountSummary|
            (text_of(mount.source), mount.target@, mount.mount_type, mount.read_only),
    ).contains(
        (
            text_of((#[trigger] policy.required_mounts@[k]).source),
            policy.required_mounts@[k].target@,
            policy.required_mounts@[k].mount_type,
            policy.required_mounts@[k].read_only,
        ),
    ) by {
        let required = policy.required_mounts@[k];
        assert(crate::start::existing::has_mount(first.mounts, required));
        let i = choose|i: int|
            0 <= i < first.mounts->0@.len() && crate::start::existing::same_mount(
                #[trigger] first.mounts->0@[i],
                required,
            );
        let told = first.mounts->0@.map_values(
            |mount: UpMountSummary|
                (text_of(mount.source), mount.target@, mount.mount_type, mount.read_only),
        );
        assert(told[i] == (
            text_of(required.source),
            required.target@,
            required.mount_type,
            required.read_only,
        ));
    }
}

/// A container is used again wherever it may be: where nothing is rebuilt, it
/// was made for the expected configuration, and it has each mount that it must
/// have.
pub proof fn matching_containers_are_reused(
    containers: Seq<UpContainerSummary>,
    expected_config_hash: Seq<char>,
    policy: CredentialRuntimeMountPolicy,
    outcome: Result<ExistingContainerDecision, UpError>,
)
    requires
        decision_view(outcome) == decides(containers, expected_config_hash, policy, false),
        containers.len() > 0,
        containers[0].config_hash is Some,
        containers[0].config_hash->0@ == expected_config_hash,
        forall|k: int|
            0 <= k < policy.required_mounts@.len() ==> containers[0].mounts is Some
                && containers[0].mounts->0@.map_values(
                |mount: UpMountSummary|
                    (text_of(mount.source), mount.target@, mount.mount_type, mount.read_only),
            ).contains(
                (
                    text_of((#[trigger] policy.required_mounts@[k]).source),
                    policy.required_mounts@[k].target@,
                    policy.required_mounts@[k].mount_type,
                    policy.required_mounts@[k].read_only,
                ),
            ),
    ensures
        containers[0].running ==> outcome == Ok::<ExistingContainerDecision, UpError>(
            ExistingContainerDecision::ReuseRunning {
                id: containers[0].id,
                name: containers[0].name,
            },
        ),
        !containers[0].running ==> outcome == Ok::<ExistingContainerDecision, UpError>(
            ExistingContainerDecision::StartStopped {
                id: containers[0].id,
                name: containers[0].name,
            },
        ),
{
    let known = containers[0].mounts;
    assert forall|k: int| 0 <= k < policy.required_mounts@.len() implies
        crate::start::existing::has_mount(known, #[trigger] policy.required_mounts@[k]) by {
        let required = policy.required_mounts@[k];
        let told = known->0@.map_values(
            |mount: UpMountSummary|
                (text_of(mount.source), mount.target@, mount.mount_type, mount.read_only),
        );
        let i = choose|i: int|
            0 <= i < told.len() && told[i] == (
                text_of(required.source),
                required.target@,
                required.mount_type,
                required.read_only,
            );
        assert(told[i].0 == text_of(known->0@[i].source));
        assert(crate::start::existing::same_mount(known->0@[i], required));
    }
}

/// Whether a container is one of those that are told of: all that is known of
/// it is the same.
pub open spec fn same_container(left: UpContainerSummary, right: UpContainerSummary) -> bool {
    &&& left.id == right.id
    &&& left.name == right.name
    &&& left.image_id == right.image_id
    &&& left.config_hash == right.config_hash
    &&& left.config_file == right.config_file
    &&& left.running == right.running
    &&& (left.mounts is Some) == (right.mounts is Some)
    &&& left.mounts is Some ==> left.mounts->0@ == right.mounts->0@
}

/// What is not used again: without containers one is made; where everything is
/// rebuilt, or the first container lacks a mount, all containers are replaced;
/// and a first container that was made for another configuration is refused
/// and left alone.
pub proof fn other_containers_are_replaced_or_refused(
    containers: Seq<UpContainerSummary>,
    expected_config_hash: Seq<char>,
    policy: CredentialRuntimeMountPolicy,
    rebuild: bool,
    outcome: Result<ExistingContainerDecision, UpError>,
)
    requires
        decision_view(outcome) == decides(containers, expected_config_hash, policy, rebuild),
    ensures
        containers.len() == 0 <==> outcome == Ok::<ExistingContainerDecision, UpError>(
            ExistingContainerDecision::Create,
        ),
        outcome is Err <==> containers.len() > 0 && !rebuild && !(containers[0].config_hash is Some
            && containers[0].config_hash->0@ == expected_config_hash),
        outcome is Err ==> outcome->Err_0@ == seq![
            "Existing dev container was created for a different configuration. Run decune rebuild to recreate it."@,
        ],
        containers.len() > 0 && rebuild ==> outcome matches Ok(
            ExistingContainerDecision::Recreate { .. },
        ),
        outcome matches Ok(ExistingContainerDecision::Recreate { containers: replaced })
            ==> replaced@.len() == containers.len() && forall|i: int|
            0 <= i < containers.len() ==> same_container(#[trigger] replaced@[i], containers[i]),
{
    if let Ok(ExistingContainerDecision::Recreate { containers: replaced }) = outcome {
        let told = crate::start::existing::summaries(replaced@);
        let all = crate::start::existing::summaries(containers);
        assert(told == all);
        assert(told.len() == replaced@.len());
        assert forall|i: int| 0 <= i < containers.len() implies same_container(
            #[trigger] replaced@[i],
            containers[i],
        ) by {
            assert(told[i] == replaced@[i]@);
            assert(all[i] == containers[i]@);
        }
    }
}

/// The address on which an endpoint listens, as the tool is asked about it.
pub open spec fn address_of(endpoint: ComposePublishedPortEndpoint) -> Seq<char> {
    match endpoint.host_ip {
        ComposePublishedPortHostIp::Omitted => "0.0.0.0"@,
        ComposePublishedPortHostIp::Explicit(address) => address@,
    }
}

/// Whether two protocols are the same.
pub open spec fn same_protocol(left: ComposePortProtocol, right: ComposePortProtocol) -> bool {
    match (left, right) {
        (ComposePortProtocol::Tcp, ComposePortProtocol::Tcp) => true,
        (ComposePortProtocol::Udp, ComposePortProtocol::Udp) => true,
        (ComposePortProtocol::Other(left), ComposePortProtocol::Other(right)) => left@ == right@,
        (ComposePortProtocol::Invalid(left), ComposePortProtocol::Invalid(right)) => left@
            == right@,
        _ => false,
    }
}

/// Whether the tool tells of any two addresses whether they overlap.
pub open spec fn overlap_is_told<S: PlanServices>(
    services: &S,
    overlap: spec_fn(Seq<char>, Seq<char>) -> bool,
) -> bool {
    forall|existing: String, planned: String, answer: bool| #[trigger]
        call_ensures(S::host_addresses_overlap, (services, &existing, &planned), answer)
            ==> answer == overlap(existing@, planned@)
}

/// Whether a container holds the port of a plan entry, on whatever host port.
pub open spec fn holds_port(
    overlap: spec_fn(Seq<char>, Seq<char>) -> bool,
    reservation: ComposePublishedPortReservation,
    entry: ComposePublishedPortPlanEntry,
) -> bool {
    &&& reservation.service@ == entry.service@
    &&& reservation.target_port == entry.target_port
    &&& same_protocol(reservation.protocol, entry.protocol)
    &&& overlap(address_of(reservation.endpoint), address_of(entry.planned))
}

proof fn matches_are_held_ports<S: PlanServices>(
    services: &S,
    overlap: spec_fn(Seq<char>, Seq<char>) -> bool,
    reservation: ComposePublishedPortReservation,
    entry: ComposePublishedPortPlanEntry,
    answer: bool,
)
    requires
        overlap_is_told(services, overlap),
        tells_match(services, reservation, entry, answer),
    ensures
        answer == holds_port(overlap, reservation, entry),
{
    assert(reservation.protocol@ == entry.protocol@ <==> same_protocol(
        reservation.protocol,
        entry.protocol,
    ));
}

proof fn first_found_was_found(
    reservations: Seq<ComposePublishedPortReservation>,
    found: Seq<bool>,
)
    requires
        reservations.len() == found.len(),
    ensures
        first_found(reservations, found) is Some <==> exists|i: int|
            0 <= i < found.len() && #[trigger] found[i],
        first_found(reservations, found) is Some ==> exists|i: int|
            0 <= i < found.len() && #[trigger] found[i] && reservations[i] == first_found(
                reservations,
                found,
            )->0,
    decreases reservations.len(),
{
    if reservations.len() > 0 {
        if found[0] {
            assert(reservations[0] == first_found(reservations, found)->0);
        } else {
            let (r, f) = (reservations.drop_first(), found.drop_first());
            first_found_was_found(r, f);
            if first_found(r, f) is Some {
                let i = choose|i: int|
                    0 <= i < f.len() && #[trigger] f[i] && r[i] == first_found(r, f)->0;
                assert(found[i + 1] && reservations[i + 1] == r[i]);
            } else {
                assert forall|i: int| 0 <= i < found.len() implies !(#[trigger] found[i]) by {
                    if i > 0 {
                        assert(f[i - 1] == found[i]);
                    }
                }
            }
        }
    }
}

/// A planned port changes something exactly where a container holds it, but
/// none holds it on the planned host port. That the port was moved before does
/// not matter. The change leads from what one of the containers holds to what
/// is planned, which is another host port.
pub proof fn ports_move_only_where_no_container_holds_them<S: PlanServices>(
    services: &S,
    overlap: spec_fn(Seq<char>, Seq<char>) -> bool,
    reservations: Seq<ComposePublishedPortReservation>,
    entry: ComposePublishedPortPlanEntry,
    change: Option<ComposePublishedPortRecreateChange>,
)
    requires
        overlap_is_told(services, overlap),
        makes_change(services, reservations, entry, change),
    ensures
        (exists|i: int|
            0 <= i < reservations.len() && holds_port(overlap, #[trigger] reservations[i], entry)
                && reservations[i].endpoint.host_port == entry.planned.host_port) ==> change is None,
        change is Some <==> (exists|i: int|
            0 <= i < reservations.len() && holds_port(overlap, #[trigger] reservations[i], entry))
            && (forall|i: int|
            0 <= i < reservations.len() && holds_port(overlap, #[trigger] reservations[i], entry)
                ==> reservations[i].endpoint.host_port != entry.planned.host_port),
        change is Some ==> {
            &&& change->0.service@ == entry.service@
            &&& change->0.target_port == entry.target_port
            &&& same_protocol(change->0.protocol, entry.protocol)
            &&& change->0.planned == entry.planned
            &&& change->0.existing.host_port != change->0.planned.host_port
            &&& exists|i: int|
                0 <= i < reservations.len() && holds_port(
                    overlap,
                    #[trigger] reservations[i],
                    entry,
                ) && change->0.existing == reservations[i].endpoint
        },
{
    let found = choose|found: Seq<bool>| #[trigger]
        tells_matches(services, reservations, entry, found) && change == change_to(
            reservations,
            found,
            entry,
        );
    assert forall|i: int| 0 <= i < reservations.len() implies #[trigger] found[i] == holds_port(
        overlap,
        reservations[i],
        entry,
    ) by {
        matches_are_held_ports(services, overlap, reservations[i], entry, found[i]);
    }
    first_found_was_found(reservations, found);
    let port = entry.planned.host_port;
    if exists|i: int|
        0 <= i < reservations.len() && holds_port(overlap, #[trigger] reservations[i], entry)
            && reservations[i].endpoint.host_port == port {
        let i = choose|i: int|
            0 <= i < reservations.len() && holds_port(overlap, #[trigger] reservations[i], entry)
                && reservations[i].endpoint.host_port == port;
        assert(found[i]);
        assert(keeps_port(reservations, found, port));
    }
    if exists|i: int|
        0 <= i < reservations.len() && holds_port(overlap, #[trigger] reservations[i], entry) {
        let i = choose|i: int|
            0 <= i < reservations.len() && holds_port(overlap, #[trigger] reservations[i], entry);
        assert(found[i]);
    }
    if change is Some {
        let i = choose|i: int|
            0 <= i < found.len() && #[trigger] found[i] && reservations[i] == first_found(
                reservations,
                found,
            )->0;
        assert(holds_port(overlap, reservations[i], entry));
        assert(!keeps_port(reservations, found, port));
        assert forall|j: int|
            0 <= j < reservations.len() && holds_port(overlap, #[trigger] reservations[j], entry)
                implies reservations[j].endpoint.host_port != port by {
            assert(found[j]);
        }
    }
}

proof fn changes_are_actual(changes: Seq<Option<ComposePublishedPortRecreateChange>>)
    ensures
        forall|k: int|
            0 <= k < actual_changes(changes).len() ==> changes.contains(
                Some(#[trigger] actual_changes(changes)[k]),
            ),
        forall|i: int|
            0 <= i < changes.len() && (#[trigger] changes[i]) is Some ==> actual_changes(
                changes,
            ).contains(changes[i]->0),
    decreases changes.len(),
{
    if changes.len() > 0 {
        let front = changes.drop_last();
        changes_are_actual(front);
        let all = actual_changes(changes);
        let before = actual_changes(front);
        assert forall|k: int| 0 <= k < all.len() implies changes.contains(Some(#[trigger] all[k]))
            by {
            if k < before.len() {
                assert(all[k] == before[k]);
                assert(front.contains(Some(before[k])));
                let i = choose|i: int| 0 <= i < front.len() && front[i] == Some(before[k]);
                assert(changes[i] == Some(all[k]));
            } else {
                assert(changes[changes.len() - 1] == Some(all[k]));
            }
        }
        assert forall|i: int| 0 <= i < changes.len() && (#[trigger] changes[i]) is Some implies
            all.contains(changes[i]->0) by {
            if i < front.len() {
                assert(front[i] == changes[i]);
                let k = choose|k: int| 0 <= k < before.len() && before[k] == changes[i]->0;
                assert(all[k] == changes[i]->0);
            } else {
                assert(all[all.len() - 1] == changes[i]->0);
            }
        }
    }
}

/// A Compose project whose containers could be used again is made anew exactly
/// where some planned port is held by a container, but by none on the planned
/// host port; then all containers of the project are replaced, or those of the
/// primary service where no others are known. Otherwise the first container is
/// used again, running or stopped.
pub proof fn projects_are_replaced_where_ports_move<S: PlanServices>(
    services: &S,
    overlap: spec_fn(Seq<char>, Seq<char>) -> bool,
    input: ComposeExistingContainerDecisionInput,
    outcome: Result<ComposeContainerDecision, UpError>,
)
    requires
        overlap_is_told(services, overlap),
        decides_compose(services, input, outcome),
        decides(
            input.containers@,
            input.expected_config_hash@,
            *input.mount_policy,
            input.rebuild,
        ) is Ok,
        decides(
            input.containers@,
            input.expected_config_hash@,
            *input.mount_policy,
            input.rebuild,
        )->Ok_0.reuses(),
    ensures
        outcome is Ok,
        ({
            let reservations = input.existing_project_published_ports@;
            let entries = input.published_port_plan.entries@;
            let moves = exists|e: int|
                0 <= e < entries.len() && moves_port(
                    overlap,
                    reservations,
                    #[trigger] entries[e],
                );
            let replaced = if input.project_containers@.len() == 0 {
                input.containers@
            } else {
                input.project_containers@
            };
            match outcome->Ok_0.decision {
                ExistingContainerDecision::Recreate { containers } => {
                    &&& moves
                    &&& containers@.len() == replaced.len()
                    &&& forall|i: int|
                        0 <= i < replaced.len() ==> same_container(
                            #[trigger] containers@[i],
                            replaced[i],
                        )
                },
                ExistingContainerDecision::ReuseRunning { id, name } => {
                    &&& !moves
                    &&& input.containers@[0].running
                    &&& id == input.containers@[0].id
                    &&& name == input.containers@[0].name
                    &&& outcome->Ok_0.warnings@.len() == 0
                },
                ExistingContainerDecision::StartStopped { id, name } => {
                    &&& !moves
                    &&& !input.containers@[0].running
                    &&& id == input.containers@[0].id
                    &&& name == input.containers@[0].name
                    &&& outcome->Ok_0.warnings@.len() == 0
                },
                ExistingContainerDecision::Create => false,
            }
        }),
{
    let reservations = input.existing_project_published_ports@;
    let plan = *input.published_port_plan;
    let entries = plan.entries@;
    let decision = decides(
        input.containers@,
        input.expected_config_hash@,
        *input.mount_policy,
        input.rebuild,
    )->Ok_0;
    let changes = choose|changes: Seq<ComposePublishedPortRecreateChange>| #[trigger]
        makes_changes(services, reservations, plan, changes) && if changes.len() == 0 {
            outcome->Ok_0.decision@ == decision && outcome->Ok_0.warnings@.len() == 0
        } else {
            outcome->Ok_0.decision@ == crate::start::existing::DecisionView::Recreate(
                crate::start::existing::summaries(
                    crate::start::compose::changed_containers(input),
                ),
            )
        };
    let each = choose|each: Seq<Option<ComposePublishedPortRecreateChange>>| #[trigger]
        makes_each_change(services, reservations, entries, each) && changes == actual_changes(each);
    changes_are_actual(each);
    assert forall|e: int| 0 <= e < entries.len() implies (#[trigger] each[e] is Some) == moves_port(
        overlap,
        reservations,
        entries[e],
    ) by {
        ports_move_only_where_no_container_holds_them(
            services,
            overlap,
            reservations,
            entries[e],
            each[e],
        );
    }
    if changes.len() > 0 {
        assert(each.contains(Some(changes[0])));
        let e = choose|e: int| 0 <= e < each.len() && each[e] == Some(changes[0]);
        assert(each[e] is Some);
        assert(moves_port(overlap, reservations, entries[e]));
    } else {
        assert forall|e: int| 0 <= e < entries.len() implies !moves_port(
            overlap,
            reservations,
            #[trigger] entries[e],
        ) by {
            if each[e] is Some {
                assert(changes.contains(each[e]->0));
            }
        }
    }
    if let ExistingContainerDecision::Recreate { containers } = outcome->Ok_0.decision {
        let replaced = crate::start::compose::changed_containers(input);
        let told = crate::start::existing::summaries(containers@);
        let all = crate::start::existing::summaries(replaced);
        assert(told == all);
        assert(told.len() == containers@.len());
        assert forall|i: int| 0 <= i < replaced.len() implies same_container(
            #[trigger] containers@[i],
            replaced[i],
        ) by {
            assert(told[i] == containers@[i]@);
            assert(all[i] == replaced[i]@);
        }
    }
}

/// Whether a planned port is held by a container, but by none on the planned
/// host port.
pub open spec fn moves_port(
    overlap: spec_fn(Seq<char>, Seq<char>) -> bool,
    reservations: Seq<ComposePublishedPortReservation>,
    entry: ComposePublishedPortPlanEntry,
) -> bool {
    &&& exists|i: int|
        0 <= i < reservations.len() && holds_port(overlap, #[trigger] reservations[i], entry)
    &&& forall|i: int|
        0 <= i < reservations.len() && holds_port(overlap, #[trigger] reservations[i], entry)
            ==> reservations[i].endpoint.host_port != entry.planned.host_port
}

/// A rebuild builds the images of a project again, with the cache and the pull
/// that were asked for, whatever containers there are and whether or not the
/// primary service has a build. So does a build without the cache, and so does
/// a pull, which also pulls images before. A primary service that was never
/// built is built. Nothing else is done, and nothing where none of it holds.
pub proof fn rebuilds_build_images_again(options: UpOptions, context: ComposeStartupContext)
    ensures
        ({
            let actions = user_image_actions(options, context);
            let build = ComposeImageAction::Build {
                no_cache: options.build.no_cache,
                pull: options.build.pull,
            };
            &&& options.reuse.rebuild ==> actions.contains(build)
            &&& options.build.no_cache ==> actions.contains(build)
            &&& options.build.pull ==> actions == seq![ComposeImageAction::Pull, build]
            &&& context.primary_service_has_build && context.existing_compose_containers@.len() == 0
                ==> actions.contains(build)
            &&& !options.build.pull && actions.len() > 0 ==> actions == seq![build] && (
            options.reuse.rebuild || options.build.no_cache || (context.primary_service_has_build
                && context.existing_compose_containers@.len() == 0))
            &&& actions.len() <= 2
        }),
{
    let actions = user_image_actions(options, context);
    if options.build.pull {
        assert(actions =~= seq![
            ComposeImageAction::Pull,
            ComposeImageAction::Build {
                no_cache: options.build.no_cache,
                pull: options.build.pull,
            },
        ]);
        assert(actions[1] is Build);
    } else if actions.len() > 0 {
        assert(actions[0] is Build);
        assert(actions =~= seq![
            ComposeImageAction::Build { no_cache: options.build.no_cache, pull: false },
        ]);
    }
}

} // verus!
