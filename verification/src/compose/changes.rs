//! What is changed of a Compose project, told of the plan of its start.

use crate::compose::generate::{
    containers_renamed, endpoints_applied, finds_user, forward_labels, generates_patch,
    hidden_keys, named_resources, names_applied, project_patch, references_adapted,
    service_environment, variables_set, ComposeIsolationOverridePlans, ComposeOverrideStartup,
    ServiceForwardRuntime,
};
use crate::compose::isolation::{
    ComposeIsolationResourceKind, ComposeIsolationResourceRewrite, ComposeServiceNameRewrite,
    ComposeServiceReferenceRewrite,
};
use crate::compose::patch::{
    service_position, service_position_is_valid, ComposeOverridePatch, EnvironmentView, PatchView,
    ServicePatchView,
};
use crate::compose::ports::ComposePublishedPortOverride;
use crate::docker::{RemoteUserSource, SensitiveEnvValue};
use crate::error::UpError;
use crate::services::PlanServices;
use crate::text::text_less;
use crate::text_map::{keys_ascend, lookup, lookup_after_insert, TextMap};
use crate::types::UpPlan;
use vstd::prelude::*;

verus! {

/// Whether changes to a service are those from before, apart from variables,
/// the name of the container and references to others.
pub open spec fn is_kept(before: ServicePatchView, after: ServicePatchView) -> bool {
    &&& after.name == before.name
    &&& after.image == before.image
    &&& after.pull_policy_never == before.pull_policy_never
    &&& after.labels == before.labels
    &&& after.user == before.user
    &&& after.init == before.init
    &&& after.privileged == before.privileged
    &&& after.cap_add == before.cap_add
    &&& after.security_opt == before.security_opt
    &&& after.mounts == before.mounts
    &&& after.ports == before.ports
    &&& after.entrypoint == before.entrypoint
    &&& after.command == before.command
}

/// Whether changes to services are kept one for one, further ones coming
/// behind them.
pub open spec fn are_kept(before: Seq<ServicePatchView>, after: Seq<ServicePatchView>) -> bool {
    &&& before.len() <= after.len()
    &&& forall|i: int| 0 <= i < before.len() ==> is_kept(#[trigger] before[i], after[i])
}

proof fn variables_keep_the_rest(
    patch: PatchView,
    service: Seq<char>,
    variables: Seq<(Seq<char>, String)>,
)
    ensures
        are_kept(patch.services, variables_set(patch, service, variables).services),
        variables_set(patch, service, variables).resources == patch.resources,
        variables_set(patch, service, variables).subnets == patch.subnets,
    decreases variables.len(),
{
    if variables.len() > 0 {
        variables_keep_the_rest(patch, service, variables.drop_last());
        let before = variables_set(patch, service, variables.drop_last());
        service_position_is_valid(before.services, service);
    }
}

proof fn endpoints_keep_the_rest(patch: PatchView, services: Seq<(Seq<char>, TextMap<String>)>)
    ensures
        are_kept(patch.services, endpoints_applied(patch, services).services),
        endpoints_applied(patch, services).resources == patch.resources,
        endpoints_applied(patch, services).subnets == patch.subnets,
    decreases services.len(),
{
    if services.len() > 0 {
        endpoints_keep_the_rest(patch, services.drop_last());
        let before = endpoints_applied(patch, services.drop_last());
        variables_keep_the_rest(before, services.last().0, services.last().1@);
    }
}

proof fn renaming_keeps_the_rest(
    services: Seq<ServicePatchView>,
    rewrites: Seq<ComposeServiceNameRewrite>,
)
    ensures
        are_kept(services, containers_renamed(services, rewrites)),
    decreases rewrites.len(),
{
    if rewrites.len() > 0 {
        renaming_keeps_the_rest(services, rewrites.drop_last());
        let before = containers_renamed(services, rewrites.drop_last());
        service_position_is_valid(before, rewrites.last().service@);
    }
}

proof fn referring_keeps_the_rest(
    services: Seq<ServicePatchView>,
    rewrites: Seq<ComposeServiceReferenceRewrite>,
)
    ensures
        are_kept(services, references_adapted(services, rewrites)),
    decreases rewrites.len(),
{
    if rewrites.len() > 0 {
        referring_keeps_the_rest(services, rewrites.drop_last());
        let before = references_adapted(services, rewrites.drop_last());
        service_position_is_valid(before, rewrites.last().service@);
    }
}

/// The texts of a list.
pub open spec fn texts_of(texts: Seq<String>) -> Seq<Seq<char>> {
    texts.map_values(|text: String| text@)
}

/// The first changes are those to the primary service: it is given the image
/// of the plan, which is not pulled where it is not the base image itself; all
/// labels, mounts, capabilities and security options of the plan; whether it
/// has an init process and is privileged, as the configuration says; what it is
/// to run; and the ports that replace its own, where any do. A user that the
/// configuration names is set. The networks with planned addresses are those of
/// the isolation plan.
pub proof fn primary_service_follows_the_plan<S: PlanServices>(
    services: &S,
    primary_service: Seq<char>,
    plan: UpPlan,
    startup: Option<ComposeOverrideStartup>,
    service_forward: Seq<ServiceForwardRuntime>,
    published_port_override: ComposePublishedPortOverride,
    isolation: ComposeIsolationOverridePlans,
    patch: ComposeOverridePatch,
)
    requires
        generates_patch(
            services,
            primary_service,
            plan,
            startup,
            service_forward,
            published_port_override,
            isolation,
            Ok(patch),
        ),
    ensures
        patch@.services.len() > service_forward.len(),
        ({
            let primary = patch@.services[0];
            let configured = plan.config.devcontainer;
            &&& primary.name == primary_service
            &&& primary.image == Some(plan.image@)
            &&& primary.pull_policy_never <==> plan.image@ != plan.base_image@
            &&& primary.labels == plan.resources.labels@.map_values(
                |pair: (Seq<char>, String)| (pair.0, pair.1@),
            )
            &&& primary.init == configured.init
            &&& primary.privileged == configured.privileged
            &&& primary.cap_add == texts_of(configured.cap_add@)
            &&& primary.security_opt == texts_of(configured.security_opt@)
            &&& primary.mounts == plan.mounts@
            &&& configured.container_user is Some ==> primary.user is Some
            &&& (primary.entrypoint is Some) == (startup is Some)
            &&& (primary.command is Some) == (startup is Some)
            &&& startup is Some ==> primary.entrypoint->0 == texts_of(startup->0.entrypoint@)
                && primary.command->0 == texts_of(startup->0.command@)
            &&& match lookup(published_port_override.services@, primary_service) {
                Some(ports) => primary.ports == Some(ports@),
                None => primary.ports is None,
            }
        }),
        patch@.subnets == isolation.subnets.allocations@,
{
    let named_before = first_changes(
        services,
        primary_service,
        plan,
        startup,
        service_forward,
        published_port_override,
        isolation,
        patch,
    );
    let primary = named_before[0];
    assert(is_kept(primary, patch@.services[0]));
    assert(primary.labels =~= plan.resources.labels@.map_values(
        |pair: (Seq<char>, String)| (pair.0, pair.1@),
    ));
    assert(primary.cap_add =~= texts_of(plan.config.devcontainer.cap_add@));
    assert(primary.security_opt =~= texts_of(plan.config.devcontainer.security_opt@));
    if startup is Some {
        assert(primary.entrypoint->0 =~= texts_of(startup->0.entrypoint@));
        assert(primary.command->0 =~= texts_of(startup->0.command@));
    }
}

proof fn first_changes<S: PlanServices>(
    services: &S,
    primary_service: Seq<char>,
    plan: UpPlan,
    startup: Option<ComposeOverrideStartup>,
    service_forward: Seq<ServiceForwardRuntime>,
    published_port_override: ComposePublishedPortOverride,
    isolation: ComposeIsolationOverridePlans,
    patch: ComposeOverridePatch,
) -> (first: Seq<ServicePatchView>)
    requires
        generates_patch(
            services,
            primary_service,
            plan,
            startup,
            service_forward,
            published_port_override,
            isolation,
            Ok(patch),
        ),
    ensures
        exists|user: Option<String>, placeholders: Seq<Seq<char>>|
            first == #[trigger] beginning(
                primary_service,
                plan,
                user,
                startup,
                service_forward,
                published_port_override,
                placeholders,
            ) && (plan.config.devcontainer.container_user is Some ==> user is Some),
        are_kept(first, patch@.services),
        patch@ == endpoints_applied(
            PatchView {
                subnets: Seq::empty() + isolation.subnets.allocations@,
                ..names_applied(
                    PatchView { services: first, resources: Seq::empty(), subnets: Seq::empty() },
                    *isolation.names,
                )
            },
            isolation.endpoints.services@,
        ),
        patch@.resources == named_resources(isolation.names.resources@),
        patch@.subnets == isolation.subnets.allocations@,
{
    let found = choose|found: Result<Option<String>, UpError>| #[trigger]
        crate::compose::generate::finds_user(services, plan, found) && match found {
            Err(_) => false,
            Ok(user) => exists|placeholders: Seq<Seq<char>>|
                {
                    &&& #[trigger] crate::compose::placeholder::are_placeholders(
                        crate::compose::generate::hidden_keys(
                            plan.config.devcontainer.container_env@,
                            plan.sensitive_container_env@,
                        ),
                        placeholders,
                    )
                    &&& patch@ == project_patch(
                        primary_service,
                        plan,
                        user,
                        startup,
                        service_forward,
                        published_port_override,
                        isolation,
                        placeholders,
                    )
                },
        };
    let user = found->Ok_0;
    let placeholders = choose|placeholders: Seq<Seq<char>>|
        {
            &&& #[trigger] crate::compose::placeholder::are_placeholders(
                crate::compose::generate::hidden_keys(
                    plan.config.devcontainer.container_env@,
                    plan.sensitive_container_env@,
                ),
                placeholders,
            )
            &&& patch@ == project_patch(
                primary_service,
                plan,
                user,
                startup,
                service_forward,
                published_port_override,
                isolation,
                placeholders,
            )
        };
    let first = beginning(
        primary_service,
        plan,
        user,
        startup,
        service_forward,
        published_port_override,
        placeholders,
    );
    let named = names_applied(
        PatchView { services: first, resources: Seq::empty(), subnets: Seq::empty() },
        *isolation.names,
    );
    let renamed = containers_renamed(first, isolation.names.services@);
    renaming_keeps_the_rest(first, isolation.names.services@);
    referring_keeps_the_rest(renamed, isolation.names.service_references@);
    let addressed = PatchView { subnets: named.subnets + isolation.subnets.allocations@, ..named };
    endpoints_keep_the_rest(addressed, isolation.endpoints.services@);
    assert(named.subnets + isolation.subnets.allocations@ =~= isolation.subnets.allocations@);
    assert(named.resources =~= named_resources(isolation.names.resources@));
    assert forall|i: int| 0 <= i < first.len() implies is_kept(
        #[trigger] first[i],
        patch@.services[i],
    ) by {
        assert(is_kept(first[i], renamed[i]));
        assert(is_kept(renamed[i], named.services[i]));
        assert(is_kept(named.services[i], patch@.services[i]));
    }
    first
}

/// The changes to services before anything is renamed.
pub open spec fn beginning(
    primary_service: Seq<char>,
    plan: UpPlan,
    user: Option<String>,
    startup: Option<ComposeOverrideStartup>,
    service_forward: Seq<ServiceForwardRuntime>,
    published_port_override: ComposePublishedPortOverride,
    placeholders: Seq<Seq<char>>,
) -> Seq<ServicePatchView> {
    seq![
        crate::compose::generate::primary_patch(
            primary_service,
            plan,
            user,
            startup,
            published_port_override,
            placeholders,
        ),
    ] + crate::compose::generate::forward_patches(service_forward, plan, published_port_override)
        + crate::compose::generate::port_patches(
        published_port_override.services@,
        primary_service,
        service_forward,
    )
}

/// Behind the primary service come the services whose ports are forwarded, in
/// order: each has the one mount that it needs for that, is marked as managed
/// and as belonging to the workspace, keeps its own image, command, user and
/// rights, and has its ports replaced where any are.
pub proof fn forwarded_services_get_their_mount<S: PlanServices>(
    services: &S,
    primary_service: Seq<char>,
    plan: UpPlan,
    startup: Option<ComposeOverrideStartup>,
    service_forward: Seq<ServiceForwardRuntime>,
    published_port_override: ComposePublishedPortOverride,
    isolation: ComposeIsolationOverridePlans,
    patch: ComposeOverridePatch,
    position: int,
)
    requires
        generates_patch(
            services,
            primary_service,
            plan,
            startup,
            service_forward,
            published_port_override,
            isolation,
            Ok(patch),
        ),
        0 <= position < service_forward.len(),
    ensures
        position + 1 < patch@.services.len(),
        ({
            let forwarded = patch@.services[position + 1];
            let workspace = lookup(plan.resources.labels@, "decune.workspace_id"@);
            &&& forwarded.name == service_forward[position].service@
            &&& forwarded.mounts == seq![service_forward[position].mount]
            &&& forwarded.labels.contains(("decune.managed"@, "true"@))
            &&& workspace is Some ==> forwarded.labels.contains(
                ("decune.workspace_id"@, workspace->0@),
            ) && forwarded.labels.len() == 2
            &&& workspace is None ==> forwarded.labels.len() == 1
            &&& forwarded.image is None
            &&& !forwarded.pull_policy_never
            &&& forwarded.user is None
            &&& forwarded.init is None
            &&& forwarded.privileged is None
            &&& forwarded.cap_add.len() == 0
            &&& forwarded.security_opt.len() == 0
            &&& forwarded.entrypoint is None
            &&& forwarded.command is None
            &&& match lookup(
                published_port_override.services@,
                service_forward[position].service@,
            ) {
                Some(ports) => forwarded.ports == Some(ports@),
                None => forwarded.ports is None,
            }
        }),
{
    let first = first_changes(
        services,
        primary_service,
        plan,
        startup,
        service_forward,
        published_port_override,
        isolation,
        patch,
    );
    let own = first[position + 1];
    assert(is_kept(own, patch@.services[position + 1]));
    let labels = forward_labels(plan.resources.labels@);
    reveal_with_fuel(crate::text_map::inserted, 3);
    reveal_strlit("decune.managed");
    reveal_strlit("decune.workspace_id");
    assert("decune.managed"@.len() != "decune.workspace_id"@.len());
    let managed = seq![("decune.managed"@, "true"@)];
    assert(crate::text_map::inserted(Seq::empty(), "decune.managed"@, "true"@) =~= managed);
    if let Some(id) = lookup(plan.resources.labels@, "decune.workspace_id"@) {
        let both = crate::text_map::inserted(managed, "decune.workspace_id"@, id@);
        assert(managed.drop_first() =~= Seq::empty());
        let pair = ("decune.workspace_id"@, id@);
        assert(both =~= seq![pair, managed[0]] || both =~= seq![managed[0], pair]);
        assert(both[0] == pair || both[1] == pair);
        assert(both[0] == managed[0] || both[1] == managed[0]);
    } else {
        assert(labels[0] == managed[0]);
    }
}

proof fn named_resources_are_kept(rewrites: Seq<ComposeIsolationResourceRewrite>, i: int)
    requires
        0 <= i < rewrites.len(),
    ensures
        rewrites[i].kind != ComposeIsolationResourceKind::ServiceContainer ==> named_resources(
            rewrites,
        ).contains(rewrites[i]),
    decreases rewrites.len(),
{
    let all = named_resources(rewrites);
    let front = rewrites.drop_last();
    if i < front.len() {
        named_resources_are_kept(front, i);
        assert(front[i] == rewrites[i]);
        if rewrites[i].kind != ComposeIsolationResourceKind::ServiceContainer {
            let before = named_resources(front);
            let k = choose|k: int| 0 <= k < before.len() && before[k] == rewrites[i];
            assert(all[k] == rewrites[i]);
        }
    } else if rewrites[i].kind != ComposeIsolationResourceKind::ServiceContainer {
        assert(all[all.len() - 1] == rewrites[i]);
    }
}

proof fn named_resources_come_from_rewrites(
    rewrites: Seq<ComposeIsolationResourceRewrite>,
    k: int,
)
    requires
        0 <= k < named_resources(rewrites).len(),
    ensures
        named_resources(rewrites)[k].kind != ComposeIsolationResourceKind::ServiceContainer,
        rewrites.contains(named_resources(rewrites)[k]),
    decreases rewrites.len(),
{
    let all = named_resources(rewrites);
    let front = rewrites.drop_last();
    if k < named_resources(front).len() {
        named_resources_come_from_rewrites(front, k);
        let i = choose|i: int| 0 <= i < front.len() && front[i] == all[k];
        assert(rewrites[i] == all[k]);
    } else {
        assert(rewrites[rewrites.len() - 1] == all[k]);
    }
}

/// All resources that the isolation plan renames are renamed, apart from the
/// containers of services, which are renamed with their service; and no others
/// are.
pub proof fn planned_resources_are_renamed<S: PlanServices>(
    services: &S,
    primary_service: Seq<char>,
    plan: UpPlan,
    startup: Option<ComposeOverrideStartup>,
    service_forward: Seq<ServiceForwardRuntime>,
    published_port_override: ComposePublishedPortOverride,
    isolation: ComposeIsolationOverridePlans,
    patch: ComposeOverridePatch,
    rewrite: ComposeIsolationResourceRewrite,
)
    requires
        generates_patch(
            services,
            primary_service,
            plan,
            startup,
            service_forward,
            published_port_override,
            isolation,
            Ok(patch),
        ),
    ensures
        patch@.resources.contains(rewrite) <==> isolation.names.resources@.contains(rewrite)
            && rewrite.kind != ComposeIsolationResourceKind::ServiceContainer,
{
    let _ = first_changes(
        services,
        primary_service,
        plan,
        startup,
        service_forward,
        published_port_override,
        isolation,
        patch,
    );
    let all = isolation.names.resources@;
    if all.contains(rewrite) {
        let i = choose|i: int| 0 <= i < all.len() && all[i] == rewrite;
        named_resources_are_kept(all, i);
    }
    if patch@.resources.contains(rewrite) {
        let k = choose|k: int| 0 <= k < patch@.resources.len() && patch@.resources[k] == rewrite;
        named_resources_come_from_rewrites(all, k);
    }
}

/// The user that a service is made to run as is the one that the tool names
/// once ids were changed. None is set where neither the configuration nor the
/// Compose files name one, nor where the Compose files name one that stays the
/// same; one that the configuration names is always set.
pub proof fn service_users_are_those_of_the_tool<S: PlanServices>(
    services: &S,
    plan: UpPlan,
    outcome: Result<Option<String>, UpError>,
)
    requires
        finds_user(services, plan, outcome),
    ensures
        ({
            let user = plan.effective_users.container_user;
            let configured = plan.config.devcontainer.container_user is Some;
            &&& !configured && user.source != RemoteUserSource::ComposeService ==> outcome
                == Ok::<Option<String>, UpError>(None)
            &&& outcome is Ok && configured ==> outcome->Ok_0 is Some
            &&& outcome is Ok && outcome->Ok_0 is Some ==> {
                &&& configured || user.source == RemoteUserSource::ComposeService
                &&& call_ensures(
                    S::uid_gid_sync_runtime_user,
                    (services, &user.user, &plan.uid_gid_sync_plan),
                    Ok::<String, UpError>(outcome->Ok_0->0),
                )
                &&& !configured ==> outcome->Ok_0->0@ != user.user@
            }
            &&& outcome is Err ==> call_ensures(
                S::uid_gid_sync_runtime_user,
                (services, &user.user, &plan.uid_gid_sync_plan),
                Err::<String, UpError>(outcome->Err_0),
            )
        }),
{
}

proof fn place_of_renaming(
    services: Seq<ServicePatchView>,
    rewrites: Seq<ComposeServiceNameRewrite>,
    k: int,
) -> (i: int)
    requires
        0 <= k < rewrites.len(),
        forall|later: int|
            k < later < rewrites.len() ==> (#[trigger] rewrites[later]).service@
                != rewrites[k].service@,
    ensures
        0 <= i < containers_renamed(services, rewrites).len(),
        containers_renamed(services, rewrites)[i].name == rewrites[k].service@,
        containers_renamed(services, rewrites)[i].container_name == Some(rewrites[k]),
    decreases rewrites.len(),
{
    let front = rewrites.drop_last();
    let before = containers_renamed(services, front);
    let last = rewrites.last();
    service_position_is_valid(before, last.service@);
    if k == rewrites.len() - 1 {
        match service_position(before, last.service@) {
            Some(position) => position,
            None => before.len() as int,
        }
    } else {
        assert(front[k] == rewrites[k]);
        assert forall|later: int| k < later < front.len() implies (#[trigger] front[later]).service@
            != front[k].service@ by {
            assert(front[later] == rewrites[later]);
        }
        let i = place_of_renaming(services, front, k);
        assert(rewrites[rewrites.len() - 1].service@ != rewrites[k].service@);
        i
    }
}

proof fn referring_keeps_names(
    services: Seq<ServicePatchView>,
    rewrites: Seq<ComposeServiceReferenceRewrite>,
    i: int,
)
    requires
        0 <= i < services.len(),
    ensures
        i < references_adapted(services, rewrites).len(),
        references_adapted(services, rewrites)[i].name == services[i].name,
        references_adapted(services, rewrites)[i].container_name == services[i].container_name,
        references_adapted(services, rewrites)[i].environment == services[i].environment,
    decreases rewrites.len(),
{
    if rewrites.len() > 0 {
        referring_keeps_names(services, rewrites.drop_last(), i);
        service_position_is_valid(
            references_adapted(services, rewrites.drop_last()),
            rewrites.last().service@,
        );
    }
}

proof fn renaming_keeps_variables(
    services: Seq<ServicePatchView>,
    rewrites: Seq<ComposeServiceNameRewrite>,
    i: int,
)
    requires
        0 <= i < services.len(),
    ensures
        i < containers_renamed(services, rewrites).len(),
        containers_renamed(services, rewrites)[i].name == services[i].name,
        containers_renamed(services, rewrites)[i].environment == services[i].environment,
    decreases rewrites.len(),
{
    if rewrites.len() > 0 {
        renaming_keeps_variables(services, rewrites.drop_last(), i);
        service_position_is_valid(
            containers_renamed(services, rewrites.drop_last()),
            rewrites.last().service@,
        );
    }
}

proof fn variables_keep_names(
    patch: PatchView,
    service: Seq<char>,
    variables: Seq<(Seq<char>, String)>,
    i: int,
)
    requires
        0 <= i < patch.services.len(),
    ensures
        i < variables_set(patch, service, variables).services.len(),
        ({
            let after = variables_set(patch, service, variables).services[i];
            &&& after.name == patch.services[i].name
            &&& after.container_name == patch.services[i].container_name
            &&& after.references == patch.services[i].references
            &&& patch.services[i].name != service ==> after.environment
                == patch.services[i].environment
        }),
    decreases variables.len(),
{
    if variables.len() > 0 {
        variables_keep_names(patch, service, variables.drop_last(), i);
        service_position_is_valid(
            variables_set(patch, service, variables.drop_last()).services,
            service,
        );
    }
}

proof fn endpoints_keep_names(
    patch: PatchView,
    services: Seq<(Seq<char>, TextMap<String>)>,
    i: int,
)
    requires
        0 <= i < patch.services.len(),
    ensures
        i < endpoints_applied(patch, services).services.len(),
        ({
            let after = endpoints_applied(patch, services).services[i];
            &&& after.name == patch.services[i].name
            &&& after.container_name == patch.services[i].container_name
            &&& after.references == patch.services[i].references
            &&& (forall|k: int|
                0 <= k < services.len() ==> (#[trigger] services[k]).0 != patch.services[i].name)
                ==> after.environment == patch.services[i].environment
        }),
    decreases services.len(),
{
    if services.len() > 0 {
        let front = services.drop_last();
        endpoints_keep_names(patch, front, i);
        variables_keep_names(
            endpoints_applied(patch, front),
            services.last().0,
            services.last().1@,
            i,
        );
        if forall|k: int|
            0 <= k < services.len() ==> (#[trigger] services[k]).0 != patch.services[i].name {
            assert forall|k: int| 0 <= k < front.len() implies (#[trigger] front[k]).0
                != patch.services[i].name by {
                assert(front[k] == services[k]);
            }
            assert(services[services.len() - 1].0 != patch.services[i].name);
        }
    }
}

proof fn place_of_reference(
    services: Seq<ServicePatchView>,
    rewrites: Seq<ComposeServiceReferenceRewrite>,
    k: int,
) -> (i: int)
    requires
        0 <= k < rewrites.len(),
        forall|later: int|
            k < later < rewrites.len() ==> (#[trigger] rewrites[later]).service@
                != rewrites[k].service@,
    ensures
        0 <= i < references_adapted(services, rewrites).len(),
        references_adapted(services, rewrites)[i].name == rewrites[k].service@,
        references_adapted(services, rewrites)[i].references == Some(rewrites[k]),
    decreases rewrites.len(),
{
    let front = rewrites.drop_last();
    let before = references_adapted(services, front);
    let last = rewrites.last();
    service_position_is_valid(before, last.service@);
    if k == rewrites.len() - 1 {
        match service_position(before, last.service@) {
            Some(position) => position,
            None => before.len() as int,
        }
    } else {
        assert(front[k] == rewrites[k]);
        assert forall|later: int| k < later < front.len() implies (#[trigger] front[later]).service@
            != front[k].service@ by {
            assert(front[later] == rewrites[later]);
        }
        let i = place_of_reference(services, front, k);
        assert(rewrites[rewrites.len() - 1].service@ != rewrites[k].service@);
        i
    }
}

/// Each service whose container the isolation plan renames is changed under its
/// own name to the planned container name, and each service that refers to
/// renamed containers has its references adapted. Of several plans for one
/// service the last counts.
pub proof fn planned_services_are_renamed<S: PlanServices>(
    services: &S,
    primary_service: Seq<char>,
    plan: UpPlan,
    startup: Option<ComposeOverrideStartup>,
    service_forward: Seq<ServiceForwardRuntime>,
    published_port_override: ComposePublishedPortOverride,
    isolation: ComposeIsolationOverridePlans,
    patch: ComposeOverridePatch,
)
    requires
        generates_patch(
            services,
            primary_service,
            plan,
            startup,
            service_forward,
            published_port_override,
            isolation,
            Ok(patch),
        ),
    ensures
        forall|k: int|
            0 <= k < isolation.names.services@.len() && (forall|later: int|
                k < later < isolation.names.services@.len()
                    ==> (#[trigger] isolation.names.services@[later]).service@
                    != isolation.names.services@[k].service@) ==> patch@.services.map_values(
                |service: ServicePatchView| (service.name, service.container_name),
            ).contains(
                (
                    (#[trigger] isolation.names.services@[k]).service@,
                    Some(isolation.names.services@[k]),
                ),
            ),
        forall|k: int|
            0 <= k < isolation.names.service_references@.len() && (forall|later: int|
                k < later < isolation.names.service_references@.len()
                    ==> (#[trigger] isolation.names.service_references@[later]).service@
                    != isolation.names.service_references@[k].service@)
                ==> patch@.services.map_values(
                |service: ServicePatchView| (service.name, service.references),
            ).contains(
                (
                    (#[trigger] isolation.names.service_references@[k]).service@,
                    Some(isolation.names.service_references@[k]),
                ),
            ),
{
    let first = first_changes(
        services,
        primary_service,
        plan,
        startup,
        service_forward,
        published_port_override,
        isolation,
        patch,
    );
    let names = isolation.names.services@;
    let references = isolation.names.service_references@;
    let renamed = containers_renamed(first, names);
    let named = names_applied(
        PatchView { services: first, resources: Seq::empty(), subnets: Seq::empty() },
        *isolation.names,
    );
    let addressed = PatchView { subnets: named.subnets + isolation.subnets.allocations@, ..named };
    assert(patch@ == endpoints_applied(addressed, isolation.endpoints.services@));
    assert forall|k: int|
        0 <= k < names.len() && (forall|later: int|
            k < later < names.len() ==> (#[trigger] names[later]).service@ != names[k].service@)
            implies patch@.services.map_values(
        |service: ServicePatchView| (service.name, service.container_name),
    ).contains(((#[trigger] names[k]).service@, Some(names[k]))) by {
        let i = place_of_renaming(first, names, k);
        referring_keeps_names(renamed, references, i);
        endpoints_keep_names(addressed, isolation.endpoints.services@, i);
        assert(patch@.services.map_values(
            |service: ServicePatchView| (service.name, service.container_name),
        )[i] == (names[k].service@, Some(names[k])));
    }
    assert forall|k: int|
        0 <= k < references.len() && (forall|later: int|
            k < later < references.len() ==> (#[trigger] references[later]).service@
                != references[k].service@) implies patch@.services.map_values(
        |service: ServicePatchView| (service.name, service.references),
    ).contains(((#[trigger] references[k]).service@, Some(references[k]))) by {
        let i = place_of_reference(renamed, references, k);
        endpoints_keep_names(addressed, isolation.endpoints.services@, i);
        assert(patch@.services.map_values(
            |service: ServicePatchView| (service.name, service.references),
        )[i] == (references[k].service@, Some(references[k])));
    }
}

proof fn hidden_count(
    entries: Seq<(Seq<char>, String)>,
    sensitive: Seq<(Seq<char>, SensitiveEnvValue)>,
    i: int,
)
    requires
        0 <= i < entries.len(),
        lookup(sensitive, entries[i].0) is Some,
    ensures
        hidden_keys(entries.take(i), sensitive).len() < hidden_keys(entries, sensitive).len(),
        hidden_keys(entries, sensitive)[hidden_keys(entries.take(i), sensitive).len() as int]
            == entries[i].0,
    decreases entries.len(),
{
    let front = entries.drop_last();
    if i == entries.len() - 1 {
        assert(entries.take(i) =~= front);
    } else {
        assert(front[i] == entries[i]);
        assert(front.take(i) =~= entries.take(i));
        hidden_count(front, sensitive, i);
    }
}

proof fn variables_of_service(
    entries: Seq<(Seq<char>, String)>,
    sensitive: Seq<(Seq<char>, SensitiveEnvValue)>,
    placeholders: Seq<Seq<char>>,
    i: int,
)
    requires
        keys_ascend(entries),
        0 <= i < entries.len(),
    ensures
        keys_ascend(service_environment(entries, sensitive, placeholders)),
        lookup(service_environment(entries, sensitive, placeholders), entries[i].0) == Some(
            match lookup(sensitive, entries[i].0) {
                Some(hidden) => EnvironmentView::Interpolated(
                    placeholders[hidden_keys(entries.take(i), sensitive).len() as int],
                    crate::text::views(hidden.redactions@),
                ),
                None => EnvironmentView::Plain(entries[i].1@),
            },
        ),
    decreases entries.len(),
{
    let front = entries.drop_last();
    assert(keys_ascend(front)) by {
        assert forall|a: int, b: int| 0 <= a < b < front.len() implies text_less(
            #[trigger] front[a].0,
            #[trigger] front[b].0,
        ) by {
            assert(text_less(entries[a].0, entries[b].0));
        }
    }
    let before = service_environment(front, sensitive, placeholders);
    let last = entries.last();
    if front.len() > 0 {
        variables_of_service(
            front,
            sensitive,
            placeholders,
            if i < front.len() {
                i
            } else {
                0
            },
        );
    }
    let value = match lookup(sensitive, last.0) {
        Some(hidden) => EnvironmentView::Interpolated(
            placeholders[hidden_keys(front, sensitive).len() as int],
            crate::text::views(hidden.redactions@),
        ),
        None => EnvironmentView::Plain(last.1@),
    };
    lookup_after_insert(before, last.0, value, entries[i].0);
    if i < front.len() {
        assert(front.take(i) =~= entries.take(i));
        assert(text_less(entries[i].0, entries[entries.len() - 1].0));
        crate::text::text_less_irreflexive(last.0);
    } else {
        assert(entries.take(i) =~= front);
    }
}

/// The primary service has each variable of the plan's environment, unless the
/// isolation plan sets variables of that service: a value that is hidden is
/// taken from a variable of Compose, which is named for no other key, and any
/// other value is written as it is.
pub proof fn primary_service_has_its_environment<S: PlanServices>(
    services: &S,
    primary_service: Seq<char>,
    plan: UpPlan,
    startup: Option<ComposeOverrideStartup>,
    service_forward: Seq<ServiceForwardRuntime>,
    published_port_override: ComposePublishedPortOverride,
    isolation: ComposeIsolationOverridePlans,
    patch: ComposeOverridePatch,
    position: int,
)
    requires
        generates_patch(
            services,
            primary_service,
            plan,
            startup,
            service_forward,
            published_port_override,
            isolation,
            Ok(patch),
        ),
        keys_ascend(plan.config.devcontainer.container_env@),
        0 <= position < plan.config.devcontainer.container_env@.len(),
        forall|k: int|
            0 <= k < isolation.endpoints.services@.len() ==> (
            #[trigger] isolation.endpoints.services@[k]).0 != primary_service,
    ensures
        ({
            let (key, value) = plan.config.devcontainer.container_env@[position];
            let found = lookup(patch@.services[0].environment, key);
            match lookup(plan.sensitive_container_env@, key) {
                Some(_) => found is Some && found->0 is Interpolated,
                None => found == Some(EnvironmentView::Plain(value@)),
            }
        }),
{
    let first = first_changes(
        services,
        primary_service,
        plan,
        startup,
        service_forward,
        published_port_override,
        isolation,
        patch,
    );
    let named = names_applied(
        PatchView { services: first, resources: Seq::empty(), subnets: Seq::empty() },
        *isolation.names,
    );
    let addressed = PatchView { subnets: named.subnets + isolation.subnets.allocations@, ..named };
    renaming_keeps_variables(first, isolation.names.services@, 0);
    referring_keeps_names(
        containers_renamed(first, isolation.names.services@),
        isolation.names.service_references@,
        0,
    );
    endpoints_keep_names(addressed, isolation.endpoints.services@, 0);
    let (user, placeholders) = choose|user: Option<String>, placeholders: Seq<Seq<char>>|
        first == #[trigger] beginning(
            primary_service,
            plan,
            user,
            startup,
            service_forward,
            published_port_override,
            placeholders,
        );
    variables_of_service(
        plan.config.devcontainer.container_env@,
        plan.sensitive_container_env@,
        placeholders,
        position,
    );
}

} // verus!
