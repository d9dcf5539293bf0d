//! The file that adapts a Compose project to a plan.

use crate::compose::isolation::{
    ComposeIsolationEndpointPlan, ComposeIsolationNameRewritePlan, ComposeIsolationResourceKind,
    ComposeIsolationResourceRewrite, ComposeIsolationSubnetPlan, ComposeServiceNameRewrite,
    ComposeServiceReferenceRewrite,
};
use crate::compose::patch::{
    environment_pairs, inserted_pairs, referring, renaming_container, revised, setting_variable,
    text_pairs, unchanged_service, ComposeEnvironmentValue, ComposeOverridePatch,
    ComposeOverrideServicePatch, EnvironmentView, PatchView, ServicePatchView,
};
use crate::compose::placeholder::{
    are_placeholders, compose_container_env_placeholder, is_placeholder, placeholders_are_unique,
};
use crate::compose::ports::{ComposePublishedPortOverride, PortFields};
use crate::docker::{
    copy_texts, DockerMountSpec, RemoteUserSource, SensitiveEnvMap, SensitiveEnvValue,
};
use crate::error::UpError;
use crate::services::PlanServices;
use crate::text::{opt_view, same_text, text_less, text_less_irreflexive,
    text_less_transitive, views};
use crate::text_map::{inserted, keys_ascend, keys_of, lookup, TextMap};
use crate::types::UpPlan;
use vstd::prelude::*;
use vstd::string::*;

verus! {

/// A service whose ports are forwarded, and the mount that this needs.
#[derive(Debug, Clone)]
pub struct ServiceForwardRuntime {
    /// The service.
    pub service: String,
    /// The mount.
    pub mount: DockerMountSpec,
}

/// What a service is made to run.
#[derive(Debug, Clone)]
pub struct ComposeOverrideStartup {
    /// What it runs first.
    pub entrypoint: Vec<String>,
    /// What it runs.
    pub command: Vec<String>,
}

/// The plans that keep a clone apart.
#[derive(Debug, Clone, Copy)]
pub struct ComposeIsolationOverridePlans<'a> {
    /// What is renamed.
    pub names: &'a ComposeIsolationNameRewritePlan,
    /// Which networks are given addresses.
    pub subnets: &'a ComposeIsolationSubnetPlan,
    /// Which variables are rewritten.
    pub endpoints: &'a ComposeIsolationEndpointPlan,
}

/// The labels of a service whose ports are forwarded.
pub open spec fn forward_labels(labels: Seq<(Seq<char>, String)>) -> Seq<(Seq<char>, Seq<char>)> {
    let managed = inserted(Seq::empty(), "decune.managed"@, "true"@);
    match lookup(labels, "decune.workspace_id"@) {
        Some(id) => inserted(managed, "decune.workspace_id"@, id@),
        None => managed,
    }
}

/// Storing a text and reading off what is held may be done in either order.
pub(crate) proof fn inserted_text_pairs(
    entries: Seq<(Seq<char>, String)>,
    key: Seq<char>,
    value: String,
)
    ensures
        text_pairs(inserted(entries, key, value)) == inserted(text_pairs(entries), key, value@),
    decreases entries.len(),
{
    let pairs = text_pairs(entries);
    let left = text_pairs(inserted(entries, key, value));
    if entries.len() == 0 {
        assert(left =~= seq![(key, value@)]);
    } else {
        assert(pairs[0] == (entries[0].0, entries[0].1@));
        assert(pairs.drop_first() =~= text_pairs(entries.drop_first()));
        if entries[0].0 == key {
            assert(left =~= seq![(key, value@)] + pairs.drop_first());
        } else if text_less(key, entries[0].0) {
            assert(left =~= seq![(key, value@)] + pairs);
        } else {
            inserted_text_pairs(entries.drop_first(), key, value);
            assert(left =~= seq![pairs[0]] + text_pairs(
                inserted(entries.drop_first(), key, value),
            ));
        }
    }
}

/// The labels of a service whose ports are forwarded: that the tool looks
/// after it, and for which workspace.
pub fn compose_service_forward_labels(labels: &TextMap<String>) -> (res: TextMap<String>)
    ensures
        text_pairs(res@) == forward_labels(labels@),
        res.wf(),
{
    let mut service_labels: TextMap<String> = TextMap::new();
    let managed = "true".to_owned();
    proof {
        inserted_text_pairs(service_labels@, "decune.managed"@, managed);
        assert(text_pairs(service_labels@) =~= Seq::empty());
    }
    service_labels.insert("decune.managed".to_owned(), managed);
    if let Some(id) = labels.get("decune.workspace_id") {
        proof {
            inserted_text_pairs(service_labels@, "decune.workspace_id"@, *id);
        }
        service_labels.insert("decune.workspace_id".to_owned(), id.clone());
    }
    service_labels
}

/// How finding the user of a service ends.
pub open spec fn finds_user<S: PlanServices>(
    services: &S,
    plan: UpPlan,
    outcome: Result<Option<String>, UpError>,
) -> bool {
    let configured = plan.config.devcontainer.container_user is Some;
    let user = plan.effective_users.container_user;
    if !configured && user.source != RemoteUserSource::ComposeService {
        outcome == Ok::<Option<String>, UpError>(None)
    } else {
        exists|answer: Result<String, UpError>| #[trigger]
            call_ensures(
                S::uid_gid_sync_runtime_user,
                (services, &user.user, &plan.uid_gid_sync_plan),
                answer,
            ) && match answer {
                Err(error) => outcome == Err::<Option<String>, UpError>(error),
                Ok(name) => outcome == Ok::<Option<String>, UpError>(
                    if !configured && name@ == user.user@ {
                        None
                    } else {
                        Some(name)
                    },
                ),
            }
    }
}

/// The user to set for the service: the configured one, or that of the
/// Compose files where changing user ids gives it another name.
pub fn compose_override_user<S: PlanServices>(
    services: &S,
    plan: &UpPlan,
) -> (res: Result<Option<String>, UpError>)
    ensures
        finds_user(services, *plan, res),
{
    let user = &plan.effective_users.container_user;
    let configured = plan.config.devcontainer.container_user.is_some();
    if !configured && user.source != RemoteUserSource::ComposeService {
        return Ok(None);
    }
    match services.uid_gid_sync_runtime_user(&user.user, &plan.uid_gid_sync_plan) {
        Err(error) => Err(error),
        Ok(name) => if !configured && same_text(name.as_str(), user.user.as_str()) {
            Ok(None)
        } else {
            Ok(Some(name))
        },
    }
}

/// The keys of an environment whose values are hidden.
pub open spec fn hidden_keys(
    entries: Seq<(Seq<char>, String)>,
    sensitive: Seq<(Seq<char>, SensitiveEnvValue)>,
) -> Seq<Seq<char>>
    decreases entries.len(),
{
    if entries.len() == 0 {
        Seq::empty()
    } else {
        let before = hidden_keys(entries.drop_last(), sensitive);
        if lookup(sensitive, entries.last().0) is Some {
            before.push(entries.last().0)
        } else {
            before
        }
    }
}

/// The environment of a service: hidden values are taken from variables that
/// Compose is handed.
pub open spec fn service_environment(
    entries: Seq<(Seq<char>, String)>,
    sensitive: Seq<(Seq<char>, SensitiveEnvValue)>,
    placeholders: Seq<Seq<char>>,
) -> Seq<(Seq<char>, EnvironmentView)>
    decreases entries.len(),
{
    if entries.len() == 0 {
        Seq::empty()
    } else {
        let rest = entries.drop_last();
        let before = service_environment(rest, sensitive, placeholders);
        inserted(
            before,
            entries.last().0,
            match lookup(sensitive, entries.last().0) {
                Some(hidden) => EnvironmentView::Interpolated(
                    placeholders[hidden_keys(rest, sensitive).len() as int],
                    views(hidden.redactions@),
                ),
                None => EnvironmentView::Plain(entries.last().1@),
            },
        )
    }
}

proof fn environment_needs_no_later_placeholder(
    entries: Seq<(Seq<char>, String)>,
    sensitive: Seq<(Seq<char>, SensitiveEnvValue)>,
    fewer: Seq<Seq<char>>,
    placeholder: Seq<char>,
)
    requires
        hidden_keys(entries, sensitive).len() <= fewer.len(),
    ensures
        service_environment(entries, sensitive, fewer) == service_environment(
            entries,
            sensitive,
            fewer.push(placeholder),
        ),
    decreases entries.len(),
{
    if entries.len() > 0 {
        environment_needs_no_later_placeholder(
            entries.drop_last(),
            sensitive,
            fewer,
            placeholder,
        );
    }
}

fn compose_service_environment(
    environment: &TextMap<String>,
    sensitive: &SensitiveEnvMap,
) -> (res: TextMap<ComposeEnvironmentValue>)
    ensures
        exists|placeholders: Seq<Seq<char>>|
            {
                &&& #[trigger] are_placeholders(
                    hidden_keys(environment@, sensitive@),
                    placeholders,
                )
                &&& environment_pairs(res@) == service_environment(
                    environment@,
                    sensitive@,
                    placeholders,
                )
            },
{
    let mut values: TextMap<ComposeEnvironmentValue> = TextMap::new();
    let mut used: Vec<String> = Vec::new();
    let mut i: usize = 0;
    assert(environment@.take(0) =~= Seq::empty());
    assert(environment_pairs(values@) =~= Seq::empty());
    assert(views(used@) =~= Seq::empty());
    while i < environment.len()
        invariant
            i <= environment@.len(),
            are_placeholders(
                hidden_keys(environment@.take(i as int), sensitive@),
                views(used@),
            ),
            environment_pairs(values@) == service_environment(
                environment@.take(i as int),
                sensitive@,
                views(used@),
            ),
        decreases environment@.len() - i,
    {
        let ghost before = views(used@);
        let ghost taken = environment@.take(i as int);
        let ghost keys = hidden_keys(taken, sensitive@);
        assert(environment@.take(i as int + 1).drop_last() =~= taken);
        let key = environment.key_at(i);
        let value = match sensitive.get(key.as_str()) {
            Some(hidden) => {
                let placeholder = compose_container_env_placeholder(key.as_str(), &mut used);
                proof {
                    let after = views(used@);
                    let all = keys.push(key@);
                    assert forall|j: int| 0 <= j < all.len() implies is_placeholder(
                        #[trigger] all[j],
                        after.take(j),
                        after[j],
                    ) by {
                        assert(after.take(j) =~= before.take(j));
                        if j < keys.len() {
                            assert(is_placeholder(keys[j], before.take(j), before[j]));
                        } else {
                            assert(before.take(j) =~= before);
                        }
                    }
                    environment_needs_no_later_placeholder(
                        taken,
                        sensitive@,
                        before,
                        placeholder@,
                    );
                }
                ComposeEnvironmentValue::Interpolated {
                    placeholder,
                    redactions: copy_texts(&hidden.redactions),
                }
            },
            None => ComposeEnvironmentValue::Plain(environment.value_at(i).clone()),
        };
        proof {
            inserted_pairs(values@, key@, value);
        }
        values.insert(key.clone(), value);
        i = i + 1;
    }
    assert(environment@.take(environment@.len() as int) =~= environment@);
    values
}

/// The ports that replace those of a service.
pub open spec fn ports_for(
    published_port_override: ComposePublishedPortOverride,
    service: Seq<char>,
) -> Option<Seq<PortFields>> {
    match lookup(published_port_override.services@, service) {
        Some(ports) => Some(ports@),
        None => None,
    }
}

/// The changes to the primary service.
pub open spec fn primary_patch(
    primary_service: Seq<char>,
    plan: UpPlan,
    user: Option<String>,
    startup: Option<ComposeOverrideStartup>,
    published_port_override: ComposePublishedPortOverride,
    placeholders: Seq<Seq<char>>,
) -> ServicePatchView {
    ServicePatchView {
        name: primary_service,
        image: Some(plan.image@),
        pull_policy_never: plan.image@ != plan.base_image@,
        labels: text_pairs(plan.resources.labels@),
        environment: service_environment(
            plan.config.devcontainer.container_env@,
            plan.sensitive_container_env@,
            placeholders,
        ),
        user: opt_view(user),
        init: plan.config.devcontainer.init,
        privileged: plan.config.devcontainer.privileged,
        cap_add: views(plan.config.devcontainer.cap_add@),
        security_opt: views(plan.config.devcontainer.security_opt@),
        mounts: plan.mounts@,
        ports: ports_for(published_port_override, primary_service),
        entrypoint: match startup {
            Some(startup) => Some(views(startup.entrypoint@)),
            None => None,
        },
        command: match startup {
            Some(startup) => Some(views(startup.command@)),
            None => None,
        },
        container_name: None,
        references: None,
    }
}

/// The changes to a service whose ports are forwarded.
pub open spec fn forward_patch(
    runtime: ServiceForwardRuntime,
    plan: UpPlan,
    published_port_override: ComposePublishedPortOverride,
) -> ServicePatchView {
    ServicePatchView {
        labels: forward_labels(plan.resources.labels@),
        mounts: seq![runtime.mount],
        ports: ports_for(published_port_override, runtime.service@),
        ..unchanged_service(runtime.service@)
    }
}

/// The changes to services whose ports are forwarded.
pub open spec fn forward_patches(
    service_forward: Seq<ServiceForwardRuntime>,
    plan: UpPlan,
    published_port_override: ComposePublishedPortOverride,
) -> Seq<ServicePatchView> {
    service_forward.map_values(
        |runtime: ServiceForwardRuntime| forward_patch(runtime, plan, published_port_override),
    )
}

/// Whether the ports of a service are forwarded.
pub open spec fn is_forwarded(service_forward: Seq<ServiceForwardRuntime>, name: Seq<char>) -> bool {
    exists|i: int| 0 <= i < service_forward.len() && (#[trigger] service_forward[i]).service@ == name
}

/// The changes to services that have only their ports replaced.
pub open spec fn port_patches(
    entries: Seq<(Seq<char>, Vec<PortFields>)>,
    primary_service: Seq<char>,
    service_forward: Seq<ServiceForwardRuntime>,
) -> Seq<ServicePatchView>
    decreases entries.len(),
{
    if entries.len() == 0 {
        Seq::empty()
    } else {
        let before = port_patches(entries.drop_last(), primary_service, service_forward);
        let (name, ports) = entries.last();
        if name == primary_service || is_forwarded(service_forward, name) {
            before
        } else {
            before.push(
                ServicePatchView { ports: Some(ports@), ..unchanged_service(name) },
            )
        }
    }
}

/// The changes with variables of one service set.
pub open spec fn variables_set(
    patch: PatchView,
    service: Seq<char>,
    variables: Seq<(Seq<char>, String)>,
) -> PatchView
    decreases variables.len(),
{
    if variables.len() == 0 {
        patch
    } else {
        let before = variables_set(patch, service, variables.drop_last());
        PatchView {
            services: revised(
                before.services,
                service,
                setting_variable(
                    variables.last().0,
                    EnvironmentView::Plain(variables.last().1@),
                ),
            ),
            ..before
        }
    }
}

/// The changes with variables of services set.
pub open spec fn endpoints_applied(
    patch: PatchView,
    services: Seq<(Seq<char>, TextMap<String>)>,
) -> PatchView
    decreases services.len(),
{
    if services.len() == 0 {
        patch
    } else {
        variables_set(
            endpoints_applied(patch, services.drop_last()),
            services.last().0,
            services.last().1@,
        )
    }
}

/// Sets the variables of services that are rewritten.
pub fn apply_compose_endpoint_plan<'a>(
    patch: ComposeOverridePatch<'a>,
    endpoint_plan: &ComposeIsolationEndpointPlan,
) -> (res: ComposeOverridePatch<'a>)
    ensures
        res@ == endpoints_applied(patch@, endpoint_plan.services@),
{
    let ghost start = patch@;
    let mut patch = patch;
    let services = &endpoint_plan.services;
    let mut i: usize = 0;
    assert(services@.take(0) =~= Seq::empty());
    while i < services.len()
        invariant
            i <= services@.len(),
            patch@ == endpoints_applied(start, services@.take(i as int)),
        decreases services@.len() - i,
    {
        let ghost before = patch@;
        let service = services.key_at(i);
        let variables = services.value_at(i);
        let mut k: usize = 0;
        assert(variables@.take(0) =~= Seq::empty());
        while k < variables.len()
            invariant
                k <= variables@.len(),
                patch@ == variables_set(before, service@, variables@.take(k as int)),
            decreases variables@.len() - k,
        {
            assert(variables@.take(k as int + 1).drop_last() =~= variables@.take(k as int));
            patch.service_environment(
                service.as_str(),
                variables.key_at(k),
                variables.value_at(k),
            );
            k = k + 1;
        }
        assert(variables@.take(variables@.len() as int) =~= variables@);
        assert(services@.take(i as int + 1).drop_last() =~= services@.take(i as int));
        i = i + 1;
    }
    assert(services@.take(services@.len() as int) =~= services@);
    patch
}

/// Gives addresses to networks.
pub fn apply_compose_subnet_plan<'a>(
    patch: ComposeOverridePatch<'a>,
    subnet_plan: &'a ComposeIsolationSubnetPlan,
) -> (res: ComposeOverridePatch<'a>)
    ensures
        res@ == (PatchView {
            subnets: patch@.subnets + subnet_plan.allocations@,
            ..patch@
        }),
{
    let ghost start = patch@;
    let mut patch = patch;
    let allocations = &subnet_plan.allocations;
    let mut i: usize = 0;
    assert(start.subnets + allocations@.take(0) =~= start.subnets);
    while i < allocations.len()
        invariant
            i <= allocations@.len(),
            patch@ == (PatchView {
                subnets: start.subnets + allocations@.take(i as int),
                ..start
            }),
        decreases allocations@.len() - i,
    {
        patch.network_ipam_override(&allocations[i]);
        assert(patch@.subnets =~= start.subnets + allocations@.take(i as int + 1));
        i = i + 1;
    }
    assert(allocations@.take(allocations@.len() as int) =~= allocations@);
    patch
}

/// The changes with containers of services renamed.
pub open spec fn containers_renamed(
    services: Seq<ServicePatchView>,
    rewrites: Seq<ComposeServiceNameRewrite>,
) -> Seq<ServicePatchView>
    decreases rewrites.len(),
{
    if rewrites.len() == 0 {
        services
    } else {
        revised(
            containers_renamed(services, rewrites.drop_last()),
            rewrites.last().service@,
            renaming_container(rewrites.last()),
        )
    }
}

/// The changes with references to renamed containers adapted.
pub open spec fn references_adapted(
    services: Seq<ServicePatchView>,
    rewrites: Seq<ComposeServiceReferenceRewrite>,
) -> Seq<ServicePatchView>
    decreases rewrites.len(),
{
    if rewrites.len() == 0 {
        services
    } else {
        revised(
            references_adapted(services, rewrites.drop_last()),
            rewrites.last().service@,
            referring(rewrites.last()),
        )
    }
}

/// The renamed resources that are no containers of services.
pub open spec fn named_resources(
    rewrites: Seq<ComposeIsolationResourceRewrite>,
) -> Seq<ComposeIsolationResourceRewrite>
    decreases rewrites.len(),
{
    if rewrites.len() == 0 {
        Seq::empty()
    } else {
        let before = named_resources(rewrites.drop_last());
        if rewrites.last().kind == ComposeIsolationResourceKind::ServiceContainer {
            before
        } else {
            before.push(rewrites.last())
        }
    }
}

/// The changes with names rewritten.
pub open spec fn names_applied(
    patch: PatchView,
    names: ComposeIsolationNameRewritePlan,
) -> PatchView {
    PatchView {
        services: references_adapted(
            containers_renamed(patch.services, names.services@),
            names.service_references@,
        ),
        resources: patch.resources + named_resources(names.resources@),
        subnets: patch.subnets,
    }
}

/// Rewrites names of containers, references to them, and names of resources.
pub fn apply_compose_name_rewrites<'a>(
    patch: ComposeOverridePatch<'a>,
    name_rewrite_plan: &'a ComposeIsolationNameRewritePlan,
) -> (res: ComposeOverridePatch<'a>)
    ensures
        res@ == names_applied(patch@, *name_rewrite_plan),
{
    let ghost start = patch@;
    let mut patch = patch;
    let renamed = &name_rewrite_plan.services;
    let mut i: usize = 0;
    assert(renamed@.take(0) =~= Seq::empty());
    while i < renamed.len()
        invariant
            i <= renamed@.len(),
            patch@ == (PatchView {
                services: containers_renamed(start.services, renamed@.take(i as int)),
                ..start
            }),
        decreases renamed@.len() - i,
    {
        assert(renamed@.take(i as int + 1).drop_last() =~= renamed@.take(i as int));
        patch.service_container_name(&renamed[i]);
        i = i + 1;
    }
    assert(renamed@.take(renamed@.len() as int) =~= renamed@);
    let ghost middle = patch@;
    let referring = &name_rewrite_plan.service_references;
    let mut j: usize = 0;
    assert(referring@.take(0) =~= Seq::empty());
    while j < referring.len()
        invariant
            j <= referring@.len(),
            patch@ == (PatchView {
                services: references_adapted(middle.services, referring@.take(j as int)),
                ..middle
            }),
        decreases referring@.len() - j,
    {
        assert(referring@.take(j as int + 1).drop_last() =~= referring@.take(j as int));
        patch.service_container_references(&referring[j]);
        j = j + 1;
    }
    assert(referring@.take(referring@.len() as int) =~= referring@);
    let ghost late = patch@;
    let resources = &name_rewrite_plan.resources;
    let mut k: usize = 0;
    assert(resources@.take(0) =~= Seq::empty());
    assert(late.resources + named_resources(resources@.take(0)) =~= late.resources);
    while k < resources.len()
        invariant
            k <= resources@.len(),
            patch@ == (PatchView {
                resources: late.resources + named_resources(resources@.take(k as int)),
                ..late
            }),
        decreases resources@.len() - k,
    {
        assert(resources@.take(k as int + 1).drop_last() =~= resources@.take(k as int));
        match resources[k].kind {
            ComposeIsolationResourceKind::ServiceContainer => {},
            _ => {
                patch.resource_name(&resources[k]);
                assert(patch@.resources =~= late.resources + named_resources(
                    resources@.take(k as int + 1),
                ));
            },
        }
        k = k + 1;
    }
    assert(resources@.take(resources@.len() as int) =~= resources@);
    patch
}

/// The changes to a Compose project.
pub open spec fn project_patch(
    primary_service: Seq<char>,
    plan: UpPlan,
    user: Option<String>,
    startup: Option<ComposeOverrideStartup>,
    service_forward: Seq<ServiceForwardRuntime>,
    published_port_override: ComposePublishedPortOverride,
    isolation: ComposeIsolationOverridePlans,
    placeholders: Seq<Seq<char>>,
) -> PatchView {
    let named = names_applied(
        PatchView {
            services: seq![
                primary_patch(
                    primary_service,
                    plan,
                    user,
                    startup,
                    published_port_override,
                    placeholders,
                ),
            ] + forward_patches(service_forward, plan, published_port_override) + port_patches(
                published_port_override.services@,
                primary_service,
                service_forward,
            ),
            resources: Seq::empty(),
            subnets: Seq::empty(),
        },
        *isolation.names,
    );
    endpoints_applied(
        PatchView { subnets: named.subnets + isolation.subnets.allocations@, ..named },
        isolation.endpoints.services@,
    )
}

/// How the changes to a Compose project are made out.
pub open spec fn generates_patch<S: PlanServices>(
    services: &S,
    primary_service: Seq<char>,
    plan: UpPlan,
    startup: Option<ComposeOverrideStartup>,
    service_forward: Seq<ServiceForwardRuntime>,
    published_port_override: ComposePublishedPortOverride,
    isolation: ComposeIsolationOverridePlans,
    outcome: Result<ComposeOverridePatch, UpError>,
) -> bool {
    exists|user: Result<Option<String>, UpError>| #[trigger]
        finds_user(services, plan, user) && match user {
            Err(error) => outcome == Err::<ComposeOverridePatch, UpError>(error),
            Ok(user) => exists|placeholders: Seq<Seq<char>>|
                {
                    &&& #[trigger] are_placeholders(
                        hidden_keys(
                            plan.config.devcontainer.container_env@,
                            plan.sensitive_container_env@,
                        ),
                        placeholders,
                    )
                    &&& outcome is Ok
                    &&& outcome->Ok_0@ == project_patch(
                        primary_service,
                        plan,
                        user,
                        startup,
                        service_forward,
                        published_port_override,
                        isolation,
                        placeholders,
                    )
                },
        }
}

fn mount_references<'a>(mounts: &'a Vec<DockerMountSpec>) -> (res: Vec<&'a DockerMountSpec>)
    ensures
        res@.map_values(|mount: &DockerMountSpec| *mount) == mounts@,
{
    let mut references: Vec<&'a DockerMountSpec> = Vec::new();
    let mut i: usize = 0;
    while i < mounts.len()
        invariant
            i <= mounts@.len(),
            references@.len() == i,
            forall|j: int| 0 <= j < i ==> *(#[trigger] references@[j]) == mounts@[j],
        decreases mounts@.len() - i,
    {
        references.push(&mounts[i]);
        i = i + 1;
    }
    assert(references@.map_values(|mount: &DockerMountSpec| *mount) =~= mounts@);
    references
}

fn forwards_service(service_forward: &Vec<ServiceForwardRuntime>, name: &str) -> (res: bool)
    ensures
        res == is_forwarded(service_forward@, name@),
{
    let mut i: usize = 0;
    while i < service_forward.len()
        invariant
            i <= service_forward@.len(),
            forall|j: int| 0 <= j < i ==> (#[trigger] service_forward@[j]).service@ != name@,
        decreases service_forward@.len() - i,
    {
        if same_text(service_forward[i].service.as_str(), name) {
            return true;
        }
        i = i + 1;
    }
    false
}

fn primary_service_patch<'a>(
    primary_service: &str,
    plan: &'a UpPlan,
    user: Option<String>,
    startup: Option<ComposeOverrideStartup>,
    published_port_override: &'a ComposePublishedPortOverride,
) -> (res: ComposeOverrideServicePatch<'a>)
    ensures
        exists|placeholders: Seq<Seq<char>>|
            {
                &&& #[trigger] are_placeholders(
                    hidden_keys(
                        plan.config.devcontainer.container_env@,
                        plan.sensitive_container_env@,
                    ),
                    placeholders,
                )
                &&& res@ == primary_patch(
                    primary_service@,
                    *plan,
                    user,
                    startup,
                    *published_port_override,
                    placeholders,
                )
            },
{
    let devcontainer = &plan.config.devcontainer;
    let (entrypoint, command) = match startup {
        Some(startup) => (Some(startup.entrypoint), Some(startup.command)),
        None => (None, None),
    };
    ComposeOverrideServicePatch {
        name: primary_service.to_owned(),
        image: Some(plan.image.clone()),
        pull_policy_never: !same_text(plan.image.as_str(), plan.base_image.as_str()),
        labels: plan.resources.labels.copied(),
        environment: compose_service_environment(
            &devcontainer.container_env,
            &plan.sensitive_container_env,
        ),
        user,
        init: devcontainer.init,
        privileged: devcontainer.privileged,
        cap_add: copy_texts(&devcontainer.cap_add),
        security_opt: copy_texts(&devcontainer.security_opt),
        mounts: mount_references(&plan.mounts),
        ports: published_port_override.services.get(primary_service),
        entrypoint,
        command,
        container_name: None,
        references: None,
    }
}

/// Makes out the changes to a Compose project that a plan asks for.
pub fn generated_compose_override_patch<'a, S: PlanServices>(
    services: &S,
    primary_service: &str,
    plan: &'a UpPlan,
    startup: Option<ComposeOverrideStartup>,
    service_forward: &'a Vec<ServiceForwardRuntime>,
    published_port_override: &'a ComposePublishedPortOverride,
    isolation: ComposeIsolationOverridePlans<'a>,
) -> (res: Result<ComposeOverridePatch<'a>, UpError>)
    ensures
        generates_patch(
            services,
            primary_service@,
            *plan,
            startup,
            service_forward@,
            *published_port_override,
            isolation,
            res,
        ),
{
    let user = match compose_override_user(services, plan) {
        Ok(user) => user,
        Err(error) => {
            return Err(error);
        },
    };
    let ghost given_user = user;
    let primary = primary_service_patch(
        primary_service,
        plan,
        user,
        startup,
        published_port_override,
    );
    let ghost primary_view = primary@;
    let mut patch = ComposeOverridePatch::new(primary);
    let ghost forwards = forward_patches(service_forward@, *plan, *published_port_override);
    let mut i: usize = 0;
    assert(seq![primary_view] + forwards.take(0) =~= seq![primary_view]);
    while i < service_forward.len()
        invariant
            i <= service_forward@.len(),
            forwards == forward_patches(service_forward@, *plan, *published_port_override),
            patch@ == (PatchView {
                services: seq![primary_view] + forwards.take(i as int),
                resources: Seq::empty(),
                subnets: Seq::empty(),
            }),
        decreases service_forward@.len() - i,
    {
        let runtime = &service_forward[i];
        let mut service = ComposeOverrideServicePatch::new(runtime.service.as_str());
        let ghost plain = service@;
        service.labels = compose_service_forward_labels(&plan.resources.labels);
        let mut mounts: Vec<&'a DockerMountSpec> = Vec::new();
        mounts.push(&runtime.mount);
        service.mounts = mounts;
        service.ports = published_port_override.services.get(runtime.service.as_str());
        assert(service@.mounts =~= seq![runtime.mount]);
        assert(service@ == forward_patch(*runtime, *plan, *published_port_override));
        patch.service(service);
        assert(patch@.services =~= seq![primary_view] + forwards.take(i as int + 1));
        i = i + 1;
    }
    assert(forwards.take(forwards.len() as int) =~= forwards);
    let ghost head = patch@.services;
    let entries = &published_port_override.services;
    let mut k: usize = 0;
    assert(entries@.take(0) =~= Seq::empty());
    assert(head + port_patches(entries@.take(0), primary_service@, service_forward@) =~= head);
    while k < entries.len()
        invariant
            k <= entries@.len(),
            *entries == published_port_override.services,
            patch@ == (PatchView {
                services: head + port_patches(
                    entries@.take(k as int),
                    primary_service@,
                    service_forward@,
                ),
                resources: Seq::empty(),
                subnets: Seq::empty(),
            }),
        decreases entries@.len() - k,
    {
        assert(entries@.take(k as int + 1).drop_last() =~= entries@.take(k as int));
        let name = entries.key_at(k).as_str();
        if !same_text(name, primary_service) && !forwards_service(service_forward, name) {
            let mut service = ComposeOverrideServicePatch::new(name);
            service.ports = Some(entries.value_at(k));
            patch.service(service);
            assert(patch@.services =~= head + port_patches(
                entries@.take(k as int + 1),
                primary_service@,
                service_forward@,
            ));
        }
        k = k + 1;
    }
    assert(entries@.take(entries@.len() as int) =~= entries@);
    let patch = apply_compose_name_rewrites(patch, isolation.names);
    let patch = apply_compose_subnet_plan(patch, isolation.subnets);
    let patch = apply_compose_endpoint_plan(patch, isolation.endpoints);
    assert(finds_user(services, *plan, Ok(given_user)));
    Ok(patch)
}

/// Whether texts ascend strictly.
pub open spec fn ascend(texts: Seq<Seq<char>>) -> bool {
    forall|i: int, j: int|
        0 <= i < j < texts.len() ==> text_less(#[trigger] texts[i], #[trigger] texts[j])
}

proof fn first_of_ascending_is_least(texts: Seq<Seq<char>>, text: Seq<char>)
    requires
        ascend(texts),
        texts.contains(text),
    ensures
        text == texts[0] || text_less(texts[0], text),
{
    let i = choose|i: int| 0 <= i < texts.len() && texts[i] == text;
    if i > 0 {
        assert(text_less(texts[0], texts[i]));
    }
}

/// Two ascending lists of the same texts are the same list.
pub(crate) proof fn ascending_lists_of_the_same_texts(left: Seq<Seq<char>>, right: Seq<Seq<char>>)
    requires
        ascend(left),
        ascend(right),
        forall|text: Seq<char>| left.contains(text) == right.contains(text),
    ensures
        left == right,
    decreases left.len(),
{
    if left.len() == 0 {
        if right.len() > 0 {
            assert(right.contains(right[0]));
        }
        assert(left =~= right);
    } else {
        assert(left.contains(left[0]));
        assert(right.contains(left[0]));
        assert(right.contains(right[0]));
        assert(left.contains(right[0]));
        first_of_ascending_is_least(left, right[0]);
        first_of_ascending_is_least(right, left[0]);
        if left[0] != right[0] {
            text_less_transitive(left[0], right[0], left[0]);
            text_less_irreflexive(left[0]);
        }
        let l = left.drop_first();
        let r = right.drop_first();
        assert forall|i: int, j: int| 0 <= i < j < l.len() implies text_less(
            #[trigger] l[i],
            #[trigger] l[j],
        ) by {
            assert(text_less(left[i + 1], left[j + 1]));
        }
        assert forall|i: int, j: int| 0 <= i < j < r.len() implies text_less(
            #[trigger] r[i],
            #[trigger] r[j],
        ) by {
            assert(text_less(right[i + 1], right[j + 1]));
        }
        assert forall|text: Seq<char>| l.contains(text) == r.contains(text) by {
            tail_holds(left, text);
            tail_holds(right, text);
        }
        ascending_lists_of_the_same_texts(l, r);
        assert(left =~= seq![left[0]] + l);
        assert(right =~= seq![right[0]] + r);
    }
}

proof fn tail_holds(texts: Seq<Seq<char>>, text: Seq<char>)
    requires
        ascend(texts),
        texts.len() > 0,
    ensures
        texts.drop_first().contains(text) == (texts.contains(text) && text != texts[0]),
{
    if texts.drop_first().contains(text) {
        let i = choose|i: int| 0 <= i < texts.drop_first().len() && texts.drop_first()[i] == text;
        assert(texts[i + 1] == text);
        assert(text_less(texts[0], texts[i + 1]));
        text_less_irreflexive(text);
    }
    if texts.contains(text) && text != texts[0] {
        let i = choose|i: int| 0 <= i < texts.len() && texts[i] == text;
        assert(texts.drop_first()[i - 1] == text);
    }
}

proof fn lookup_finds_keys<V>(entries: Seq<(Seq<char>, V)>, key: Seq<char>)
    ensures
        (lookup(entries, key) is Some) == keys_of(entries).contains(key),
    decreases entries.len(),
{
    if entries.len() > 0 {
        let rest = entries.drop_first();
        lookup_finds_keys(rest, key);
        if entries[0].0 == key {
            assert(keys_of(entries)[0] == key);
        } else {
            if keys_of(rest).contains(key) {
                let i = choose|i: int| 0 <= i < keys_of(rest).len() && keys_of(rest)[i] == key;
                assert(keys_of(entries)[i + 1] == key);
            }
            if keys_of(entries).contains(key) {
                let i = choose|i: int|
                    0 <= i < keys_of(entries).len() && keys_of(entries)[i] == key;
                assert(keys_of(rest)[i - 1] == key);
            }
        }
    }
}

proof fn hidden_keys_are_shared(
    entries: Seq<(Seq<char>, String)>,
    sensitive: Seq<(Seq<char>, SensitiveEnvValue)>,
)
    requires
        keys_ascend(entries),
    ensures
        ascend(hidden_keys(entries, sensitive)),
        forall|key: Seq<char>| #[trigger]
            hidden_keys(entries, sensitive).contains(key) == (keys_of(entries).contains(key)
                && lookup(sensitive, key) is Some),
    decreases entries.len(),
{
    let hidden = hidden_keys(entries, sensitive);
    if entries.len() > 0 {
        let rest = entries.drop_last();
        let last = entries.last().0;
        let before = hidden_keys(rest, sensitive);
        assert(keys_ascend(rest)) by {
            assert forall|i: int, j: int| 0 <= i < j < rest.len() implies text_less(
                #[trigger] rest[i].0,
                #[trigger] rest[j].0,
            ) by {
                assert(text_less(entries[i].0, entries[j].0));
            }
        }
        hidden_keys_are_shared(rest, sensitive);
        assert forall|key: Seq<char>| keys_of(entries).contains(key) == (keys_of(rest).contains(key)
            || key == last) by {
            if keys_of(entries).contains(key) {
                let i = choose|i: int|
                    0 <= i < keys_of(entries).len() && keys_of(entries)[i] == key;
                if i < rest.len() {
                    assert(keys_of(rest)[i] == key);
                }
            }
            if keys_of(rest).contains(key) {
                let i = choose|i: int| 0 <= i < keys_of(rest).len() && keys_of(rest)[i] == key;
                assert(keys_of(entries)[i] == key);
            }
            assert(keys_of(entries)[entries.len() - 1] == last);
        }
        if lookup(sensitive, last) is Some {
            assert forall|i: int, j: int| 0 <= i < j < hidden.len() implies text_less(
                #[trigger] hidden[i],
                #[trigger] hidden[j],
            ) by {
                if j < before.len() {
                    assert(text_less(before[i], before[j]));
                } else {
                    assert(before.contains(before[i]));
                    let k = choose|k: int|
                        0 <= k < keys_of(rest).len() && keys_of(rest)[k] == before[i];
                    assert(text_less(entries[k].0, entries[entries.len() - 1].0));
                }
            }
            assert forall|key: Seq<char>| #[trigger] hidden.contains(key) == (keys_of(
                entries,
            ).contains(key) && lookup(sensitive, key) is Some) by {
                if hidden.contains(key) {
                    let i = choose|i: int| 0 <= i < hidden.len() && hidden[i] == key;
                    if i < before.len() {
                        assert(before[i] == key);
                        assert(before.contains(key));
                    }
                }
                if before.contains(key) {
                    let i = choose|i: int| 0 <= i < before.len() && before[i] == key;
                    assert(hidden[i] == key);
                }
                assert(hidden[hidden.len() - 1] == last);
            }
        }
    }
}

/// The generated file takes hidden values from exactly the variables that
/// Compose is handed: whatever names the file and the environment were given,
/// they are the same, key by key.
pub proof fn file_and_environment_agree(
    environment: Seq<(Seq<char>, String)>,
    sensitive: Seq<(Seq<char>, SensitiveEnvValue)>,
    in_file: Seq<Seq<char>>,
    in_environment: Seq<Seq<char>>,
)
    requires
        keys_ascend(environment),
        keys_ascend(sensitive),
        forall|key: Seq<char>| #[trigger]
            keys_of(sensitive).contains(key) ==> keys_of(environment).contains(key),
        are_placeholders(hidden_keys(environment, sensitive), in_file),
        are_placeholders(keys_of(sensitive), in_environment),
    ensures
        hidden_keys(environment, sensitive) == keys_of(sensitive),
        in_file == in_environment,
{
    hidden_keys_are_shared(environment, sensitive);
    assert(ascend(keys_of(sensitive))) by {
        assert forall|i: int, j: int| 0 <= i < j < keys_of(sensitive).len() implies text_less(
            #[trigger] keys_of(sensitive)[i],
            #[trigger] keys_of(sensitive)[j],
        ) by {
            assert(text_less(sensitive[i].0, sensitive[j].0));
        }
    }
    assert forall|key: Seq<char>| hidden_keys(environment, sensitive).contains(key) == keys_of(
        sensitive,
    ).contains(key) by {
        lookup_finds_keys(sensitive, key);
    }
    ascending_lists_of_the_same_texts(hidden_keys(environment, sensitive), keys_of(sensitive));
    placeholders_are_unique(keys_of(sensitive), in_file, in_environment);
}

/// The generated file holds no hidden value: the changes to a project do not
/// depend on what the hidden values are.
pub proof fn file_is_independent_of_secrets(
    environment: Seq<(Seq<char>, String)>,
    other: Seq<(Seq<char>, String)>,
    sensitive: Seq<(Seq<char>, SensitiveEnvValue)>,
    placeholders: Seq<Seq<char>>,
)
    requires
        environment.len() == other.len(),
        forall|i: int|
            0 <= i < environment.len() ==> {
                &&& (#[trigger] environment[i]).0 == other[i].0
                &&& lookup(sensitive, environment[i].0) is None ==> environment[i].1@
                    == other[i].1@
            },
    ensures
        hidden_keys(environment, sensitive) == hidden_keys(other, sensitive),
        service_environment(environment, sensitive, placeholders) == service_environment(
            other,
            sensitive,
            placeholders,
        ),
    decreases environment.len(),
{
    if environment.len() > 0 {
        let rest = environment.drop_last();
        let other_rest = other.drop_last();
        assert forall|i: int| 0 <= i < rest.len() implies {
            &&& (#[trigger] rest[i]).0 == other_rest[i].0
            &&& lookup(sensitive, rest[i].0) is None ==> rest[i].1@ == other_rest[i].1@
        } by {
            assert(environment[i].0 == other[i].0);
        }
        file_is_independent_of_secrets(rest, other_rest, sensitive, placeholders);
        assert(environment[environment.len() - 1].0 == other[other.len() - 1].0);
    }
}

} // verus!
