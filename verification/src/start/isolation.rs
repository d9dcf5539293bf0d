//! What Docker holds that a clone of a Compose project may collide with.

use crate::compose::isolation::ComposeIsolationResourceKind;
use crate::config::{ResolvedComposeCloneIsolation, ResolvedComposeCloneIsolationEndpoint};
use crate::docker::copy_optional_text;
use crate::start::inspect::ContainerInspect;
use crate::start::listing::COMPOSE_PROJECT_LABEL;
use crate::text::{
    non_empty_trimmed, opt_view, same_text, text_is_less, text_less, text_less_total,
    text_less_transitive, trim_leading, trimmed_non_empty, views, without_leading,
};
use crate::text_map::{lookup, TextMap};
use vstd::prelude::*;

verus! {

/// The label that names the network of a Compose project.
pub const COMPOSE_NETWORK_LABEL: &'static str = "com.docker.compose.network";

/// A resource whose name the Compose files fix.
#[derive(Debug, Clone)]
pub struct ComposeIsolationFixedName {
    /// What it is.
    pub kind: ComposeIsolationResourceKind,
    /// Its name.
    pub name: String,
}

/// What the Compose files fix that a clone may collide with.
#[derive(Debug, Clone)]
pub struct ComposeIsolationScan {
    /// Names.
    pub fixed_names: Vec<ComposeIsolationFixedName>,
    /// Networks with fixed addresses.
    pub networks: Vec<String>,
}

/// The addresses of a network that Docker holds.
#[derive(Debug, Clone, PartialEq, Eq)]
pub struct ComposeIsolationDockerIpamConfig {
    /// The addresses.
    pub subnet: Option<String>,
    /// The gateway.
    pub gateway: Option<String>,
}

/// A network that Docker holds.
#[derive(Debug, Clone)]
pub struct ComposeIsolationDockerNetwork {
    /// Its name.
    pub name: String,
    /// Its Compose project.
    pub compose_project: Option<String>,
    /// Its key in that project.
    pub compose_network: Option<String>,
    /// How far it reaches.
    pub scope: Option<String>,
    /// What gives addresses out.
    pub ipam_driver: Option<String>,
    /// The addresses.
    pub ipam_configs: Vec<ComposeIsolationDockerIpamConfig>,
    /// Whether containers are on it.
    pub has_attached_containers: bool,
}

/// A resource that Docker holds.
#[derive(Debug, Clone, PartialEq, Eq)]
pub struct ComposeIsolationDockerResource {
    /// What it is.
    pub kind: ComposeIsolationResourceKind,
    /// Its name.
    pub name: String,
    /// Its Compose project.
    pub compose_project: Option<String>,
}

/// What Docker holds.
#[derive(Debug, Clone)]
pub struct ComposeIsolationDaemonSnapshot {
    /// Networks.
    pub networks: Vec<ComposeIsolationDockerNetwork>,
    /// Everything that has a name.
    pub resources: Vec<ComposeIsolationDockerResource>,
}

impl ComposeIsolationDaemonSnapshot {
    /// Nothing.
    pub fn empty() -> (res: Self)
        ensures
            res.networks@.len() == 0,
            res.resources@.len() == 0,
    {
        ComposeIsolationDaemonSnapshot { networks: Vec::new(), resources: Vec::new() }
    }
}

/// How addresses of a network are given out, as Docker tells it.
#[derive(Debug, Clone)]
pub struct DockerNetworkIpam {
    /// What gives addresses out.
    pub driver: Option<String>,
    /// The addresses.
    pub config: Vec<ComposeIsolationDockerIpamConfig>,
}

/// A network, as Docker tells it.
#[derive(Debug, Clone)]
pub struct DockerNetworkInspect {
    /// Its name.
    pub name: Option<String>,
    /// Its labels.
    pub labels: Option<TextMap<String>>,
    /// How far it reaches.
    pub scope: Option<String>,
    /// How addresses are given out.
    pub ipam: Option<DockerNetworkIpam>,
    /// The containers on it.
    pub containers: Vec<String>,
}

/// A volume, config or secret, as Docker tells it.
#[derive(Debug, Clone)]
pub struct DockerNamedResource {
    /// Its name.
    pub name: Option<String>,
    /// Its labels.
    pub labels: Option<TextMap<String>>,
}

/// Names in order, with one more among them unless it is there already.
pub open spec fn with_name(names: Seq<Seq<char>>, name: Seq<char>) -> Seq<Seq<char>>
    decreases names.len(),
{
    if names.len() == 0 {
        seq![name]
    } else if names[0] == name {
        names
    } else if text_less(name, names[0]) {
        seq![name] + names
    } else {
        seq![names[0]] + with_name(names.drop_first(), name)
    }
}

/// The fixed names of one kind, in order, each once.
pub open spec fn fixed_names_of(
    fixed: Seq<ComposeIsolationFixedName>,
    kind: ComposeIsolationResourceKind,
) -> Seq<Seq<char>>
    decreases fixed.len(),
{
    if fixed.len() == 0 {
        Seq::empty()
    } else {
        let before = fixed_names_of(fixed.drop_last(), kind);
        if fixed.last().kind == kind {
            with_name(before, fixed.last().name@)
        } else {
            before
        }
    }
}

fn insert_name(names: &mut Vec<String>, name: &String)
    ensures
        views(final(names)@) == with_name(views(old(names)@), name@),
{
    let ghost before = views(names@);
    let mut i: usize = 0;
    assert(before.take(0) + with_name(before.skip(0), name@) =~= with_name(before, name@)) by {
        assert(before.skip(0) =~= before);
    }
    while i < names.len()
        invariant
            *names == *old(names),
            before == views(names@),
            i <= names@.len(),
            before.take(i as int) + with_name(before.skip(i as int), name@) == with_name(
                before,
                name@,
            ),
        ensures
            *names == *old(names),
            i <= names@.len(),
            before.take(i as int) + (seq![name@] + before.skip(i as int)) == with_name(
                before,
                name@,
            ),
        decreases names@.len() - i,
    {
        let ghost rest = before.skip(i as int);
        assert(rest.drop_first() =~= before.skip(i as int + 1));
        assert(rest[0] == names@[i as int]@);
        if same_text(names[i].as_str(), name.as_str()) {
            assert(before.take(i as int) + rest =~= before);
            return ;
        }
        if text_is_less(name.as_str(), names[i].as_str()) {
            break;
        }
        assert(before.take(i as int + 1) + with_name(rest.drop_first(), name@) =~= before.take(
            i as int,
        ) + (seq![rest[0]] + with_name(rest.drop_first(), name@)));
        i = i + 1;
    }
    assert(seq![name@] + before.skip(before.len() as int) =~= seq![name@]);
    names.insert(i, name.clone());
    assert(views(names@) =~= before.take(i as int) + (seq![name@] + before.skip(i as int)));
}

/// The fixed names of one kind, in order, each once.
pub fn fixed_resource_names(
    scan: &ComposeIsolationScan,
    kind: ComposeIsolationResourceKind,
) -> (res: Vec<String>)
    ensures
        views(res@) == fixed_names_of(scan.fixed_names@, kind),
{
    let fixed = &scan.fixed_names;
    let mut names: Vec<String> = Vec::new();
    let mut i: usize = 0;
    assert(fixed@.take(0) =~= Seq::empty());
    assert(views(names@) =~= Seq::empty());
    while i < fixed.len()
        invariant
            i <= fixed@.len(),
            views(names@) == fixed_names_of(fixed@.take(i as int), kind),
        decreases fixed@.len() - i,
    {
        assert(fixed@.take(i as int + 1).drop_last() =~= fixed@.take(i as int));
        if fixed[i].kind == kind {
            insert_name(&mut names, &fixed[i].name);
        }
        i = i + 1;
    }
    assert(fixed@.take(fixed@.len() as int) =~= fixed@);
    names
}

proof fn with_name_keeps_order(names: Seq<Seq<char>>, name: Seq<char>)
    requires
        crate::compose::generate::ascend(names),
    ensures
        crate::compose::generate::ascend(with_name(names, name)),
        forall|other: Seq<char>| #[trigger]
            with_name(names, name).contains(other) == (names.contains(other) || other == name),
    decreases names.len(),
{
    let after = with_name(names, name);
    if names.len() == 0 {
        assert forall|other: Seq<char>| #[trigger] after.contains(other) == (names.contains(other)
            || other == name) by {
            assert(after[0] == name);
        }
    } else if names[0] == name {
    } else if text_less(name, names[0]) {
        assert forall|i: int, j: int| 0 <= i < j < after.len() implies text_less(
            #[trigger] after[i],
            #[trigger] after[j],
        ) by {
            if i > 0 {
                assert(text_less(names[i - 1], names[j - 1]));
            } else if j > 1 {
                assert(text_less(names[0], names[j - 1]));
                text_less_transitive(name, names[0], names[j - 1]);
            }
        }
        assert forall|other: Seq<char>| #[trigger] after.contains(other) == (names.contains(other)
            || other == name) by {
            if after.contains(other) {
                let i = choose|i: int| 0 <= i < after.len() && after[i] == other;
                if i > 0 {
                    assert(names[i - 1] == other);
                }
            }
            if names.contains(other) {
                let i = choose|i: int| 0 <= i < names.len() && names[i] == other;
                assert(after[i + 1] == other);
            }
            assert(after[0] == name);
        }
    } else {
        let rest = names.drop_first();
        let tail = with_name(rest, name);
        assert forall|i: int, j: int| 0 <= i < j < rest.len() implies text_less(
            #[trigger] rest[i],
            #[trigger] rest[j],
        ) by {
            assert(text_less(names[i + 1], names[j + 1]));
        }
        with_name_keeps_order(rest, name);
        text_less_total(names[0], name);
        assert forall|i: int, j: int| 0 <= i < j < after.len() implies text_less(
            #[trigger] after[i],
            #[trigger] after[j],
        ) by {
            if i > 0 {
                assert(text_less(tail[i - 1], tail[j - 1]));
            } else {
                assert(tail.contains(tail[j - 1]));
                if tail[j - 1] != name {
                    let k = choose|k: int| 0 <= k < rest.len() && rest[k] == tail[j - 1];
                    assert(text_less(names[0], names[k + 1]));
                }
            }
        }
        assert forall|other: Seq<char>| #[trigger] after.contains(other) == (names.contains(other)
            || other == name) by {
            if after.contains(other) {
                let i = choose|i: int| 0 <= i < after.len() && after[i] == other;
                if i == 0 {
                    assert(names[0] == other);
                } else {
                    assert(tail[i - 1] == other);
                    assert(tail.contains(other));
                    if other != name {
                        let k = choose|k: int| 0 <= k < rest.len() && rest[k] == other;
                        assert(names[k + 1] == other);
                    }
                }
            }
            if names.contains(other) || other == name {
                if other == names[0] {
                    assert(after[0] == other);
                } else {
                    if other != name {
                        let k = choose|k: int| 0 <= k < names.len() && names[k] == other;
                        assert(rest[k - 1] == other);
                    }
                    assert(tail.contains(other));
                    let k = choose|k: int| 0 <= k < tail.len() && tail[k] == other;
                    assert(after[k + 1] == other);
                }
            }
        }
    }
}

/// The fixed names of one kind are listed in order, each once, and none is
/// left out.
pub proof fn fixed_names_are_complete(
    fixed: Seq<ComposeIsolationFixedName>,
    kind: ComposeIsolationResourceKind,
)
    ensures
        crate::compose::generate::ascend(fixed_names_of(fixed, kind)),
        forall|name: Seq<char>| #[trigger]
            fixed_names_of(fixed, kind).contains(name) == exists|i: int|
                0 <= i < fixed.len() && (#[trigger] fixed[i]).kind == kind && fixed[i].name@ == name,
    decreases fixed.len(),
{
    let names = fixed_names_of(fixed, kind);
    if fixed.len() > 0 {
        let rest = fixed.drop_last();
        let before = fixed_names_of(rest, kind);
        let last = fixed.last();
        fixed_names_are_complete(rest, kind);
        if last.kind == kind {
            with_name_keeps_order(before, last.name@);
        }
        assert forall|name: Seq<char>| #[trigger] names.contains(name) == exists|i: int|
            0 <= i < fixed.len() && (#[trigger] fixed[i]).kind == kind && fixed[i].name@ == name by {
            if names.contains(name) {
                if before.contains(name) {
                    let i = choose|i: int|
                        0 <= i < rest.len() && (#[trigger] rest[i]).kind == kind && rest[i].name@
                            == name;
                    assert(fixed[i].kind == kind && fixed[i].name@ == name);
                } else {
                    assert(fixed[fixed.len() - 1].kind == kind);
                }
            }
            if exists|i: int|
                0 <= i < fixed.len() && (#[trigger] fixed[i]).kind == kind && fixed[i].name@
                    == name {
                let i = choose|i: int|
                    0 <= i < fixed.len() && (#[trigger] fixed[i]).kind == kind && fixed[i].name@
                        == name;
                if i < rest.len() {
                    assert(rest[i].kind == kind && rest[i].name@ == name);
                    assert(before.contains(name));
                }
            }
        }
    }
}

/// A label without white space around it, unless nothing is left.
pub open spec fn label_text(labels: Option<TextMap<String>>, label: Seq<char>) -> Option<
    Seq<char>,
> {
    match labels {
        Some(labels) => match lookup(labels@, label) {
            Some(value) => trimmed_non_empty(value@),
            None => None,
        },
        None => None,
    }
}

fn label_value(labels: &Option<TextMap<String>>, label: &str) -> (res: Option<String>)
    ensures
        opt_view(res) == label_text(*labels, label@),
{
    match labels {
        Some(labels) => match labels.get(label) {
            Some(value) => match non_empty_trimmed(value.as_str()) {
                Some(text) => Some(text.to_owned()),
                None => None,
            },
            None => None,
        },
        None => None,
    }
}

/// The Compose project that labels name.
pub open spec fn project_of(labels: Option<TextMap<String>>) -> Option<Seq<char>> {
    label_text(labels, "com.docker.compose.project"@)
}

/// A name without white space around it, or the one that was asked for.
pub open spec fn told_name(name: Option<Seq<char>>, requested: Seq<char>) -> Seq<char> {
    match name {
        Some(name) => match trimmed_non_empty(name) {
            Some(name) => name,
            None => requested,
        },
        None => requested,
    }
}

fn name_or_requested(name: Option<&str>, requested: &str) -> (res: String)
    ensures
        res@ == told_name(crate::uid_gid::borrowed_view(name), requested@),
{
    match name {
        Some(name) => match non_empty_trimmed(name) {
            Some(name) => name.to_owned(),
            None => requested.to_owned(),
        },
        None => requested.to_owned(),
    }
}

/// Whether a resource is what Docker told.
pub open spec fn is_resource(
    resource: ComposeIsolationDockerResource,
    kind: ComposeIsolationResourceKind,
    name: Seq<char>,
    compose_project: Option<Seq<char>>,
) -> bool {
    &&& resource.kind == kind
    &&& resource.name@ == name
    &&& opt_view(resource.compose_project) == compose_project
}

/// Whether a resource was added to what Docker holds, and nothing else.
pub open spec fn adds_resource(
    before: ComposeIsolationDaemonSnapshot,
    after: ComposeIsolationDaemonSnapshot,
    kind: ComposeIsolationResourceKind,
    name: Seq<char>,
    compose_project: Option<Seq<char>>,
) -> bool {
    &&& after.networks == before.networks
    &&& after.resources@.len() == before.resources@.len() + 1
    &&& after.resources@.drop_last() == before.resources@
    &&& is_resource(after.resources@.last(), kind, name, compose_project)
}

fn push_resource(
    snapshot: &mut ComposeIsolationDaemonSnapshot,
    kind: ComposeIsolationResourceKind,
    name: String,
    compose_project: Option<String>,
)
    ensures
        adds_resource(
            *old(snapshot),
            *final(snapshot),
            kind,
            name@,
            opt_view(compose_project),
        ),
{
    let ghost before = snapshot.resources@;
    snapshot.resources.push(ComposeIsolationDockerResource { kind, name, compose_project });
    assert(snapshot.resources@.drop_last() =~= before);
}

/// Adds a container to what Docker holds, under the name that Docker tells,
/// without the slash in front of it.
pub fn add_compose_isolation_container(
    snapshot: &mut ComposeIsolationDaemonSnapshot,
    requested_name: &str,
    container: &ContainerInspect,
)
    ensures
        adds_resource(
            *old(snapshot),
            *final(snapshot),
            ComposeIsolationResourceKind::ServiceContainer,
            told_name(
                match container.name {
                    Some(name) => Some(without_leading(name@, '/')),
                    None => None,
                },
                requested_name@,
            ),
            project_of(container.spec_labels()),
        ),
{
    let name = match &container.name {
        Some(name) => name_or_requested(Some(trim_leading(name.as_str(), '/')), requested_name),
        None => name_or_requested(None, requested_name),
    };
    let compose_project = match &container.config {
        Some(config) => label_value(&config.labels, COMPOSE_PROJECT_LABEL),
        None => None,
    };
    push_resource(
        snapshot,
        ComposeIsolationResourceKind::ServiceContainer,
        name,
        compose_project,
    );
}

/// Adds a volume to what Docker holds.
pub fn add_compose_isolation_volume(
    snapshot: &mut ComposeIsolationDaemonSnapshot,
    requested_name: &str,
    volume: &DockerNamedResource,
)
    ensures
        adds_resource(
            *old(snapshot),
            *final(snapshot),
            ComposeIsolationResourceKind::Volume,
            told_name(opt_view(volume.name), requested_name@),
            project_of(volume.labels),
        ),
{
    add_compose_isolation_swarm_resource(
        snapshot,
        ComposeIsolationResourceKind::Volume,
        requested_name,
        volume,
    );
}

/// Adds a config or secret to what Docker holds.
pub fn add_compose_isolation_swarm_resource(
    snapshot: &mut ComposeIsolationDaemonSnapshot,
    kind: ComposeIsolationResourceKind,
    requested_name: &str,
    resource: &DockerNamedResource,
)
    ensures
        adds_resource(
            *old(snapshot),
            *final(snapshot),
            kind,
            told_name(opt_view(resource.name), requested_name@),
            project_of(resource.labels),
        ),
{
    let name = match &resource.name {
        Some(name) => name_or_requested(Some(name.as_str()), requested_name),
        None => name_or_requested(None, requested_name),
    };
    let compose_project = label_value(&resource.labels, COMPOSE_PROJECT_LABEL);
    push_resource(snapshot, kind, name, compose_project);
}

/// The addresses of a network.
pub open spec fn ipam_configs_of(ipam: Option<DockerNetworkIpam>) -> Seq<
    ComposeIsolationDockerIpamConfig,
> {
    match ipam {
        Some(ipam) => ipam.config@,
        None => Seq::empty(),
    }
}

/// Whether a network is what Docker told.
pub open spec fn is_network(
    network: ComposeIsolationDockerNetwork,
    told: DockerNetworkInspect,
    name: Seq<char>,
) -> bool {
    &&& network.name@ == name
    &&& opt_view(network.compose_project) == project_of(told.labels)
    &&& opt_view(network.compose_network) == label_text(
        told.labels,
        "com.docker.compose.network"@,
    )
    &&& network.scope == told.scope
    &&& network.ipam_driver == match told.ipam {
        Some(ipam) => ipam.driver,
        None => None,
    }
    &&& network.ipam_configs@ == ipam_configs_of(told.ipam)
    &&& network.has_attached_containers == (told.containers@.len() > 0)
}

/// Whether a network was added to what Docker holds; nothing is where it has
/// no name.
pub open spec fn adds_network(
    before: ComposeIsolationDaemonSnapshot,
    after: ComposeIsolationDaemonSnapshot,
    told: DockerNetworkInspect,
) -> bool {
    let name = match told.name {
        Some(name) => trimmed_non_empty(name@),
        None => None,
    };
    match name {
        None => after == before,
        Some(name) => {
            &&& after.networks@.len() == before.networks@.len() + 1
            &&& after.networks@.drop_last() == before.networks@
            &&& is_network(after.networks@.last(), told, name)
            &&& after.resources@.len() == before.resources@.len() + 1
            &&& after.resources@.drop_last() == before.resources@
            &&& is_resource(
                after.resources@.last(),
                ComposeIsolationResourceKind::Network,
                name,
                project_of(told.labels),
            )
        },
    }
}

/// Adds a network to what Docker holds.
pub fn add_compose_isolation_network(
    snapshot: &mut ComposeIsolationDaemonSnapshot,
    network: DockerNetworkInspect,
)
    ensures
        adds_network(*old(snapshot), *final(snapshot), network),
{
    let ghost networks = snapshot.networks@;
    let ghost resources = snapshot.resources@;
    let name = match &network.name {
        Some(name) => match non_empty_trimmed(name.as_str()) {
            Some(name) => name.to_owned(),
            None => {
                return ;
            },
        },
        None => {
            return ;
        },
    };
    let compose_project = label_value(&network.labels, COMPOSE_PROJECT_LABEL);
    let compose_network = label_value(&network.labels, COMPOSE_NETWORK_LABEL);
    let (ipam_driver, ipam_configs) = match network.ipam {
        Some(ipam) => (ipam.driver, ipam.config),
        None => (None, Vec::new()),
    };
    assert(ipam_configs@ =~= ipam_configs_of(network.ipam));
    snapshot.networks.push(
        ComposeIsolationDockerNetwork {
            name: name.clone(),
            compose_project: copy_optional_text(&compose_project),
            compose_network,
            scope: network.scope,
            ipam_driver,
            ipam_configs,
            has_attached_containers: network.containers.len() > 0,
        },
    );
    snapshot.resources.push(
        ComposeIsolationDockerResource {
            kind: ComposeIsolationResourceKind::Network,
            name,
            compose_project,
        },
    );
    assert(snapshot.networks@.drop_last() =~= networks);
    assert(snapshot.resources@.drop_last() =~= resources);
}

/// Whether a project needs no look at what Docker holds.
pub open spec fn is_idle(
    scan: ComposeIsolationScan,
    clone_isolation: ResolvedComposeCloneIsolation,
) -> bool {
    &&& scan.fixed_names@.len() == 0
    &&& scan.networks@.len() == 0
    &&& !clone_isolation.enabled || clone_isolation.endpoints@.len() == 0
}

/// Whether a project needs no look at what Docker holds: its files fix
/// nothing, and no variable is rewritten.
pub fn compose_isolation_is_idle(
    scan: &ComposeIsolationScan,
    clone_isolation: &ResolvedComposeCloneIsolation,
) -> (res: bool)
    ensures
        res == is_idle(*scan, *clone_isolation),
{
    scan.fixed_names.len() == 0 && scan.networks.len() == 0 && (!clone_isolation.enabled
        || clone_isolation.endpoints.len() == 0)
}

/// Whether the networks that Docker holds are looked at.
pub fn compose_isolation_needs_networks(scan: &ComposeIsolationScan) -> (res: bool)
    ensures
        res == (scan.networks@.len() > 0 || fixed_names_of(
            scan.fixed_names@,
            ComposeIsolationResourceKind::Network,
        ).len() > 0),
{
    let names = fixed_resource_names(scan, ComposeIsolationResourceKind::Network);
    assert(views(names@).len() == names@.len());
    scan.networks.len() > 0 || names.len() > 0
}

/// The variables that are rewritten: none where clones are not kept apart.
pub fn compose_isolation_endpoint_declarations(
    clone_isolation: &ResolvedComposeCloneIsolation,
) -> (res: Vec<ResolvedComposeCloneIsolationEndpoint>)
    ensures
        res@ == if clone_isolation.enabled {
            clone_isolation.endpoints@
        } else {
            Seq::empty()
        },
{
    let mut declarations: Vec<ResolvedComposeCloneIsolationEndpoint> = Vec::new();
    if clone_isolation.enabled {
        let endpoints = &clone_isolation.endpoints;
        let mut i: usize = 0;
        while i < endpoints.len()
            invariant
                i <= endpoints@.len(),
                declarations@ == endpoints@.take(i as int),
            decreases endpoints@.len() - i,
        {
            let endpoint = &endpoints[i];
            declarations.push(
                ResolvedComposeCloneIsolationEndpoint {
                    service: endpoint.service.clone(),
                    env: endpoint.env.clone(),
                    value: endpoint.value.clone(),
                },
            );
            assert(declarations@ =~= endpoints@.take(i as int + 1));
            i = i + 1;
        }
        assert(declarations@ =~= endpoints@);
    }
    declarations
}

} // verus!
