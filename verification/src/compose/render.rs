//! The text of the file that adapts a Compose project.

use crate::compose::generate::{
    generated_compose_override_patch, generates_patch, ComposeIsolationOverridePlans,
    ComposeOverrideStartup, ServiceForwardRuntime,
};
use crate::compose::isolation::{
    ComposeIsolationEndpointPlan, ComposeIsolationNameRewritePlan, ComposeIsolationResourceKind,
    ComposeIsolationResourceRewrite, ComposeIsolationSubnetAllocation,
    ComposeIsolationSubnetPlan, ComposeServiceNameRewrite, ComposeServiceReferenceRewrite,
};
use crate::compose::override_hash::{mount_type_name, mount_type_word};
use crate::compose::patch::{
    ComposeEnvironmentValue, ComposeOverridePatch, ComposeOverrideServicePatch, EnvironmentView,
    PatchView, ServicePatchView,
};
use crate::compose::ports::{ComposePublishedPortOverride, PortFields};
use crate::config::MountType;
use crate::docker::{DockerMountSpec, MountBindOptions, MountVolumeOptions};
use crate::error::UpError;
use crate::json::JsonValue;
use crate::services::PlanServices;
use crate::text::{opt_view, same_text, views};
use crate::text_map::TextMap;
use crate::types::UpPlan;
use crate::yaml::{
    entries_text, entry_views, item_views, quoted, quoted_text, render_document,
    yaml_view_of_parts, Yaml, YamlView,
};
use vstd::prelude::*;
use vstd::string::*;

verus! {

/// Entries of a mapping, by what they hold.
pub type Entries = Seq<(Seq<char>, YamlView)>;

/// An entry where there is a value, and nothing where there is none.
pub open spec fn entry_if(key: Seq<char>, value: Option<YamlView>) -> Entries {
    match value {
        Some(value) => seq![(key, value)],
        None => Seq::empty(),
    }
}

/// A text in quotes.
pub open spec fn quoted_view(text: Seq<char>) -> YamlView {
    YamlView::Scalar(quoted_text(text))
}

/// An optional text in quotes.
pub open spec fn quoted_if(text: Option<Seq<char>>) -> Option<YamlView> {
    match text {
        Some(text) => Some(quoted_view(text)),
        None => None,
    }
}

/// Yes or no.
pub open spec fn flag_view(value: bool) -> YamlView {
    YamlView::Scalar(
        if value {
            "true"@
        } else {
            "false"@
        },
    )
}

/// An optional yes or no.
pub open spec fn flag_if(value: Option<bool>) -> Option<YamlView> {
    match value {
        Some(value) => Some(flag_view(value)),
        None => None,
    }
}

/// Texts in quotes.
pub open spec fn texts_view(texts: Seq<Seq<char>>, replaces: bool) -> YamlView {
    YamlView::Sequence(texts.map_values(|text: Seq<char>| quoted_view(text)), replaces)
}

/// Texts in quotes, where there are any.
pub open spec fn some_texts(texts: Seq<Seq<char>>) -> Option<YamlView> {
    if texts.len() > 0 {
        Some(texts_view(texts, false))
    } else {
        None
    }
}

/// Optional texts in quotes.
pub open spec fn texts_if(texts: Option<Seq<Seq<char>>>, replaces: bool) -> Option<YamlView> {
    match texts {
        Some(texts) => Some(texts_view(texts, replaces)),
        None => None,
    }
}

/// Keys and texts in quotes.
pub open spec fn pairs_view(pairs: Seq<(Seq<char>, Seq<char>)>) -> YamlView {
    YamlView::Mapping(
        pairs.map_values(
            |pair: (Seq<char>, Seq<char>)| (quoted_text(pair.0), quoted_view(pair.1)),
        ),
    )
}

/// What a variable of a service is set to.
pub open spec fn environment_text(value: EnvironmentView) -> Seq<char> {
    match value {
        EnvironmentView::Plain(text) => text,
        EnvironmentView::Interpolated(placeholder, _) => "${"@ + placeholder + "}"@,
    }
}

/// The variables of a service.
pub open spec fn environment_view(environment: Seq<(Seq<char>, EnvironmentView)>) -> YamlView {
    pairs_view(
        environment.map_values(
            |pair: (Seq<char>, EnvironmentView)| (pair.0, environment_text(pair.1)),
        ),
    )
}

/// How mounts below a bind mount are treated, where that is set.
pub open spec fn recursion_word(options: MountBindOptions) -> Option<Seq<char>> {
    if options.non_recursive == Some(true) {
        Some("disabled"@)
    } else if options.read_only_force_recursive == Some(true) {
        Some("readonly"@)
    } else if options.read_only_non_recursive == Some(true) {
        Some("writable"@)
    } else {
        None
    }
}

/// The options of a bind mount. A missing source is created only where that
/// is asked for.
pub open spec fn bind_view(options: Option<MountBindOptions>) -> YamlView {
    YamlView::Mapping(
        match options {
            Some(options) => entry_if(
                "propagation"@,
                match options.propagation {
                    Some(propagation) => Some(quoted_view(propagation.spec_name())),
                    None => None,
                },
            ) + seq![("create_host_path"@, flag_view(options.create_mountpoint == Some(true)))]
                + entry_if("recursive"@, quoted_if(recursion_word(options))),
            None => seq![("create_host_path"@, flag_view(false))],
        },
    )
}

/// The options of a volume mount.
pub open spec fn volume_entries(options: MountVolumeOptions) -> Entries {
    entry_if("nocopy"@, flag_if(options.no_copy)) + entry_if(
        "subpath"@,
        quoted_if(opt_view(options.subpath)),
    )
}

/// A mount.
pub open spec fn mount_view(mount: DockerMountSpec) -> YamlView {
    YamlView::Mapping(
        seq![("type"@, YamlView::Scalar(mount_type_word(mount.mount_type)))] + entry_if(
            "source"@,
            quoted_if(opt_view(mount.source)),
        ) + seq![("target"@, quoted_view(mount.target@))] + entry_if(
            "read_only"@,
            if mount.read_only {
                Some(flag_view(true))
            } else {
                None
            },
        ) + entry_if("consistency"@, quoted_if(opt_view(mount.consistency))) + entry_if(
            "bind"@,
            if mount.mount_type == MountType::Bind {
                Some(bind_view(mount.bind_options))
            } else {
                None
            },
        ) + entry_if(
            "volume"@,
            match mount.volume_options {
                Some(options) => if volume_entries(options).len() > 0 {
                    Some(YamlView::Mapping(volume_entries(options)))
                } else {
                    None
                },
                None => None,
            },
        ),
    )
}

/// The mounts of a service, where there are any.
pub open spec fn mounts_if(mounts: Seq<DockerMountSpec>) -> Option<YamlView> {
    if mounts.len() > 0 {
        Some(
            YamlView::Sequence(
                mounts.map_values(|mount: DockerMountSpec| mount_view(mount)),
                false,
            ),
        )
    } else {
        None
    }
}

/// A field of a port.
pub open spec fn json_view(value: JsonValue) -> YamlView {
    match value {
        JsonValue::Text(text) => quoted_view(text@),
        JsonValue::Literal(text) => YamlView::Scalar(text@),
    }
}

/// A port.
pub open spec fn port_view(fields: PortFields) -> YamlView {
    YamlView::Mapping(
        fields@.map_values(|field: (Seq<char>, JsonValue)| (field.0, json_view(field.1))),
    )
}

/// The ports that replace those of a service.
pub open spec fn ports_if(ports: Option<Seq<PortFields>>) -> Option<YamlView> {
    match ports {
        Some(ports) => Some(
            YamlView::Sequence(ports.map_values(|fields: PortFields| port_view(fields)), true),
        ),
        None => None,
    }
}

/// The networks on which a renamed container still answers to its old name.
pub open spec fn alias_networks(rewrite: ComposeServiceNameRewrite) -> Option<YamlView> {
    if rewrite.networks@.len() > 0 {
        Some(
            YamlView::Mapping(
                views(rewrite.networks@).map_values(
                    |network: Seq<char>|
                        (
                            quoted_text(network),
                            YamlView::Mapping(
                                seq![
                                    ("aliases"@, texts_view(seq![rewrite.original_name@], false)),
                                ],
                            ),
                        ),
                ),
            ),
        )
    } else {
        None
    }
}

/// The entries for a renamed container.
pub open spec fn name_entries(rewrite: Option<ComposeServiceNameRewrite>) -> Entries {
    match rewrite {
        Some(rewrite) => seq![("container_name"@, quoted_view(rewrite.rewritten_name@))] + entry_if(
            "networks"@,
            alias_networks(rewrite),
        ),
        None => Seq::empty(),
    }
}

/// Optional texts of a rewrite.
pub open spec fn opt_texts(texts: Option<Vec<String>>) -> Option<Seq<Seq<char>>> {
    match texts {
        Some(texts) => Some(views(texts@)),
        None => None,
    }
}

/// The entries for references to renamed containers.
pub open spec fn reference_entries(rewrite: Option<ComposeServiceReferenceRewrite>) -> Entries {
    match rewrite {
        Some(rewrite) => entry_if("network_mode"@, quoted_if(opt_view(rewrite.network_mode)))
            + entry_if("ipc"@, quoted_if(opt_view(rewrite.ipc))) + entry_if(
            "pid"@,
            quoted_if(opt_view(rewrite.pid)),
        ) + entry_if("volumes_from"@, texts_if(opt_texts(rewrite.volumes_from), true)) + entry_if(
            "external_links"@,
            texts_if(opt_texts(rewrite.external_links), true),
        ),
        None => Seq::empty(),
    }
}

/// The changes to a service.
pub open spec fn service_view(service: ServicePatchView) -> YamlView {
    YamlView::Mapping(
        entry_if("image"@, quoted_if(service.image)) + entry_if(
            "pull_policy"@,
            if service.pull_policy_never {
                Some(quoted_view("never"@))
            } else {
                None
            },
        ) + entry_if(
            "labels"@,
            if service.labels.len() > 0 {
                Some(pairs_view(service.labels))
            } else {
                None
            },
        ) + entry_if(
            "environment"@,
            if service.environment.len() > 0 {
                Some(environment_view(service.environment))
            } else {
                None
            },
        ) + entry_if("user"@, quoted_if(service.user)) + entry_if("init"@, flag_if(service.init))
            + entry_if("privileged"@, flag_if(service.privileged)) + entry_if(
            "cap_add"@,
            some_texts(service.cap_add),
        ) + entry_if("security_opt"@, some_texts(service.security_opt)) + entry_if(
            "ports"@,
            ports_if(service.ports),
        ) + entry_if("volumes"@, mounts_if(service.mounts)) + entry_if(
            "entrypoint"@,
            texts_if(service.entrypoint, false),
        ) + entry_if("command"@, texts_if(service.command, false)) + name_entries(
            service.container_name,
        ) + reference_entries(service.references),
    )
}

/// The addresses of a network.
pub open spec fn ipam_view(allocation: ComposeIsolationSubnetAllocation) -> YamlView {
    let config = seq![("subnet"@, quoted_view(allocation.planned_subnet@))] + entry_if(
        "gateway"@,
        quoted_if(opt_view(allocation.planned_gateway)),
    ) + entry_if("ip_range"@, quoted_if(opt_view(allocation.planned_ip_range))) + entry_if(
        "aux_addresses"@,
        if allocation.planned_aux_addresses@.len() > 0 {
            Some(pairs_view(crate::compose::patch::text_pairs(allocation.planned_aux_addresses@)))
        } else {
            None
        },
    );
    YamlView::Mapping(
        seq![("config"@, YamlView::Sequence(seq![YamlView::Mapping(config)], true))],
    )
}

/// The addresses that a network is given, where it is.
pub open spec fn subnet_for(
    subnets: Seq<ComposeIsolationSubnetAllocation>,
    network: Seq<char>,
) -> Option<ComposeIsolationSubnetAllocation>
    decreases subnets.len(),
{
    if subnets.len() == 0 {
        None
    } else if subnets[0].network@ == network {
        Some(subnets[0])
    } else {
        subnet_for(subnets.drop_first(), network)
    }
}

/// The addresses of a network, where it is given any.
pub open spec fn ipam_if(
    subnets: Seq<ComposeIsolationSubnetAllocation>,
    network: Seq<char>,
) -> Option<YamlView> {
    match subnet_for(subnets, network) {
        Some(allocation) => Some(ipam_view(allocation)),
        None => None,
    }
}

/// The new names of resources of one kind; a network has its addresses beside
/// its name.
pub open spec fn renamed(
    resources: Seq<ComposeIsolationResourceRewrite>,
    subnets: Seq<ComposeIsolationSubnetAllocation>,
    kind: ComposeIsolationResourceKind,
) -> Entries
    decreases resources.len(),
{
    if resources.len() == 0 {
        Seq::empty()
    } else {
        let before = renamed(resources.drop_last(), subnets, kind);
        let last = resources.last();
        if last.kind == kind {
            before.push(
                (
                    quoted_text(last.resource@),
                    YamlView::Mapping(
                        seq![("name"@, quoted_view(last.rewritten_name@))] + entry_if(
                            "ipam"@,
                            if kind == ComposeIsolationResourceKind::Network {
                                ipam_if(subnets, last.resource@)
                            } else {
                                None
                            },
                        ),
                    ),
                ),
            )
        } else {
            before
        }
    }
}

/// Whether a network is renamed.
pub open spec fn network_is_renamed(
    resources: Seq<ComposeIsolationResourceRewrite>,
    network: Seq<char>,
) -> bool {
    exists|i: int|
        0 <= i < resources.len() && (#[trigger] resources[i]).kind
            == ComposeIsolationResourceKind::Network && resources[i].resource@ == network
}

/// The networks that are given addresses and keep their names.
pub open spec fn addressed(
    subnets: Seq<ComposeIsolationSubnetAllocation>,
    resources: Seq<ComposeIsolationResourceRewrite>,
) -> Entries
    decreases subnets.len(),
{
    if subnets.len() == 0 {
        Seq::empty()
    } else {
        let before = addressed(subnets.drop_last(), resources);
        let last = subnets.last();
        if network_is_renamed(resources, last.network@) {
            before
        } else {
            before.push(
                (
                    quoted_text(last.network@),
                    YamlView::Mapping(seq![("ipam"@, ipam_view(last))]),
                ),
            )
        }
    }
}

/// A section of the file, where it has entries.
pub open spec fn section(entries: Entries) -> Option<YamlView> {
    if entries.len() > 0 {
        Some(YamlView::Mapping(entries))
    } else {
        None
    }
}

/// The file that adapts a Compose project.
pub open spec fn document_view(patch: PatchView) -> Entries {
    seq![
        (
            "services"@,
            YamlView::Mapping(
                patch.services.map_values(
                    |service: ServicePatchView| (quoted_text(service.name), service_view(service)),
                ),
            ),
        ),
    ] + entry_if(
        "networks"@,
        section(
            renamed(patch.resources, patch.subnets, ComposeIsolationResourceKind::Network)
                + addressed(patch.subnets, patch.resources),
        ),
    ) + entry_if(
        "volumes"@,
        section(renamed(patch.resources, patch.subnets, ComposeIsolationResourceKind::Volume)),
    ) + entry_if(
        "configs"@,
        section(renamed(patch.resources, patch.subnets, ComposeIsolationResourceKind::Config)),
    ) + entry_if(
        "secrets"@,
        section(renamed(patch.resources, patch.subnets, ComposeIsolationResourceKind::Secret)),
    )
}

/// The text of the file that adapts a Compose project.
pub open spec fn document_text(patch: PatchView) -> Seq<char> {
    entries_text(document_view(patch), ""@)
}

/// A node, by what it holds, where there is one.
pub open spec fn node_view(node: Option<Yaml>) -> Option<YamlView> {
    match node {
        Some(node) => Some(node@),
        None => None,
    }
}

fn put(entries: &mut Vec<(String, Yaml)>, key: &str, node: Option<Yaml>)
    ensures
        entry_views(final(entries)@) == entry_views(old(entries)@) + entry_if(
            key@,
            node_view(node),
        ),
{
    let ghost before = entries@;
    if let Some(node) = node {
        entries.push((key.to_owned(), node));
    }
    assert(entry_views(entries@) =~= entry_views(before) + entry_if(key@, node_view(node)));
}

fn mapping(entries: Vec<(String, Yaml)>) -> (res: Yaml)
    ensures
        res@ == YamlView::Mapping(entry_views(entries@)),
{
    let node = Yaml::Mapping(entries);
    proof {
        yaml_view_of_parts(node);
    }
    node
}

fn sequence(items: Vec<Yaml>, replaces: bool) -> (res: Yaml)
    ensures
        res@ == YamlView::Sequence(item_views(items@), replaces),
{
    let node = Yaml::Sequence { items, replaces };
    proof {
        yaml_view_of_parts(node);
    }
    node
}

fn quoted_node(text: &str) -> (res: Yaml)
    ensures
        res@ == quoted_view(text@),
{
    Yaml::Scalar(quoted(text))
}

fn quoted_node_if(text: &Option<String>) -> (res: Option<Yaml>)
    ensures
        node_view(res) == quoted_if(opt_view(*text)),
{
    match text {
        Some(text) => Some(quoted_node(text.as_str())),
        None => None,
    }
}

fn flag_node(value: bool) -> (res: Yaml)
    ensures
        res@ == flag_view(value),
{
    if value {
        Yaml::Scalar("true".to_owned())
    } else {
        Yaml::Scalar("false".to_owned())
    }
}

fn flag_node_if(value: Option<bool>) -> (res: Option<Yaml>)
    ensures
        node_view(res) == flag_if(value),
{
    match value {
        Some(value) => Some(flag_node(value)),
        None => None,
    }
}

fn texts_node(texts: &Vec<String>, replaces: bool) -> (res: Yaml)
    ensures
        res@ == texts_view(views(texts@), replaces),
{
    let mut items: Vec<Yaml> = Vec::new();
    let mut i: usize = 0;
    while i < texts.len()
        invariant
            i <= texts@.len(),
            items@.len() == i,
            forall|j: int| 0 <= j < i ==> (#[trigger] items@[j])@ == quoted_view(texts@[j]@),
        decreases texts@.len() - i,
    {
        items.push(quoted_node(texts[i].as_str()));
        i = i + 1;
    }
    assert(item_views(items@) =~= views(texts@).map_values(|text: Seq<char>| quoted_view(text)));
    sequence(items, replaces)
}

fn some_texts_node(texts: &Vec<String>) -> (res: Option<Yaml>)
    ensures
        node_view(res) == some_texts(views(texts@)),
{
    if texts.len() > 0 {
        Some(texts_node(texts, false))
    } else {
        None
    }
}

fn texts_node_if(texts: &Option<Vec<String>>, replaces: bool) -> (res: Option<Yaml>)
    ensures
        node_view(res) == texts_if(opt_texts(*texts), replaces),
{
    match texts {
        Some(texts) => Some(texts_node(texts, replaces)),
        None => None,
    }
}

fn pairs_node(map: &TextMap<String>) -> (res: Yaml)
    ensures
        res@ == pairs_view(crate::compose::patch::text_pairs(map@)),
{
    let ghost pairs = crate::compose::patch::text_pairs(map@);
    let mut entries: Vec<(String, Yaml)> = Vec::new();
    let mut i: usize = 0;
    while i < map.len()
        invariant
            i <= map@.len(),
            pairs == crate::compose::patch::text_pairs(map@),
            entries@.len() == i,
            forall|j: int|
                0 <= j < i ==> (#[trigger] entries@[j]).0@ == quoted_text(pairs[j].0)
                    && entries@[j].1@ == quoted_view(pairs[j].1),
        decreases map@.len() - i,
    {
        entries.push((quoted(map.key_at(i).as_str()), quoted_node(map.value_at(i).as_str())));
        i = i + 1;
    }
    assert(entry_views(entries@) =~= pairs_view(pairs)->Mapping_0);
    mapping(entries)
}

fn environment_value_text(value: &ComposeEnvironmentValue) -> (res: String)
    ensures
        res@ == environment_text(value@),
{
    match value {
        ComposeEnvironmentValue::Plain(text) => text.clone(),
        ComposeEnvironmentValue::Interpolated { placeholder, redactions: _ } => {
            let mut text = "${".to_owned();
            text.append(placeholder.as_str());
            text.append("}");
            text
        },
    }
}

fn environment_node(environment: &TextMap<ComposeEnvironmentValue>) -> (res: Yaml)
    ensures
        res@ == environment_view(crate::compose::patch::environment_pairs(environment@)),
{
    let ghost pairs = crate::compose::patch::environment_pairs(environment@);
    let mut entries: Vec<(String, Yaml)> = Vec::new();
    let mut i: usize = 0;
    while i < environment.len()
        invariant
            i <= environment@.len(),
            pairs == crate::compose::patch::environment_pairs(environment@),
            entries@.len() == i,
            forall|j: int|
                0 <= j < i ==> (#[trigger] entries@[j]).0@ == quoted_text(pairs[j].0)
                    && entries@[j].1@ == quoted_view(environment_text(pairs[j].1)),
        decreases environment@.len() - i,
    {
        let text = environment_value_text(environment.value_at(i));
        entries.push((quoted(environment.key_at(i).as_str()), quoted_node(text.as_str())));
        i = i + 1;
    }
    assert(entry_views(entries@) =~= environment_view(pairs)->Mapping_0);
    mapping(entries)
}

fn recursion_name(options: &MountBindOptions) -> (res: Option<String>)
    ensures
        opt_view(res) == recursion_word(*options),
{
    if options.non_recursive == Some(true) {
        Some("disabled".to_owned())
    } else if options.read_only_force_recursive == Some(true) {
        Some("readonly".to_owned())
    } else if options.read_only_non_recursive == Some(true) {
        Some("writable".to_owned())
    } else {
        None
    }
}

fn bind_node(options: &Option<MountBindOptions>) -> (res: Yaml)
    ensures
        res@ == bind_view(*options),
{
    let mut entries: Vec<(String, Yaml)> = Vec::new();
    match options {
        Some(options) => {
            let propagation = match options.propagation {
                Some(propagation) => Some(quoted_node(propagation.name())),
                None => None,
            };
            put(&mut entries, "propagation", propagation);
            put(
                &mut entries,
                "create_host_path",
                Some(flag_node(options.create_mountpoint == Some(true))),
            );
            put(&mut entries, "recursive", quoted_node_if(&recursion_name(options)));
        },
        None => {
            put(&mut entries, "create_host_path", Some(flag_node(false)));
        },
    }
    assert(entry_views(entries@) =~= bind_view(*options)->Mapping_0);
    mapping(entries)
}

fn volume_node(options: &MountVolumeOptions) -> (res: Option<Yaml>)
    ensures
        node_view(res) == if volume_entries(*options).len() > 0 {
            Some(YamlView::Mapping(volume_entries(*options)))
        } else {
            None
        },
{
    let mut entries: Vec<(String, Yaml)> = Vec::new();
    put(&mut entries, "nocopy", flag_node_if(options.no_copy));
    put(&mut entries, "subpath", quoted_node_if(&options.subpath));
    assert(entry_views(entries@) =~= volume_entries(*options));
    assert(entry_views(entries@).len() == entries@.len());
    if entries.len() > 0 {
        Some(mapping(entries))
    } else {
        None
    }
}

fn mount_node(mount: &DockerMountSpec) -> (res: Yaml)
    ensures
        res@ == mount_view(*mount),
{
    let mut entries: Vec<(String, Yaml)> = Vec::new();
    put(
        &mut entries,
        "type",
        Some(Yaml::Scalar(mount_type_name(mount.mount_type).to_owned())),
    );
    put(&mut entries, "source", quoted_node_if(&mount.source));
    put(&mut entries, "target", Some(quoted_node(mount.target.as_str())));
    let read_only = if mount.read_only {
        Some(flag_node(true))
    } else {
        None
    };
    put(&mut entries, "read_only", read_only);
    put(&mut entries, "consistency", quoted_node_if(&mount.consistency));
    let bind = if mount.mount_type == MountType::Bind {
        Some(bind_node(&mount.bind_options))
    } else {
        None
    };
    put(&mut entries, "bind", bind);
    let volume = match &mount.volume_options {
        Some(options) => volume_node(options),
        None => None,
    };
    put(&mut entries, "volume", volume);
    assert(entry_views(entries@) =~= mount_view(*mount)->Mapping_0);
    mapping(entries)
}

fn mounts_node<'a>(mounts: &Vec<&'a DockerMountSpec>) -> (res: Option<Yaml>)
    ensures
        node_view(res) == mounts_if(mounts@.map_values(|mount: &DockerMountSpec| *mount)),
{
    let ghost all = mounts@.map_values(|mount: &DockerMountSpec| *mount);
    if mounts.len() == 0 {
        return None;
    }
    let mut items: Vec<Yaml> = Vec::new();
    let mut i: usize = 0;
    while i < mounts.len()
        invariant
            i <= mounts@.len(),
            all == mounts@.map_values(|mount: &DockerMountSpec| *mount),
            items@.len() == i,
            forall|j: int| 0 <= j < i ==> (#[trigger] items@[j])@ == mount_view(all[j]),
        decreases mounts@.len() - i,
    {
        items.push(mount_node(mounts[i]));
        i = i + 1;
    }
    assert(item_views(items@) =~= all.map_values(|mount: DockerMountSpec| mount_view(mount)));
    Some(sequence(items, false))
}

fn json_node(value: &JsonValue) -> (res: Yaml)
    ensures
        res@ == json_view(*value),
{
    match value {
        JsonValue::Text(text) => quoted_node(text.as_str()),
        JsonValue::Literal(text) => Yaml::Scalar(text.clone()),
    }
}

fn port_node(fields: &PortFields) -> (res: Yaml)
    ensures
        res@ == port_view(*fields),
{
    let mut entries: Vec<(String, Yaml)> = Vec::new();
    let mut i: usize = 0;
    while i < fields.len()
        invariant
            i <= fields@.len(),
            entries@.len() == i,
            forall|j: int|
                0 <= j < i ==> (#[trigger] entries@[j]).0@ == fields@[j].0 && entries@[j].1@
                    == json_view(fields@[j].1),
        decreases fields@.len() - i,
    {
        entries.push((fields.key_at(i).clone(), json_node(fields.value_at(i))));
        i = i + 1;
    }
    assert(entry_views(entries@) =~= port_view(*fields)->Mapping_0);
    mapping(entries)
}

fn ports_node(ports: &Vec<PortFields>) -> (res: Yaml)
    ensures
        Some(res@) == ports_if(Some(ports@)),
{
    let mut items: Vec<Yaml> = Vec::new();
    let mut i: usize = 0;
    while i < ports.len()
        invariant
            i <= ports@.len(),
            items@.len() == i,
            forall|j: int| 0 <= j < i ==> (#[trigger] items@[j])@ == port_view(ports@[j]),
        decreases ports@.len() - i,
    {
        items.push(port_node(&ports[i]));
        i = i + 1;
    }
    assert(item_views(items@) =~= ports@.map_values(|fields: PortFields| port_view(fields)));
    sequence(items, true)
}

fn alias_node(rewrite: &ComposeServiceNameRewrite) -> (res: Option<Yaml>)
    ensures
        node_view(res) == alias_networks(*rewrite),
{
    if rewrite.networks.len() == 0 {
        return None;
    }
    let ghost aliases = YamlView::Mapping(
        seq![("aliases"@, texts_view(seq![rewrite.original_name@], false))],
    );
    let mut entries: Vec<(String, Yaml)> = Vec::new();
    let mut i: usize = 0;
    while i < rewrite.networks.len()
        invariant
            i <= rewrite.networks@.len(),
            aliases == YamlView::Mapping(
                seq![("aliases"@, texts_view(seq![rewrite.original_name@], false))],
            ),
            entries@.len() == i,
            forall|j: int|
                0 <= j < i ==> (#[trigger] entries@[j]).0@ == quoted_text(rewrite.networks@[j]@)
                    && entries@[j].1@ == aliases,
        decreases rewrite.networks@.len() - i,
    {
        let mut names: Vec<String> = Vec::new();
        names.push(rewrite.original_name.clone());
        assert(views(names@) =~= seq![rewrite.original_name@]);
        let mut alias: Vec<(String, Yaml)> = Vec::new();
        put(&mut alias, "aliases", Some(texts_node(&names, false)));
        assert(entry_views(alias@) =~= aliases->Mapping_0);
        entries.push((quoted(rewrite.networks[i].as_str()), mapping(alias)));
        i = i + 1;
    }
    assert(entry_views(entries@) =~= alias_networks(*rewrite)->0->Mapping_0);
    Some(mapping(entries))
}

fn put_names<'a>(
    entries: &mut Vec<(String, Yaml)>,
    rewrite: Option<&'a ComposeServiceNameRewrite>,
)
    ensures
        entry_views(final(entries)@) == entry_views(old(entries)@) + name_entries(
            crate::compose::patch::opt_deref(rewrite),
        ),
{
    let ghost before = entry_views(entries@);
    if let Some(rewrite) = rewrite {
        put(entries, "container_name", Some(quoted_node(rewrite.rewritten_name.as_str())));
        put(entries, "networks", alias_node(rewrite));
    }
    assert(entry_views(entries@) =~= before + name_entries(
        crate::compose::patch::opt_deref(rewrite),
    ));
}

fn put_references<'a>(
    entries: &mut Vec<(String, Yaml)>,
    rewrite: Option<&'a ComposeServiceReferenceRewrite>,
)
    ensures
        entry_views(final(entries)@) == entry_views(old(entries)@) + reference_entries(
            crate::compose::patch::opt_deref(rewrite),
        ),
{
    let ghost before = entry_views(entries@);
    if let Some(rewrite) = rewrite {
        put(entries, "network_mode", quoted_node_if(&rewrite.network_mode));
        put(entries, "ipc", quoted_node_if(&rewrite.ipc));
        put(entries, "pid", quoted_node_if(&rewrite.pid));
        put(entries, "volumes_from", texts_node_if(&rewrite.volumes_from, true));
        put(entries, "external_links", texts_node_if(&rewrite.external_links, true));
    }
    assert(entry_views(entries@) =~= before + reference_entries(
        crate::compose::patch::opt_deref(rewrite),
    ));
}

fn service_node<'a>(service: &ComposeOverrideServicePatch<'a>) -> (res: Yaml)
    ensures
        res@ == service_view(service@),
{
    let mut entries: Vec<(String, Yaml)> = Vec::new();
    put(&mut entries, "image", quoted_node_if(&service.image));
    let pull_policy = if service.pull_policy_never {
        Some(quoted_node("never"))
    } else {
        None
    };
    put(&mut entries, "pull_policy", pull_policy);
    let labels = if service.labels.len() > 0 {
        Some(pairs_node(&service.labels))
    } else {
        None
    };
    put(&mut entries, "labels", labels);
    let environment = if service.environment.len() > 0 {
        Some(environment_node(&service.environment))
    } else {
        None
    };
    put(&mut entries, "environment", environment);
    put(&mut entries, "user", quoted_node_if(&service.user));
    put(&mut entries, "init", flag_node_if(service.init));
    put(&mut entries, "privileged", flag_node_if(service.privileged));
    put(&mut entries, "cap_add", some_texts_node(&service.cap_add));
    put(&mut entries, "security_opt", some_texts_node(&service.security_opt));
    let ports = match service.ports {
        Some(ports) => Some(ports_node(ports)),
        None => None,
    };
    put(&mut entries, "ports", ports);
    put(&mut entries, "volumes", mounts_node(&service.mounts));
    put(&mut entries, "entrypoint", texts_node_if(&service.entrypoint, false));
    put(&mut entries, "command", texts_node_if(&service.command, false));
    put_names(&mut entries, service.container_name);
    put_references(&mut entries, service.references);
    assert(entry_views(entries@) =~= service_view(service@)->Mapping_0);
    mapping(entries)
}

fn ipam_node(allocation: &ComposeIsolationSubnetAllocation) -> (res: Yaml)
    ensures
        res@ == ipam_view(*allocation),
{
    let mut config: Vec<(String, Yaml)> = Vec::new();
    put(&mut config, "subnet", Some(quoted_node(allocation.planned_subnet.as_str())));
    put(&mut config, "gateway", quoted_node_if(&allocation.planned_gateway));
    put(&mut config, "ip_range", quoted_node_if(&allocation.planned_ip_range));
    let addresses = if allocation.planned_aux_addresses.len() > 0 {
        Some(pairs_node(&allocation.planned_aux_addresses))
    } else {
        None
    };
    put(&mut config, "aux_addresses", addresses);
    let ghost expected = ipam_view(*allocation)->Mapping_0[0].1->Sequence_0[0];
    assert(entry_views(config@) =~= expected->Mapping_0);
    let mut items: Vec<Yaml> = Vec::new();
    items.push(mapping(config));
    assert(item_views(items@) =~= seq![expected]);
    let mut entries: Vec<(String, Yaml)> = Vec::new();
    put(&mut entries, "config", Some(sequence(items, true)));
    assert(entry_views(entries@) =~= ipam_view(*allocation)->Mapping_0);
    mapping(entries)
}

fn ipam_node_if<'a>(
    subnets: &Vec<&'a ComposeIsolationSubnetAllocation>,
    network: &str,
) -> (res: Option<Yaml>)
    ensures
        node_view(res) == ipam_if(
            subnets@.map_values(|allocation: &ComposeIsolationSubnetAllocation| *allocation),
            network@,
        ),
{
    let ghost all = subnets@.map_values(
        |allocation: &ComposeIsolationSubnetAllocation| *allocation,
    );
    let mut i: usize = 0;
    assert(all.skip(0) =~= all);
    while i < subnets.len()
        invariant
            i <= subnets@.len(),
            all == subnets@.map_values(
                |allocation: &ComposeIsolationSubnetAllocation| *allocation,
            ),
            subnet_for(all, network@) == subnet_for(all.skip(i as int), network@),
        decreases subnets@.len() - i,
    {
        assert(all.skip(i as int).drop_first() =~= all.skip(i as int + 1));
        if same_text(subnets[i].network.as_str(), network) {
            return Some(ipam_node(subnets[i]));
        }
        i = i + 1;
    }
    None
}

fn renamed_entries<'a>(
    resources: &Vec<&'a ComposeIsolationResourceRewrite>,
    subnets: &Vec<&'a ComposeIsolationSubnetAllocation>,
    kind: ComposeIsolationResourceKind,
) -> (res: Vec<(String, Yaml)>)
    ensures
        entry_views(res@) == renamed(
            resources@.map_values(|rewrite: &ComposeIsolationResourceRewrite| *rewrite),
            subnets@.map_values(|allocation: &ComposeIsolationSubnetAllocation| *allocation),
            kind,
        ),
{
    let ghost all = resources@.map_values(|rewrite: &ComposeIsolationResourceRewrite| *rewrite);
    let ghost given = subnets@.map_values(
        |allocation: &ComposeIsolationSubnetAllocation| *allocation,
    );
    let mut entries: Vec<(String, Yaml)> = Vec::new();
    let mut i: usize = 0;
    assert(all.take(0) =~= Seq::empty());
    assert(entry_views(entries@) =~= renamed(all.take(0), given, kind));
    while i < resources.len()
        invariant
            i <= resources@.len(),
            all == resources@.map_values(|rewrite: &ComposeIsolationResourceRewrite| *rewrite),
            given == subnets@.map_values(
                |allocation: &ComposeIsolationSubnetAllocation| *allocation,
            ),
            entry_views(entries@) == renamed(all.take(i as int), given, kind),
        decreases resources@.len() - i,
    {
        let ghost before = entry_views(entries@);
        assert(all.take(i as int + 1).drop_last() =~= all.take(i as int));
        let rewrite = resources[i];
        if rewrite.kind == kind {
            let mut fields: Vec<(String, Yaml)> = Vec::new();
            put(&mut fields, "name", Some(quoted_node(rewrite.rewritten_name.as_str())));
            let ipam = if kind == ComposeIsolationResourceKind::Network {
                ipam_node_if(subnets, rewrite.resource.as_str())
            } else {
                None
            };
            put(&mut fields, "ipam", ipam);
            let ghost expected = renamed(all.take(i as int + 1), given, kind).last().1;
            assert(entry_views(fields@) =~= expected->Mapping_0);
            entries.push((quoted(rewrite.resource.as_str()), mapping(fields)));
            assert(entry_views(entries@) =~= before.push(
                (quoted_text(rewrite.resource@), expected),
            ));
        }
        i = i + 1;
    }
    assert(all.take(all.len() as int) =~= all);
    entries
}

fn renames_network<'a>(
    resources: &Vec<&'a ComposeIsolationResourceRewrite>,
    network: &str,
) -> (res: bool)
    ensures
        res == network_is_renamed(
            resources@.map_values(|rewrite: &ComposeIsolationResourceRewrite| *rewrite),
            network@,
        ),
{
    let ghost all = resources@.map_values(|rewrite: &ComposeIsolationResourceRewrite| *rewrite);
    let mut i: usize = 0;
    while i < resources.len()
        invariant
            i <= resources@.len(),
            all == resources@.map_values(|rewrite: &ComposeIsolationResourceRewrite| *rewrite),
            forall|j: int|
                0 <= j < i ==> !((#[trigger] all[j]).kind == ComposeIsolationResourceKind::Network
                    && all[j].resource@ == network@),
        decreases resources@.len() - i,
    {
        if resources[i].kind == ComposeIsolationResourceKind::Network && same_text(
            resources[i].resource.as_str(),
            network,
        ) {
            assert(all[i as int].resource@ == network@);
            return true;
        }
        assert(all[i as int] == *resources@[i as int]);
        i = i + 1;
    }
    false
}

fn addressed_entries<'a>(
    subnets: &Vec<&'a ComposeIsolationSubnetAllocation>,
    resources: &Vec<&'a ComposeIsolationResourceRewrite>,
) -> (res: Vec<(String, Yaml)>)
    ensures
        entry_views(res@) == addressed(
            subnets@.map_values(|allocation: &ComposeIsolationSubnetAllocation| *allocation),
            resources@.map_values(|rewrite: &ComposeIsolationResourceRewrite| *rewrite),
        ),
{
    let ghost all = subnets@.map_values(
        |allocation: &ComposeIsolationSubnetAllocation| *allocation,
    );
    let ghost names = resources@.map_values(|rewrite: &ComposeIsolationResourceRewrite| *rewrite);
    let mut entries: Vec<(String, Yaml)> = Vec::new();
    let mut i: usize = 0;
    assert(all.take(0) =~= Seq::empty());
    assert(entry_views(entries@) =~= addressed(all.take(0), names));
    while i < subnets.len()
        invariant
            i <= subnets@.len(),
            all == subnets@.map_values(
                |allocation: &ComposeIsolationSubnetAllocation| *allocation,
            ),
            names == resources@.map_values(|rewrite: &ComposeIsolationResourceRewrite| *rewrite),
            entry_views(entries@) == addressed(all.take(i as int), names),
        decreases subnets@.len() - i,
    {
        let ghost before = entry_views(entries@);
        assert(all.take(i as int + 1).drop_last() =~= all.take(i as int));
        let allocation = subnets[i];
        if !renames_network(resources, allocation.network.as_str()) {
            let mut fields: Vec<(String, Yaml)> = Vec::new();
            put(&mut fields, "ipam", Some(ipam_node(allocation)));
            assert(entry_views(fields@) =~= seq![("ipam"@, ipam_view(*allocation))]);
            entries.push((quoted(allocation.network.as_str()), mapping(fields)));
            assert(entry_views(entries@) =~= before.push(
                (
                    quoted_text(allocation.network@),
                    YamlView::Mapping(seq![("ipam"@, ipam_view(*allocation))]),
                ),
            ));
        }
        i = i + 1;
    }
    assert(all.take(all.len() as int) =~= all);
    entries
}

fn section_node(entries: Vec<(String, Yaml)>) -> (res: Option<Yaml>)
    ensures
        node_view(res) == section(entry_views(entries@)),
{
    if entries.len() > 0 {
        Some(mapping(entries))
    } else {
        None
    }
}

impl<'a> ComposeOverridePatch<'a> {
    /// The text of the file.
    pub fn to_yaml(&self) -> (res: String)
        ensures
            res@ == document_text(self@),
    {
        let ghost all = self@.services;
        let mut services: Vec<(String, Yaml)> = Vec::new();
        let mut i: usize = 0;
        while i < self.services.len()
            invariant
                i <= self.services@.len(),
                all == self@.services,
                services@.len() == i,
                forall|j: int|
                    0 <= j < i ==> (#[trigger] services@[j]).0@ == quoted_text(all[j].name)
                        && services@[j].1@ == service_view(all[j]),
            decreases self.services@.len() - i,
        {
            let service = &self.services[i];
            assert(all[i as int] == service@);
            services.push((quoted(service.name.as_str()), service_node(service)));
            i = i + 1;
        }
        assert(entry_views(services@) =~= all.map_values(
            |service: ServicePatchView| (quoted_text(service.name), service_view(service)),
        ));
        let mut networks = renamed_entries(
            &self.resources,
            &self.subnets,
            ComposeIsolationResourceKind::Network,
        );
        let ghost first = networks@;
        let mut others = addressed_entries(&self.subnets, &self.resources);
        let ghost second = others@;
        networks.append(&mut others);
        assert(entry_views(networks@) =~= entry_views(first) + entry_views(second));
        let mut document: Vec<(String, Yaml)> = Vec::new();
        put(&mut document, "services", Some(mapping(services)));
        put(&mut document, "networks", section_node(networks));
        put(
            &mut document,
            "volumes",
            section_node(
                renamed_entries(
                    &self.resources,
                    &self.subnets,
                    ComposeIsolationResourceKind::Volume,
                ),
            ),
        );
        put(
            &mut document,
            "configs",
            section_node(
                renamed_entries(
                    &self.resources,
                    &self.subnets,
                    ComposeIsolationResourceKind::Config,
                ),
            ),
        );
        put(
            &mut document,
            "secrets",
            section_node(
                renamed_entries(
                    &self.resources,
                    &self.subnets,
                    ComposeIsolationResourceKind::Secret,
                ),
            ),
        );
        assert(entry_views(document@) =~= document_view(self@));
        render_document(&document)
    }
}

/// How the text of the file is made out, nothing being renamed.
pub open spec fn generates_content<S: PlanServices>(
    services: &S,
    primary_service: Seq<char>,
    plan: UpPlan,
    startup: Option<ComposeOverrideStartup>,
    service_forward: Seq<ServiceForwardRuntime>,
    published_port_override: ComposePublishedPortOverride,
    outcome: Result<String, UpError>,
) -> bool {
    exists|
        names: ComposeIsolationNameRewritePlan,
        subnets: ComposeIsolationSubnetPlan,
        endpoints: ComposeIsolationEndpointPlan,
        patch: Result<ComposeOverridePatch, UpError>,
    |
        {
            &&& names.services@.len() == 0 && names.service_references@.len() == 0
                && names.resources@.len() == 0
            &&& subnets.allocations@.len() == 0
            &&& endpoints.services@.len() == 0
            &&& #[trigger] generates_patch(
                services,
                primary_service,
                plan,
                startup,
                service_forward,
                published_port_override,
                ComposeIsolationOverridePlans {
                    names: &names,
                    subnets: &subnets,
                    endpoints: &endpoints,
                },
                patch,
            )
            &&& match patch {
                Ok(patch) => outcome is Ok && outcome->Ok_0@ == document_text(patch@),
                Err(error) => outcome == Err::<String, UpError>(error),
            }
        }
}

/// The text of the file, nothing being renamed.
pub fn generated_compose_override_content_with_startup<S: PlanServices>(
    services: &S,
    primary_service: &str,
    plan: &UpPlan,
    startup: Option<ComposeOverrideStartup>,
    service_forward: &Vec<ServiceForwardRuntime>,
    published_port_override: &ComposePublishedPortOverride,
) -> (res: Result<String, UpError>)
    ensures
        generates_content(
            services,
            primary_service@,
            *plan,
            startup,
            service_forward@,
            *published_port_override,
            res,
        ),
{
    let names = ComposeIsolationNameRewritePlan::empty();
    let subnets = ComposeIsolationSubnetPlan::empty();
    let endpoints = ComposeIsolationEndpointPlan::empty();
    let isolation = ComposeIsolationOverridePlans {
        names: &names,
        subnets: &subnets,
        endpoints: &endpoints,
    };
    let patch = generated_compose_override_patch(
        services,
        primary_service,
        plan,
        startup,
        service_forward,
        published_port_override,
        isolation,
    );
    assert(generates_patch(
        services,
        primary_service@,
        *plan,
        startup,
        service_forward@,
        *published_port_override,
        ComposeIsolationOverridePlans { names: &names, subnets: &subnets, endpoints: &endpoints },
        patch,
    ));
    match patch {
        Ok(patch) => Ok(patch.to_yaml()),
        Err(error) => Err(error),
    }
}

/// The text of the file for the primary service alone. The service is made to
/// run `keepalive` where its own command is overridden.
pub fn generated_compose_override_content<S: PlanServices>(
    services: &S,
    primary_service: &str,
    plan: &UpPlan,
    keepalive: ComposeOverrideStartup,
) -> (res: Result<String, UpError>)
    ensures
        exists|service_forward: Vec<ServiceForwardRuntime>, ports: ComposePublishedPortOverride|
            {
                &&& service_forward@.len() == 0
                &&& ports.services@.len() == 0
                &&& #[trigger] generates_content(
                    services,
                    primary_service@,
                    *plan,
                    keepalive_startup(*plan, keepalive),
                    service_forward@,
                    ports,
                    res,
                )
            },
{
    let ghost alive = keepalive;
    let startup = if plan.config.devcontainer.override_command {
        Some(keepalive)
    } else {
        None
    };
    assert(startup == keepalive_startup(*plan, alive));
    let service_forward: Vec<ServiceForwardRuntime> = Vec::new();
    let ports = ComposePublishedPortOverride::empty();
    generated_compose_override_content_with_startup(
        services,
        primary_service,
        plan,
        startup,
        &service_forward,
        &ports,
    )
}

/// What a service is made to run where its own command is overridden.
pub open spec fn keepalive_startup(
    plan: UpPlan,
    keepalive: ComposeOverrideStartup,
) -> Option<ComposeOverrideStartup> {
    if plan.config.devcontainer.override_command {
        Some(keepalive)
    } else {
        None
    }
}

} // verus!
