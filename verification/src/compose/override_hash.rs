//! What the file that adapts a Compose project means, apart from what changes
//! with the hash itself.

use crate::canonical::{Canonical, Content};
use crate::compose::ports::{ComposePublishedPortOverride, PortFields};
use crate::config::{MountType, ResolvedDevcontainerSource};
use crate::docker::{DockerMountSpec, SensitiveEnvMap, SensitiveEnvValue};
use crate::hash_input::{ComposeGeneratedOverrideHashInput, StartupCommandHashInput};
use crate::json::JsonValue;
use crate::services::PlanServices;
use crate::text::{has_prefix, opt_view, same_text, starts_with};
use crate::text_map::{inserted, lookup, TextMap};
use crate::types::UpPlan;
use vstd::prelude::*;
use vstd::string::*;

verus! {

/// The image of a service, or a stand-in for one that the tool makes.
pub open spec fn semantic_image(plan: UpPlan) -> Seq<char> {
    if plan.image@ == plan.base_image@ {
        plan.image@
    } else {
        "<decune-generated-image>"@
    }
}

/// The image of a service, or a stand-in for one that the tool makes.
pub fn generated_override_semantic_image(plan: &UpPlan) -> (res: &str)
    ensures
        res@ == semantic_image(*plan),
{
    if same_text(plan.image.as_str(), plan.base_image.as_str()) {
        plan.image.as_str()
    } else {
        "<decune-generated-image>"
    }
}

/// Whether the image of a service is never pulled: the tool makes it.
pub fn generated_override_semantic_pull_policy_never(plan: &UpPlan) -> (res: bool)
    ensures
        res == (plan.image@ != plan.base_image@),
{
    !same_text(plan.image.as_str(), plan.base_image.as_str())
}

/// A setting that may be absent.
pub open spec fn optional_flag(value: Option<bool>) -> Content {
    match value {
        Some(value) => Content::Flag(value),
        None => Content::Absent,
    }
}

/// A setting that may be absent.
pub fn write_option_bool(value: Option<bool>) -> (res: Canonical)
    ensures
        res@ == optional_flag(value),
{
    match value {
        Some(value) => Canonical::Flag(value),
        None => Canonical::Absent,
    }
}

/// Whether a label says something that does not follow from the hash or from
/// Compose itself.
pub open spec fn is_semantic_label(key: Seq<char>) -> bool {
    key != "decune.config_hash"@ && !has_prefix(key, "com.docker.compose."@)
}

/// Whether a label says something that does not follow from the hash or from
/// Compose itself.
pub fn generated_override_label_is_semantic_hash_input(key: &str) -> (res: bool)
    ensures
        res == is_semantic_label(key@),
{
    !same_text(key, "decune.config_hash") && !starts_with(key, "com.docker.compose.")
}

/// The labels that say something of their own.
pub open spec fn semantic_labels(entries: Seq<(Seq<char>, String)>) -> Seq<(Seq<char>, Seq<char>)>
    decreases entries.len(),
{
    if entries.len() == 0 {
        Seq::empty()
    } else {
        let rest = semantic_labels(entries.drop_first());
        if is_semantic_label(entries[0].0) {
            seq![(entries[0].0, entries[0].1@)] + rest
        } else {
            rest
        }
    }
}

/// Keys and texts as content.
pub open spec fn text_entries(entries: Seq<(Seq<char>, Seq<char>)>) -> Content {
    Content::Entries(
        entries.map_values(|entry: (Seq<char>, Seq<char>)| (entry.0, Content::Text(entry.1))),
    )
}

proof fn semantic_labels_of_parts(
    front: Seq<(Seq<char>, String)>,
    back: Seq<(Seq<char>, String)>,
)
    ensures
        semantic_labels(front + back) == semantic_labels(front) + semantic_labels(back),
    decreases front.len(),
{
    if front.len() == 0 {
        assert(front + back =~= back);
        assert(semantic_labels(front) + semantic_labels(back) =~= semantic_labels(back));
    } else {
        assert((front + back).drop_first() =~= front.drop_first() + back);
        semantic_labels_of_parts(front.drop_first(), back);
        assert(semantic_labels(front + back) =~= semantic_labels(front) + semantic_labels(back));
    }
}

/// The labels that say something of their own.
pub fn generated_override_semantic_labels(labels: &TextMap<String>) -> (res: Vec<(String, String)>)
    ensures
        res@.map_values(|entry: (String, String)| (entry.0@, entry.1@)) == semantic_labels(labels@),
{
    let mut kept: Vec<(String, String)> = Vec::new();
    let mut i: usize = 0;
    assert(labels@.take(0) =~= Seq::empty());
    assert(kept@.map_values(|entry: (String, String)| (entry.0@, entry.1@)) =~= semantic_labels(
        labels@.take(0),
    ));
    while i < labels.len()
        invariant
            i <= labels@.len(),
            kept@.map_values(|entry: (String, String)| (entry.0@, entry.1@)) == semantic_labels(
                labels@.take(i as int),
            ),
        decreases labels@.len() - i,
    {
        let ghost before = kept@.map_values(|entry: (String, String)| (entry.0@, entry.1@));
        proof {
            let last = seq![labels@[i as int]];
            assert(labels@.take(i as int + 1) =~= labels@.take(i as int) + last);
            semantic_labels_of_parts(labels@.take(i as int), last);
            assert(last.drop_first() =~= Seq::empty());
            assert(semantic_labels(last.drop_first()) =~= Seq::empty());
        }
        if generated_override_label_is_semantic_hash_input(labels.key_at(i).as_str()) {
            kept.push((labels.key_at(i).clone(), labels.value_at(i).clone()));
            assert(kept@.map_values(|entry: (String, String)| (entry.0@, entry.1@))
                =~= before + seq![(labels@[i as int].0, labels@[i as int].1@)]);
            assert(semantic_labels(seq![labels@[i as int]]) =~= seq![
                (labels@[i as int].0, labels@[i as int].1@),
            ]);
        } else {
            assert(semantic_labels(seq![labels@[i as int]]) =~= Seq::empty());
            assert(before + Seq::<(Seq<char>, Seq<char>)>::empty() =~= before);
        }
        i = i + 1;
    }
    assert(labels@.take(labels@.len() as int) =~= labels@);
    kept
}

/// Storing a label that says nothing of its own leaves the meaning as it is.
pub proof fn other_labels_do_not_matter(
    labels: Seq<(Seq<char>, String)>,
    key: Seq<char>,
    value: String,
)
    requires
        !is_semantic_label(key),
    ensures
        semantic_labels(inserted(labels, key, value)) == semantic_labels(labels),
    decreases labels.len(),
{
    let after = inserted(labels, key, value);
    if labels.len() == 0 {
        assert(after.drop_first() =~= labels);
    } else if labels[0].0 == key {
        assert(after.drop_first() =~= labels.drop_first());
    } else if crate::text::text_less(key, labels[0].0) {
        assert(after.drop_first() =~= labels);
    } else {
        assert(after.drop_first() =~= inserted(labels.drop_first(), key, value));
        other_labels_do_not_matter(labels.drop_first(), key, value);
    }
}

/// The environment of a service, with a stand-in for each value that comes
/// from the environment of the host.
pub open spec fn masked_environment(
    entries: Seq<(Seq<char>, String)>,
    sensitive: Seq<(Seq<char>, SensitiveEnvValue)>,
) -> Seq<(Seq<char>, Seq<char>)> {
    entries.map_values(
        |entry: (Seq<char>, String)|
            (
                entry.0,
                if lookup(sensitive, entry.0) is Some {
                    "<localEnv-derived-value>"@
                } else {
                    entry.1@
                },
            ),
    )
}

/// A text as content, where there is one.
pub open spec fn optional_text(value: Option<Seq<char>>) -> Content {
    match value {
        Some(text) => Content::Text(text),
        None => Content::Absent,
    }
}

/// Texts as content.
pub open spec fn texts(values: Seq<String>) -> Content {
    Content::List(values.map_values(|value: String| Content::Text(value@)))
}

/// The name of a mount's type.
pub open spec fn mount_type_word(mount_type: MountType) -> Seq<char> {
    match mount_type {
        MountType::Bind => "bind"@,
        MountType::Volume => "volume"@,
        MountType::Tmpfs => "tmpfs"@,
    }
}

/// The name of a mount's type.
pub fn mount_type_name(mount_type: MountType) -> (res: &'static str)
    ensures
        res@ == mount_type_word(mount_type),
{
    match mount_type {
        MountType::Bind => "bind",
        MountType::Volume => "volume",
        MountType::Tmpfs => "tmpfs",
    }
}

/// A mount as content.
pub open spec fn mount_content(mount: DockerMountSpec) -> Content {
    Content::Object(
        "Mount"@,
        seq![
            ("source"@, optional_text(opt_view(mount.source))),
            ("target"@, Content::Text(mount.target@)),
            ("type"@, Content::Text(mount_type_word(mount.mount_type))),
            ("read_only"@, Content::Flag(mount.read_only)),
            ("consistency"@, optional_text(opt_view(mount.consistency))),
        ],
    )
}

/// What a container runs by itself as content.
pub open spec fn startup_content(startup: Option<StartupCommandHashInput>) -> Content {
    match startup {
        Some(startup) => Content::Object(
            "StartupCommand"@,
            seq![
                ("entrypoint"@, texts(startup.entrypoint@)),
                ("command"@, texts(startup.command@)),
            ],
        ),
        None => Content::Absent,
    }
}

/// A JSON value as content.
pub open spec fn json_content(value: JsonValue) -> Content {
    match value {
        JsonValue::Text(text) => Content::JsonText(text@),
        JsonValue::Literal(text) => Content::JsonLiteral(text@),
    }
}

/// The fields of a port as content.
pub open spec fn port_content(fields: PortFields) -> Content {
    Content::Entries(
        fields@.map_values(|field: (Seq<char>, JsonValue)| (field.0, json_content(field.1))),
    )
}

/// The ports of a service as content.
pub open spec fn ports_content(ports: Seq<PortFields>) -> Content {
    Content::List(ports.map_values(|fields: PortFields| port_content(fields)))
}

/// The replaced ports of all services as content.
pub open spec fn port_override_content(ports: ComposePublishedPortOverride) -> Content {
    Content::Entries(
        ports.services@.map_values(
            |service: (Seq<char>, Vec<PortFields>)| (service.0, ports_content(service.1@)),
        ),
    )
}

/// What the file that adapts a Compose project means.
pub open spec fn override_content(
    service: Seq<char>,
    plan: UpPlan,
    mounts: Seq<DockerMountSpec>,
    startup: Option<StartupCommandHashInput>,
    ports: ComposePublishedPortOverride,
) -> Content {
    Content::Object(
        "ComposeGeneratedOverrideContent"@,
        seq![
            ("primary_service"@, Content::Text(service)),
            ("image"@, Content::Text(semantic_image(plan))),
            (
                "pull_policy"@,
                if plan.image@ != plan.base_image@ {
                    Content::Text("never"@)
                } else {
                    Content::Absent
                },
            ),
            ("labels"@, text_entries(semantic_labels(plan.resources.labels@))),
            (
                "environment"@,
                text_entries(
                    masked_environment(
                        plan.config.devcontainer.container_env@,
                        plan.sensitive_container_env@,
                    ),
                ),
            ),
            (
                "container_user"@,
                optional_text(opt_view(plan.config.devcontainer.container_user)),
            ),
            ("init"@, optional_flag(plan.config.devcontainer.init)),
            ("privileged"@, optional_flag(plan.config.devcontainer.privileged)),
            ("cap_add"@, texts(plan.config.devcontainer.cap_add@)),
            ("security_opt"@, texts(plan.config.devcontainer.security_opt@)),
            (
                "mounts"@,
                Content::List(mounts.map_values(|mount: DockerMountSpec| mount_content(mount))),
            ),
            ("startup_command"@, startup_content(startup)),
            ("published_port_override"@, port_override_content(ports)),
        ],
    )
}

fn text_node(text: &str) -> (res: Canonical)
    ensures
        res@ == Content::Text(text@),
{
    Canonical::Text(text.to_owned())
}

fn optional_text_node(text: &Option<String>) -> (res: Canonical)
    ensures
        res@ == optional_text(opt_view(*text)),
{
    match text {
        Some(text) => Canonical::Text(text.clone()),
        None => Canonical::Absent,
    }
}

fn texts_node(values: &Vec<String>) -> (res: Canonical)
    ensures
        res@ == texts(values@),
{
    let mut items: Vec<Canonical> = Vec::new();
    let mut i: usize = 0;
    while i < values.len()
        invariant
            i <= values@.len(),
            items@.len() == i,
            forall|j: int| 0 <= j < i ==> (#[trigger] items@[j])@ == Content::Text(values@[j]@),
        decreases values@.len() - i,
    {
        items.push(Canonical::Text(values[i].clone()));
        i = i + 1;
    }
    let node = Canonical::List(items);
    assert(node@->List_0 =~= texts(values@)->List_0);
    node
}

fn entries_node(entries: Vec<(String, String)>) -> (res: Canonical)
    ensures
        res@ == text_entries(
            entries@.map_values(|entry: (String, String)| (entry.0@, entry.1@)),
        ),
{
    let mut nodes: Vec<(String, Canonical)> = Vec::new();
    let mut i: usize = 0;
    while i < entries.len()
        invariant
            i <= entries@.len(),
            nodes@.len() == i,
            forall|j: int|
                0 <= j < i ==> (#[trigger] nodes@[j]).0@ == entries@[j].0@ && nodes@[j].1@
                    == Content::Text(entries@[j].1@),
        decreases entries@.len() - i,
    {
        nodes.push((entries[i].0.clone(), Canonical::Text(entries[i].1.clone())));
        i = i + 1;
    }
    let node = Canonical::Entries(nodes);
    assert(node@->Entries_0 =~= text_entries(
        entries@.map_values(|entry: (String, String)| (entry.0@, entry.1@)),
    )->Entries_0);
    node
}

fn masked_entries(environment: &TextMap<String>, sensitive: &SensitiveEnvMap) -> (res: Vec<
    (String, String),
>)
    ensures
        res@.map_values(|entry: (String, String)| (entry.0@, entry.1@)) == masked_environment(
            environment@,
            sensitive@,
        ),
{
    let mut entries: Vec<(String, String)> = Vec::new();
    let mut i: usize = 0;
    while i < environment.len()
        invariant
            i <= environment@.len(),
            entries@.len() == i,
            forall|j: int|
                0 <= j < i ==> ((#[trigger] entries@[j]).0@, entries@[j].1@) == masked_environment(
                    environment@,
                    sensitive@,
                )[j],
        decreases environment@.len() - i,
    {
        let key = environment.key_at(i);
        let value = if sensitive.contains_key(key.as_str()) {
            "<localEnv-derived-value>".to_owned()
        } else {
            environment.value_at(i).clone()
        };
        entries.push((key.clone(), value));
        i = i + 1;
    }
    assert(entries@.map_values(|entry: (String, String)| (entry.0@, entry.1@))
        =~= masked_environment(environment@, sensitive@));
    entries
}

fn mount_node(mount: &DockerMountSpec) -> (res: Canonical)
    ensures
        res@ == mount_content(*mount),
{
    let mut fields: Vec<(String, Canonical)> = Vec::new();
    fields.push(("source".to_owned(), optional_text_node(&mount.source)));
    fields.push(("target".to_owned(), text_node(mount.target.as_str())));
    fields.push(("type".to_owned(), text_node(mount_type_name(mount.mount_type))));
    fields.push(("read_only".to_owned(), write_option_bool(Some(mount.read_only))));
    fields.push(("consistency".to_owned(), optional_text_node(&mount.consistency)));
    let node = Canonical::Object("Mount".to_owned(), fields);
    assert(node@->Object_1 =~= mount_content(*mount)->Object_1);
    node
}

fn mounts_node(mounts: &Vec<DockerMountSpec>) -> (res: Canonical)
    ensures
        res@ == Content::List(mounts@.map_values(|mount: DockerMountSpec| mount_content(mount))),
{
    let mut items: Vec<Canonical> = Vec::new();
    let mut i: usize = 0;
    while i < mounts.len()
        invariant
            i <= mounts@.len(),
            items@.len() == i,
            forall|j: int| 0 <= j < i ==> (#[trigger] items@[j])@ == mount_content(mounts@[j]),
        decreases mounts@.len() - i,
    {
        items.push(mount_node(&mounts[i]));
        i = i + 1;
    }
    let node = Canonical::List(items);
    assert(node@->List_0 =~= mounts@.map_values(|mount: DockerMountSpec| mount_content(mount)));
    node
}

fn startup_node(startup: Option<&StartupCommandHashInput>) -> (res: Canonical)
    ensures
        res@ == startup_content(
            match startup {
                Some(startup) => Some(*startup),
                None => None,
            },
        ),
{
    match startup {
        Some(startup) => {
            let mut fields: Vec<(String, Canonical)> = Vec::new();
            fields.push(("entrypoint".to_owned(), texts_node(&startup.entrypoint)));
            fields.push(("command".to_owned(), texts_node(&startup.command)));
            let node = Canonical::Object("StartupCommand".to_owned(), fields);
            assert(node@->Object_1 =~= startup_content(Some(*startup))->Object_1);
            node
        },
        None => Canonical::Absent,
    }
}

fn json_node(value: &JsonValue) -> (res: Canonical)
    ensures
        res@ == json_content(*value),
{
    match value {
        JsonValue::Text(text) => Canonical::Json(JsonValue::Text(text.clone())),
        JsonValue::Literal(text) => Canonical::Json(JsonValue::Literal(text.clone())),
    }
}

fn port_node(fields: &PortFields) -> (res: Canonical)
    ensures
        res@ == port_content(*fields),
{
    let mut nodes: Vec<(String, Canonical)> = Vec::new();
    let mut i: usize = 0;
    while i < fields.len()
        invariant
            i <= fields@.len(),
            nodes@.len() == i,
            forall|j: int|
                0 <= j < i ==> (#[trigger] nodes@[j]).0@ == fields@[j].0 && nodes@[j].1@
                    == json_content(fields@[j].1),
        decreases fields@.len() - i,
    {
        nodes.push((fields.key_at(i).clone(), json_node(fields.value_at(i))));
        i = i + 1;
    }
    let node = Canonical::Entries(nodes);
    assert(node@->Entries_0 =~= port_content(*fields)->Entries_0);
    node
}

fn ports_node(ports: &Vec<PortFields>) -> (res: Canonical)
    ensures
        res@ == ports_content(ports@),
{
    let mut items: Vec<Canonical> = Vec::new();
    let mut i: usize = 0;
    while i < ports.len()
        invariant
            i <= ports@.len(),
            items@.len() == i,
            forall|j: int| 0 <= j < i ==> (#[trigger] items@[j])@ == port_content(ports@[j]),
        decreases ports@.len() - i,
    {
        items.push(port_node(&ports[i]));
        i = i + 1;
    }
    let node = Canonical::List(items);
    assert(node@->List_0 =~= ports_content(ports@)->List_0);
    node
}

fn port_override_node(ports: &ComposePublishedPortOverride) -> (res: Canonical)
    ensures
        res@ == port_override_content(*ports),
{
    let services = &ports.services;
    let mut nodes: Vec<(String, Canonical)> = Vec::new();
    let mut i: usize = 0;
    while i < services.len()
        invariant
            i <= services@.len(),
            nodes@.len() == i,
            forall|j: int|
                0 <= j < i ==> (#[trigger] nodes@[j]).0@ == services@[j].0 && nodes@[j].1@
                    == ports_content(services@[j].1@),
        decreases services@.len() - i,
    {
        nodes.push((services.key_at(i).clone(), ports_node(services.value_at(i))));
        i = i + 1;
    }
    let node = Canonical::Entries(nodes);
    assert(node@->Entries_0 =~= port_override_content(*ports)->Entries_0);
    node
}

/// What the file that adapts a Compose project means, in canonical form.
pub fn compose_generated_override_content(
    service: &str,
    plan: &UpPlan,
    mounts: &Vec<DockerMountSpec>,
    startup_command: Option<&StartupCommandHashInput>,
    published_port_override: &ComposePublishedPortOverride,
) -> (res: Canonical)
    ensures
        res@ == override_content(
            service@,
            *plan,
            mounts@,
            match startup_command {
                Some(startup) => Some(*startup),
                None => None,
            },
            *published_port_override,
        ),
{
    let devcontainer = &plan.config.devcontainer;
    let mut fields: Vec<(String, Canonical)> = Vec::new();
    fields.push(("primary_service".to_owned(), text_node(service)));
    fields.push(("image".to_owned(), text_node(generated_override_semantic_image(plan))));
    let pull_policy = if generated_override_semantic_pull_policy_never(plan) {
        text_node("never")
    } else {
        write_option_bool(None)
    };
    fields.push(("pull_policy".to_owned(), pull_policy));
    fields.push(
        (
            "labels".to_owned(),
            entries_node(generated_override_semantic_labels(&plan.resources.labels)),
        ),
    );
    fields.push(
        (
            "environment".to_owned(),
            entries_node(
                masked_entries(&devcontainer.container_env, &plan.sensitive_container_env),
            ),
        ),
    );
    fields.push(("container_user".to_owned(), optional_text_node(&devcontainer.container_user)));
    fields.push(("init".to_owned(), write_option_bool(devcontainer.init)));
    fields.push(("privileged".to_owned(), write_option_bool(devcontainer.privileged)));
    fields.push(("cap_add".to_owned(), texts_node(&devcontainer.cap_add)));
    fields.push(("security_opt".to_owned(), texts_node(&devcontainer.security_opt)));
    fields.push(("mounts".to_owned(), mounts_node(mounts)));
    fields.push(("startup_command".to_owned(), startup_node(startup_command)));
    fields.push(
        ("published_port_override".to_owned(), port_override_node(published_port_override)),
    );
    let node = Canonical::Object("ComposeGeneratedOverrideContent".to_owned(), fields);
    assert(node@->Object_1 =~= override_content(
        service@,
        *plan,
        mounts@,
        match startup_command {
            Some(startup) => Some(*startup),
            None => None,
        },
        *published_port_override,
    )->Object_1);
    node
}

/// How the file that adapts a Compose project goes into the hash.
pub open spec fn hashes_override<S: PlanServices>(
    services: &S,
    path: String,
    plan: UpPlan,
    mounts: Seq<DockerMountSpec>,
    startup: Option<StartupCommandHashInput>,
    ports: ComposePublishedPortOverride,
    outcome: Option<ComposeGeneratedOverrideHashInput>,
) -> bool {
    match plan.config.devcontainer.source {
        Some(ResolvedDevcontainerSource::Compose(compose)) => exists|
            content: Canonical,
            hash: String,
        |
            {
                &&& content@ == override_content(compose.service@, plan, mounts, startup, ports)
                &&& #[trigger] call_ensures(S::content_hash, (services, &content), hash)
                &&& outcome == Some(
                    ComposeGeneratedOverrideHashInput { path, content_hash: hash },
                )
            },
        _ => outcome is None,
    }
}

/// The file that adapts a Compose project, for the hash; nothing where the
/// container is no service of one. Its content goes in by what it means, so
/// that the hash does not depend on itself.
pub fn compose_generated_override_hash_input<S: PlanServices>(
    services: &S,
    path: &String,
    plan: &UpPlan,
    mounts: &Vec<DockerMountSpec>,
    startup_command: Option<&StartupCommandHashInput>,
    published_port_override: &ComposePublishedPortOverride,
) -> (res: Option<ComposeGeneratedOverrideHashInput>)
    ensures
        hashes_override(
            services,
            *path,
            *plan,
            mounts@,
            match startup_command {
                Some(startup) => Some(*startup),
                None => None,
            },
            *published_port_override,
            res,
        ),
{
    match &plan.config.devcontainer.source {
        Some(ResolvedDevcontainerSource::Compose(compose)) => {
            let content = compose_generated_override_content(
                compose.service.as_str(),
                plan,
                mounts,
                startup_command,
                published_port_override,
            );
            let content_hash = services.content_hash(&content);
            Some(ComposeGeneratedOverrideHashInput { path: path.clone(), content_hash })
        },
        _ => None,
    }
}

/// Whether two plans differ at most in what follows from the hash of the
/// configuration: the name of an image that the tool makes, and labels that
/// follow from the hash or from Compose.
pub open spec fn differ_in_hash(left: UpPlan, right: UpPlan) -> bool {
    &&& left.config == right.config
    &&& left.sensitive_container_env == right.sensitive_container_env
    &&& semantic_labels(left.resources.labels@) == semantic_labels(right.resources.labels@)
    &&& left.image@ != left.base_image@
    &&& right.image@ != right.base_image@
}

/// Whether two plans differ at most in values of variables that come from the
/// environment of the host.
pub open spec fn differ_in_secrets(left: UpPlan, right: UpPlan) -> bool {
    &&& left.image == right.image
    &&& left.base_image == right.base_image
    &&& left.resources == right.resources
    &&& right.config == (crate::config::ResolvedConfig {
        devcontainer: crate::config::ResolvedDevcontainer {
            container_env: right.config.devcontainer.container_env,
            ..left.config.devcontainer
        },
        ..left.config
    })
    &&& left.config.devcontainer.container_env@.len()
        == right.config.devcontainer.container_env@.len()
    &&& forall|i: int|
        0 <= i < left.config.devcontainer.container_env@.len() ==> {
            let (key, value) = #[trigger] left.config.devcontainer.container_env@[i];
            let (other_key, other_value) = right.config.devcontainer.container_env@[i];
            &&& key == other_key
            &&& (lookup(left.sensitive_container_env@, key) is Some) == (lookup(
                right.sensitive_container_env@,
                key,
            ) is Some)
            &&& lookup(left.sensitive_container_env@, key) is None ==> value@ == other_value@
        }
}

/// What the file means does not depend on the name of an image that the tool
/// makes, nor on labels that follow from the hash or from Compose.
pub proof fn meaning_is_independent_of_the_hash(
    service: Seq<char>,
    left: UpPlan,
    right: UpPlan,
    mounts: Seq<DockerMountSpec>,
    startup: Option<StartupCommandHashInput>,
    ports: ComposePublishedPortOverride,
)
    requires
        differ_in_hash(left, right),
    ensures
        override_content(service, left, mounts, startup, ports) == override_content(
            service,
            right,
            mounts,
            startup,
            ports,
        ),
{
}

/// What the file means does not depend on values that come from the
/// environment of the host.
pub proof fn meaning_is_independent_of_secrets(
    service: Seq<char>,
    left: UpPlan,
    right: UpPlan,
    mounts: Seq<DockerMountSpec>,
    startup: Option<StartupCommandHashInput>,
    ports: ComposePublishedPortOverride,
)
    requires
        differ_in_secrets(left, right),
    ensures
        override_content(service, left, mounts, startup, ports) == override_content(
            service,
            right,
            mounts,
            startup,
            ports,
        ),
{
    assert(masked_environment(
        left.config.devcontainer.container_env@,
        left.sensitive_container_env@,
    ) =~= masked_environment(
        right.config.devcontainer.container_env@,
        right.sensitive_container_env@,
    ));
}

/// Whether the hash of content is one and the same for content that holds the
/// same.
pub open spec fn hashes_by_content<S: PlanServices>(services: &S) -> bool {
    forall|left: Canonical, right: Canonical, left_hash: String, right_hash: String|
        left@ == right@ && #[trigger] call_ensures(S::content_hash, (services, &left), left_hash)
            && #[trigger] call_ensures(S::content_hash, (services, &right), right_hash)
            ==> left_hash@ == right_hash@
}

/// Whether two files go into the hash in the same way.
pub open spec fn same_override_hash(
    left: Option<ComposeGeneratedOverrideHashInput>,
    right: Option<ComposeGeneratedOverrideHashInput>,
) -> bool {
    &&& left is Some == right is Some
    &&& left is Some ==> left->0.path@ == right->0.path@ && left->0.content_hash@
        == right->0.content_hash@
}

proof fn same_meaning_same_hash<S: PlanServices>(
    services: &S,
    path: String,
    left: UpPlan,
    right: UpPlan,
    mounts: Seq<DockerMountSpec>,
    startup: Option<StartupCommandHashInput>,
    ports: ComposePublishedPortOverride,
    left_input: Option<ComposeGeneratedOverrideHashInput>,
    right_input: Option<ComposeGeneratedOverrideHashInput>,
)
    requires
        hashes_by_content(services),
        left.config.devcontainer.source == right.config.devcontainer.source,
        forall|service: Seq<char>| #[trigger]
            override_content(service, left, mounts, startup, ports) == override_content(
                service,
                right,
                mounts,
                startup,
                ports,
            ),
        hashes_override(services, path, left, mounts, startup, ports, left_input),
        hashes_override(services, path, right, mounts, startup, ports, right_input),
    ensures
        same_override_hash(left_input, right_input),
        left_input is Some <==> left.config.spec_is_compose(),
{
    if let Some(ResolvedDevcontainerSource::Compose(compose)) = left.config.devcontainer.source {
        let service = compose.service@;
        let (content, hash) = choose|content: Canonical, hash: String|
            {
                &&& content@ == override_content(service, left, mounts, startup, ports)
                &&& #[trigger] call_ensures(S::content_hash, (services, &content), hash)
                &&& left_input == Some(
                    ComposeGeneratedOverrideHashInput { path, content_hash: hash },
                )
            };
        let (other, other_hash) = choose|other: Canonical, other_hash: String|
            {
                &&& other@ == override_content(service, right, mounts, startup, ports)
                &&& #[trigger] call_ensures(S::content_hash, (services, &other), other_hash)
                &&& right_input == Some(
                    ComposeGeneratedOverrideHashInput { path, content_hash: other_hash },
                )
            };
        assert(content@ == other@);
    }
}

/// The hash of the file does not depend on itself: where the hash of content
/// depends on what it holds alone, plans that differ at most in what follows
/// from the hash put the same file into it. There is one exactly where the
/// container is a service of a Compose project.
pub proof fn hash_does_not_depend_on_itself<S: PlanServices>(
    services: &S,
    path: String,
    left: UpPlan,
    right: UpPlan,
    mounts: Seq<DockerMountSpec>,
    startup: Option<StartupCommandHashInput>,
    ports: ComposePublishedPortOverride,
    left_input: Option<ComposeGeneratedOverrideHashInput>,
    right_input: Option<ComposeGeneratedOverrideHashInput>,
)
    requires
        hashes_by_content(services),
        differ_in_hash(left, right),
        hashes_override(services, path, left, mounts, startup, ports, left_input),
        hashes_override(services, path, right, mounts, startup, ports, right_input),
    ensures
        same_override_hash(left_input, right_input),
        left_input is Some <==> left.config.spec_is_compose(),
{
    assert forall|service: Seq<char>| #[trigger]
        override_content(service, left, mounts, startup, ports) == override_content(
            service,
            right,
            mounts,
            startup,
            ports,
        ) by {
        meaning_is_independent_of_the_hash(service, left, right, mounts, startup, ports);
    }
    same_meaning_same_hash(
        services,
        path,
        left,
        right,
        mounts,
        startup,
        ports,
        left_input,
        right_input,
    );
}

/// The hash of the file tells nothing of values that come from the environment
/// of the host: where the hash of content depends on what it holds alone,
/// plans that differ at most in such values put the same file into it. There
/// is one exactly where the container is a service of a Compose project.
pub proof fn hash_tells_no_secret<S: PlanServices>(
    services: &S,
    path: String,
    left: UpPlan,
    right: UpPlan,
    mounts: Seq<DockerMountSpec>,
    startup: Option<StartupCommandHashInput>,
    ports: ComposePublishedPortOverride,
    left_input: Option<ComposeGeneratedOverrideHashInput>,
    right_input: Option<ComposeGeneratedOverrideHashInput>,
)
    requires
        hashes_by_content(services),
        differ_in_secrets(left, right),
        hashes_override(services, path, left, mounts, startup, ports, left_input),
        hashes_override(services, path, right, mounts, startup, ports, right_input),
    ensures
        same_override_hash(left_input, right_input),
        left_input is Some <==> left.config.spec_is_compose(),
{
    assert forall|service: Seq<char>| #[trigger]
        override_content(service, left, mounts, startup, ports) == override_content(
            service,
            right,
            mounts,
            startup,
            ports,
        ) by {
        meaning_is_independent_of_secrets(service, left, right, mounts, startup, ports);
    }
    same_meaning_same_hash(
        services,
        path,
        left,
        right,
        mounts,
        startup,
        ports,
        left_input,
        right_input,
    );
}

/// Files that mean the same agree in everything that is of their own: image,
/// labels, environment, user, settings, mounts, start-up command and ports.
/// A setting that is absent is told apart from one that is switched off.
pub proof fn meaning_tells_apart(
    left_service: Seq<char>,
    right_service: Seq<char>,
    left: UpPlan,
    right: UpPlan,
    left_mounts: Seq<DockerMountSpec>,
    right_mounts: Seq<DockerMountSpec>,
    left_startup: Option<StartupCommandHashInput>,
    right_startup: Option<StartupCommandHashInput>,
    left_ports: ComposePublishedPortOverride,
    right_ports: ComposePublishedPortOverride,
)
    requires
        override_content(left_service, left, left_mounts, left_startup, left_ports)
            == override_content(right_service, right, right_mounts, right_startup, right_ports),
    ensures
        left_service == right_service,
        semantic_image(left) == semantic_image(right),
        (left.image@ == left.base_image@) == (right.image@ == right.base_image@),
        semantic_labels(left.resources.labels@) == semantic_labels(right.resources.labels@),
        masked_environment(
            left.config.devcontainer.container_env@,
            left.sensitive_container_env@,
        ) == masked_environment(
            right.config.devcontainer.container_env@,
            right.sensitive_container_env@,
        ),
        opt_view(left.config.devcontainer.container_user) == opt_view(
            right.config.devcontainer.container_user,
        ),
        left.config.devcontainer.init == right.config.devcontainer.init,
        left.config.devcontainer.privileged == right.config.devcontainer.privileged,
        texts(left.config.devcontainer.cap_add@) == texts(right.config.devcontainer.cap_add@),
        texts(left.config.devcontainer.security_opt@) == texts(
            right.config.devcontainer.security_opt@,
        ),
        left_mounts.len() == right_mounts.len(),
        forall|i: int|
            0 <= i < left_mounts.len() ==> mount_content(#[trigger] left_mounts[i])
                == mount_content(right_mounts[i]),
        startup_content(left_startup) == startup_content(right_startup),
        port_override_content(left_ports) == port_override_content(right_ports),
{
    let a = override_content(
        left_service,
        left,
        left_mounts,
        left_startup,
        left_ports,
    )->Object_1;
    let b = override_content(
        right_service,
        right,
        right_mounts,
        right_startup,
        right_ports,
    )->Object_1;
    assert(a[0].1 == b[0].1);
    assert(a[1].1 == b[1].1);
    assert(a[2].1 == b[2].1);
    assert(a[3].1 == b[3].1);
    assert(a[4].1 == b[4].1);
    assert(a[5].1 == b[5].1);
    assert(a[6].1 == b[6].1);
    assert(a[7].1 == b[7].1);
    assert(a[8].1 == b[8].1);
    assert(a[9].1 == b[9].1);
    assert(a[10].1 == b[10].1);
    assert(a[11].1 == b[11].1);
    assert(a[12].1 == b[12].1);
    text_entries_injective(
        semantic_labels(left.resources.labels@),
        semantic_labels(right.resources.labels@),
    );
    text_entries_injective(
        masked_environment(
            left.config.devcontainer.container_env@,
            left.sensitive_container_env@,
        ),
        masked_environment(
            right.config.devcontainer.container_env@,
            right.sensitive_container_env@,
        ),
    );
    let left_list = left_mounts.map_values(|mount: DockerMountSpec| mount_content(mount));
    let right_list = right_mounts.map_values(|mount: DockerMountSpec| mount_content(mount));
    assert(left_list == right_list);
    assert(left_list.len() == left_mounts.len() && right_list.len() == right_mounts.len());
    assert forall|i: int| 0 <= i < left_mounts.len() implies mount_content(
        #[trigger] left_mounts[i],
    ) == mount_content(right_mounts[i]) by {
        assert(left_list[i] == right_list[i]);
        assert(left_list[i] == mount_content(left_mounts[i]));
        assert(right_list[i] == mount_content(right_mounts[i]));
    }
}

proof fn text_entries_injective(
    left: Seq<(Seq<char>, Seq<char>)>,
    right: Seq<(Seq<char>, Seq<char>)>,
)
    requires
        text_entries(left) == text_entries(right),
    ensures
        left == right,
{
    let a = text_entries(left)->Entries_0;
    let b = text_entries(right)->Entries_0;
    assert(a.len() == left.len() && b.len() == right.len());
    assert forall|i: int| 0 <= i < left.len() implies left[i] == right[i] by {
        assert(a[i] == b[i]);
    }
    assert(left =~= right);
}

} // verus!
