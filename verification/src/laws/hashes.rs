//! What the file that adapts a Compose project means to the hash.

use crate::canonical::Content;
use crate::compose::override_hash::{override_content, semantic_labels, text_entries, texts};
use crate::compose::ports::ComposePublishedPortOverride;
use crate::docker::DockerMountSpec;
use crate::hash_input::StartupCommandHashInput;
use crate::text::has_prefix;
use crate::text_map::lookup;
use crate::types::UpPlan;
use vstd::prelude::*;

verus! {

/// The fields of an object.
pub open spec fn fields_of(content: Content) -> Seq<(Seq<char>, Content)> {
    content->Object_1
}

/// The texts of a list.
pub open spec fn tells_texts(content: Content, values: Seq<String>) -> bool {
    &&& content is List
    &&& content->List_0.len() == values.len()
    &&& forall|i: int|
        0 <= i < values.len() ==> (#[trigger] content->List_0[i]) is Text
            && content->List_0[i]->Text_0 == values[i]@
}

/// A setting, where there is one.
pub open spec fn tells_flag(content: Content, value: Option<bool>) -> bool {
    &&& value is Some ==> content is Flag && content->Flag_0 == value->0
    &&& value is None ==> content is Absent
}

/// The file goes into the hash with the primary service, its image, its user,
/// its settings, capabilities and security options. An image that the tool
/// makes is never pulled and goes in under a stand-in, so that the hash does
/// not depend on itself.
pub proof fn settings_go_into_the_hash(
    service: Seq<char>,
    plan: UpPlan,
    mounts: Seq<DockerMountSpec>,
    startup: Option<StartupCommandHashInput>,
    ports: ComposePublishedPortOverride,
)
    ensures
        ({
            let fields = fields_of(override_content(service, plan, mounts, startup, ports));
            let devcontainer = plan.config.devcontainer;
            let made = plan.image@ != plan.base_image@;
            &&& fields.len() == 13
            &&& fields[0].0 == "primary_service"@
            &&& fields[0].1 == Content::Text(service)
            &&& fields[1].0 == "image"@
            &&& made ==> fields[1].1 == Content::Text("<decune-generated-image>"@)
            &&& !made ==> fields[1].1 == Content::Text(plan.image@)
            &&& fields[2].0 == "pull_policy"@
            &&& made ==> fields[2].1 == Content::Text("never"@)
            &&& !made ==> fields[2].1 is Absent
            &&& fields[5].0 == "container_user"@
            &&& devcontainer.container_user is Some ==> fields[5].1 == Content::Text(
                devcontainer.container_user->0@,
            )
            &&& devcontainer.container_user is None ==> fields[5].1 is Absent
            &&& fields[6].0 == "init"@
            &&& tells_flag(fields[6].1, devcontainer.init)
            &&& fields[7].0 == "privileged"@
            &&& tells_flag(fields[7].1, devcontainer.privileged)
            &&& fields[8].0 == "cap_add"@
            &&& tells_texts(fields[8].1, devcontainer.cap_add@)
            &&& fields[9].0 == "security_opt"@
            &&& tells_texts(fields[9].1, devcontainer.security_opt@)
        }),
{
}

/// Whether a mount goes into the hash by its source, target, type, read-only
/// flag and consistency.
pub open spec fn tells_mount_in_hash(content: Content, mount: DockerMountSpec) -> bool {
    let fields = fields_of(content);
    &&& content is Object
    &&& fields.len() == 5
    &&& fields[0].0 == "source"@
    &&& mount.source is Some ==> fields[0].1 == Content::Text(mount.source->0@)
    &&& mount.source is None ==> fields[0].1 is Absent
    &&& fields[1] == ("target"@, Content::Text(mount.target@))
    &&& fields[2].0 == "type"@
    &&& mount.mount_type is Bind ==> fields[2].1 == Content::Text("bind"@)
    &&& mount.mount_type is Volume ==> fields[2].1 == Content::Text("volume"@)
    &&& mount.mount_type is Tmpfs ==> fields[2].1 == Content::Text("tmpfs"@)
    &&& fields[3] == ("read_only"@, Content::Flag(mount.read_only))
    &&& fields[4].0 == "consistency"@
    &&& mount.consistency is Some ==> fields[4].1 == Content::Text(mount.consistency->0@)
    &&& mount.consistency is None ==> fields[4].1 is Absent
}

/// Every mount goes into the hash, in order, and so do both parts of the
/// start-up command, where there is one.
pub proof fn mounts_and_commands_go_into_the_hash(
    service: Seq<char>,
    plan: UpPlan,
    mounts: Seq<DockerMountSpec>,
    startup: Option<StartupCommandHashInput>,
    ports: ComposePublishedPortOverride,
    m: int,
)
    requires
        0 <= m < mounts.len(),
    ensures
        ({
            let fields = fields_of(override_content(service, plan, mounts, startup, ports));
            &&& fields[10].0 == "mounts"@
            &&& fields[10].1 is List
            &&& fields[10].1->List_0.len() == mounts.len()
            &&& tells_mount_in_hash(fields[10].1->List_0[m], mounts[m])
            &&& fields[11].0 == "startup_command"@
            &&& startup is None ==> fields[11].1 is Absent
            &&& startup is Some ==> {
                let parts = fields_of(fields[11].1);
                &&& parts.len() == 2
                &&& parts[0].0 == "entrypoint"@
                &&& tells_texts(parts[0].1, startup->0.entrypoint@)
                &&& parts[1].0 == "command"@
                &&& tells_texts(parts[1].1, startup->0.command@)
            }
        }),
{
}

/// Whether a label follows from the hash itself or from Compose.
pub open spec fn follows_from_elsewhere(key: Seq<char>) -> bool {
    key == "decune.config_hash"@ || has_prefix(key, "com.docker.compose."@)
}

proof fn kept_labels(labels: Seq<(Seq<char>, String)>)
    ensures
        forall|i: int|
            0 <= i < labels.len() && !follows_from_elsewhere((#[trigger] labels[i]).0)
                ==> semantic_labels(labels).contains((labels[i].0, labels[i].1@)),
        forall|k: int|
            0 <= k < semantic_labels(labels).len() ==> !follows_from_elsewhere(
                (#[trigger] semantic_labels(labels)[k]).0,
            ),
    decreases labels.len(),
{
    if labels.len() > 0 {
        let rest = labels.drop_first();
        kept_labels(rest);
        let kept = semantic_labels(labels);
        let others = semantic_labels(rest);
        assert forall|i: int|
            0 <= i < labels.len() && !follows_from_elsewhere(
                (#[trigger] labels[i]).0,
            ) implies kept.contains((labels[i].0, labels[i].1@)) by {
            if i == 0 {
                assert(kept[0] == (labels[0].0, labels[0].1@));
            } else {
                assert(rest[i - 1] == labels[i]);
                let k = choose|k: int|
                    0 <= k < others.len() && others[k] == (labels[i].0, labels[i].1@);
                if kept.len() > others.len() {
                    assert(kept[k + 1] == others[k]);
                } else {
                    assert(kept == others);
                }
            }
        }
        assert forall|k: int| 0 <= k < kept.len() implies !follows_from_elsewhere(
            (#[trigger] kept[k]).0,
        ) by {
            if kept.len() > others.len() {
                if k > 0 {
                    assert(kept[k] == others[k - 1]);
                }
            } else {
                assert(kept == others);
            }
        }
    }
}

/// Every label goes into the hash with its value, apart from the one that holds
/// the hash and those that Compose itself gives.
pub proof fn labels_go_into_the_hash(
    service: Seq<char>,
    plan: UpPlan,
    mounts: Seq<DockerMountSpec>,
    startup: Option<StartupCommandHashInput>,
    ports: ComposePublishedPortOverride,
    i: int,
)
    requires
        0 <= i < plan.resources.labels@.len(),
    ensures
        ({
            let fields = fields_of(override_content(service, plan, mounts, startup, ports));
            let (key, value) = plan.resources.labels@[i];
            &&& fields[3].0 == "labels"@
            &&& fields[3].1 is Entries
            &&& !follows_from_elsewhere(key) ==> fields[3].1->Entries_0.contains(
                (key, Content::Text(value@)),
            )
            &&& forall|k: int|
                0 <= k < fields[3].1->Entries_0.len() ==> !follows_from_elsewhere(
                    (#[trigger] fields[3].1->Entries_0[k]).0,
                )
        }),
{
    let labels = plan.resources.labels@;
    let told = semantic_labels(labels);
    kept_labels(labels);
    let (key, value) = labels[i];
    let entries = text_entries(told)->Entries_0;
    if !follows_from_elsewhere(key) {
        assert(told.contains((labels[i].0, labels[i].1@)));
        let k = choose|k: int| 0 <= k < told.len() && told[k] == (key, value@);
        assert(entries[k] == (key, Content::Text(value@)));
    }
    assert forall|k: int| 0 <= k < entries.len() implies !follows_from_elsewhere(
        (#[trigger] entries[k]).0,
    ) by {
        assert(entries[k].0 == told[k].0);
    }
}

/// Every variable goes into the hash, in order and with its value, but for
/// those whose value comes from the host's environment: a stand-in goes in for
/// the value.
pub proof fn variables_go_into_the_hash(
    service: Seq<char>,
    plan: UpPlan,
    mounts: Seq<DockerMountSpec>,
    startup: Option<StartupCommandHashInput>,
    ports: ComposePublishedPortOverride,
    i: int,
)
    requires
        0 <= i < plan.config.devcontainer.container_env@.len(),
    ensures
        ({
            let fields = fields_of(override_content(service, plan, mounts, startup, ports));
            let (key, value) = plan.config.devcontainer.container_env@[i];
            let hidden = lookup(plan.sensitive_container_env@, key) is Some;
            &&& fields[4].0 == "environment"@
            &&& fields[4].1 is Entries
            &&& fields[4].1->Entries_0.len() == plan.config.devcontainer.container_env@.len()
            &&& fields[4].1->Entries_0[i].0 == key
            &&& hidden ==> fields[4].1->Entries_0[i].1 == Content::Text(
                "<localEnv-derived-value>"@,
            )
            &&& !hidden ==> fields[4].1->Entries_0[i].1 == Content::Text(value@)
        }),
{
}

/// Every replaced port of every service goes into the hash, with all its
/// fields.
pub proof fn replaced_ports_go_into_the_hash(
    service: Seq<char>,
    plan: UpPlan,
    mounts: Seq<DockerMountSpec>,
    startup: Option<StartupCommandHashInput>,
    ports: ComposePublishedPortOverride,
    s: int,
    p: int,
    f: int,
)
    requires
        0 <= s < ports.services@.len(),
        0 <= p < ports.services@[s].1@.len(),
        0 <= f < ports.services@[s].1@[p]@.len(),
    ensures
        ({
            let fields = fields_of(override_content(service, plan, mounts, startup, ports));
            let (name, list) = ports.services@[s];
            let (field, value) = list@[p]@[f];
            let told = fields[12].1->Entries_0[s];
            let entry = told.1->List_0[p]->Entries_0[f];
            &&& fields[12].0 == "published_port_override"@
            &&& fields[12].1 is Entries
            &&& fields[12].1->Entries_0.len() == ports.services@.len()
            &&& told.0 == name
            &&& told.1 is List
            &&& told.1->List_0.len() == list@.len()
            &&& told.1->List_0[p] is Entries
            &&& told.1->List_0[p]->Entries_0.len() == list@[p]@.len()
            &&& entry.0 == field
            &&& value is Text ==> entry.1 == Content::JsonText(value->Text_0@)
            &&& value is Literal ==> entry.1 == Content::JsonLiteral(value->Literal_0@)
        }),
{
}

} // verus!
