//! What the file that adapts a Compose project says, told of the changes that
//! it is made from.

use crate::compose::isolation::{
    ComposeIsolationResourceKind, ComposeIsolationResourceRewrite,
    ComposeIsolationSubnetAllocation, ComposeServiceNameRewrite, ComposeServiceReferenceRewrite,
};
use crate::compose::patch::{EnvironmentView, PatchView, ServicePatchView};
use crate::compose::ports::PortFields;
use crate::compose::render::{
    addressed, bind_view, document_view, entry_if, environment_view, ipam_view, mount_view,
    name_entries, network_is_renamed, pairs_view, quoted_if, quoted_view, reference_entries,
    renamed, section, service_view, subnet_for, texts_view, volume_entries, Entries,
};
use crate::config::MountType;
use crate::docker::{DockerMountSpec, MountBindOptions, MountBindPropagation};
use crate::json::JsonValue;
use crate::yaml::{quoted_text, YamlView};
use vstd::prelude::*;

verus! {

proof fn contained_in_sum<A>(left: Seq<A>, right: Seq<A>, item: A)
    ensures
        (left + right).contains(item) <==> left.contains(item) || right.contains(item),
{
    let both = left + right;
    if left.contains(item) {
        let i = choose|i: int| 0 <= i < left.len() && left[i] == item;
        assert(both[i] == item);
    }
    if right.contains(item) {
        let i = choose|i: int| 0 <= i < right.len() && right[i] == item;
        assert(both[left.len() + i] == item);
    }
    if both.contains(item) {
        let i = choose|i: int| 0 <= i < both.len() && both[i] == item;
        if i < left.len() {
            assert(left[i] == item);
        } else {
            assert(right[i - left.len()] == item);
        }
    }
}

proof fn contained_in_one<A>(only: A, item: A)
    ensures
        seq![only].contains(item) <==> only == item,
{
    assert(seq![only][0] == only);
}

proof fn contained_in_entry(key: Seq<char>, value: Option<YamlView>, item: (Seq<char>, YamlView))
    ensures
        entry_if(key, value).contains(item) <==> item.0 == key && value == Some(item.1),
{
    match value {
        Some(value) => {
            contained_in_one((key, value), item);
        },
        None => {},
    }
}

/// The section of a document that names resources of a kind.
pub open spec fn section_of(kind: ComposeIsolationResourceKind) -> Seq<char> {
    match kind {
        ComposeIsolationResourceKind::ServiceContainer => "services"@,
        ComposeIsolationResourceKind::Network => "networks"@,
        ComposeIsolationResourceKind::Volume => "volumes"@,
        ComposeIsolationResourceKind::Config => "configs"@,
        ComposeIsolationResourceKind::Secret => "secrets"@,
    }
}

proof fn place_of_rewrite(
    resources: Seq<ComposeIsolationResourceRewrite>,
    subnets: Seq<ComposeIsolationSubnetAllocation>,
    kind: ComposeIsolationResourceKind,
    i: int,
) -> (e: int)
    requires
        0 <= i < resources.len(),
        resources[i].kind == kind,
    ensures
        0 <= e < renamed(resources, subnets, kind).len(),
        renamed(resources, subnets, kind)[e].0 == quoted_text(resources[i].resource@),
        names_resource(renamed(resources, subnets, kind)[e].1, resources[i]),
        kind == ComposeIsolationResourceKind::Network && subnet_for(
            subnets,
            resources[i].resource@,
        ) is Some ==> renamed(resources, subnets, kind)[e].1->Mapping_0.contains(
            ("ipam"@, ipam_view(subnet_for(subnets, resources[i].resource@)->0)),
        ),
    decreases resources.len(),
{
    let all = renamed(resources, subnets, kind);
    let last = resources.last();
    if i == resources.len() - 1 {
        let e = all.len() - 1;
        let fields = all[e].1->Mapping_0;
        assert(fields[0] == ("name"@, YamlView::Scalar(quoted_text(last.rewritten_name@))));
        if kind == ComposeIsolationResourceKind::Network && subnet_for(
            subnets,
            last.resource@,
        ) is Some {
            assert(fields[1] == ("ipam"@, ipam_view(subnet_for(subnets, last.resource@)->0)));
        }
        e
    } else {
        let front = resources.drop_last();
        assert(front[i] == resources[i]);
        let e = place_of_rewrite(front, subnets, kind, i);
        assert(all[e] == renamed(front, subnets, kind)[e]);
        e
    }
}

/// Whether a mapping begins with the new name of a resource.
pub open spec fn names_resource(
    value: YamlView,
    rewrite: ComposeIsolationResourceRewrite,
) -> bool {
    &&& value is Mapping
    &&& value->Mapping_0.len() > 0
    &&& value->Mapping_0[0] == ("name"@, YamlView::Scalar(quoted_text(rewrite.rewritten_name@)))
}

proof fn sections_of_documents(patch: PatchView, item: (Seq<char>, YamlView))
    ensures
        ({
            let (resources, subnets) = (patch.resources, patch.subnets);
            document_view(patch).contains(item) <==> {
                ||| item == (
                    "services"@,
                    YamlView::Mapping(
                        patch.services.map_values(
                            |service: ServicePatchView|
                                (quoted_text(service.name), service_view(service)),
                        ),
                    ),
                )
                ||| item.0 == "networks"@ && section(
                    renamed(resources, subnets, ComposeIsolationResourceKind::Network) + addressed(
                        subnets,
                        resources,
                    ),
                ) == Some(item.1)
                ||| item.0 == "volumes"@ && section(
                    renamed(resources, subnets, ComposeIsolationResourceKind::Volume),
                ) == Some(item.1)
                ||| item.0 == "configs"@ && section(
                    renamed(resources, subnets, ComposeIsolationResourceKind::Config),
                ) == Some(item.1)
                ||| item.0 == "secrets"@ && section(
                    renamed(resources, subnets, ComposeIsolationResourceKind::Secret),
                ) == Some(item.1)
            }
        }),
{
    let (resources, subnets) = (patch.resources, patch.subnets);
    let first = (
        "services"@,
        YamlView::Mapping(
            patch.services.map_values(
                |service: ServicePatchView| (quoted_text(service.name), service_view(service)),
            ),
        ),
    );
    let networks = section(
        renamed(resources, subnets, ComposeIsolationResourceKind::Network) + addressed(
            subnets,
            resources,
        ),
    );
    let volumes = section(renamed(resources, subnets, ComposeIsolationResourceKind::Volume));
    let configs = section(renamed(resources, subnets, ComposeIsolationResourceKind::Config));
    let secrets = section(renamed(resources, subnets, ComposeIsolationResourceKind::Secret));
    let a = seq![first];
    let b = a + entry_if("networks"@, networks);
    let c = b + entry_if("volumes"@, volumes);
    let d = c + entry_if("configs"@, configs);
    contained_in_one(first, item);
    contained_in_sum(a, entry_if("networks"@, networks), item);
    contained_in_sum(b, entry_if("volumes"@, volumes), item);
    contained_in_sum(c, entry_if("configs"@, configs), item);
    contained_in_sum(d, entry_if("secrets"@, secrets), item);
    contained_in_entry("networks"@, networks, item);
    contained_in_entry("volumes"@, volumes, item);
    contained_in_entry("configs"@, configs, item);
    contained_in_entry("secrets"@, secrets, item);
}

/// A network, volume, config or secret that is renamed keeps its key in the
/// Compose files: the document has a section of its kind with an entry under
/// that key, in quotes, whose first field is its new name, in quotes.
pub proof fn renamed_resources_keep_their_key(patch: PatchView, position: int)
    requires
        0 <= position < patch.resources.len(),
        patch.resources[position].kind != ComposeIsolationResourceKind::ServiceContainer,
    ensures
        ({
            let rewrite = patch.resources[position];
            exists|entries: Entries, e: int|
                {
                    &&& #[trigger] document_view(patch).contains(
                        (section_of(rewrite.kind), YamlView::Mapping(entries)),
                    )
                    &&& 0 <= e < entries.len()
                    &&& (#[trigger] entries[e]).0 == quoted_text(rewrite.resource@)
                    &&& entries[e].1 is Mapping
                    &&& entries[e].1->Mapping_0.len() > 0
                    &&& entries[e].1->Mapping_0[0] == (
                        "name"@,
                        YamlView::Scalar(quoted_text(rewrite.rewritten_name@)),
                    )
                }
        }),
{
    let rewrite = patch.resources[position];
    let (resources, subnets) = (patch.resources, patch.subnets);
    let own = renamed(resources, subnets, rewrite.kind);
    let e = place_of_rewrite(resources, subnets, rewrite.kind, position);
    let entries = if rewrite.kind == ComposeIsolationResourceKind::Network {
        own + addressed(subnets, resources)
    } else {
        own
    };
    assert(entries[e] == own[e]);
    sections_of_documents(patch, (section_of(rewrite.kind), YamlView::Mapping(entries)));
    assert(document_view(patch).contains((section_of(rewrite.kind), YamlView::Mapping(entries))));
}

/// Nothing else is renamed: each entry of the sections of volumes, configs and
/// secrets stands for a renamed resource of that kind, under its key and with
/// its new name.
pub proof fn sections_rename_nothing_else(
    patch: PatchView,
    kind: ComposeIsolationResourceKind,
    entries: Entries,
    e: int,
)
    requires
        kind == ComposeIsolationResourceKind::Volume || kind
            == ComposeIsolationResourceKind::Config || kind
            == ComposeIsolationResourceKind::Secret,
        document_view(patch).contains((section_of(kind), YamlView::Mapping(entries))),
        0 <= e < entries.len(),
    ensures
        exists|i: int|
            {
                &&& 0 <= i < patch.resources.len()
                &&& (#[trigger] patch.resources[i]).kind == kind
                &&& entries[e].0 == quoted_text(patch.resources[i].resource@)
                &&& entries[e].1 == YamlView::Mapping(
                    seq![
                        (
                            "name"@,
                            YamlView::Scalar(quoted_text(patch.resources[i].rewritten_name@)),
                        ),
                    ],
                )
            },
{
    reveal_strlit("services");
    reveal_strlit("networks");
    reveal_strlit("volumes");
    reveal_strlit("configs");
    reveal_strlit("secrets");
    assert("services"@[0] == 's' && "services"@[2] == 'r' && "services"@.len() == 8);
    assert("networks"@.len() == 8);
    assert("volumes"@[0] == 'v' && "configs"@[0] == 'c' && "secrets"@[0] == 's');
    assert("volumes"@.len() == 7 && "configs"@.len() == 7 && "secrets"@.len() == 7);
    sections_of_documents(patch, (section_of(kind), YamlView::Mapping(entries)));
    assert(entries == renamed(patch.resources, patch.subnets, kind));
    other_kinds_hold_names_alone(patch.resources, patch.subnets, kind);
}

proof fn other_kinds_hold_names_alone(
    resources: Seq<ComposeIsolationResourceRewrite>,
    subnets: Seq<ComposeIsolationSubnetAllocation>,
    kind: ComposeIsolationResourceKind,
)
    requires
        kind != ComposeIsolationResourceKind::Network,
    ensures
        forall|e: int|
            0 <= e < renamed(resources, subnets, kind).len() ==> exists|i: int|
                {
                    &&& 0 <= i < resources.len()
                    &&& (#[trigger] resources[i]).kind == kind
                    &&& (#[trigger] renamed(resources, subnets, kind)[e]) == (
                        quoted_text(resources[i].resource@),
                        YamlView::Mapping(
                            seq![
                                (
                                    "name"@,
                                    YamlView::Scalar(quoted_text(resources[i].rewritten_name@)),
                                ),
                            ],
                        ),
                    )
                },
    decreases resources.len(),
{
    if resources.len() > 0 {
        let front = resources.drop_last();
        let before = renamed(front, subnets, kind);
        let all = renamed(resources, subnets, kind);
        let last = resources.last();
        other_kinds_hold_names_alone(front, subnets, kind);
        assert forall|e: int| 0 <= e < all.len() implies exists|i: int|
            {
                &&& 0 <= i < resources.len()
                &&& (#[trigger] resources[i]).kind == kind
                &&& (#[trigger] all[e]) == (
                    quoted_text(resources[i].resource@),
                    YamlView::Mapping(
                        seq![
                            (
                                "name"@,
                                YamlView::Scalar(quoted_text(resources[i].rewritten_name@)),
                            ),
                        ],
                    ),
                )
            } by {
            if e < before.len() {
                assert(all[e] == before[e]);
                let i = choose|i: int|
                    {
                        &&& 0 <= i < front.len()
                        &&& (#[trigger] front[i]).kind == kind
                        &&& before[e] == (
                            quoted_text(front[i].resource@),
                            YamlView::Mapping(
                                seq![
                                    (
                                        "name"@,
                                        YamlView::Scalar(quoted_text(front[i].rewritten_name@)),
                                    ),
                                ],
                            ),
                        )
                    };
                assert(resources[i] == front[i]);
            } else {
                assert(all[e].1->Mapping_0 =~= seq![
                    ("name"@, YamlView::Scalar(quoted_text(last.rewritten_name@))),
                ]);
                assert(resources[resources.len() - 1] == last);
            }
        }
    }
}

proof fn place_of_address(
    subnets: Seq<ComposeIsolationSubnetAllocation>,
    resources: Seq<ComposeIsolationResourceRewrite>,
    i: int,
) -> (e: int)
    requires
        0 <= i < subnets.len(),
        forall|k: int|
            0 <= k < resources.len() ==> !((#[trigger] resources[k]).kind
                == ComposeIsolationResourceKind::Network && resources[k].resource@
                == subnets[i].network@),
    ensures
        0 <= e < addressed(subnets, resources).len(),
        addressed(subnets, resources)[e] == (
            quoted_text(subnets[i].network@),
            YamlView::Mapping(seq![("ipam"@, ipam_view(subnets[i]))]),
        ),
    decreases subnets.len(),
{
    let all = addressed(subnets, resources);
    assert(!network_is_renamed(resources, subnets[i].network@));
    if i == subnets.len() - 1 {
        all.len() - 1
    } else {
        let front = subnets.drop_last();
        assert(front[i] == subnets[i]);
        let e = place_of_address(front, resources, i);
        assert(all[e] == addressed(front, resources)[e]);
        e
    }
}

proof fn addresses_are_found(
    subnets: Seq<ComposeIsolationSubnetAllocation>,
    network: Seq<char>,
    i: int,
)
    requires
        0 <= i < subnets.len(),
        subnets[i].network@ == network,
        forall|k: int| 0 <= k < i ==> (#[trigger] subnets[k]).network@ != network,
    ensures
        subnet_for(subnets, network) == Some(subnets[i]),
    decreases i,
{
    if i > 0 {
        assert(subnets[0].network@ != network);
        assert(subnets.drop_first()[i - 1] == subnets[i]);
        assert forall|k: int| 0 <= k < i - 1 implies (#[trigger] subnets.drop_first()[k]).network@
            != network by {
            assert(subnets[k + 1].network@ != network);
        }
        addresses_are_found(subnets.drop_first(), network, i - 1);
    }
}

/// A network that is given addresses has an entry under its key, in quotes,
/// whose address configuration replaces that of the Compose files: it has the
/// planned subnet, and gateway, address range and further addresses exactly
/// where they are planned. A network that keeps its name has nothing but that;
/// of several plans for a renamed network the first counts.
pub proof fn planned_addresses_are_given(patch: PatchView, position: int)
    requires
        0 <= position < patch.subnets.len(),
        forall|k: int|
            0 <= k < position ==> (#[trigger] patch.subnets[k]).network@
                != patch.subnets[position].network@,
    ensures
        ({
            let plan = patch.subnets[position];
            exists|entries: Entries, e: int, config: Entries|
                {
                    &&& document_view(patch).contains(("networks"@, YamlView::Mapping(entries)))
                    &&& 0 <= e < entries.len()
                    &&& (#[trigger] entries[e]).0 == quoted_text(plan.network@)
                    &&& entries[e].1 is Mapping
                    &&& entries[e].1->Mapping_0.contains(
                        (
                            "ipam"@,
                            YamlView::Mapping(
                                seq![
                                    (
                                        "config"@,
                                        YamlView::Sequence(
                                            seq![YamlView::Mapping(config)],
                                            true,
                                        ),
                                    ),
                                ],
                            ),
                        ),
                    )
                    &&& #[trigger] tells_addresses(config, plan)
                }
        }),
{
    let plan = patch.subnets[position];
    let (resources, subnets) = (patch.resources, patch.subnets);
    let own = renamed(resources, subnets, ComposeIsolationResourceKind::Network);
    let others = addressed(subnets, resources);
    let entries = own + others;
    let config = ipam_view(plan)->Mapping_0[0].1->Sequence_0[0]->Mapping_0;
    addresses_are_told(plan);
    assert(ipam_view(plan)->Mapping_0 =~= seq![
        ("config"@, YamlView::Sequence(seq![YamlView::Mapping(config)], true)),
    ]);
    let renamed_at = exists|k: int|
        0 <= k < resources.len() && (#[trigger] resources[k]).kind
            == ComposeIsolationResourceKind::Network && resources[k].resource@ == plan.network@;
    let e = if renamed_at {
        let k = choose|k: int|
            0 <= k < resources.len() && (#[trigger] resources[k]).kind
                == ComposeIsolationResourceKind::Network && resources[k].resource@
                == plan.network@;
        let e = place_of_rewrite(resources, subnets, ComposeIsolationResourceKind::Network, k);
        addresses_are_found(subnets, plan.network@, position);
        assert(entries[e] == own[e]);
        e
    } else {
        let e = place_of_address(subnets, resources, position);
        assert(entries[own.len() + e] == others[e]);
        assert(others[e].1->Mapping_0[0] == ("ipam"@, ipam_view(plan)));
        own.len() + e
    };
    sections_of_documents(patch, ("networks"@, YamlView::Mapping(entries)));
    assert(entries[e].0 == quoted_text(plan.network@));
    assert(entries[e].1->Mapping_0.contains(("ipam"@, ipam_view(plan))));
    assert(ipam_view(plan) == YamlView::Mapping(
        seq![("config"@, YamlView::Sequence(seq![YamlView::Mapping(config)], true))],
    ));
}

/// Whether fields are the planned addresses of a network.
pub open spec fn tells_addresses(fields: Entries, plan: ComposeIsolationSubnetAllocation) -> bool {
    forall|key: Seq<char>, value: YamlView| #[trigger]
        fields.contains((key, value)) <==> {
            ||| key == "subnet"@ && value == YamlView::Scalar(quoted_text(plan.planned_subnet@))
            ||| key == "gateway"@ && plan.planned_gateway is Some && value == YamlView::Scalar(
                quoted_text(plan.planned_gateway->0@),
            )
            ||| key == "ip_range"@ && plan.planned_ip_range is Some && value == YamlView::Scalar(
                quoted_text(plan.planned_ip_range->0@),
            )
            ||| key == "aux_addresses"@ && plan.planned_aux_addresses@.len() > 0 && value
                == YamlView::Mapping(
                plan.planned_aux_addresses@.map_values(
                    |pair: (Seq<char>, String)|
                        (quoted_text(pair.0), YamlView::Scalar(quoted_text(pair.1@))),
                ),
            )
        }
}

proof fn addresses_are_told(plan: ComposeIsolationSubnetAllocation)
    ensures
        tells_addresses(ipam_view(plan)->Mapping_0[0].1->Sequence_0[0]->Mapping_0, plan),
{
    let fields = ipam_view(plan)->Mapping_0[0].1->Sequence_0[0]->Mapping_0;
    let gateway = quoted_if(crate::text::opt_view(plan.planned_gateway));
    let range = quoted_if(crate::text::opt_view(plan.planned_ip_range));
    let pairs = pairs_view(crate::compose::patch::text_pairs(plan.planned_aux_addresses@));
    let aux = if plan.planned_aux_addresses@.len() > 0 {
        Some(pairs)
    } else {
        None
    };
    let subnet = ("subnet"@, quoted_view(plan.planned_subnet@));
    let a = seq![subnet];
    let b = a + entry_if("gateway"@, gateway);
    let c = b + entry_if("ip_range"@, range);
    let d = c + entry_if("aux_addresses"@, aux);
    assert(fields == d);
    assert(pairs->Mapping_0 =~= plan.planned_aux_addresses@.map_values(
        |pair: (Seq<char>, String)|
            (quoted_text(pair.0), YamlView::Scalar(quoted_text(pair.1@))),
    ));
    assert forall|key: Seq<char>, value: YamlView| #[trigger] fields.contains((key, value)) <==> {
        ||| key == "subnet"@ && value == YamlView::Scalar(quoted_text(plan.planned_subnet@))
        ||| key == "gateway"@ && plan.planned_gateway is Some && value == YamlView::Scalar(
            quoted_text(plan.planned_gateway->0@),
        )
        ||| key == "ip_range"@ && plan.planned_ip_range is Some && value == YamlView::Scalar(
            quoted_text(plan.planned_ip_range->0@),
        )
        ||| key == "aux_addresses"@ && plan.planned_aux_addresses@.len() > 0 && value
            == YamlView::Mapping(
            plan.planned_aux_addresses@.map_values(
                |pair: (Seq<char>, String)|
                    (quoted_text(pair.0), YamlView::Scalar(quoted_text(pair.1@))),
            ),
        )
    } by {
        let item = (key, value);
        contained_in_one(subnet, item);
        contained_in_sum(a, entry_if("gateway"@, gateway), item);
        contained_in_sum(b, entry_if("ip_range"@, range), item);
        contained_in_sum(c, entry_if("aux_addresses"@, aux), item);
        contained_in_entry("gateway"@, gateway, item);
        contained_in_entry("ip_range"@, range, item);
        contained_in_entry("aux_addresses"@, aux, item);
    }
}

/// The texts of a list, in quotes.
pub open spec fn list_of(texts: Seq<Seq<char>>, replaces: bool) -> YamlView {
    YamlView::Sequence(
        texts.map_values(|text: Seq<char>| YamlView::Scalar(quoted_text(text))),
        replaces,
    )
}

/// Yes or no, as it is written.
pub open spec fn word_of(value: bool) -> YamlView {
    YamlView::Scalar(
        if value {
            "true"@
        } else {
            "false"@
        },
    )
}

/// The document begins with the services, in the order of the changes: each
/// under its name, in quotes.
pub proof fn services_come_under_their_names(patch: PatchView, position: int)
    requires
        0 <= position < patch.services.len(),
    ensures
        document_view(patch).len() > 0,
        document_view(patch)[0].0 == "services"@,
        document_view(patch)[0].1 is Mapping,
        document_view(patch)[0].1->Mapping_0.len() == patch.services.len(),
        document_view(patch)[0].1->Mapping_0[position].0 == quoted_text(
            patch.services[position].name,
        ),
        tells_service(
            document_view(patch)[0].1->Mapping_0[position].1,
            patch.services[position],
        ),
{
    services_are_told(patch.services[position]);
}

/// Whether a mapping tells the changes to a service: which fields it has, and
/// nothing else.
pub open spec fn tells_service(node: YamlView, service: ServicePatchView) -> bool {
    &&& node is Mapping
    &&& forall|key: Seq<char>, value: YamlView| #[trigger]
        node->Mapping_0.contains((key, value)) <==> tells_field(service, key, value)
}

/// Whether a field with a value stands among the changes to a service.
pub open spec fn tells_field(service: ServicePatchView, key: Seq<char>, value: YamlView) -> bool {
    ||| key == "image"@ && service.image is Some && value == YamlView::Scalar(
        quoted_text(service.image->0),
    )
    ||| key == "pull_policy"@ && service.pull_policy_never && value == YamlView::Scalar(
        quoted_text("never"@),
    )
    ||| key == "labels"@ && service.labels.len() > 0 && value == YamlView::Mapping(
        service.labels.map_values(
            |pair: (Seq<char>, Seq<char>)|
                (quoted_text(pair.0), YamlView::Scalar(quoted_text(pair.1))),
        ),
    )
    ||| key == "environment"@ && service.environment.len() > 0 && value
        == YamlView::Mapping(
        service.environment.map_values(
            |pair: (Seq<char>, EnvironmentView)|
                (
                    quoted_text(pair.0),
                    YamlView::Scalar(
                        quoted_text(
                            match pair.1 {
                                EnvironmentView::Plain(text) => text,
                                EnvironmentView::Interpolated(name, _) => "${"@ + name
                                    + "}"@,
                            },
                        ),
                    ),
                ),
        ),
    )
    ||| key == "user"@ && service.user is Some && value == YamlView::Scalar(
        quoted_text(service.user->0),
    )
    ||| key == "init"@ && service.init is Some && value == word_of(service.init->0)
    ||| key == "privileged"@ && service.privileged is Some && value == word_of(
        service.privileged->0,
    )
    ||| key == "cap_add"@ && service.cap_add.len() > 0 && value == list_of(
        service.cap_add,
        false,
    )
    ||| key == "security_opt"@ && service.security_opt.len() > 0 && value == list_of(
        service.security_opt,
        false,
    )
    ||| key == "ports"@ && service.ports is Some && value == YamlView::Sequence(
        service.ports->0.map_values(
            |fields: PortFields|
                YamlView::Mapping(
                    fields@.map_values(
                        |field: (Seq<char>, JsonValue)|
                            (
                                field.0,
                                YamlView::Scalar(
                                    match field.1 {
                                        JsonValue::Text(text) => quoted_text(text@),
                                        JsonValue::Literal(text) => text@,
                                    },
                                ),
                            ),
                    ),
                ),
        ),
        true,
    )
    ||| key == "volumes"@ && service.mounts.len() > 0 && value is Sequence
        && !value->Sequence_1 && value->Sequence_0.len() == service.mounts.len() && value
        == YamlView::Sequence(
        service.mounts.map_values(|mount: DockerMountSpec| mount_view(mount)),
        false,
    )
    ||| key == "entrypoint"@ && service.entrypoint is Some && value == list_of(
        service.entrypoint->0,
        false,
    )
    ||| key == "command"@ && service.command is Some && value == list_of(
        service.command->0,
        false,
    )
    ||| key == "container_name"@ && service.container_name is Some && value
        == YamlView::Scalar(quoted_text(service.container_name->0.rewritten_name@))
    ||| key == "networks"@ && service.container_name is Some
        && service.container_name->0.networks@.len() > 0 && value == YamlView::Mapping(
        service.container_name->0.networks@.map_values(
            |network: String|
                (
                    quoted_text(network@),
                    YamlView::Mapping(
                        seq![
                            (
                                "aliases"@,
                                list_of(
                                    seq![service.container_name->0.original_name@],
                                    false,
                                ),
                            ),
                        ],
                    ),
                ),
        ),
    )
    ||| service.references is Some && tells_reference(service.references->0, key, value)
}

/// Whether a field adapts a reference to a renamed container. Lists replace
/// those of the Compose files.
pub open spec fn tells_reference(
    rewrite: ComposeServiceReferenceRewrite,
    key: Seq<char>,
    value: YamlView,
) -> bool {
    ||| key == "network_mode"@ && rewrite.network_mode is Some && value == YamlView::Scalar(
        quoted_text(rewrite.network_mode->0@),
    )
    ||| key == "ipc"@ && rewrite.ipc is Some && value == YamlView::Scalar(
        quoted_text(rewrite.ipc->0@),
    )
    ||| key == "pid"@ && rewrite.pid is Some && value == YamlView::Scalar(
        quoted_text(rewrite.pid->0@),
    )
    ||| key == "volumes_from"@ && rewrite.volumes_from is Some && value == list_of(
        rewrite.volumes_from->0@.map_values(|text: String| text@),
        true,
    )
    ||| key == "external_links"@ && rewrite.external_links is Some && value == list_of(
        rewrite.external_links->0@.map_values(|text: String| text@),
        true,
    )
}

proof fn references_are_adapted(
    rewrite: Option<ComposeServiceReferenceRewrite>,
    item: (Seq<char>, YamlView),
)
    ensures
        reference_entries(rewrite).contains(item) <==> rewrite is Some && tells_reference(
            rewrite->0,
            item.0,
            item.1,
        ),
{
    if let Some(rewrite) = rewrite {
        let mode = quoted_if(crate::text::opt_view(rewrite.network_mode));
        let ipc = quoted_if(crate::text::opt_view(rewrite.ipc));
        let pid = quoted_if(crate::text::opt_view(rewrite.pid));
        let from = crate::compose::render::texts_if(
            crate::compose::render::opt_texts(rewrite.volumes_from),
            true,
        );
        let links = crate::compose::render::texts_if(
            crate::compose::render::opt_texts(rewrite.external_links),
            true,
        );
        let a = entry_if("network_mode"@, mode);
        let b = a + entry_if("ipc"@, ipc);
        let c = b + entry_if("pid"@, pid);
        let d = c + entry_if("volumes_from"@, from);
        contained_in_sum(a, entry_if("ipc"@, ipc), item);
        contained_in_sum(b, entry_if("pid"@, pid), item);
        contained_in_sum(c, entry_if("volumes_from"@, from), item);
        contained_in_sum(d, entry_if("external_links"@, links), item);
        contained_in_entry("network_mode"@, mode, item);
        contained_in_entry("ipc"@, ipc, item);
        contained_in_entry("pid"@, pid, item);
        contained_in_entry("volumes_from"@, from, item);
        contained_in_entry("external_links"@, links, item);
        if rewrite.volumes_from is Some {
            let texts = rewrite.volumes_from->0@.map_values(|text: String| text@);
            assert(crate::text::views(rewrite.volumes_from->0@) =~= texts);
            lists_are_written(texts, true);
        }
        if rewrite.external_links is Some {
            let texts = rewrite.external_links->0@.map_values(|text: String| text@);
            assert(crate::text::views(rewrite.external_links->0@) =~= texts);
            lists_are_written(texts, true);
        }
    }
}

proof fn lists_are_written(texts: Seq<Seq<char>>, replaces: bool)
    ensures
        texts_view(texts, replaces) == list_of(texts, replaces),
{
    assert(texts_view(texts, replaces)->Sequence_0 =~= list_of(texts, replaces)->Sequence_0);
}

proof fn names_are_written(
    rewrite: Option<ComposeServiceNameRewrite>,
    item: (Seq<char>, YamlView),
)
    ensures
        name_entries(rewrite).contains(item) <==> rewrite is Some && {
            ||| item.0 == "container_name"@ && item.1 == YamlView::Scalar(
                quoted_text(rewrite->0.rewritten_name@),
            )
            ||| item.0 == "networks"@ && rewrite->0.networks@.len() > 0 && item.1
                == YamlView::Mapping(
                rewrite->0.networks@.map_values(
                    |network: String|
                        (
                            quoted_text(network@),
                            YamlView::Mapping(
                                seq![
                                    (
                                        "aliases"@,
                                        list_of(seq![rewrite->0.original_name@], false),
                                    ),
                                ],
                            ),
                        ),
                ),
            )
        },
{
    if let Some(name) = rewrite {
        let first = ("container_name"@, quoted_view(name.rewritten_name@));
        let aliases = crate::compose::render::alias_networks(name);
        contained_in_one(first, item);
        contained_in_sum(seq![first], entry_if("networks"@, aliases), item);
        contained_in_entry("networks"@, aliases, item);
        lists_are_written(seq![name.original_name@], false);
        if name.networks@.len() > 0 {
            assert(aliases->0->Mapping_0 =~= rewrite->0.networks@.map_values(
                |network: String|
                    (
                        quoted_text(network@),
                        YamlView::Mapping(
                            seq![
                                ("aliases"@, list_of(seq![rewrite->0.original_name@], false)),
                            ],
                        ),
                    ),
            ));
        }
    }
}

proof fn fields_of_services(service: ServicePatchView, item: (Seq<char>, YamlView))
    ensures
        service_view(service) is Mapping,
        service_view(service)->Mapping_0.contains(item) <==> {
            ||| item.0 == "image"@ && quoted_if(service.image) == Some(item.1)
            ||| item.0 == "pull_policy"@ && service.pull_policy_never
                && item.1 == quoted_view("never"@)
            ||| item.0 == "labels"@ && service.labels.len() > 0
                && item.1 == pairs_view(service.labels)
            ||| item.0 == "environment"@ && service.environment.len() > 0
                && item.1 == environment_view(service.environment)
            ||| item.0 == "user"@ && quoted_if(service.user) == Some(item.1)
            ||| item.0 == "init"@ && crate::compose::render::flag_if(service.init) == Some(item.1)
            ||| item.0 == "privileged"@
                && crate::compose::render::flag_if(service.privileged) == Some(item.1)
            ||| item.0 == "cap_add"@
                && crate::compose::render::some_texts(service.cap_add) == Some(item.1)
            ||| item.0 == "security_opt"@
                && crate::compose::render::some_texts(service.security_opt) == Some(item.1)
            ||| item.0 == "ports"@
                && crate::compose::render::ports_if(service.ports) == Some(item.1)
            ||| item.0 == "volumes"@
                && crate::compose::render::mounts_if(service.mounts) == Some(item.1)
            ||| item.0 == "entrypoint"@
                && crate::compose::render::texts_if(service.entrypoint, false) == Some(item.1)
            ||| item.0 == "command"@
                && crate::compose::render::texts_if(service.command, false) == Some(item.1)
            ||| name_entries(service.container_name).contains(item)
            ||| reference_entries(service.references).contains(item)
        },
{
    let image: Option<YamlView> = quoted_if(service.image);
    let pull_policy: Option<YamlView> = if service.pull_policy_never {
        Some(quoted_view("never"@))
    } else {
        None
    };
    let labels: Option<YamlView> = if service.labels.len() > 0 {
        Some(pairs_view(service.labels))
    } else {
        None
    };
    let environment: Option<YamlView> = if service.environment.len() > 0 {
        Some(environment_view(service.environment))
    } else {
        None
    };
    let user: Option<YamlView> = quoted_if(service.user);
    let init: Option<YamlView> = crate::compose::render::flag_if(service.init);
    let privileged: Option<YamlView> = crate::compose::render::flag_if(service.privileged);
    let cap_add: Option<YamlView> = crate::compose::render::some_texts(service.cap_add);
    let security_opt: Option<YamlView> = crate::compose::render::some_texts(service.security_opt);
    let ports: Option<YamlView> = crate::compose::render::ports_if(service.ports);
    let volumes: Option<YamlView> = crate::compose::render::mounts_if(service.mounts);
    let entrypoint: Option<YamlView> = crate::compose::render::texts_if(service.entrypoint, false);
    let command: Option<YamlView> = crate::compose::render::texts_if(service.command, false);
    let s0 = entry_if("image"@, image);
    let s1 = s0 + entry_if("pull_policy"@, pull_policy);
    let s2 = s1 + entry_if("labels"@, labels);
    let s3 = s2 + entry_if("environment"@, environment);
    let s4 = s3 + entry_if("user"@, user);
    let s5 = s4 + entry_if("init"@, init);
    let s6 = s5 + entry_if("privileged"@, privileged);
    let s7 = s6 + entry_if("cap_add"@, cap_add);
    let s8 = s7 + entry_if("security_opt"@, security_opt);
    let s9 = s8 + entry_if("ports"@, ports);
    let s10 = s9 + entry_if("volumes"@, volumes);
    let s11 = s10 + entry_if("entrypoint"@, entrypoint);
    let s12 = s11 + entry_if("command"@, command);
    let s13 = s12 + name_entries(service.container_name);
    let s14 = s13 + reference_entries(service.references);
    assert(service_view(service)->Mapping_0 == s14);
    contained_in_entry("image"@, image, item);
    contained_in_entry("pull_policy"@, pull_policy, item);
    contained_in_sum(s0, entry_if("pull_policy"@, pull_policy), item);
    contained_in_entry("labels"@, labels, item);
    contained_in_sum(s1, entry_if("labels"@, labels), item);
    contained_in_entry("environment"@, environment, item);
    contained_in_sum(s2, entry_if("environment"@, environment), item);
    contained_in_entry("user"@, user, item);
    contained_in_sum(s3, entry_if("user"@, user), item);
    contained_in_entry("init"@, init, item);
    contained_in_sum(s4, entry_if("init"@, init), item);
    contained_in_entry("privileged"@, privileged, item);
    contained_in_sum(s5, entry_if("privileged"@, privileged), item);
    contained_in_entry("cap_add"@, cap_add, item);
    contained_in_sum(s6, entry_if("cap_add"@, cap_add), item);
    contained_in_entry("security_opt"@, security_opt, item);
    contained_in_sum(s7, entry_if("security_opt"@, security_opt), item);
    contained_in_entry("ports"@, ports, item);
    contained_in_sum(s8, entry_if("ports"@, ports), item);
    contained_in_entry("volumes"@, volumes, item);
    contained_in_sum(s9, entry_if("volumes"@, volumes), item);
    contained_in_entry("entrypoint"@, entrypoint, item);
    contained_in_sum(s10, entry_if("entrypoint"@, entrypoint), item);
    contained_in_entry("command"@, command, item);
    contained_in_sum(s11, entry_if("command"@, command), item);
    contained_in_sum(s12, name_entries(service.container_name), item);
    contained_in_sum(s13, reference_entries(service.references), item);

}

proof fn services_are_told(service: ServicePatchView)
    ensures
        tells_service(service_view(service), service),
{
    let node = service_view(service);
    assert(pairs_view(service.labels)->Mapping_0 =~= service.labels.map_values(
        |pair: (Seq<char>, Seq<char>)|
            (quoted_text(pair.0), YamlView::Scalar(quoted_text(pair.1))),
    ));
    assert(environment_view(service.environment)->Mapping_0 =~= service.environment.map_values(
        |pair: (Seq<char>, EnvironmentView)|
            (
                quoted_text(pair.0),
                YamlView::Scalar(
                    quoted_text(
                        match pair.1 {
                            EnvironmentView::Plain(text) => text,
                            EnvironmentView::Interpolated(name, _) => "${"@ + name + "}"@,
                        },
                    ),
                ),
            ),
    ));
    lists_are_written(service.cap_add, false);
    lists_are_written(service.security_opt, false);
    if service.entrypoint is Some {
        lists_are_written(service.entrypoint->0, false);
    }
    if service.command is Some {
        lists_are_written(service.command->0, false);
    }
    if service.ports is Some {
        ports_are_written(service.ports->0);
    }
    if service.mounts.len() > 0 {
        assert(service.mounts.map_values(|mount: DockerMountSpec| mount_view(mount)).len()
            == service.mounts.len());
    }
    assert forall|key: Seq<char>, value: YamlView| #[trigger]
        node->Mapping_0.contains((key, value)) <==> tells_field(service, key, value) by {
        fields_of_services(service, (key, value));
        names_are_written(service.container_name, (key, value));
        references_are_adapted(service.references, (key, value));
    }
}

proof fn ports_are_written(ports: Seq<PortFields>)
    ensures
        crate::compose::render::ports_if(Some(ports)) == Some(
            YamlView::Sequence(
                ports.map_values(
                    |fields: PortFields|
                        YamlView::Mapping(
                            fields@.map_values(
                                |field: (Seq<char>, JsonValue)|
                                    (
                                        field.0,
                                        YamlView::Scalar(
                                            match field.1 {
                                                JsonValue::Text(text) => quoted_text(text@),
                                                JsonValue::Literal(text) => text@,
                                            },
                                        ),
                                    ),
                            ),
                        ),
                ),
                true,
            ),
        ),
{
    let written = ports.map_values(
        |fields: PortFields|
            YamlView::Mapping(
                fields@.map_values(
                    |field: (Seq<char>, JsonValue)|
                        (
                            field.0,
                            YamlView::Scalar(
                                match field.1 {
                                    JsonValue::Text(text) => quoted_text(text@),
                                    JsonValue::Literal(text) => text@,
                                },
                            ),
                        ),
                ),
            ),
    );
    let shown = crate::compose::render::ports_if(Some(ports))->0->Sequence_0;
    assert forall|i: int| 0 <= i < ports.len() implies shown[i] == written[i] by {
        assert(shown[i]->Mapping_0 =~= written[i]->Mapping_0);
    }
    assert(shown =~= written);
}

/// The word for a type of mount.
pub open spec fn type_word(mount_type: MountType) -> Seq<char> {
    match mount_type {
        MountType::Bind => "bind"@,
        MountType::Volume => "volume"@,
        MountType::Tmpfs => "tmpfs"@,
    }
}

/// A mount of a service is written with its type and target, in quotes where
/// they are texts, with source and consistency exactly where it has them, and
/// as read-only exactly where it is. Only a bind mount has options of a bind
/// mount: the host path is created only where that was asked for. Only a mount
/// with options of a volume has them.
pub proof fn mounts_are_written_in_full(mount: DockerMountSpec)
    ensures
        mount_view(mount) is Mapping,
        forall|key: Seq<char>, value: YamlView| #[trigger]
            mount_view(mount)->Mapping_0.contains((key, value)) <==> {
                ||| key == "type"@ && value == YamlView::Scalar(type_word(mount.mount_type))
                ||| key == "source"@ && mount.source is Some && value == YamlView::Scalar(
                    quoted_text(mount.source->0@),
                )
                ||| key == "target"@ && value == YamlView::Scalar(quoted_text(mount.target@))
                ||| key == "read_only"@ && mount.read_only && value == YamlView::Scalar("true"@)
                ||| key == "consistency"@ && mount.consistency is Some && value
                    == YamlView::Scalar(quoted_text(mount.consistency->0@))
                ||| key == "bind"@ && mount.mount_type == MountType::Bind && value == bind_view(
                    mount.bind_options,
                )
                ||| key == "volume"@ && mount.volume_options is Some && (
                mount.volume_options->0.no_copy is Some || mount.volume_options->0.subpath is Some)
                    && value == YamlView::Mapping(volume_entries(mount.volume_options->0))
            },
        mount.volume_options is Some ==> forall|key: Seq<char>, value: YamlView| #[trigger]
            volume_entries(mount.volume_options->0).contains((key, value)) <==> {
                ||| key == "nocopy"@ && mount.volume_options->0.no_copy is Some && value == word_of(
                    mount.volume_options->0.no_copy->0,
                )
                ||| key == "subpath"@ && mount.volume_options->0.subpath is Some && value
                    == YamlView::Scalar(quoted_text(mount.volume_options->0.subpath->0@))
            },
{
    let source = quoted_if(crate::text::opt_view(mount.source));
    let read_only: Option<YamlView> = if mount.read_only {
        Some(crate::compose::render::flag_view(true))
    } else {
        None
    };
    let consistency = quoted_if(crate::text::opt_view(mount.consistency));
    let bind: Option<YamlView> = if mount.mount_type == MountType::Bind {
        Some(bind_view(mount.bind_options))
    } else {
        None
    };
    let volume: Option<YamlView> = match mount.volume_options {
        Some(options) => if volume_entries(options).len() > 0 {
            Some(YamlView::Mapping(volume_entries(options)))
        } else {
            None
        },
        None => None,
    };
    let kind = ("type"@, YamlView::Scalar(crate::compose::override_hash::mount_type_word(
        mount.mount_type,
    )));
    let target = ("target"@, quoted_view(mount.target@));
    let a = seq![kind];
    let b = a + entry_if("source"@, source);
    let c = b + seq![target];
    let d = c + entry_if("read_only"@, read_only);
    let e = d + entry_if("consistency"@, consistency);
    let f = e + entry_if("bind"@, bind);
    let g = f + entry_if("volume"@, volume);
    assert(mount_view(mount)->Mapping_0 == g);
    assert(type_word(mount.mount_type) == crate::compose::override_hash::mount_type_word(
        mount.mount_type,
    ));
    if mount.volume_options is Some {
        let options = mount.volume_options->0;
        let no_copy = crate::compose::render::flag_if(options.no_copy);
        let subpath = quoted_if(crate::text::opt_view(options.subpath));
        let first = entry_if("nocopy"@, no_copy);
        let second = entry_if("subpath"@, subpath);
        assert(volume_entries(options) == first + second);
        assert forall|key: Seq<char>, value: YamlView| #[trigger]
            volume_entries(options).contains((key, value)) <==> {
                ||| key == "nocopy"@ && options.no_copy is Some && value == word_of(
                    options.no_copy->0,
                )
                ||| key == "subpath"@ && options.subpath is Some && value == YamlView::Scalar(
                    quoted_text(options.subpath->0@),
                )
            } by {
            contained_in_sum(first, second, (key, value));
            contained_in_entry("nocopy"@, no_copy, (key, value));
            contained_in_entry("subpath"@, subpath, (key, value));
        }
    }
    assert forall|key: Seq<char>, value: YamlView| #[trigger]
        mount_view(mount)->Mapping_0.contains((key, value)) <==> {
            ||| (key, value) == kind
            ||| key == "source"@ && source == Some(value)
            ||| (key, value) == target
            ||| key == "read_only"@ && read_only == Some(value)
            ||| key == "consistency"@ && consistency == Some(value)
            ||| key == "bind"@ && bind == Some(value)
            ||| key == "volume"@ && volume == Some(value)
        } by {
        let item = (key, value);
        contained_in_one(kind, item);
        contained_in_one(target, item);
        contained_in_sum(a, entry_if("source"@, source), item);
        contained_in_sum(b, seq![target], item);
        contained_in_sum(c, entry_if("read_only"@, read_only), item);
        contained_in_sum(d, entry_if("consistency"@, consistency), item);
        contained_in_sum(e, entry_if("bind"@, bind), item);
        contained_in_sum(f, entry_if("volume"@, volume), item);
        contained_in_entry("source"@, source, item);
        contained_in_entry("read_only"@, read_only, item);
        contained_in_entry("consistency"@, consistency, item);
        contained_in_entry("bind"@, bind, item);
        contained_in_entry("volume"@, volume, item);
    }
}

/// The options of a bind mount say whether the host path is created, which is
/// so only where it was asked for, how mounts are seen on both sides where that
/// is set, and what becomes of mounts below it: they are left out, all made
/// read-only, or left writable.
pub proof fn bind_options_are_written_in_full(options: Option<MountBindOptions>)
    ensures
        bind_view(options) is Mapping,
        forall|key: Seq<char>, value: YamlView| #[trigger]
            bind_view(options)->Mapping_0.contains((key, value)) <==> {
                ||| key == "create_host_path"@ && value == word_of(
                    options is Some && options->0.create_mountpoint == Some(true),
                )
                ||| key == "propagation"@ && options is Some && options->0.propagation is Some
                    && value == YamlView::Scalar(
                    quoted_text(
                        match options->0.propagation->0 {
                            MountBindPropagation::Private => "private"@,
                            MountBindPropagation::RPrivate => "rprivate"@,
                            MountBindPropagation::Shared => "shared"@,
                            MountBindPropagation::RShared => "rshared"@,
                            MountBindPropagation::Slave => "slave"@,
                            MountBindPropagation::RSlave => "rslave"@,
                        },
                    ),
                )
                ||| key == "recursive"@ && options is Some && (options->0.non_recursive == Some(
                    true,
                ) || options->0.read_only_force_recursive == Some(true)
                    || options->0.read_only_non_recursive == Some(true)) && value
                    == YamlView::Scalar(
                    quoted_text(
                        if options->0.non_recursive == Some(true) {
                            "disabled"@
                        } else if options->0.read_only_force_recursive == Some(true) {
                            "readonly"@
                        } else {
                            "writable"@
                        },
                    ),
                )
            },
{
    let created = (
        "create_host_path"@,
        crate::compose::render::flag_view(
            options is Some && options->0.create_mountpoint == Some(true),
        ),
    );
    match options {
        None => {
            assert forall|key: Seq<char>, value: YamlView| #[trigger]
                bind_view(options)->Mapping_0.contains((key, value)) <==> (key, value)
                    == created by {
                contained_in_one(created, (key, value));
            }
        },
        Some(some) => {
            let propagation: Option<YamlView> = match some.propagation {
                Some(propagation) => Some(quoted_view(propagation.spec_name())),
                None => None,
            };
            let recursion = quoted_if(crate::compose::render::recursion_word(some));
            let a = entry_if("propagation"@, propagation);
            let b = a + seq![created];
            assert(bind_view(options)->Mapping_0 == b + entry_if("recursive"@, recursion));
            assert forall|key: Seq<char>, value: YamlView| #[trigger]
                bind_view(options)->Mapping_0.contains((key, value)) <==> {
                    ||| (key, value) == created
                    ||| key == "propagation"@ && propagation == Some(value)
                    ||| key == "recursive"@ && recursion == Some(value)
                } by {
                let item = (key, value);
                contained_in_one(created, item);
                contained_in_sum(a, seq![created], item);
                contained_in_sum(b, entry_if("recursive"@, recursion), item);
                contained_in_entry("propagation"@, propagation, item);
                contained_in_entry("recursive"@, recursion, item);
            }
        },
    }
}

} // verus!
