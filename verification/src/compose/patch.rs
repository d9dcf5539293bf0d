//! The changes that the generated file makes to a Compose project.

use crate::compose::isolation::{
    ComposeIsolationResourceRewrite, ComposeIsolationSubnetAllocation, ComposeServiceNameRewrite,
    ComposeServiceReferenceRewrite,
};
use crate::compose::ports::PortFields;
use crate::docker::DockerMountSpec;
use crate::text::{opt_view, same_text, views};
use crate::text_map::{inserted, TextMap};
use vstd::prelude::*;

verus! {

/// The value of a variable of a service.
#[derive(Debug, Clone)]
pub enum ComposeEnvironmentValue {
    /// Written as it is.
    Plain(String),
    /// Taken from a variable that Compose is handed.
    Interpolated {
        /// That variable.
        placeholder: String,
        /// Texts that may not be shown.
        redactions: Vec<String>,
    },
}

/// The value of a variable of a service, by what it holds.
pub enum EnvironmentView {
    /// Written as it is.
    Plain(Seq<char>),
    /// Taken from a variable that Compose is handed.
    Interpolated(Seq<char>, Seq<Seq<char>>),
}

impl View for ComposeEnvironmentValue {
    type V = EnvironmentView;

    open spec fn view(&self) -> EnvironmentView {
        match self {
            ComposeEnvironmentValue::Plain(value) => EnvironmentView::Plain(value@),
            ComposeEnvironmentValue::Interpolated { placeholder, redactions } =>
                EnvironmentView::Interpolated(placeholder@, views(redactions@)),
        }
    }
}

/// The changes to one service.
#[derive(Debug)]
pub struct ComposeOverrideServicePatch<'a> {
    /// The service.
    pub name: String,
    /// Its image.
    pub image: Option<String>,
    /// Whether the image is never pulled.
    pub pull_policy_never: bool,
    /// Labels that are added.
    pub labels: TextMap<String>,
    /// Variables that are set.
    pub environment: TextMap<ComposeEnvironmentValue>,
    /// The user that it runs as.
    pub user: Option<String>,
    /// Whether an init process is used.
    pub init: Option<bool>,
    /// Whether it is privileged.
    pub privileged: Option<bool>,
    /// Capabilities that are added.
    pub cap_add: Vec<String>,
    /// Security options that are added.
    pub security_opt: Vec<String>,
    /// Mounts that are added.
    pub mounts: Vec<&'a DockerMountSpec>,
    /// The ports that replace its own.
    pub ports: Option<&'a Vec<PortFields>>,
    /// What it runs first.
    pub entrypoint: Option<Vec<String>>,
    /// What it runs.
    pub command: Option<Vec<String>>,
    /// The name that its container is given.
    pub container_name: Option<&'a ComposeServiceNameRewrite>,
    /// References to renamed containers.
    pub references: Option<&'a ComposeServiceReferenceRewrite>,
}

/// The changes to one service, by what they hold.
pub struct ServicePatchView {
    /// The service.
    pub name: Seq<char>,
    /// Its image.
    pub image: Option<Seq<char>>,
    /// Whether the image is never pulled.
    pub pull_policy_never: bool,
    /// Labels that are added.
    pub labels: Seq<(Seq<char>, Seq<char>)>,
    /// Variables that are set.
    pub environment: Seq<(Seq<char>, EnvironmentView)>,
    /// The user that it runs as.
    pub user: Option<Seq<char>>,
    /// Whether an init process is used.
    pub init: Option<bool>,
    /// Whether it is privileged.
    pub privileged: Option<bool>,
    /// Capabilities that are added.
    pub cap_add: Seq<Seq<char>>,
    /// Security options that are added.
    pub security_opt: Seq<Seq<char>>,
    /// Mounts that are added.
    pub mounts: Seq<DockerMountSpec>,
    /// The ports that replace its own.
    pub ports: Option<Seq<PortFields>>,
    /// What it runs first.
    pub entrypoint: Option<Seq<Seq<char>>>,
    /// What it runs.
    pub command: Option<Seq<Seq<char>>>,
    /// The name that its container is given.
    pub container_name: Option<ComposeServiceNameRewrite>,
    /// References to renamed containers.
    pub references: Option<ComposeServiceReferenceRewrite>,
}

/// Keys and texts of a map.
pub open spec fn text_pairs(entries: Seq<(Seq<char>, String)>) -> Seq<(Seq<char>, Seq<char>)> {
    entries.map_values(|entry: (Seq<char>, String)| (entry.0, entry.1@))
}

/// Keys and values of an environment.
pub open spec fn environment_pairs(
    entries: Seq<(Seq<char>, ComposeEnvironmentValue)>,
) -> Seq<(Seq<char>, EnvironmentView)> {
    entries.map_values(|entry: (Seq<char>, ComposeEnvironmentValue)| (entry.0, entry.1@))
}

/// Optional texts.
pub open spec fn opt_views(values: Option<Vec<String>>) -> Option<Seq<Seq<char>>> {
    match values {
        Some(values) => Some(views(values@)),
        None => None,
    }
}

/// What a reference leads to, where there is one.
pub open spec fn opt_deref<T>(value: Option<&T>) -> Option<T> {
    match value {
        Some(value) => Some(*value),
        None => None,
    }
}

impl<'a> View for ComposeOverrideServicePatch<'a> {
    type V = ServicePatchView;

    open spec fn view(&self) -> ServicePatchView {
        ServicePatchView {
            name: self.name@,
            image: opt_view(self.image),
            pull_policy_never: self.pull_policy_never,
            labels: text_pairs(self.labels@),
            environment: environment_pairs(self.environment@),
            user: opt_view(self.user),
            init: self.init,
            privileged: self.privileged,
            cap_add: views(self.cap_add@),
            security_opt: views(self.security_opt@),
            mounts: self.mounts@.map_values(|mount: &DockerMountSpec| *mount),
            ports: match self.ports {
                Some(ports) => Some(ports@),
                None => None,
            },
            entrypoint: opt_views(self.entrypoint),
            command: opt_views(self.command),
            container_name: opt_deref(self.container_name),
            references: opt_deref(self.references),
        }
    }
}

/// A service that is not changed.
pub open spec fn unchanged_service(name: Seq<char>) -> ServicePatchView {
    ServicePatchView {
        name,
        image: None,
        pull_policy_never: false,
        labels: Seq::empty(),
        environment: Seq::empty(),
        user: None,
        init: None,
        privileged: None,
        cap_add: Seq::empty(),
        security_opt: Seq::empty(),
        mounts: Seq::empty(),
        ports: None,
        entrypoint: None,
        command: None,
        container_name: None,
        references: None,
    }
}

impl<'a> ComposeOverrideServicePatch<'a> {
    /// No change to a service.
    pub fn new(name: &str) -> (res: Self)
        ensures
            res@ == unchanged_service(name@),
    {
        let res = ComposeOverrideServicePatch {
            name: name.to_owned(),
            image: None,
            pull_policy_never: false,
            labels: TextMap::new(),
            environment: TextMap::new(),
            user: None,
            init: None,
            privileged: None,
            cap_add: Vec::new(),
            security_opt: Vec::new(),
            mounts: Vec::new(),
            ports: None,
            entrypoint: None,
            command: None,
            container_name: None,
            references: None,
        };
        assert(res@.labels =~= Seq::empty());
        assert(res@.environment =~= Seq::empty());
        assert(res@.cap_add =~= Seq::empty());
        assert(res@.security_opt =~= Seq::empty());
        assert(res@.mounts =~= Seq::empty());
        res
    }
}

/// The changes to a Compose project.
#[derive(Debug)]
pub struct ComposeOverridePatch<'a> {
    /// The changes to services, the primary one first.
    pub services: Vec<ComposeOverrideServicePatch<'a>>,
    /// Networks, volumes, configs and secrets that are renamed.
    pub resources: Vec<&'a ComposeIsolationResourceRewrite>,
    /// Networks that are given addresses.
    pub subnets: Vec<&'a ComposeIsolationSubnetAllocation>,
}

/// The changes to a Compose project, by what they hold.
pub struct PatchView {
    /// The changes to services, the primary one first.
    pub services: Seq<ServicePatchView>,
    /// Networks, volumes, configs and secrets that are renamed.
    pub resources: Seq<ComposeIsolationResourceRewrite>,
    /// Networks that are given addresses.
    pub subnets: Seq<ComposeIsolationSubnetAllocation>,
}

/// The changes to services, by what they hold.
pub open spec fn service_views(services: Seq<ComposeOverrideServicePatch>) -> Seq<
    ServicePatchView,
> {
    services.map_values(|service: ComposeOverrideServicePatch| service@)
}

impl<'a> View for ComposeOverridePatch<'a> {
    type V = PatchView;

    open spec fn view(&self) -> PatchView {
        PatchView {
            services: service_views(self.services@),
            resources: self.resources@.map_values(|rewrite: &ComposeIsolationResourceRewrite| *rewrite),
            subnets: self.subnets@.map_values(
                |allocation: &ComposeIsolationSubnetAllocation| *allocation,
            ),
        }
    }
}

/// Where the changes to a service stand, if there are any.
pub open spec fn service_position(services: Seq<ServicePatchView>, name: Seq<char>) -> Option<int>
    decreases services.len(),
{
    if services.len() == 0 {
        None
    } else if services[0].name == name {
        Some(0)
    } else {
        match service_position(services.drop_first(), name) {
            Some(position) => Some(position + 1),
            None => None,
        }
    }
}

/// The changes to services with the first change to one of them replaced, or
/// with a new one behind the others.
pub open spec fn revised(
    services: Seq<ServicePatchView>,
    name: Seq<char>,
    revise: spec_fn(ServicePatchView) -> ServicePatchView,
) -> Seq<ServicePatchView> {
    match service_position(services, name) {
        Some(position) => services.update(position, revise(services[position])),
        None => services.push(revise(unchanged_service(name))),
    }
}

/// A position lies within the list, and leads to the service.
pub(crate) proof fn service_position_is_valid(services: Seq<ServicePatchView>, name: Seq<char>)
    ensures
        service_position(services, name) matches Some(position) ==> 0 <= position < services.len()
            && services[position].name == name,
    decreases services.len(),
{
    if services.len() > 0 && services[0].name != name {
        service_position_is_valid(services.drop_first(), name);
        if let Some(position) = service_position(services.drop_first(), name) {
            assert(services.drop_first()[position] == services[position + 1]);
        }
    }
}

impl<'a> ComposeOverridePatch<'a> {
    /// The changes to the primary service alone.
    pub fn new(primary: ComposeOverrideServicePatch<'a>) -> (res: Self)
        ensures
            res@.services == seq![primary@],
            res@.resources == Seq::<ComposeIsolationResourceRewrite>::empty(),
            res@.subnets == Seq::<ComposeIsolationSubnetAllocation>::empty(),
    {
        let mut services: Vec<ComposeOverrideServicePatch<'a>> = Vec::new();
        services.push(primary);
        let res = ComposeOverridePatch { services, resources: Vec::new(), subnets: Vec::new() };
        assert(res@.services =~= seq![primary@]);
        assert(res@.resources =~= Seq::empty());
        assert(res@.subnets =~= Seq::empty());
        res
    }

    /// Adds the changes to a further service.
    pub fn service(&mut self, service: ComposeOverrideServicePatch<'a>)
        ensures
            final(self)@ == (PatchView {
                services: old(self)@.services.push(service@),
                ..old(self)@
            }),
    {
        let ghost before = self@.services;
        self.services.push(service);
        assert(self@.services =~= before.push(service@));
    }

    /// The position of the changes to a service; changes that do nothing are
    /// added where there are none.
    fn position_of(&mut self, name: &str) -> (res: usize)
        ensures
            res < final(self)@.services.len(),
            final(self)@.resources == old(self)@.resources,
            final(self)@.subnets == old(self)@.subnets,
            match service_position(old(self)@.services, name@) {
                Some(position) => position == res && final(self)@.services == old(self)@.services,
                None => res == old(self)@.services.len() && final(self)@.services
                    == old(self)@.services.push(unchanged_service(name@)),
            },
    {
        let ghost all = self@.services;
        let mut i: usize = 0;
        assert(all.skip(0) =~= all);
        while i < self.services.len()
            invariant
                *self == *old(self),
                all == self@.services,
                i <= self.services@.len(),
                match service_position(all.skip(i as int), name@) {
                    Some(position) => service_position(all, name@) == Some(position + i),
                    None => service_position(all, name@) is None,
                },
            decreases self.services@.len() - i,
        {
            assert(all.skip(i as int).drop_first() =~= all.skip(i as int + 1));
            assert(all[i as int] == self.services@[i as int]@);
            if same_text(self.services[i].name.as_str(), name) {
                return i;
            }
            i = i + 1;
        }
        self.service(ComposeOverrideServicePatch::new(name));
        i
    }

    /// Sets a variable of a service.
    pub fn service_environment(&mut self, name: &str, key: &String, value: &String)
        ensures
            final(self)@ == (PatchView {
                services: revised(
                    old(self)@.services,
                    name@,
                    setting_variable(key@, EnvironmentView::Plain(value@)),
                ),
                ..old(self)@
            }),
    {
        let position: usize = self.position_of(name);
        let ghost middle = self@.services;
        let plain = ComposeEnvironmentValue::Plain(value.clone());
        proof {
            inserted_pairs(
                self.services@[position as int].environment@,
                key@,
                plain,
            );
        }
        self.services[position].environment.insert(key.clone(), plain);
        proof {
            service_position_is_valid(old(self)@.services, name@);
            let revise = setting_variable(key@, EnvironmentView::Plain(value@));
            assert(self@.services[position as int] == revise(middle[position as int]));
            assert(self@.services =~= middle.update(
                position as int,
                revise(middle[position as int]),
            ));
            assert(self@.services =~= revised(old(self)@.services, name@, revise));
        }
    }

    /// Renames the container of a service.
    pub fn service_container_name(&mut self, rewrite: &'a ComposeServiceNameRewrite)
        ensures
            final(self)@ == (PatchView {
                services: revised(
                    old(self)@.services,
                    rewrite.service@,
                    renaming_container(*rewrite),
                ),
                ..old(self)@
            }),
    {
        let position: usize = self.position_of(rewrite.service.as_str());
        let ghost middle = self@.services;
        self.services[position].container_name = Some(rewrite);
        proof {
            service_position_is_valid(old(self)@.services, rewrite.service@);
            let revise = renaming_container(*rewrite);
            assert(self@.services[position as int] == revise(middle[position as int]));
            assert(self@.services =~= middle.update(
                position as int,
                revise(middle[position as int]),
            ));
            assert(self@.services =~= revised(old(self)@.services, rewrite.service@, revise));
        }
    }

    /// Adapts the references of a service to renamed containers.
    pub fn service_container_references(&mut self, rewrite: &'a ComposeServiceReferenceRewrite)
        ensures
            final(self)@ == (PatchView {
                services: revised(
                    old(self)@.services,
                    rewrite.service@,
                    referring(*rewrite),
                ),
                ..old(self)@
            }),
    {
        let position: usize = self.position_of(rewrite.service.as_str());
        let ghost middle = self@.services;
        self.services[position].references = Some(rewrite);
        proof {
            service_position_is_valid(old(self)@.services, rewrite.service@);
            let revise = referring(*rewrite);
            assert(self@.services[position as int] == revise(middle[position as int]));
            assert(self@.services =~= middle.update(
                position as int,
                revise(middle[position as int]),
            ));
            assert(self@.services =~= revised(old(self)@.services, rewrite.service@, revise));
        }
    }

    /// Renames a resource.
    pub fn resource_name(&mut self, rewrite: &'a ComposeIsolationResourceRewrite)
        ensures
            final(self)@ == (PatchView {
                resources: old(self)@.resources.push(*rewrite),
                ..old(self)@
            }),
    {
        let ghost before = self@.resources;
        self.resources.push(rewrite);
        assert(self@.resources =~= before.push(*rewrite));
    }

    /// Gives addresses to a network.
    pub fn network_ipam_override(&mut self, allocation: &'a ComposeIsolationSubnetAllocation)
        ensures
            final(self)@ == (PatchView {
                subnets: old(self)@.subnets.push(*allocation),
                ..old(self)@
            }),
    {
        let ghost before = self@.subnets;
        self.subnets.push(allocation);
        assert(self@.subnets =~= before.push(*allocation));
    }
}

/// Sets a variable.
pub open spec fn setting_variable(key: Seq<char>, value: EnvironmentView) -> spec_fn(
    ServicePatchView,
) -> ServicePatchView {
    |service: ServicePatchView|
        ServicePatchView { environment: inserted(service.environment, key, value), ..service }
}

/// Renames the container.
pub open spec fn renaming_container(rewrite: ComposeServiceNameRewrite) -> spec_fn(
    ServicePatchView,
) -> ServicePatchView {
    |service: ServicePatchView|
        ServicePatchView { container_name: Some(rewrite), ..service }
}

/// Adapts references to renamed containers.
pub open spec fn referring(rewrite: ComposeServiceReferenceRewrite) -> spec_fn(
    ServicePatchView,
) -> ServicePatchView {
    |service: ServicePatchView| ServicePatchView { references: Some(rewrite), ..service }
}

/// Storing a value and reading off what is held may be done in either order.
pub(crate) proof fn inserted_pairs(
    entries: Seq<(Seq<char>, ComposeEnvironmentValue)>,
    key: Seq<char>,
    value: ComposeEnvironmentValue,
)
    ensures
        environment_pairs(inserted(entries, key, value)) == inserted(
            environment_pairs(entries),
            key,
            value@,
        ),
    decreases entries.len(),
{
    let pairs = environment_pairs(entries);
    let left = environment_pairs(inserted(entries, key, value));
    if entries.len() == 0 {
        assert(left =~= seq![(key, value@)]);
    } else {
        assert(pairs[0] == (entries[0].0, entries[0].1@));
        assert(pairs.drop_first() =~= environment_pairs(entries.drop_first()));
        if entries[0].0 == key {
            assert(left =~= seq![(key, value@)] + pairs.drop_first());
        } else if crate::text::text_less(key, entries[0].0) {
            assert(left =~= seq![(key, value@)] + pairs);
        } else {
            inserted_pairs(entries.drop_first(), key, value);
            assert(left =~= seq![pairs[0]] + environment_pairs(
                inserted(entries.drop_first(), key, value),
            ));
        }
    }
}

} // verus!
