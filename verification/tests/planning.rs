//! Plans, made with a small stand-in for the rest of the tool.

use decune::canonical::Canonical;
use decune::compose::ports::{
    ComposePortEntry, ComposePublishedPortFinalization, ComposePublishedPortOverride,
    ComposePublishedPortPlan, ComposePublishedPortPlanningInput,
};
use decune::config::{
    ConfigLayer, ConfigMergeInput, LayerDevcontainerBuild, LayerDevcontainerCompose,
    LayerDevcontainerMetadata, LayerDevcontainerMount, LayerRunArg, MountDefinition, MountType,
    PortProtocol, ResolvedConfig, ResolvedDevcontainerSource, ResolvedFeature, ResolvedPortEntry,
    ResolvedPublishPort,
};
use decune::docker::{
    DockerMountSpec, DockerResources, EffectiveUser, EffectiveUsers, FeatureLockHashEntry,
    FetchedFeatures, HostEnvironment, HostPathCreateMode, HostPlatform, HostPortReservation,
    HostUserIds, MountBindOptions, MountBindPropagation, MountVolumeOptions,
    PreparedFeatureInstallPlan, RemoteUserSource, ResolvedBuildContext, ResolvedForwardPort,
    ResolvedRemoteUser, ResolvedUserIds, SensitiveEnvMap, SensitiveEnvValue, UidGidSyncNoopReason,
    UidGidSyncPlan, UidGidSyncTarget, UidGidSyncTargetKind,
};
use decune::error::UpError;
use decune::finalize::feature::prepare_feature_metadata_for_plan;
use decune::finalize::github_cli::{add_github_cli_feature_to_plan, command_probe_container_env};
use decune::finalize::image::{
    build_plan_on_image, prepare_compose_image_metadata, ImageMetadataLayers,
};
use decune::finalize::lookup::LookupBuild;
use decune::finalize::machine::{
    begin_finalize, finalize_up_plan_mounts, FinalizeAction, FinalizeEvent, FinalizeSettings,
};
use decune::finalize::resources::{
    finalize_mounts_and_resources_for_plan, finalize_mounts_for_plan, FinalizeUpPlanMountsOptions,
    ImageUsers,
};
use decune::hash_input::{BuildHashInput, ConfigHashInput};
use decune::mounts::{default_workspace_folder, mount_hash_inputs, WorkspaceMountPlan};
use decune::plan::assemble::{
    build_preliminary_up_plan_with_forwarding_resolution, build_read_only_up_plan_with_forwarding_resolution,
    build_up_plan, build_up_plan_with_forwarding_resolution, build_up_plan_with_image_metadata,
    build_up_plan_with_update_features, plan_uses_global_config,
    rebuild_up_plan_with_image_metadata_layers, PlanSources,
};
use decune::plan::expand::{
    expand_runtime_devcontainer_fields, expand_static_devcontainer_fields,
};
use decune::services::{FeatureLock, FeatureLockEntry, FeatureReference, PlanServices};
use decune::text_map::TextMap;
use decune::types::{
    ComposeHashFile, ComposeProjectPlan, ForwardingResolution, MountResolution, TrackedValues,
    UpPlan, UpPlanResolution, VariableContext, Workspace,
};

const HOST: HostEnvironment = HostEnvironment {
    platform: HostPlatform::Linux,
    ids: HostUserIds { uid: 1000, gid: 1000 },
};

/// The rest of the tool, with files and environment held in memory.
struct Tool {
    /// What the configuration files say.
    config: ResolvedConfig,
    /// The mounts of the project's configuration, before variables are replaced.
    project_mounts: Vec<DockerMountSpec>,
    /// The environment of the host.
    env: Vec<(String, String)>,
    /// Locked Features.
    locked: Vec<(String, String)>,
    /// What the Dockerfile holds.
    dockerfile: String,
    /// What the Compose file holds.
    compose_file: String,
}

impl Tool {
    fn new(config: ResolvedConfig) -> Tool {
        Tool {
            config,
            project_mounts: Vec::new(),
            env: Vec::new(),
            locked: Vec::new(),
            dockerfile: "FROM alpine\n".to_owned(),
            compose_file: "services: {}\n".to_owned(),
        }
    }

    /// The text with its variables replaced, and the values that came from
    /// the environment.
    fn replace(
        &self,
        text: &str,
        variables: &VariableContext,
    ) -> Result<(String, Vec<String>), UpError> {
        let mut result = String::new();
        let mut secrets = Vec::new();
        let mut rest = text;
        while let Some(start) = rest.find("${") {
            result.push_str(&rest[..start]);
            let end = start + rest[start..].find('}').expect("a variable ends");
            let name = &rest[start + 2..end];
            let value = match name {
                "localWorkspaceFolder" => variables.local_workspace_folder.clone(),
                "localWorkspaceFolderBasename" => {
                    variables.local_workspace_folder_basename.clone()
                }
                "containerWorkspaceFolder" => variables.container_workspace_folder.clone(),
                "containerWorkspaceFolderBasename" => {
                    variables.container_workspace_folder_basename.clone()
                }
                "devcontainerId" => variables.devcontainer_id.clone(),
                "uid" => variables.uid.to_string(),
                "gid" => variables.gid.to_string(),
                "remoteUser" => variables.remote_user.clone(),
                "remoteUserHome" => match &variables.remote_user_home {
                    Some(home) => home.clone(),
                    None => return Err(UpError::from_text("remoteUserHome is not known")),
                },
                other => match other.strip_prefix("localEnv:") {
                    Some(spec) => {
                        let (key, default) = match spec.split_once(':') {
                            Some((key, default)) => (key, default),
                            None => (spec, ""),
                        };
                        match self.env.iter().find(|(name, _)| name == key) {
                            Some((_, value)) => {
                                secrets.push(value.clone());
                                value.clone()
                            }
                            None => default.to_owned(),
                        }
                    }
                    None => {
                        return Err(UpError::new(format!("Unsupported variable: {other}")));
                    }
                },
            };
            result.push_str(&value);
            rest = &rest[end + 1..];
        }
        result.push_str(rest);
        Ok((result, secrets))
    }

    fn replace_in_map(
        &self,
        values: &TextMap<String>,
        variables: &VariableContext,
    ) -> Result<TrackedValues, UpError> {
        let mut expanded: TextMap<String> = TextMap::new();
        let mut sensitive: SensitiveEnvMap = TextMap::new();
        for index in 0..values.len() {
            let key = values.key_at(index);
            let (value, secrets) = self.replace(values.value_at(index), variables)?;
            if !secrets.is_empty() {
                sensitive.insert(
                    key.clone(),
                    SensitiveEnvValue { value: value.clone(), redactions: secrets },
                );
            }
            expanded.insert(key.clone(), value);
        }
        Ok(TrackedValues { values: expanded, sensitive })
    }

    fn apply(&self, config: &mut ResolvedConfig, layer: &ConfigLayer) {
        config.ports.entries.extend(layer.ports.iter().cloned());
        for feature in &layer.features {
            let canonical_id = without_version(&feature.id);
            if !config.features.iter().any(|known| known.canonical_id == canonical_id) {
                config.features.push(ResolvedFeature {
                    id: feature.id.clone(),
                    canonical_id,
                    options: feature.options.clone(),
                });
            }
        }
        if let Some(settings) = &layer.devcontainer {
            if settings.source.is_some() {
                config.devcontainer.source = settings.source.clone();
            }
            if settings.remote_user.is_some() {
                config.devcontainer.remote_user = settings.remote_user.clone();
            }
            if settings.container_user.is_some() {
                config.devcontainer.container_user = settings.container_user.clone();
            }
            if let Some(update) = settings.update_remote_user_uid {
                config.devcontainer.update_remote_user_uid = update;
            }
            for index in 0..settings.remote_env.len() {
                config.devcontainer.remote_env.insert(
                    settings.remote_env.key_at(index).clone(),
                    settings.remote_env.value_at(index).clone(),
                );
            }
        }
    }
}

fn without_version(id: &str) -> String {
    let last_slash = id.rfind('/').unwrap_or(0);
    match id[last_slash..].find(':') {
        Some(colon) => id[..last_slash + colon].to_owned(),
        None => id.to_owned(),
    }
}

fn short_hash(text: &str) -> String {
    let mut hash: u64 = 0xcbf2_9ce4_8422_2325;
    for byte in text.bytes() {
        hash = (hash ^ u64::from(byte)).wrapping_mul(0x0000_0100_0000_01b3);
    }
    format!("{hash:016x}")
}

impl PlanServices for Tool {
    fn resolve_config(&self, layers: &ConfigMergeInput) -> ResolvedConfig {
        let mut config = ResolvedConfig::default();
        for layer in layers.image_metadata.iter().chain(layers.feature_metadata.iter()) {
            self.apply(&mut config, layer);
        }
        let weaker_env = config.devcontainer.remote_env.clone();
        let weaker_user = config.devcontainer.remote_user.clone();
        let mut merged = self.config.clone();
        for index in 0..weaker_env.len() {
            if !merged.devcontainer.remote_env.contains_key(weaker_env.key_at(index)) {
                merged.devcontainer.remote_env.insert(
                    weaker_env.key_at(index).clone(),
                    weaker_env.value_at(index).clone(),
                );
            }
        }
        if merged.devcontainer.remote_user.is_none() {
            merged.devcontainer.remote_user = weaker_user;
        }
        for layer in [&layers.global, &layers.devcontainer, &layers.project, &layers.cli]
            .into_iter()
            .flatten()
        {
            self.apply(&mut merged, layer);
        }
        merged
    }

    fn expand_variables(
        &self,
        text: &String,
        variables: &VariableContext,
    ) -> Result<String, UpError> {
        Ok(self.replace(text, variables)?.0)
    }

    fn references_remote_user(&self, text: &String) -> Result<bool, UpError> {
        Ok(text.contains("${remoteUser}") || text.contains("${remoteUserHome}"))
    }

    fn references_remote_user_home(&self, text: &String) -> Result<bool, UpError> {
        Ok(text.contains("${remoteUserHome}"))
    }

    fn expand_string_map(
        &self,
        values: &TextMap<String>,
        variables: &VariableContext,
    ) -> Result<TrackedValues, UpError> {
        self.replace_in_map(values, variables)
    }

    fn expand_container_env(
        &self,
        values: &TextMap<String>,
        variables: &VariableContext,
    ) -> Result<TrackedValues, UpError> {
        self.replace_in_map(values, variables)
    }

    fn devcontainer_mount_spec(
        &self,
        mount: &LayerDevcontainerMount,
        _workspace: &Workspace,
        variables: &VariableContext,
        _mode: HostPathCreateMode,
    ) -> Result<DockerMountSpec, UpError> {
        let text = match &mount.definition {
            MountDefinition::Text(text) => text,
            MountDefinition::Object(_) => return Err(UpError::from_text("not a text")),
        };
        let mut spec = bind_mount("", "");
        spec.source = None;
        for part in self.replace(text, variables)?.0.split(',') {
            match part.split_once('=') {
                Some(("source", value)) => spec.source = Some(value.to_owned()),
                Some(("target", value)) => spec.target = value.to_owned(),
                Some(("type", "volume")) => spec.mount_type = MountType::Volume,
                _ => {}
            }
        }
        if spec.target.starts_with("/run/decune") {
            return Err(UpError::from_text("Mount target is reserved for decune internal use"));
        }
        Ok(spec)
    }

    fn config_mount_specs(
        &self,
        _config: &ResolvedConfig,
        _workspace: &Workspace,
        variables: &VariableContext,
        _mode: HostPathCreateMode,
    ) -> Result<Vec<DockerMountSpec>, UpError> {
        let mut specs = Vec::new();
        for mount in &self.project_mounts {
            let mut spec = mount.clone();
            if let Some(source) = &mount.source {
                spec.source = Some(self.replace(source, variables)?.0);
            }
            spec.target = self.replace(&mount.target, variables)?.0;
            specs.push(spec);
        }
        Ok(specs)
    }

    fn dotfile_mount_plan(
        &self,
        _config: &ResolvedConfig,
        _workspace: &Workspace,
        _variables: &VariableContext,
    ) -> Result<WorkspaceMountPlan, UpError> {
        Ok(WorkspaceMountPlan { mounts: Vec::new(), dotfile_skeletons: Vec::new() })
    }

    fn resolve_build_context(
        &self,
        _workspace: &Workspace,
        devcontainer_file: &String,
        build: &LayerDevcontainerBuild,
    ) -> Result<ResolvedBuildContext, UpError> {
        let directory = devcontainer_file.rsplit_once('/').expect("a directory").0;
        Ok(ResolvedBuildContext {
            context_dir: directory.to_owned(),
            dockerfile_path: format!("{directory}/{}", build.dockerfile),
            dockerfile_in_context: build.dockerfile.clone(),
            dockerignore_path: None,
        })
    }

    fn build_hash_input(&self, _context: &ResolvedBuildContext) -> Result<BuildHashInput, UpError> {
        Ok(BuildHashInput { content: self.dockerfile.clone() })
    }

    fn resolve_compose_project(
        &self,
        workspace: &Workspace,
        devcontainer_file: &String,
        files: &Vec<String>,
    ) -> Result<ComposeProjectPlan, UpError> {
        let directory = devcontainer_file.rsplit_once('/').expect("a directory").0;
        let slug = workspace.basename.to_lowercase().replace(' ', "-");
        Ok(ComposeProjectPlan {
            project_name: format!("decune-{slug}-{}", workspace.id),
            generated_override_path: format!("{}/compose.override.yaml", workspace.state_dir),
            config_hash_files: files
                .iter()
                .map(|file| ComposeHashFile {
                    path: format!("{directory}/{file}"),
                    content_hash: short_hash(&self.compose_file),
                })
                .collect(),
            generated_override_env: TextMap::new(),
            generated_override_redactions: Vec::new(),
        })
    }

    fn parse_feature_ref(
        &self,
        id: &String,
        _devcontainer_file: &String,
    ) -> Result<FeatureReference, UpError> {
        let local = id.starts_with("./");
        if !local && id.split('/').count() < 3 {
            return Err(UpError::new(format!("Invalid Feature reference: {id}")));
        }
        Ok(FeatureReference {
            canonical_id: without_version(id),
            reference: id.clone(),
            from_registry: !local,
        })
    }

    fn read_feature_lock(&self, _workspace: &Workspace) -> Result<FeatureLock, UpError> {
        Ok(FeatureLock {
            entries: self
                .locked
                .iter()
                .map(|(reference, digest)| FeatureLockEntry {
                    reference: reference.clone(),
                    digest: digest.clone(),
                })
                .collect(),
        })
    }

    fn locked_digest(&self, reference: &FeatureReference, lock: &FeatureLock) -> Option<String> {
        lock.entries
            .iter()
            .find(|entry| entry.reference == reference.reference)
            .map(|entry| entry.digest.clone())
    }

    fn config_hash(&self, input: &ConfigHashInput) -> String {
        let mut config = input.config.clone();
        config.ports.entries = Vec::new();
        short_hash(&format!(
            "{config:?} {:?} {:?} {:?} {:?} {:?} {:?} {:?} {:?}",
            input.build,
            input.sensitive_container_env_keys,
            input.sensitive_build_arg_keys,
            input.compose_files,
            input.feature_locks,
            input.resolved_mounts,
            input.internal_versions,
            input.uid_gid_sync,
        ))
    }

    fn content_hash(&self, content: &Canonical) -> String {
        short_hash(&format!("{content:?}"))
    }

    fn docker_resources(
        &self,
        workspace: &Workspace,
        config_hash: &String,
        config_file: &String,
    ) -> DockerResources {
        let mut labels = TextMap::new();
        labels.insert("decune.workspace_id".to_owned(), workspace.id.clone());
        labels.insert("decune.config_hash".to_owned(), config_hash.clone());
        labels.insert("devcontainer.config_file".to_owned(), config_file.clone());
        DockerResources {
            container_name: format!("decune-{}", workspace.id),
            image_tag: format!("decune/{}:{config_hash}", workspace.id),
            workspace_volume_name: format!("decune-{}-workspace", workspace.id),
            labels,
            config_hash: config_hash.clone(),
        }
    }

    fn resolve_forward_ports(
        &self,
        entries: &Vec<ResolvedPortEntry>,
    ) -> Result<Vec<ResolvedForwardPort>, UpError> {
        Ok(entries
            .iter()
            .map(|entry| forward_port(entry.container, entry.host.unwrap_or(entry.container)))
            .collect())
    }

    fn resolve_forward_ports_with_host_reservations(
        &self,
        entries: &Vec<ResolvedPortEntry>,
        _reservations: &Vec<HostPortReservation>,
    ) -> Result<Vec<ResolvedForwardPort>, UpError> {
        self.resolve_forward_ports(entries)
    }

    fn plan_compose_published_ports(
        &self,
        _context: &ComposePublishedPortFinalization,
        _automatic_relocation: bool,
        _forward_ports: &Vec<ResolvedForwardPort>,
    ) -> Result<ComposePublishedPortPlan, UpError> {
        Ok(ComposePublishedPortPlan::empty())
    }

    fn validate_compose_published_port_diagnostics(
        &self,
        _input: &ComposePublishedPortPlanningInput,
    ) -> Result<(), UpError> {
        Ok(())
    }

    fn compose_published_port_override(
        &self,
        _entries: &Vec<ComposePortEntry>,
        _plan: &ComposePublishedPortPlan,
    ) -> Result<ComposePublishedPortOverride, UpError> {
        Ok(ComposePublishedPortOverride::empty())
    }

    fn host_addresses_overlap(&self, existing: &String, planned: &String) -> bool {
        existing == planned
    }

    fn uid_gid_sync_runtime_user(
        &self,
        user: &String,
        _plan: &UidGidSyncPlan,
    ) -> Result<String, UpError> {
        Ok(user.clone())
    }
}

fn forward_port(container: u16, host: u16) -> ResolvedForwardPort {
    ResolvedForwardPort {
        service: None,
        container,
        requested_host: host,
        host,
        host_ip: "127.0.0.1".to_owned(),
        protocol: PortProtocol::Tcp,
        require_local: false,
        label: None,
    }
}

fn bind_mount(source: &str, target: &str) -> DockerMountSpec {
    DockerMountSpec {
        source: Some(source.to_owned()),
        target: target.to_owned(),
        mount_type: MountType::Bind,
        read_only: false,
        consistency: None,
        bind_options: None,
        volume_options: None,
    }
}

fn volume_mount(source: &str, target: &str) -> DockerMountSpec {
    DockerMountSpec { mount_type: MountType::Volume, ..bind_mount(source, target) }
}

fn workspace(name: &str) -> Workspace {
    Workspace {
        root: format!("/home/dev/{name}"),
        basename: name.to_owned(),
        id: "abc123".to_owned(),
        state_dir: "/home/dev/.local/state/decune/abc123".to_owned(),
        cache_dir: "/home/dev/.cache/decune/abc123".to_owned(),
    }
}

fn sources(workspace: &Workspace) -> PlanSources {
    PlanSources {
        devcontainer_file: format!("{}/.devcontainer/devcontainer.json", workspace.root),
        devcontainer_layer: ConfigLayer::default(),
        names_forward_ports: false,
        use_global_config: None,
        project_layer: ConfigLayer::default(),
        global_layer: Some(ConfigLayer::default()),
    }
}

fn image_config(image: &str) -> ResolvedConfig {
    let mut config = ResolvedConfig::default();
    config.devcontainer.source = Some(ResolvedDevcontainerSource::Image(image.to_owned()));
    config
}

fn build(dockerfile: &str) -> LayerDevcontainerBuild {
    LayerDevcontainerBuild {
        dockerfile: dockerfile.to_owned(),
        context: None,
        args: TextMap::new(),
        options: Vec::new(),
        target: None,
        cache_from: Vec::new(),
    }
}

fn build_config(build: LayerDevcontainerBuild) -> ResolvedConfig {
    let mut config = ResolvedConfig::default();
    config.devcontainer.source = Some(ResolvedDevcontainerSource::Dockerfile(build));
    config
}

fn compose_config() -> ResolvedConfig {
    let mut config = ResolvedConfig::default();
    config.devcontainer.source = Some(ResolvedDevcontainerSource::Compose(
        LayerDevcontainerCompose {
            files: vec!["compose.yaml".to_owned()],
            service: "app".to_owned(),
            run_services: None,
        },
    ));
    config
}

fn bind_text(text: &str) -> LayerDevcontainerMount {
    LayerDevcontainerMount {
        definition: MountDefinition::Text(text.to_owned()),
        mount_type: Some(MountType::Bind),
    }
}

fn port_entry(service: Option<&str>, container: u16, host: Option<u16>) -> ResolvedPortEntry {
    ResolvedPortEntry { service: service.map(str::to_owned), container, host }
}

fn plan_for(tool: &Tool, workspace: &Workspace) -> Result<UpPlan, UpError> {
    build_up_plan(tool, workspace, HOST, ConfigLayer::default(), sources(workspace))
}

fn detached_plan_for(
    tool: &Tool,
    workspace: &Workspace,
    names_forward_ports: bool,
) -> Result<UpPlan, UpError> {
    let mut read = sources(workspace);
    read.names_forward_ports = names_forward_ports;
    build_up_plan_with_forwarding_resolution(
        tool,
        workspace,
        HOST,
        ConfigLayer::default(),
        ForwardingResolution::IgnoreDetached,
        false,
        false,
        read,
    )
}

fn layer_with_source(image: &str) -> ConfigLayer {
    ConfigLayer {
        devcontainer: Some(LayerDevcontainerMetadata {
            source: Some(ResolvedDevcontainerSource::Image(image.to_owned())),
            ..LayerDevcontainerMetadata::default()
        }),
        ..ConfigLayer::default()
    }
}

fn image_source_and_default_workspace_mount() {
    let workspace = workspace("Image Plan!");
    let plan = plan_for(&Tool::new(image_config("alpine:3.20")), &workspace).unwrap();

    assert_eq!(plan.image, "alpine:3.20");
    assert_eq!(plan.base_image, "alpine:3.20");
    assert_eq!(plan.workspace_folder, "/workspaces/Image Plan!");
    assert_eq!(plan.mounts.len(), 1);
    assert_eq!(plan.mounts[0].source.as_deref(), Some(workspace.root.as_str()));
    assert_eq!(plan.mounts[0].target, "/workspaces/Image Plan!");
    assert_eq!(plan.mounts[0].mount_type, MountType::Bind);
    assert!(!plan.mounts[0].read_only);
}

#[test]
fn plan_build_up_plan_uses_image_source_and_default_workspace_mount() {
    image_source_and_default_workspace_mount();
}

#[test]
fn source_build_up_plan_uses_image_source_and_default_workspace_mount() {
    image_source_and_default_workspace_mount();
}

fn image_source_labels_and_workspace_mount() {
    let workspace = workspace("image-plan");
    let mut config = image_config("alpine:3.20");
    config.devcontainer.workspace_folder = Some("/workspace".to_owned());
    let plan = plan_for(&Tool::new(config), &workspace).unwrap();

    assert_eq!(plan.image, "alpine:3.20");
    assert!(plan.build_context.is_none());
    assert_eq!(plan.workspace_folder, "/workspace");
    assert_eq!(plan.mounts.len(), 1);
    assert_eq!(plan.mounts[0].source.as_deref(), Some(workspace.root.as_str()));
    assert_eq!(plan.mounts[0].target, "/workspaces/image-plan");
    assert_eq!(plan.mounts[0].mount_type, MountType::Bind);
    assert!(!plan.mounts[0].read_only);
    assert!(matches!(
        plan.config.devcontainer.source,
        Some(ResolvedDevcontainerSource::Image(ref image)) if image == "alpine:3.20"
    ));
    assert_eq!(
        plan.resources.labels.get("devcontainer.config_file"),
        Some(&format!("{}/.devcontainer/devcontainer.json", workspace.root))
    );
}

#[test]
fn plan_build_up_plan_records_image_source_labels_and_workspace_mount() {
    image_source_labels_and_workspace_mount();
}

#[test]
fn source_build_up_plan_records_image_source_labels_and_workspace_mount() {
    image_source_labels_and_workspace_mount();
}

fn dockerfile_source_and_build_context() {
    let workspace = workspace("dockerfile-plan");
    let mut input = build("Dockerfile");
    input.args.insert("VARIANT".to_owned(), "bookworm".to_owned());
    input.options = vec![
        "--platform=linux/amd64".to_owned(),
        "--network".to_owned(),
        "host".to_owned(),
    ];
    input.target = Some("dev".to_owned());
    input.cache_from = vec!["type=registry,ref=example.test/cache:latest".to_owned()];
    let plan = plan_for(&Tool::new(build_config(input)), &workspace).unwrap();

    assert_eq!(plan.image, plan.resources.image_tag);
    let build_context = plan.build_context.expect("build context should be resolved");
    assert_eq!(build_context.context_dir, format!("{}/.devcontainer", workspace.root));
    assert_eq!(
        build_context.dockerfile_path,
        format!("{}/.devcontainer/Dockerfile", workspace.root)
    );
    assert_eq!(build_context.dockerfile_in_context, "Dockerfile");
    assert_eq!(
        plan.build_options.build_args.get("VARIANT").map(String::as_str),
        Some("bookworm")
    );
    assert_eq!(plan.build_options.target.as_deref(), Some("dev"));
    assert_eq!(
        plan.build_options.options,
        vec!["--platform=linux/amd64", "--network", "host"]
    );
    assert_eq!(
        plan.build_options.cache_from,
        vec!["type=registry,ref=example.test/cache:latest"]
    );
    assert!(!plan.build_options.no_cache);
    assert!(!plan.build_options.pull);
}

#[test]
fn plan_build_up_plan_uses_dockerfile_source_and_build_context() {
    dockerfile_source_and_build_context();
}

#[test]
fn source_build_up_plan_uses_dockerfile_source_and_build_context() {
    dockerfile_source_and_build_context();
}

fn hash_changes_with_the_dockerfile() {
    let workspace = workspace("dockerfile-hash-plan");
    let mut tool = Tool::new(build_config(build("Dockerfile")));
    let first = plan_for(&tool, &workspace).unwrap();
    tool.dockerfile = "FROM alpine\nRUN true\n".to_owned();
    let second = plan_for(&tool, &workspace).unwrap();

    assert_ne!(first.resources.config_hash, second.resources.config_hash);
    assert_ne!(first.image, second.image);
}

#[test]
fn plan_build_up_plan_hash_changes_when_dockerfile_content_changes() {
    hash_changes_with_the_dockerfile();
}

#[test]
fn source_build_up_plan_hash_changes_when_dockerfile_content_changes() {
    hash_changes_with_the_dockerfile();
}

fn global_layer_is_kept() {
    let workspace = workspace("Global Config Default");
    let plan = plan_for(&Tool::new(image_config("alpine:3.20")), &workspace).unwrap();

    assert!(plan.config_layers.global.is_some());
}

#[test]
fn plan_build_up_plan_keeps_global_layer_by_default() {
    global_layer_is_kept();
}

#[test]
fn mod_build_up_plan_keeps_global_layer_by_default() {
    global_layer_is_kept();
}

fn project_skips_global_layer() {
    let workspace = workspace("Project Global Opt Out");
    let resolution = UpPlanResolution::new(ForwardingResolution::Resolve, false, false);
    let mut read = sources(&workspace);
    read.use_global_config = Some(false);
    assert!(!plan_uses_global_config(resolution, read.use_global_config));
    let plan = build_up_plan(
        &Tool::new(image_config("alpine:3.20")),
        &workspace,
        HOST,
        ConfigLayer::default(),
        read,
    )
    .unwrap();

    assert!(plan.config_layers.global.is_none());
}

#[test]
fn plan_project_config_can_skip_global_layer() {
    project_skips_global_layer();
}

#[test]
fn mod_project_config_can_skip_global_layer() {
    project_skips_global_layer();
}

fn command_line_skips_global_layer() {
    let workspace = workspace("Cli Global Opt Out");
    let plan = build_up_plan_with_forwarding_resolution(
        &Tool::new(image_config("alpine:3.20")),
        &workspace,
        HOST,
        ConfigLayer::default(),
        ForwardingResolution::Resolve,
        false,
        true,
        sources(&workspace),
    )
    .unwrap();

    assert!(plan.config_layers.global.is_none());
}

#[test]
fn plan_cli_skip_global_config_can_skip_global_layer() {
    command_line_skips_global_layer();
}

#[test]
fn mod_cli_skip_global_config_can_skip_global_layer() {
    command_line_skips_global_layer();
}

fn default_workspace_folder_is_literal() {
    let workspace = workspace("Project ${unknown}");
    let plan = plan_for(&Tool::new(image_config("alpine:3.20")), &workspace).unwrap();

    assert_eq!(plan.workspace_folder, "/workspaces/Project ${unknown}");
    assert_eq!(plan.mounts[0].target, "/workspaces/Project ${unknown}");
}

#[test]
fn plan_build_up_plan_treats_default_workspace_folder_as_literal() {
    default_workspace_folder_is_literal();
}

#[test]
fn mod_build_up_plan_treats_default_workspace_folder_as_literal() {
    default_workspace_folder_is_literal();
}

fn build_args_are_expanded_and_hashed() {
    let env_name = "DECUNE_TEST_PLAN_BUILD_ARG_SCOPE";
    let workspace = workspace("Build Arg Variables");
    let mut input = build("Dockerfile");
    input.args.insert("VARIANT".to_owned(), format!("${{localEnv:{env_name}:bookworm}}"));
    input.target = Some("stage-${localWorkspaceFolderBasename}".to_owned());
    input.cache_from =
        vec!["type=registry,ref=example.test/${localWorkspaceFolderBasename}:cache".to_owned()];
    let mut tool = Tool::new(build_config(input));

    let defaulted = plan_for(&tool, &workspace).unwrap();
    assert_eq!(
        defaulted.build_options.build_args.get("VARIANT").map(String::as_str),
        Some("bookworm")
    );
    assert!(!defaulted.sensitive_build_args.contains_key("VARIANT"));
    assert_eq!(
        defaulted.build_options.target.as_deref(),
        Some("stage-Build Arg Variables")
    );
    assert_eq!(
        defaulted.build_options.cache_from,
        vec!["type=registry,ref=example.test/Build Arg Variables:cache"]
    );

    tool.env = vec![(env_name.to_owned(), "secret-bookworm".to_owned())];
    let from_env = plan_for(&tool, &workspace).unwrap();
    assert_eq!(
        from_env.build_options.build_args.get("VARIANT").map(String::as_str),
        Some("secret-bookworm")
    );
    assert!(from_env.sensitive_build_args.contains_key("VARIANT"));
    assert!(from_env
        .build_options
        .build_arg_redactions
        .iter()
        .any(|value| value == "secret-bookworm"));
    assert_ne!(defaulted.resources.config_hash, from_env.resources.config_hash);

    tool.env = vec![(env_name.to_owned(), "secret-trixie".to_owned())];
    let changed_env = plan_for(&tool, &workspace).unwrap();
    assert_ne!(from_env.resources.config_hash, changed_env.resources.config_hash);
}

#[test]
fn plan_build_up_plan_expands_build_args_and_hashes_local_env_values() {
    build_args_are_expanded_and_hashed();
}

#[test]
fn expand_build_up_plan_expands_build_args_and_hashes_local_env_values() {
    build_args_are_expanded_and_hashed();
}

fn workspace_folder_variables_are_expanded() {
    let workspace = workspace("Workspace Variables");
    let mut config = image_config("alpine:3.20");
    config.devcontainer.workspace_folder =
        Some("/workspaces/${localWorkspaceFolderBasename}".to_owned());
    let basename = plan_for(&Tool::new(config), &workspace).unwrap();
    assert_eq!(basename.workspace_folder, "/workspaces/Workspace Variables");

    let mut config = image_config("alpine:3.20");
    config.devcontainer.workspace_folder = Some("${containerWorkspaceFolder}/subdir".to_owned());
    let container_workspace = plan_for(&Tool::new(config), &workspace).unwrap();
    assert_eq!(
        container_workspace.workspace_folder,
        "/workspaces/Workspace Variables/subdir"
    );
}

#[test]
fn plan_build_up_plan_expands_workspace_folder_variables_before_validation() {
    workspace_folder_variables_are_expanded();
}

#[test]
fn expand_build_up_plan_expands_workspace_folder_variables_before_validation() {
    workspace_folder_variables_are_expanded();
}

fn user_fields_and_run_args_are_expanded() {
    let workspace = workspace("User Run Args");
    let mut config = image_config("alpine:3.20");
    config.devcontainer.remote_user = Some("${localWorkspaceFolderBasename}-remote".to_owned());
    config.devcontainer.container_user =
        Some("${localWorkspaceFolderBasename}-container".to_owned());
    config.devcontainer.cap_add = vec!["SYS_${localWorkspaceFolderBasename}".to_owned()];
    config.devcontainer.security_opt = vec!["label=${localWorkspaceFolderBasename}".to_owned()];
    config.devcontainer.run_args = vec![
        LayerRunArg::AddHost("api.${localWorkspaceFolderBasename}:127.0.0.1".to_owned()),
        LayerRunArg::Dns("dns-${localWorkspaceFolderBasename}".to_owned()),
        LayerRunArg::DnsSearch("${localWorkspaceFolderBasename}.test".to_owned()),
        LayerRunArg::Passthrough {
            option: "--hostname".to_owned(),
            value: "host-${localWorkspaceFolderBasename}".to_owned(),
        },
    ];
    let plan = plan_for(&Tool::new(config), &workspace).unwrap();

    assert_eq!(
        plan.config.devcontainer.remote_user.as_deref(),
        Some("User Run Args-remote")
    );
    assert_eq!(
        plan.config.devcontainer.container_user.as_deref(),
        Some("User Run Args-container")
    );
    assert_eq!(plan.config.devcontainer.cap_add, vec!["SYS_User Run Args"]);
    assert_eq!(plan.config.devcontainer.security_opt, vec!["label=User Run Args"]);
    assert_eq!(
        plan.config.devcontainer.run_args,
        vec![
            LayerRunArg::AddHost("api.User Run Args:127.0.0.1".to_owned()),
            LayerRunArg::Dns("dns-User Run Args".to_owned()),
            LayerRunArg::DnsSearch("User Run Args.test".to_owned()),
            LayerRunArg::Passthrough {
                option: "--hostname".to_owned(),
                value: "host-User Run Args".to_owned(),
            },
        ]
    );
}

#[test]
fn plan_build_up_plan_expands_user_fields_and_run_args_values() {
    user_fields_and_run_args_are_expanded();
}

#[test]
fn expand_build_up_plan_expands_user_fields_and_run_args_values() {
    user_fields_and_run_args_are_expanded();
}

fn runtime_user_fields_are_kept() {
    let workspace = workspace("Runtime User Fields");
    let mut config = image_config("alpine:3.20");
    config.devcontainer.workspace_folder = Some("${remoteUserHome}/src".to_owned());
    config.devcontainer.cap_add = vec!["SYS_${remoteUser}".to_owned()];
    config.devcontainer.security_opt = vec!["label=${remoteUser}".to_owned()];
    let run_args = vec![
        LayerRunArg::AddHost("api.${remoteUser}:127.0.0.1".to_owned()),
        LayerRunArg::Dns("${remoteUser}".to_owned()),
        LayerRunArg::DnsSearch("${remoteUser}.test".to_owned()),
        LayerRunArg::Passthrough {
            option: "--hostname".to_owned(),
            value: "host-${remoteUser}".to_owned(),
        },
    ];
    config.devcontainer.run_args = run_args.clone();
    let plan = plan_for(&Tool::new(config), &workspace).unwrap();

    assert_eq!(plan.workspace_folder, "/root/src");
    assert_eq!(
        plan.config.devcontainer.workspace_folder.as_deref(),
        Some("${remoteUserHome}/src")
    );
    assert_eq!(plan.config.devcontainer.cap_add, vec!["SYS_${remoteUser}"]);
    assert_eq!(plan.config.devcontainer.security_opt, vec!["label=${remoteUser}"]);
    assert_eq!(plan.config.devcontainer.run_args, run_args);
}

#[test]
fn plan_build_up_plan_keeps_runtime_user_dependent_fields_for_runtime_expansion() {
    runtime_user_fields_are_kept();
}

#[test]
fn expand_build_up_plan_keeps_runtime_user_dependent_fields_for_runtime_expansion() {
    runtime_user_fields_are_kept();
}

fn remote_user_home_in_build_fields_is_rejected() {
    let workspace = workspace("Build Remote User Home");
    let mut input = build("Dockerfile");
    input.args.insert("REMOTE_HOME".to_owned(), "${remoteUserHome}".to_owned());
    let error = plan_for(&Tool::new(build_config(input)), &workspace).unwrap_err();

    assert!(error.message().contains("build.args must not reference ${remoteUserHome}"));
}

#[test]
fn plan_build_up_plan_rejects_remote_user_home_in_build_fields() {
    remote_user_home_in_build_fields_is_rejected();
}

#[test]
fn expand_build_up_plan_rejects_remote_user_home_in_build_fields() {
    remote_user_home_in_build_fields_is_rejected();
}

fn remote_user_in_build_fields_is_rejected() {
    let workspace = workspace("Build Remote User");
    let mut input = build("Dockerfile");
    input.args.insert("REMOTE_USER".to_owned(), "${remoteUser}".to_owned());
    let error = plan_for(&Tool::new(build_config(input)), &workspace).unwrap_err();

    assert!(error.message().contains("build.args must not reference ${remoteUser}"));
}

#[test]
fn plan_build_up_plan_rejects_remote_user_in_build_fields_when_not_static() {
    remote_user_in_build_fields_is_rejected();
}

#[test]
fn expand_build_up_plan_rejects_remote_user_in_build_fields_when_not_static() {
    remote_user_in_build_fields_is_rejected();
}

fn container_user_is_the_remote_user_of_builds() {
    let workspace = workspace("Build Container User");
    let mut input = build("Dockerfile");
    input.args.insert("REMOTE_USER".to_owned(), "${remoteUser}".to_owned());
    let mut config = build_config(input);
    config.devcontainer.container_user = Some("node".to_owned());
    let plan = plan_for(&Tool::new(config), &workspace).unwrap();

    assert_eq!(
        plan.build_options.build_args.get("REMOTE_USER").map(String::as_str),
        Some("node")
    );
}

#[test]
fn plan_build_up_plan_expands_remote_user_in_build_fields_from_container_user() {
    container_user_is_the_remote_user_of_builds();
}

#[test]
fn expand_build_up_plan_expands_remote_user_in_build_fields_from_container_user() {
    container_user_is_the_remote_user_of_builds();
}

fn compose_source_has_a_project() {
    let workspace = workspace("Compose Plan");
    let plan = plan_for(&Tool::new(compose_config()), &workspace).unwrap();
    let compose = plan
        .compose_project
        .as_ref()
        .expect("compose source should produce a compose project plan");

    assert_eq!(compose.project_name, format!("decune-compose-plan-{}", workspace.id));
    assert_eq!(
        compose.generated_override_path,
        format!("{}/compose.override.yaml", workspace.state_dir)
    );
}

#[test]
fn plan_build_up_plan_adds_compose_project_plan_for_compose_source() {
    compose_source_has_a_project();
}

#[test]
fn compose_build_up_plan_adds_compose_project_plan_for_compose_source() {
    compose_source_has_a_project();
}

fn hash_changes_with_the_compose_file() {
    let workspace = workspace("Compose Hash");
    let mut tool = Tool::new(compose_config());
    let first = plan_for(&tool, &workspace).unwrap();
    tool.compose_file = "services:\n  app:\n    image: alpine:3.20\n".to_owned();
    let second = plan_for(&tool, &workspace).unwrap();

    assert_ne!(first.resources.config_hash, second.resources.config_hash);
}

#[test]
fn plan_build_up_plan_config_hash_changes_when_compose_file_changes() {
    hash_changes_with_the_compose_file();
}

#[test]
fn compose_build_up_plan_config_hash_changes_when_compose_file_changes() {
    hash_changes_with_the_compose_file();
}

fn assert_service_ports_are_rejected(mut config: ResolvedConfig, name: &str) {
    config.ports.entries = vec![port_entry(Some("db"), 5432, None)];
    let error = plan_for(&Tool::new(config), &workspace(name)).unwrap_err();

    assert!(error.message().contains(
        "Service-qualified port forwarding is only supported in Docker Compose mode"
    ));
    assert!(error.message().contains("db:5432"));
}

#[test]
fn plan_build_up_plan_rejects_service_qualified_forward_ports_without_compose_source() {
    assert_service_ports_are_rejected(
        image_config("alpine:3.20"),
        "service-forward-port-image-plan",
    );
}

#[test]
fn compose_build_up_plan_rejects_service_qualified_forward_ports_without_compose_source() {
    assert_service_ports_are_rejected(
        image_config("alpine:3.20"),
        "service-forward-port-image-plan",
    );
}

#[test]
fn plan_build_up_plan_rejects_service_qualified_forward_ports_with_dockerfile_source() {
    assert_service_ports_are_rejected(
        build_config(build("Dockerfile")),
        "service-forward-port-dockerfile-plan",
    );
}

#[test]
fn compose_build_up_plan_rejects_service_qualified_forward_ports_with_dockerfile_source() {
    assert_service_ports_are_rejected(
        build_config(build("Dockerfile")),
        "service-forward-port-dockerfile-plan",
    );
}

#[test]
fn plan_build_up_plan_rejects_service_qualified_decune_ports_without_compose_source() {
    assert_service_ports_are_rejected(
        image_config("alpine:3.20"),
        "service-decune-port-image-plan",
    );
}

#[test]
fn compose_build_up_plan_rejects_service_qualified_decune_ports_without_compose_source() {
    assert_service_ports_are_rejected(
        image_config("alpine:3.20"),
        "service-decune-port-image-plan",
    );
}

fn feature_config(id: &str) -> ResolvedConfig {
    let mut config = image_config("alpine:3.20");
    config.features = vec![ResolvedFeature {
        id: id.to_owned(),
        canonical_id: without_version(id),
        options: TextMap::new(),
    }];
    config
}

fn hash_changes_with_the_feature_lock() {
    let workspace = workspace("feature-lock-hash");
    let mut tool = Tool::new(feature_config("ghcr.io/example/features/tool:1"));
    let baseline = plan_for(&tool, &workspace).unwrap();
    tool.locked =
        vec![("ghcr.io/example/features/tool:1".to_owned(), "sha256:locked".to_owned())];
    let locked = plan_for(&tool, &workspace).unwrap();

    assert_ne!(baseline.resources.config_hash, locked.resources.config_hash);
}

#[test]
fn plan_build_up_plan_includes_feature_lock_digest_in_config_hash() {
    hash_changes_with_the_feature_lock();
}

#[test]
fn hash_build_up_plan_includes_feature_lock_digest_in_config_hash() {
    hash_changes_with_the_feature_lock();
}

fn updated_features_are_not_locked() {
    let workspace = workspace("feature-lock-update-hash");
    let mut tool = Tool::new(feature_config("ghcr.io/example/features/tool:1"));
    let baseline = plan_for(&tool, &workspace).unwrap();
    tool.locked =
        vec![("ghcr.io/example/features/tool:1".to_owned(), "sha256:locked".to_owned())];
    let locked = plan_for(&tool, &workspace).unwrap();
    let updated = build_up_plan_with_update_features(
        &tool,
        &workspace,
        HOST,
        ConfigLayer::default(),
        true,
        sources(&workspace),
    )
    .unwrap();

    assert_ne!(baseline.resources.config_hash, locked.resources.config_hash);
    assert_eq!(baseline.resources.config_hash, updated.resources.config_hash);
}

#[test]
fn plan_build_up_plan_ignores_feature_lock_digest_when_features_are_updated() {
    updated_features_are_not_locked();
}

#[test]
fn hash_build_up_plan_ignores_feature_lock_digest_when_features_are_updated() {
    updated_features_are_not_locked();
}

fn invalid_feature_ref_is_named() {
    let tool = Tool::new(feature_config("ghcr.io/features"));
    let error = plan_for(&tool, &workspace("invalid-feature-ref")).unwrap_err();

    assert!(error.message().contains("ghcr.io/features"), "{error:?}");
}

#[test]
fn plan_build_up_plan_rejects_invalid_feature_ref_with_ref_in_error() {
    invalid_feature_ref_is_named();
}

#[test]
fn hash_build_up_plan_rejects_invalid_feature_ref_with_ref_in_error() {
    invalid_feature_ref_is_named();
}

fn forward_ports_and_app_ports() {
    let workspace = workspace("port-plan");
    let baseline = plan_for(&Tool::new(image_config("alpine:3.20")), &workspace).unwrap();

    let mut config = image_config("alpine:3.20");
    config.ports.entries = vec![port_entry(None, 3000, None)];
    let forwarding = plan_for(&Tool::new(config.clone()), &workspace).unwrap();

    config.devcontainer.publish_ports = vec![ResolvedPublishPort {
        container: 8080,
        host: Some(18080),
        host_ip: Some("127.0.0.1".to_owned()),
        protocol: PortProtocol::Tcp,
    }];
    let published = plan_for(&Tool::new(config), &workspace).unwrap();

    assert_eq!(forwarding.forward_ports, vec![forward_port(3000, 3000)]);
    assert!(forwarding.config.devcontainer.publish_ports.is_empty());
    assert_eq!(
        published.config.devcontainer.publish_ports,
        vec![ResolvedPublishPort {
            container: 8080,
            host: Some(18080),
            host_ip: Some("127.0.0.1".to_owned()),
            protocol: PortProtocol::Tcp,
        }]
    );
    assert_eq!(baseline.resources.config_hash, forwarding.resources.config_hash);
    assert_ne!(forwarding.resources.config_hash, published.resources.config_hash);
}

#[test]
fn plan_build_up_plan_separates_forward_ports_from_app_port_publish() {
    forward_ports_and_app_ports();
}

#[test]
fn mod_build_up_plan_separates_forward_ports_from_app_port_publish() {
    forward_ports_and_app_ports();
}

fn detached_plan_has_the_same_hash() {
    let workspace = workspace("detached-forward-port-hash-plan");
    let mut config = image_config("alpine:3.20");
    config.ports.entries = vec![port_entry(None, 3000, None)];
    let attached = plan_for(&Tool::new(config), &workspace).unwrap();
    let detached =
        detached_plan_for(&Tool::new(image_config("alpine:3.20")), &workspace, true).unwrap();

    assert_eq!(attached.forward_ports, vec![forward_port(3000, 3000)]);
    assert!(detached.forward_ports.is_empty());
    assert!(detached.ignored_detached_forwarding);
    assert_eq!(attached.resources.config_hash, detached.resources.config_hash);
}

#[test]
fn plan_detached_up_plan_keeps_config_hash_stable_when_forward_ports_are_ignored() {
    detached_plan_has_the_same_hash();
}

#[test]
fn mod_detached_up_plan_keeps_config_hash_stable_when_forward_ports_are_ignored() {
    detached_plan_has_the_same_hash();
}

fn detached_plan_binds_no_port() {
    let workspace = workspace("detached-port-plan");
    let mut config = image_config("alpine:3.20");
    config.ports.entries = vec![port_entry(None, 4321, Some(54321))];
    let plan = detached_plan_for(&Tool::new(config), &workspace, false).unwrap();

    assert!(plan.forward_ports.is_empty());
    assert_eq!(plan.config.ports.entries.len(), 1);
    assert!(plan.ignored_detached_forwarding);
}

#[test]
fn plan_detached_up_plan_ignores_forward_ports_without_binding_host_port() {
    detached_plan_binds_no_port();
}

#[test]
fn mod_detached_up_plan_ignores_forward_ports_without_binding_host_port() {
    detached_plan_binds_no_port();
}

fn detached_plan_ignores_unsupported_ports() {
    let workspace = workspace("detached-unsupported-forward-port-plan");
    let plan =
        detached_plan_for(&Tool::new(image_config("alpine:3.20")), &workspace, true).unwrap();

    assert!(plan.forward_ports.is_empty());
    assert!(plan.config.ports.entries.is_empty());
    assert!(plan.ignored_detached_forwarding);
}

#[test]
fn plan_detached_up_plan_ignores_unsupported_devcontainer_forward_ports_before_conversion() {
    detached_plan_ignores_unsupported_ports();
}

#[test]
fn mod_detached_up_plan_ignores_unsupported_devcontainer_forward_ports_before_conversion() {
    detached_plan_ignores_unsupported_ports();
}

fn workspace_mount_config(mount: &str, folder: Option<&str>) -> ResolvedConfig {
    let mut config = image_config("alpine:3.20");
    config.devcontainer.workspace_mount = Some(bind_text(mount));
    config.devcontainer.workspace_folder = folder.map(str::to_owned);
    config
}

fn workspace_mount_needs_a_folder() {
    let config = workspace_mount_config(
        "source=${localWorkspaceFolder},target=/workspace,type=bind",
        None,
    );
    let error = plan_for(&Tool::new(config), &workspace("workspace-mount-plan")).unwrap_err();

    assert_eq!(
        error.message(),
        "workspaceFolder is required when workspaceMount is specified"
    );
}

#[test]
fn plan_build_up_plan_rejects_workspace_mount_without_workspace_folder() {
    workspace_mount_needs_a_folder();
}

#[test]
fn mod_build_up_plan_rejects_workspace_mount_without_workspace_folder() {
    workspace_mount_needs_a_folder();
}

fn preliminary_plan_defers_the_folder() {
    let workspace = workspace("preliminary-workspace-mount-plan");
    let config = workspace_mount_config(
        "source=${localWorkspaceFolder},target=/workspace,type=bind",
        None,
    );
    let plan = build_preliminary_up_plan_with_forwarding_resolution(
        &Tool::new(config),
        &workspace,
        HOST,
        ConfigLayer::default(),
        ForwardingResolution::Resolve,
        false,
        false,
        sources(&workspace),
    )
    .unwrap();

    assert_eq!(plan.workspace_folder, "/workspace");
    assert_eq!(plan.mounts[0].target, "/workspace");
}

#[test]
fn plan_preliminary_up_plan_defers_workspace_mount_without_workspace_folder() {
    preliminary_plan_defers_the_folder();
}

#[test]
fn mod_preliminary_up_plan_defers_workspace_mount_without_workspace_folder() {
    preliminary_plan_defers_the_folder();
}

fn workspace_mount_variables_know_the_folder() {
    let workspace = workspace("workspace-mount-variable-plan");
    let config = workspace_mount_config(
        "source=${localWorkspaceFolder},target=${containerWorkspaceFolder},type=bind",
        Some("/workspace"),
    );
    let plan = plan_for(&Tool::new(config), &workspace).unwrap();

    assert_eq!(plan.workspace_folder, "/workspace");
    assert_eq!(plan.mounts.len(), 1);
    assert_eq!(plan.mounts[0].source.as_deref(), Some(workspace.root.as_str()));
    assert_eq!(plan.mounts[0].target, plan.workspace_folder);
    assert_eq!(plan.mounts[0].mount_type, MountType::Bind);
}

#[test]
fn plan_build_up_plan_uses_explicit_workspace_folder_for_workspace_mount_variables() {
    workspace_mount_variables_know_the_folder();
}

#[test]
fn expand_build_up_plan_uses_explicit_workspace_folder_for_workspace_mount_variables() {
    workspace_mount_variables_know_the_folder();
}

fn folder_outside_the_mount_is_checked_later() {
    let config = workspace_mount_config(
        "source=${localWorkspaceFolder},target=/workspace,type=bind",
        Some("/other"),
    );
    let plan =
        plan_for(&Tool::new(config), &workspace("workspace-folder-outside-mount-plan")).unwrap();

    assert_eq!(plan.workspace_folder, "/other");
    assert_eq!(plan.mounts[0].target, "/workspace");
}

#[test]
fn plan_build_up_plan_defers_workspace_folder_mount_target_check_until_runtime() {
    folder_outside_the_mount_is_checked_later();
}

#[test]
fn mod_build_up_plan_defers_workspace_folder_mount_target_check_until_runtime() {
    folder_outside_the_mount_is_checked_later();
}

fn relative_workspace_folder_is_rejected() {
    let mut config = image_config("alpine:3.20");
    config.devcontainer.workspace_folder = Some("workspace".to_owned());
    let error =
        plan_for(&Tool::new(config), &workspace("relative-workspace-folder-plan")).unwrap_err();

    assert_eq!(
        error.message(),
        "workspaceFolder must be an absolute container path: workspace"
    );
}

#[test]
fn plan_build_up_plan_rejects_relative_workspace_folder() {
    relative_workspace_folder_is_rejected();
}

#[test]
fn mod_build_up_plan_rejects_relative_workspace_folder() {
    relative_workspace_folder_is_rejected();
}

fn explicit_folder_below_the_workspace_mount() {
    let mut tool = Tool::new(workspace_mount_config(
        "source=${localWorkspaceFolder},target=/workspace,type=bind",
        Some("/workspace/app"),
    ));
    tool.project_mounts =
        vec![volume_mount("project-cache", "/opt/${containerWorkspaceFolderBasename}")];
    let plan = plan_for(&tool, &workspace("workspace-folder-plan")).unwrap();

    assert_eq!(plan.workspace_folder, "/workspace/app");
    assert_eq!(plan.mounts[0].target, "/workspace");
    assert_eq!(plan.mounts[1].target, "/opt/app");
}

#[test]
fn plan_build_up_plan_uses_explicit_workspace_folder_with_workspace_mount() {
    explicit_folder_below_the_workspace_mount();
}

#[test]
fn mod_build_up_plan_uses_explicit_workspace_folder_with_workspace_mount() {
    explicit_folder_below_the_workspace_mount();
}

fn assert_workspace_target_is_kept_free(name: &str, suffix: &str) {
    let workspace = workspace(name);
    let mut tool = Tool::new(image_config("alpine:3.20"));
    tool.project_mounts = vec![volume_mount(
        "project-cache",
        &format!("{}{suffix}", default_workspace_folder(&workspace)),
    )];
    let error = plan_for(&tool, &workspace).unwrap_err();

    assert!(error
        .message()
        .contains("Mount target conflicts with workspace mount target"));
}

#[test]
fn plan_build_up_plan_rejects_mount_target_that_conflicts_with_workspace_mount() {
    assert_workspace_target_is_kept_free("workspace-mount-conflict-plan", "");
}

#[test]
fn mod_build_up_plan_rejects_mount_target_that_conflicts_with_workspace_mount() {
    assert_workspace_target_is_kept_free("workspace-mount-conflict-plan", "");
}

#[test]
fn plan_build_up_plan_rejects_mount_target_that_normalizes_to_workspace_mount() {
    assert_workspace_target_is_kept_free("normalized-workspace-mount-conflict-plan", "/.");
}

#[test]
fn mod_build_up_plan_rejects_mount_target_that_normalizes_to_workspace_mount() {
    assert_workspace_target_is_kept_free("normalized-workspace-mount-conflict-plan", "/.");
}

fn reserved_workspace_target_is_rejected() {
    let config = workspace_mount_config(
        "source=${localWorkspaceFolder},target=/run/decune/workspace,type=bind",
        Some("/run/decune/workspace"),
    );
    let error =
        plan_for(&Tool::new(config), &workspace("reserved-workspace-mount-plan")).unwrap_err();
    let message = error.chain.join(": ");

    assert!(message.contains("Mount target is reserved for decune internal use"));
}

#[test]
fn plan_build_up_plan_rejects_workspace_mount_under_reserved_decune_path() {
    reserved_workspace_target_is_rejected();
}

#[test]
fn mod_build_up_plan_rejects_workspace_mount_under_reserved_decune_path() {
    reserved_workspace_target_is_rejected();
}

fn image_metadata_layer(value: &str) -> ConfigLayer {
    let mut remote_env = TextMap::new();
    remote_env.insert("FROM_IMAGE".to_owned(), value.to_owned());
    ConfigLayer {
        devcontainer: Some(LayerDevcontainerMetadata {
            remote_env,
            remote_user: Some("image-user".to_owned()),
            ..LayerDevcontainerMetadata::default()
        }),
        ..ConfigLayer::default()
    }
}

fn image_metadata_is_merged_and_hashed() {
    let workspace = workspace("image-metadata-plan");
    let tool = Tool::new(image_config("alpine:3.20"));
    let plan_on = |value: &str| {
        build_up_plan_with_image_metadata(
            &tool,
            &workspace,
            HOST,
            ConfigLayer::default(),
            vec![image_metadata_layer(value)],
            sources(&workspace),
        )
        .unwrap()
    };
    let plan = plan_on("1");
    let changed = plan_on("2");

    assert_eq!(plan.config.devcontainer.remote_user.as_deref(), Some("image-user"));
    assert_eq!(
        plan.config.devcontainer.remote_env.get("FROM_IMAGE").map(String::as_str),
        Some("1")
    );
    assert_ne!(plan.resources.config_hash, changed.resources.config_hash);
}

#[test]
fn plan_build_up_plan_merges_image_metadata_and_includes_it_in_config_hash() {
    image_metadata_is_merged_and_hashed();
}

#[test]
fn hash_build_up_plan_merges_image_metadata_and_includes_it_in_config_hash() {
    image_metadata_is_merged_and_hashed();
}

fn hash_changes_with_a_mount_source() {
    let workspace = workspace("mount-source-hash-plan");
    let mut tool = Tool::new(image_config("alpine:3.20"));
    tool.project_mounts =
        vec![bind_mount(&format!("{}/first-cache", workspace.root), "/cache")];
    let first = plan_for(&tool, &workspace).unwrap();
    tool.project_mounts =
        vec![bind_mount(&format!("{}/second-cache", workspace.root), "/cache")];
    let second = plan_for(&tool, &workspace).unwrap();

    assert_ne!(first.mounts[1].source, second.mounts[1].source);
    assert_ne!(first.resources.config_hash, second.resources.config_hash);
}

#[test]
fn plan_build_up_plan_hash_changes_when_resolved_mount_source_changes() {
    hash_changes_with_a_mount_source();
}

#[test]
fn hash_build_up_plan_hash_changes_when_resolved_mount_source_changes() {
    hash_changes_with_a_mount_source();
}

fn config_hash_for_mount(mount: DockerMountSpec) -> String {
    let config = ResolvedConfig::default();
    let mut input = ConfigHashInput::new(&config);
    input.resolved_mounts = mount_hash_inputs(&vec![mount]);
    Tool::new(ResolvedConfig::default()).config_hash(&input)
}

fn hash_changes_with_mount_options() {
    let consistent = |consistency: &str| DockerMountSpec {
        consistency: Some(consistency.to_owned()),
        ..bind_mount("/host/cache", "/cache")
    };
    assert_ne!(
        config_hash_for_mount(consistent("cached")),
        config_hash_for_mount(consistent("delegated"))
    );

    let propagated = |propagation: MountBindPropagation| DockerMountSpec {
        bind_options: Some(MountBindOptions {
            propagation: Some(propagation),
            ..MountBindOptions::default()
        }),
        ..bind_mount("/host/cache", "/cache")
    };
    assert_ne!(
        config_hash_for_mount(propagated(MountBindPropagation::RShared)),
        config_hash_for_mount(propagated(MountBindPropagation::RSlave))
    );

    let below = |subpath: &str| DockerMountSpec {
        volume_options: Some(MountVolumeOptions {
            subpath: Some(subpath.to_owned()),
            ..MountVolumeOptions::default()
        }),
        ..volume_mount("project-cache", "/cache")
    };
    assert_ne!(config_hash_for_mount(below("deps")), config_hash_for_mount(below("cache")));
}

#[test]
fn plan_config_hash_changes_when_resolved_mount_options_change() {
    hash_changes_with_mount_options();
}

#[test]
fn hash_config_hash_changes_when_resolved_mount_options_change() {
    hash_changes_with_mount_options();
}

fn container_basename_variable_is_known() {
    let workspace = workspace("container-basename-plan");
    let mut config = image_config("alpine:3.20");
    config.devcontainer.workspace_folder = Some("/src".to_owned());
    let mut tool = Tool::new(config);
    tool.project_mounts =
        vec![volume_mount("project-cache", "/opt/${containerWorkspaceFolderBasename}")];
    let plan = plan_for(&tool, &workspace).unwrap();

    assert_eq!(plan.workspace_folder, "/src");
    assert_eq!(plan.mounts[0].target, default_workspace_folder(&workspace));
    assert_eq!(plan.mounts[1].target, "/opt/src");
}

#[test]
fn plan_build_up_plan_uses_container_workspace_folder_basename_variable() {
    container_basename_variable_is_known();
}

#[test]
fn expand_build_up_plan_uses_container_workspace_folder_basename_variable() {
    container_basename_variable_is_known();
}

fn uid_and_gid_variables_are_known() {
    let workspace = workspace("uid-gid-plan");
    let mut tool = Tool::new(image_config("alpine:3.20"));
    tool.project_mounts = vec![bind_mount("${localWorkspaceFolder}/${uid}-${gid}", "/cache")];
    let plan = plan_for(&tool, &workspace).unwrap();

    assert_eq!(
        plan.mounts[1].source.as_deref(),
        Some(format!("{}/1000-1000", workspace.root).as_str())
    );
}

#[test]
fn plan_build_up_plan_uses_current_uid_and_gid_variables() {
    uid_and_gid_variables_are_known();
}

#[test]
fn expand_build_up_plan_uses_current_uid_and_gid_variables() {
    uid_and_gid_variables_are_known();
}

#[test]
fn feature_metadata_refresh_preserves_static_expansion() {
    let env_name = "DECUNE_TEST_FEATURE_STATIC_BUILD_ARG";
    let workspace = workspace("Feature Static");
    let mut input = build("Dockerfile");
    input.args.insert("TOKEN".to_owned(), format!("${{localEnv:{env_name}}}"));
    input.target = Some("stage-${localWorkspaceFolderBasename}".to_owned());
    input.cache_from =
        vec!["type=registry,ref=example.test/${localWorkspaceFolderBasename}:cache".to_owned()];
    let mut config = build_config(input);
    config.features = vec![ResolvedFeature {
        id: "./features/noop".to_owned(),
        canonical_id: "./features/noop".to_owned(),
        options: TextMap::new(),
    }];
    config.devcontainer.run_args = vec![
        LayerRunArg::AddHost("api.${localWorkspaceFolderBasename}:127.0.0.1".to_owned()),
        LayerRunArg::Dns("dns-${localWorkspaceFolderBasename}".to_owned()),
    ];
    let mut tool = Tool::new(config);
    let prepared = |tool: &Tool| {
        let plan = plan_for(tool, &workspace).unwrap();
        let fetched = FetchedFeatures {
            metadata_layers: vec![ConfigLayer::default()],
            install: PreparedFeatureInstallPlan {
                lock_entries: vec![FeatureLockHashEntry {
                    feature_id: "./features/noop".to_owned(),
                    digest: "sha256:noop".to_owned(),
                }],
            },
        };
        prepare_feature_metadata_for_plan(tool, &workspace, HOST.ids, plan, Some(fetched)).unwrap()
    };

    tool.env = vec![(env_name.to_owned(), "first-secret".to_owned())];
    let first = prepared(&tool);
    assert_eq!(
        first.build_options.build_args.get("TOKEN").map(String::as_str),
        Some("first-secret")
    );
    assert_eq!(first.build_options.target.as_deref(), Some("stage-Feature Static"));
    assert_eq!(
        first.build_options.cache_from,
        vec!["type=registry,ref=example.test/Feature Static:cache"]
    );
    assert!(first.sensitive_build_args.contains_key("TOKEN"));
    assert!(first
        .build_options
        .build_arg_redactions
        .iter()
        .any(|value| value == "first-secret"));
    assert_eq!(
        first.config.devcontainer.run_args,
        vec![
            LayerRunArg::AddHost("api.Feature Static:127.0.0.1".to_owned()),
            LayerRunArg::Dns("dns-Feature Static".to_owned()),
        ]
    );
    assert_eq!(first.config_layers.feature_metadata.len(), 1);

    tool.env = vec![(env_name.to_owned(), "second-secret".to_owned())];
    let second = prepared(&tool);
    assert_eq!(
        second.build_options.build_args.get("TOKEN").map(String::as_str),
        Some("second-secret")
    );
    let hash = |plan: &UpPlan| {
        let mut input = ConfigHashInput::new(&plan.config);
        input.sensitive_build_arg_keys = plan.sensitive_build_args.keys();
        tool.config_hash(&input)
    };
    assert_ne!(hash(&first), hash(&second));
}

fn plan_with_image_source(image: &str) -> UpPlan {
    let workspace = workspace("project");
    let mut read = sources(&workspace);
    read.devcontainer_layer = layer_with_source(image);
    build_up_plan(
        &Tool::new(ResolvedConfig::default()),
        &workspace,
        HOST,
        ConfigLayer::default(),
        read,
    )
    .unwrap()
}

#[test]
fn github_cli_auto_add_injects_feature_once() {
    let tool = Tool::new(ResolvedConfig::default());
    let plan = plan_with_image_source("alpine:3.20");

    let plan = add_github_cli_feature_to_plan(&tool, plan).unwrap();
    let plan = add_github_cli_feature_to_plan(&tool, plan).unwrap();

    let github_cli_features = plan
        .config
        .features
        .iter()
        .filter(|feature| feature.canonical_id == "ghcr.io/devcontainers/features/github-cli")
        .collect::<Vec<_>>();
    assert_eq!(github_cli_features.len(), 1);
    assert_eq!(
        github_cli_features[0].id,
        "ghcr.io/devcontainers/features/github-cli:1"
    );
}

#[test]
fn github_cli_auto_add_retickets_image_sources_to_workspace_layer() {
    let plan = plan_with_image_source("ubuntu:24.04");

    let plan =
        add_github_cli_feature_to_plan(&Tool::new(ResolvedConfig::default()), plan).unwrap();

    assert_eq!(plan.base_image, "ubuntu:24.04");
    assert_eq!(plan.image, plan.resources.image_tag);
    assert_ne!(plan.image, plan.base_image);
}

#[test]
fn a_plan_without_a_source_is_refused() {
    let error =
        plan_for(&Tool::new(ResolvedConfig::default()), &workspace("empty")).unwrap_err();

    assert_eq!(error.chain, vec!["Devcontainer image is required"]);
}

#[test]
fn a_read_only_plan_resolves_the_same_mounts() {
    let workspace = workspace("read-only");
    let mut tool = Tool::new(image_config("alpine:3.20"));
    tool.project_mounts = vec![volume_mount("project-cache", "/cache")];
    let plan = plan_for(&tool, &workspace).unwrap();
    let read_only = build_read_only_up_plan_with_forwarding_resolution(
        &tool,
        &workspace,
        HOST,
        ConfigLayer::default(),
        ForwardingResolution::Resolve,
        false,
        false,
        sources(&workspace),
    )
    .unwrap();

    assert_eq!(plan.mounts.len(), 2);
    assert_eq!(read_only.mounts.len(), 2);
    assert_eq!(plan.resources.config_hash, read_only.resources.config_hash);
}

#[test]
fn a_preliminary_plan_mounts_the_workspace_alone() {
    let workspace = workspace("preliminary");
    let mut tool = Tool::new(image_config("alpine:3.20"));
    tool.project_mounts = vec![volume_mount("project-cache", "/cache")];
    let plan = build_preliminary_up_plan_with_forwarding_resolution(
        &tool,
        &workspace,
        HOST,
        ConfigLayer::default(),
        ForwardingResolution::Resolve,
        false,
        false,
        sources(&workspace),
    )
    .unwrap();

    assert_eq!(plan.mounts.len(), 1);
    assert_eq!(plan.mounts[0].target, "/workspaces/preliminary");
}

#[test]
fn a_dockerfile_below_a_feature_layer_has_a_name_of_its_own() {
    let workspace = workspace("layered");
    let mut config = feature_config("ghcr.io/example/features/tool:1");
    config.devcontainer.source =
        Some(ResolvedDevcontainerSource::Dockerfile(build("Dockerfile")));
    let plan = plan_for(&Tool::new(config), &workspace).unwrap();

    assert_eq!(plan.image, plan.resources.image_tag);
    assert_ne!(plan.base_image, plan.image);
}

#[test]
fn a_plan_is_made_anew_with_what_the_image_brings() {
    let workspace = workspace("rebuilt");
    let tool = Tool::new(image_config("alpine:3.20"));
    let plan = plan_for(&tool, &workspace).unwrap();
    let resolution = UpPlanResolution::new(ForwardingResolution::Resolve, false, false);
    let rebuilt = rebuild_up_plan_with_image_metadata_layers(
        &tool,
        &workspace,
        HOST,
        plan,
        vec![image_metadata_layer("1")],
        false,
        MountResolution::Resolve,
        resolution,
    )
    .unwrap();

    assert_eq!(rebuilt.config.devcontainer.remote_user.as_deref(), Some("image-user"));
    assert_eq!(rebuilt.config_layers.image_metadata.len(), 1);

    let mut unlabelled = rebuilt;
    unlabelled.resources.labels = TextMap::new();
    let error = rebuild_up_plan_with_image_metadata_layers(
        &tool,
        &workspace,
        HOST,
        unlabelled,
        Vec::new(),
        false,
        MountResolution::Resolve,
        resolution,
    )
    .unwrap_err();
    assert_eq!(error.chain, vec!["Up plan is missing devcontainer.config_file label"]);
}

fn image_users(user: &str, sync: UidGidSyncPlan) -> ImageUsers {
    let effective =
        EffectiveUser { user: user.to_owned(), source: RemoteUserSource::Devcontainer };
    ImageUsers {
        effective_users: EffectiveUsers {
            container_user: effective.clone(),
            remote_user: effective,
        },
        remote_user: ResolvedRemoteUser {
            user: user.to_owned(),
            home: Some(format!("/home/{user}")),
        },
        uid_gid_sync_plan: sync,
    }
}

fn sync_plan(user: &str) -> UidGidSyncPlan {
    UidGidSyncPlan::Sync {
        target: UidGidSyncTarget {
            kind: UidGidSyncTargetKind::RemoteUser,
            user: user.to_owned(),
            host: HOST.ids,
        },
        container: ResolvedUserIds { name: user.to_owned(), uid: 2001, gid: 2001 },
    }
}

fn completed(
    tool: &Tool,
    workspace: &Workspace,
    plan: UpPlan,
    users: ImageUsers,
) -> Result<UpPlan, UpError> {
    let options = FinalizeUpPlanMountsOptions::default();
    let mounts = finalize_mounts_for_plan(tool, workspace, HOST, plan, &users, options)?;
    let result = finalize_mounts_and_resources_for_plan(
        tool, workspace, HOST, mounts, users, None, options,
    )?;
    Ok(result.plan)
}

#[test]
fn a_completed_plan_knows_the_home_of_its_user() {
    let workspace = workspace("completed");
    let mut config = image_config("alpine:3.20");
    config.devcontainer.workspace_folder = Some("${remoteUserHome}/src".to_owned());
    config.devcontainer.workspace_mount =
        Some(bind_text("source=${localWorkspaceFolder},target=${remoteUserHome},type=bind"));
    config.devcontainer.cap_add = vec!["SYS_${remoteUser}".to_owned()];
    config.devcontainer.container_env.insert(
        "HERE".to_owned(),
        "${containerWorkspaceFolder}".to_owned(),
    );
    config.ports.entries = vec![port_entry(None, 3000, None)];
    let tool = Tool::new(config);
    let plan = plan_for(&tool, &workspace).unwrap();
    let plan =
        completed(&tool, &workspace, plan, image_users("vscode", UidGidSyncPlan::default()))
            .unwrap();

    assert_eq!(plan.workspace_folder, "/home/vscode/src");
    assert_eq!(plan.mounts[0].target, "/home/vscode");
    assert_eq!(plan.config.devcontainer.cap_add, vec!["SYS_vscode"]);
    assert_eq!(
        plan.config.devcontainer.container_env.get("HERE").map(String::as_str),
        Some("/home/vscode/src")
    );
    assert_eq!(plan.forward_ports, vec![forward_port(3000, 3000)]);
    assert_eq!(plan.image, "alpine:3.20");
    assert_eq!(plan.effective_users.remote_user.user, "vscode");
    assert!(plan.pre_uid_gid_sync_resources.is_none());
}

#[test]
fn a_workspace_outside_its_mount_is_refused_at_runtime() {
    let workspace = workspace("outside");
    let tool = Tool::new(workspace_mount_config(
        "source=${localWorkspaceFolder},target=/workspace,type=bind",
        Some("/other"),
    ));
    let plan = plan_for(&tool, &workspace).unwrap();
    let error =
        completed(&tool, &workspace, plan, image_users("root", UidGidSyncPlan::default()))
            .unwrap_err();

    assert_eq!(
        error.message(),
        "workspaceFolder must be under the workspaceMount target: workspaceFolder=/other, \
         workspaceMount target=/workspace"
    );
}

#[test]
fn changed_user_ids_make_an_image_of_their_own() {
    let workspace = workspace("synced");
    let tool = Tool::new(image_config("alpine:3.20"));
    let plan = plan_for(&tool, &workspace).unwrap();
    let plan =
        completed(&tool, &workspace, plan, image_users("vscode", sync_plan("vscode"))).unwrap();

    assert_eq!(plan.image, plan.resources.image_tag);
    assert_eq!(plan.base_image, "alpine:3.20");
    let before = plan.pre_uid_gid_sync_resources.as_ref().expect("names below the layer");
    assert_ne!(before.config_hash, plan.resources.config_hash);
    assert_eq!(
        plan.uid_gid_sync_build_context_dir.as_deref(),
        Some("/home/dev/.cache/decune/abc123/uid-gid-sync-build-context")
    );
}

#[test]
fn a_compose_plan_keeps_the_image_of_its_service() {
    let workspace = workspace("compose-image");
    let tool = Tool::new(compose_config());
    let plan = plan_for(&tool, &workspace).unwrap();
    let resolution = UpPlanResolution::new(ForwardingResolution::Resolve, false, false);
    let empty = ImageMetadataLayers { layers: Vec::new(), has_forward_ports: false };
    let unchanged = prepare_compose_image_metadata(
        &tool,
        &workspace,
        HOST,
        ConfigLayer::default(),
        plan.clone(),
        &"example/app:dev".to_owned(),
        empty,
        resolution,
        sources(&workspace),
    )
    .unwrap();
    assert_eq!(unchanged.base_image, plan.base_image);

    let found =
        ImageMetadataLayers { layers: vec![image_metadata_layer("1")], has_forward_ports: false };
    let rebuilt = prepare_compose_image_metadata(
        &tool,
        &workspace,
        HOST,
        ConfigLayer::default(),
        plan,
        &"example/app:dev".to_owned(),
        found,
        resolution,
        sources(&workspace),
    )
    .unwrap();
    assert_eq!(rebuilt.base_image, "example/app:dev");
    assert_eq!(rebuilt.config.devcontainer.remote_user.as_deref(), Some("image-user"));

    let completed_plan =
        completed(&tool, &workspace, rebuilt, image_users("root", UidGidSyncPlan::default()))
            .unwrap();
    assert_eq!(completed_plan.base_image, "example/app:dev");
}

#[test]
fn ports_of_the_image_are_left_out_where_nothing_forwards_them() {
    let workspace = workspace("image-ports");
    let tool = Tool::new(image_config("alpine:3.20"));
    let plan = build_plan_on_image(
        &tool,
        &workspace,
        HOST,
        ConfigLayer::default(),
        Some(ImageMetadataLayers {
            layers: vec![image_metadata_layer("1")],
            has_forward_ports: true,
        }),
        UpPlanResolution::new(ForwardingResolution::IgnoreDetached, false, false),
        sources(&workspace),
    )
    .unwrap();

    assert!(plan.ignored_detached_forwarding);
    assert!(plan.forward_ports.is_empty());
}

#[test]
fn probes_see_the_environment_of_the_container() {
    let workspace = workspace("probe");
    let mut config = image_config("alpine:3.20");
    config
        .devcontainer
        .container_env
        .insert("HOME_OF".to_owned(), "${remoteUser}:${remoteUserHome}".to_owned());
    let tool = Tool::new(config);
    let plan = plan_for(&tool, &workspace).unwrap();
    let user = ResolvedRemoteUser {
        user: "vscode".to_owned(),
        home: Some("/home/vscode".to_owned()),
    };
    let env =
        command_probe_container_env(&tool, &workspace, HOST.ids, &plan, &user).unwrap();

    assert_eq!(env.get("HOME_OF").map(String::as_str), Some("vscode:/home/vscode"));
}

/// Completes a plan whose image sets nothing and is there already.
fn finalized(
    tool: &Tool,
    workspace: &Workspace,
    mut plan: UpPlan,
    users: ImageUsers,
) -> (UpPlan, bool) {
    let settings = FinalizeSettings {
        existing_image: None,
        build: Some(LookupBuild { pull: false, no_cache: false }),
        forwarding: ForwardingResolution::Resolve,
        update_features: false,
    };
    let mut users = Some(users);
    let (mut progress, mut action) = begin_finalize();
    loop {
        let event = match action {
            FinalizeAction::PrepareFeatures => {
                plan =
                    prepare_feature_metadata_for_plan(tool, workspace, HOST.ids, plan, None)
                        .unwrap();
                FinalizeEvent::FeaturesPrepared
            }
            FinalizeAction::ReadMetadata { .. } => {
                FinalizeEvent::MetadataRead { is_empty: true, has_forward_ports: false }
            }
            FinalizeAction::SettleGithubCli { .. } => {
                FinalizeEvent::GithubCliSettled { lookup: progress.lookup.clone() }
            }
            FinalizeAction::FinalizeResources { .. } => {
                plan = completed(tool, workspace, plan, users.take().unwrap()).unwrap();
                FinalizeEvent::ResourcesFinalized
            }
            FinalizeAction::RunImageActions { actions } => {
                assert!(actions.is_empty(), "{actions:?}");
                FinalizeEvent::ImagesDone
            }
            FinalizeAction::RebuildPlan { .. } => unreachable!(),
            FinalizeAction::Done { image_prepared, completed } => {
                assert!(completed);
                return (plan, image_prepared);
            }
        };
        (progress, action) = finalize_up_plan_mounts(&settings, &plan, progress, event);
    }
}

#[test]
fn up_plan_finalization_noops_uid_gid_sync_for_root_remote_user() {
    let workspace = workspace("docker-up-uid-gid-sync-root-noop");
    let mut config = image_config("alpine:3.20");
    config.devcontainer.remote_user = Some("root".to_owned());
    let tool = Tool::new(config);
    let plan = plan_for(&tool, &workspace).unwrap();
    let noop = UidGidSyncPlan::Noop { reason: UidGidSyncNoopReason::Root };
    let (plan, image_prepared) = finalized(&tool, &workspace, plan, image_users("root", noop));

    assert!(!image_prepared);
    assert_eq!(plan.image, "alpine:3.20");
    assert_eq!(plan.base_image, "alpine:3.20");
    assert!(matches!(
        plan.uid_gid_sync_plan,
        UidGidSyncPlan::Noop { reason: UidGidSyncNoopReason::Root }
    ));
    assert!(plan.pre_uid_gid_sync_resources.is_none());
    assert!(plan.uid_gid_sync_build_context_dir.is_none());
}

#[test]
fn up_plan_finalization_uses_image_user_without_uid_gid_sync_when_metadata_user_is_missing() {
    let workspace = workspace("docker-up-uid-gid-sync-image-user-only");
    let image = format!("decune-test/uid-gid-sync-image-user-only-{}:latest", workspace.id);
    let tool = Tool::new(image_config(&image));
    let plan = plan_for(&tool, &workspace).unwrap();
    let noop = UidGidSyncPlan::Noop { reason: UidGidSyncNoopReason::NoExplicitUser };
    let (plan, image_prepared) =
        finalized(&tool, &workspace, plan, image_users("imageuser", noop));

    assert!(!image_prepared);
    assert_eq!(plan.image, image);
    assert_eq!(plan.base_image, image);
    assert_eq!(plan.effective_users.remote_user.user, "imageuser");
    assert!(matches!(
        plan.uid_gid_sync_plan,
        UidGidSyncPlan::Noop { reason: UidGidSyncNoopReason::NoExplicitUser }
    ));
    assert!(plan.pre_uid_gid_sync_resources.is_none());
    assert!(plan.uid_gid_sync_build_context_dir.is_none());
}

#[test]
fn up_plan_finalization_includes_uid_gid_sync_state_in_final_hash_and_image_tag() {
    let workspace = workspace("docker-up-uid-gid-sync-hash-tag");
    let image = format!("decune-test/uid-gid-sync-hash-tag-{}:latest", workspace.id);
    let mut config = image_config(&image);
    config.devcontainer.remote_user = Some("syncuser".to_owned());
    let tool = Tool::new(config);
    let plan = plan_for(&tool, &workspace).unwrap();
    let (plan, image_prepared) =
        finalized(&tool, &workspace, plan, image_users("syncuser", sync_plan("syncuser")));
    let pre_sync_resources = plan
        .pre_uid_gid_sync_resources
        .as_ref()
        .expect("sync plan must preserve pre-sync resources");

    assert!(!image_prepared);
    assert!(matches!(plan.uid_gid_sync_plan, UidGidSyncPlan::Sync { .. }));
    assert_eq!(plan.image, plan.resources.image_tag);
    assert_eq!(plan.base_image, image);
    assert_eq!(
        plan.resources.labels.get("decune.config_hash"),
        Some(&plan.resources.config_hash)
    );
    assert_eq!(
        pre_sync_resources.labels.get("decune.config_hash"),
        Some(&pre_sync_resources.config_hash)
    );
    assert_ne!(plan.resources.config_hash, pre_sync_resources.config_hash);
    assert_ne!(plan.resources.image_tag, pre_sync_resources.image_tag);
    assert!(plan.uid_gid_sync_build_context_dir.is_some());

    let UidGidSyncPlan::Sync { target, .. } = &plan.uid_gid_sync_plan else {
        unreachable!("sync plan was checked above");
    };
    assert_eq!(target.host, HOST.ids);
    assert_eq!(target.user, "syncuser");
    assert_eq!(target.kind, UidGidSyncTargetKind::RemoteUser);
}

#[test]
fn starts_that_forward_different_ports_have_one_hash() {
    let workspace = workspace("forwarded-layer-ports");
    let tool = Tool::new(image_config("alpine:3.20"));
    let build = |ports: Vec<ResolvedPortEntry>, forwarding: ForwardingResolution| {
        let mut read = sources(&workspace);
        read.devcontainer_layer.ports = ports;
        build_up_plan_with_forwarding_resolution(
            &tool,
            &workspace,
            HOST,
            ConfigLayer { ports: vec![port_entry(None, 9000, None)], ..ConfigLayer::default() },
            forwarding,
            false,
            false,
            read,
        )
        .unwrap()
    };
    let attached = build(vec![port_entry(None, 3000, None)], ForwardingResolution::Resolve);
    let moved = build(vec![port_entry(None, 4000, Some(5000))], ForwardingResolution::Resolve);
    let detached = build(Vec::new(), ForwardingResolution::IgnoreDetached);

    assert_eq!(attached.forward_ports, vec![forward_port(3000, 3000), forward_port(9000, 9000)]);
    assert_eq!(moved.forward_ports, vec![forward_port(4000, 5000), forward_port(9000, 9000)]);
    assert!(detached.forward_ports.is_empty());
    assert!(detached.ignored_detached_forwarding);
    assert_eq!(attached.resources.config_hash, moved.resources.config_hash);
    assert_eq!(attached.resources.config_hash, detached.resources.config_hash);
}

#[test]
fn published_ports_change_the_hash() {
    let workspace = workspace("published-ports");
    let published = |container: u16| {
        let mut config = image_config("alpine:3.20");
        config.devcontainer.publish_ports = vec![ResolvedPublishPort {
            container,
            host: None,
            host_ip: None,
            protocol: PortProtocol::Tcp,
        }];
        plan_for(&Tool::new(config), &workspace).unwrap()
    };

    assert_ne!(published(3000).resources.config_hash, published(3001).resources.config_hash);
}

fn known_variables() -> VariableContext {
    VariableContext {
        local_workspace_folder: "/work/project".to_owned(),
        local_workspace_folder_basename: "project".to_owned(),
        container_workspace_folder: "/workspaces/project".to_owned(),
        container_workspace_folder_basename: "project".to_owned(),
        devcontainer_id: "id".to_owned(),
        uid: 1000,
        gid: 1000,
        remote_user: "root".to_owned(),
        remote_user_home: Some("/root".to_owned()),
    }
}

#[test]
fn refused_build_leaves_the_configuration_as_it_was() {
    for (text, message) in [
        (
            "${remoteUserHome}",
            "build.cacheFrom must not reference ${remoteUserHome} because it is resolved from the runtime container passwd database after the image is built",
        ),
        (
            "${remoteUser}",
            "build.cacheFrom must not reference ${remoteUser} unless remoteUser or containerUser is configured before the Dockerfile build",
        ),
    ] {
        let mut input = build("Dockerfile");
        input.args.insert("FOLDER".to_owned(), "${containerWorkspaceFolder}".to_owned());
        input.target = Some("${localWorkspaceFolderBasename}".to_owned());
        input.cache_from = vec!["cache".to_owned(), text.to_owned()];
        let mut config = build_config(input);
        config.devcontainer.cap_add = vec!["${localWorkspaceFolder}".to_owned()];
        config.devcontainer.security_opt = vec!["${localWorkspaceFolder}".to_owned()];
        config.devcontainer.run_args = vec![LayerRunArg::Dns("${uid}".to_owned())];
        let before = format!("{config:?}");
        let tool = Tool::new(ResolvedConfig::default());
        let error = expand_static_devcontainer_fields(&tool, &mut config, &known_variables())
            .unwrap_err();

        assert_eq!(error.chain, vec![message.to_owned()]);
        assert_eq!(format!("{config:?}"), before);
    }
}

#[test]
fn failing_list_leaves_the_lists_behind_it_as_they_were() {
    let settings = |first: &str, second: &str| {
        let mut config = image_config("alpine:3.20");
        config.devcontainer.cap_add = vec!["${uid}".to_owned(), first.to_owned()];
        config.devcontainer.security_opt = vec!["${gid}".to_owned(), second.to_owned()];
        config.devcontainer.run_args = vec![LayerRunArg::Dns("${uid}".to_owned())];
        config
    };
    let tool = Tool::new(ResolvedConfig::default());
    for early in [false, true] {
        let expand = |config: &mut ResolvedConfig| {
            if early {
                expand_static_devcontainer_fields(&tool, config, &known_variables()).unwrap_err()
            } else {
                expand_runtime_devcontainer_fields(&tool, config, &known_variables()).unwrap_err()
            }
        };
        let mut config = settings("${unknown}", "NET");
        let error = expand(&mut config);
        assert_eq!(
            error.chain,
            vec![
                "Failed to expand runArgs value".to_owned(),
                "Unsupported variable: unknown".to_owned(),
            ]
        );
        assert_eq!(config.devcontainer.cap_add, vec!["1000", "${unknown}"]);
        assert_eq!(config.devcontainer.security_opt, vec!["${gid}", "NET"]);
        assert_eq!(
            format!("{:?}", config.devcontainer.run_args),
            format!("{:?}", settings("", "").devcontainer.run_args)
        );

        let mut config = settings("NET", "${unknown}");
        expand(&mut config);
        assert_eq!(config.devcontainer.cap_add, vec!["1000", "NET"]);
        assert_eq!(config.devcontainer.security_opt, vec!["1000", "${unknown}"]);
        assert_eq!(
            format!("{:?}", config.devcontainer.run_args),
            format!("{:?}", settings("", "").devcontainer.run_args)
        );
    }
}

#[test]
fn completed_plans_that_forward_different_ports_have_one_hash() {
    let workspace = workspace("completed-forwarded-ports");
    let tool_for = |ports: Vec<ResolvedPortEntry>| {
        let mut config = image_config("alpine:3.20");
        config.devcontainer.workspace_folder = Some("${remoteUserHome}/src".to_owned());
        config.devcontainer.cap_add = vec!["SYS_${remoteUser}".to_owned()];
        config.ports.entries = ports;
        Tool::new(config)
    };
    let complete = |ports: Vec<ResolvedPortEntry>, forwarding: ForwardingResolution| {
        let tool = tool_for(ports);
        let plan = plan_for(&tool, &workspace).unwrap();
        let options = FinalizeUpPlanMountsOptions {
            forwarding,
            ..FinalizeUpPlanMountsOptions::default()
        };
        let users = image_users("vscode", sync_plan("vscode"));
        let mounts =
            finalize_mounts_for_plan(&tool, &workspace, HOST, plan, &users, options).unwrap();
        finalize_mounts_and_resources_for_plan(
            &tool, &workspace, HOST, mounts, users, None, options,
        )
        .unwrap()
        .plan
    };
    let attached = complete(vec![port_entry(None, 3000, None)], ForwardingResolution::Resolve);
    let detached =
        complete(vec![port_entry(None, 4000, None)], ForwardingResolution::IgnoreDetached);

    assert_eq!(attached.forward_ports, vec![forward_port(3000, 3000)]);
    assert!(detached.forward_ports.is_empty());
    assert_eq!(attached.resources.config_hash, detached.resources.config_hash);
}
