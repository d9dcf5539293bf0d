//! Compose projects, credentials and entrypoints, with a small stand-in for
//! the rest of the tool.

use decune::canonical::Canonical;
use decune::compose::generate::{
    generated_compose_override_patch, ComposeIsolationOverridePlans, ComposeOverrideStartup,
    ServiceForwardRuntime,
};
use decune::compose::isolation::{
    ComposeIsolationEndpointPlan, ComposeIsolationNameRewritePlan, ComposeIsolationResourceKind,
    ComposeIsolationResourceRewrite, ComposeIsolationSubnetAllocation, ComposeIsolationSubnetPlan,
};
use decune::compose::override_hash::compose_generated_override_hash_input;
use decune::compose::placeholder::attach_compose_interpolation_env_to_plan;
use decune::compose::ports::{
    ComposePortEntry, ComposePortProtocol, ComposePublishedPortAllocationReason,
    ComposePublishedPortEndpoint, ComposePublishedPortFinalization, ComposePublishedPortHostIp,
    ComposePublishedPortOverride, ComposePublishedPortPlan, ComposePublishedPortPlanEntry,
    ComposePublishedPortPlanSource, ComposePublishedPortPlannedEndpointProbe,
    ComposePublishedPortPlanningInput, ComposePublishedPortReservation,
    ComposePublishedPortReservationSource, PortFields,
};
use decune::compose::render::{
    generated_compose_override_content, generated_compose_override_content_with_startup,
};
use decune::config::{
    ConfigLayer, ConfigMergeInput, LayerDevcontainerBuild, LayerDevcontainerCompose, LayerDevcontainerMount,
    MountType, PortProtocol, ResolvedConfig, ResolvedDevcontainerSource, ResolvedPortEntry,
};
use decune::docker::{
    DockerBuildOptions, DockerMountSpec, DockerResources, EffectiveUser, EffectiveUsers,
    HostPathCreateMode, HostPortReservation, HostUserIds, MountBindOptions, MountBindPropagation,
    MountVolumeOptions, RemoteUserSource, ResolvedBuildContext, ResolvedForwardPort,
    ResolvedUserIds, SensitiveEnvValue, UidGidSyncPlan, UidGidSyncTarget, UidGidSyncTargetKind,
};
use decune::error::UpError;
use decune::finalize::resources::{
    compose_published_port_host_reservations, finalized_compose_published_ports,
};
use decune::hash_input::{BuildHashInput, ConfigHashInput};
use decune::json::JsonValue;
use decune::mounts::WorkspaceMountPlan;
use decune::services::{FeatureLock, FeatureReference, PlanServices};
use decune::start::compose::{
    compose_published_port_recreate_changes, decide_existing_compose_container,
    warn_on_compose_published_port_recreate, ComposeExistingContainerDecisionInput,
    ComposePublishedPortRecreateWarning, ComposeStartupContext,
};
use decune::start::compose_run::{prepare_compose_startup_context, ComposeProjectFacts};
use decune::start::container::{create_and_start_container, ContainerStartup};
use decune::start::creation::{
    begin_creation, create_and_start_container_inner, CreationAction, CreationEvent,
};
use decune::start::credentials::{
    add_prepared_credential_runtime_mounts, CredentialedPlan, RuntimeAccess,
};
use decune::start::existing::{decide_existing_container, CredentialRuntimeMountPolicy};
use decune::start::fast_path::fast_path_existing_container_decision;
use decune::start::feature_entrypoint::{
    begin_feature_entrypoint_runtime, new_feature_entrypoint_token,
    prepare_feature_entrypoint_sentinel_runtime, EntrypointRuntimeAction, EntrypointRuntimeEvent,
    DECUNE_RUNTIME_TARGET,
};
use decune::start::image::{
    container_reused_by, start_decided_image_container, try_start_existing_image_container,
    ImageStartStep,
};
use decune::text_map::TextMap;
use decune::types::{
    ComposeProjectPlan, ExistingContainerDecision, TrackedValues, UpBuildOptions, UpConfigOptions,
    UpContainerSummary, UpMountSummary, UpOptions, UpOutcome, UpPlan, UpReuseOptions,
    VariableContext,
    Workspace,
};

const SSH_AGENT_SOCKET_TARGET: &str = "/run/decune/ssh-agent.sock";
const GITHUB_CLI_CONFIG_TARGET: &str = "/run/decune/gh";
const GITHUB_CLI_TOKEN_TARGET: &str = "/run/decune/secrets/github-token";
const SENTINEL: &str = "/run/decune/feature-entrypoints/sentinel";
const TOKEN: &str = "/run/decune/feature-entrypoints/token";

/// The parts of the tool that a start calls upon.
struct Tool;

impl PlanServices for Tool {
    fn resolve_config(&self, _layers: &ConfigMergeInput) -> ResolvedConfig {
        unreachable!()
    }

    fn expand_variables(
        &self,
        _text: &String,
        _variables: &VariableContext,
    ) -> Result<String, UpError> {
        unreachable!()
    }

    fn references_remote_user(&self, _text: &String) -> Result<bool, UpError> {
        unreachable!()
    }

    fn references_remote_user_home(&self, _text: &String) -> Result<bool, UpError> {
        unreachable!()
    }

    fn expand_string_map(
        &self,
        _values: &TextMap<String>,
        _variables: &VariableContext,
    ) -> Result<TrackedValues, UpError> {
        unreachable!()
    }

    fn expand_container_env(
        &self,
        _values: &TextMap<String>,
        _variables: &VariableContext,
    ) -> Result<TrackedValues, UpError> {
        unreachable!()
    }

    fn devcontainer_mount_spec(
        &self,
        _mount: &LayerDevcontainerMount,
        _workspace: &Workspace,
        _variables: &VariableContext,
        _mode: HostPathCreateMode,
    ) -> Result<DockerMountSpec, UpError> {
        unreachable!()
    }

    fn config_mount_specs(
        &self,
        _config: &ResolvedConfig,
        _workspace: &Workspace,
        _variables: &VariableContext,
        _mode: HostPathCreateMode,
    ) -> Result<Vec<DockerMountSpec>, UpError> {
        unreachable!()
    }

    fn dotfile_mount_plan(
        &self,
        _config: &ResolvedConfig,
        _workspace: &Workspace,
        _variables: &VariableContext,
    ) -> Result<WorkspaceMountPlan, UpError> {
        unreachable!()
    }

    fn resolve_build_context(
        &self,
        _workspace: &Workspace,
        _devcontainer_file: &String,
        _build: &LayerDevcontainerBuild,
    ) -> Result<ResolvedBuildContext, UpError> {
        unreachable!()
    }

    fn build_hash_input(&self, _context: &ResolvedBuildContext) -> Result<BuildHashInput, UpError> {
        unreachable!()
    }

    fn resolve_compose_project(
        &self,
        _workspace: &Workspace,
        _devcontainer_file: &String,
        _files: &Vec<String>,
    ) -> Result<ComposeProjectPlan, UpError> {
        unreachable!()
    }

    fn parse_feature_ref(
        &self,
        _id: &String,
        _devcontainer_file: &String,
    ) -> Result<FeatureReference, UpError> {
        unreachable!()
    }

    fn read_feature_lock(&self, _workspace: &Workspace) -> Result<FeatureLock, UpError> {
        unreachable!()
    }

    fn locked_digest(&self, _reference: &FeatureReference, _lock: &FeatureLock) -> Option<String> {
        unreachable!()
    }

    fn config_hash(&self, _input: &ConfigHashInput) -> String {
        unreachable!()
    }

    fn content_hash(&self, content: &Canonical) -> String {
        format!("{content:?}")
    }

    fn docker_resources(
        &self,
        _workspace: &Workspace,
        _config_hash: &String,
        _config_file: &String,
    ) -> DockerResources {
        unreachable!()
    }

    fn resolve_forward_ports(
        &self,
        _entries: &Vec<ResolvedPortEntry>,
    ) -> Result<Vec<ResolvedForwardPort>, UpError> {
        unreachable!()
    }

    fn resolve_forward_ports_with_host_reservations(
        &self,
        _entries: &Vec<ResolvedPortEntry>,
        _reservations: &Vec<HostPortReservation>,
    ) -> Result<Vec<ResolvedForwardPort>, UpError> {
        unreachable!()
    }

    fn plan_compose_published_ports(
        &self,
        context: &ComposePublishedPortFinalization,
        automatic_relocation: bool,
        forward_ports: &Vec<ResolvedForwardPort>,
    ) -> Result<ComposePublishedPortPlan, UpError> {
        let mut entries = Vec::new();
        for entry in &context.input.port_entries {
            let requested = match entry.original_fields.get("published") {
                Some(JsonValue::Text(port)) => port.parse::<u16>().unwrap(),
                _ => continue,
            };
            let mut planned = requested;
            while automatic_relocation && forward_ports.iter().any(|port| port.host == planned) {
                planned += 1;
            }
            entries.push(plan_entry(&entry.service, requested, requested, planned, None));
        }
        Ok(ComposePublishedPortPlan { entries })
    }

    fn validate_compose_published_port_diagnostics(
        &self,
        input: &ComposePublishedPortPlanningInput,
    ) -> Result<(), UpError> {
        if input.services.contains(&input.primary_service) {
            Ok(())
        } else {
            Err(UpError::from_text("published ports are refused"))
        }
    }

    fn compose_published_port_override(
        &self,
        entries: &Vec<ComposePortEntry>,
        plan: &ComposePublishedPortPlan,
    ) -> Result<ComposePublishedPortOverride, UpError> {
        let mut services: TextMap<Vec<PortFields>> = TextMap::new();
        for moved in plan.entries.iter().filter(|entry| entry.relocated) {
            let mut ports = Vec::new();
            for entry in entries.iter().filter(|entry| entry.service == moved.service) {
                let mut fields = entry.original_fields.clone();
                if entry.entry_index == moved.port_entry_index {
                    fields.insert(
                        "published".to_owned(),
                        JsonValue::Text(moved.planned.host_port.to_string()),
                    );
                }
                ports.push(fields);
            }
            services.insert(moved.service.clone(), ports);
        }
        Ok(ComposePublishedPortOverride { services })
    }

    fn host_addresses_overlap(&self, existing: &String, planned: &String) -> bool {
        existing == planned || existing == "0.0.0.0" || planned == "0.0.0.0"
    }

    fn uid_gid_sync_runtime_user(
        &self,
        user: &String,
        plan: &UidGidSyncPlan,
    ) -> Result<String, UpError> {
        match plan {
            UidGidSyncPlan::Sync { target, container }
                if *user == format!("{}:{}", container.uid, container.gid) =>
            {
                Ok(format!("{}:{}", container.name, target.host.gid))
            }
            _ if user.is_empty() => Err(UpError::from_text("no user")),
            _ => Ok(user.clone()),
        }
    }
}

fn text_map(entries: &[(&str, &str)]) -> TextMap<String> {
    let mut map = TextMap::new();
    for (key, value) in entries {
        map.insert((*key).to_owned(), (*value).to_owned());
    }
    map
}

fn plan_with(config: ResolvedConfig, mounts: Vec<DockerMountSpec>) -> UpPlan {
    UpPlan {
        image: "decune/test:hash".to_owned(),
        base_image: "alpine:3.20".to_owned(),
        build_context: None,
        build_options: DockerBuildOptions::default(),
        feature_install: None,
        feature_build_context_dir: None,
        uid_gid_sync_build_context_dir: None,
        resources: DockerResources {
            container_name: "unused".to_owned(),
            image_tag: "decune/test:hash".to_owned(),
            workspace_volume_name: "unused-volume".to_owned(),
            labels: TextMap::new(),
            config_hash: "hash".to_owned(),
        },
        pre_uid_gid_sync_resources: None,
        compose_project: None,
        config_layers: ConfigMergeInput::default(),
        config,
        sensitive_container_env: TextMap::new(),
        sensitive_build_args: TextMap::new(),
        compose_interpolation_env: TextMap::new(),
        compose_interpolation_redactions: Vec::new(),
        effective_users: EffectiveUsers::root(),
        uid_gid_sync_plan: UidGidSyncPlan::default(),
        workspace_folder: "/workspace".to_owned(),
        mounts,
        dotfile_skeletons: Vec::new(),
        forward_ports: Vec::new(),
        ignored_detached_forwarding: false,
    }
}

fn override_plan(mounts: Vec<DockerMountSpec>) -> UpPlan {
    let mut config = ResolvedConfig::default();
    config.devcontainer.override_command = false;
    plan_with(config, mounts)
}

fn keepalive() -> ComposeOverrideStartup {
    ComposeOverrideStartup {
        entrypoint: vec!["/bin/sh".to_owned()],
        command: vec!["-c".to_owned(), "sleep infinity".to_owned()],
    }
}

fn content(plan: &UpPlan) -> String {
    generated_compose_override_content(&Tool, "app", plan, keepalive()).unwrap()
}

fn content_with(
    plan: &UpPlan,
    startup: Option<ComposeOverrideStartup>,
    service_forward: &Vec<ServiceForwardRuntime>,
    ports: &ComposePublishedPortOverride,
) -> String {
    generated_compose_override_content_with_startup(
        &Tool,
        "app",
        plan,
        startup,
        service_forward,
        ports,
    )
    .unwrap()
}

fn bind_mount(source: &str, target: &str, read_only: bool) -> DockerMountSpec {
    DockerMountSpec {
        source: Some(source.to_owned()),
        target: target.to_owned(),
        mount_type: MountType::Bind,
        read_only,
        consistency: None,
        bind_options: None,
        volume_options: None,
    }
}

fn sync_plan() -> UidGidSyncPlan {
    UidGidSyncPlan::Sync {
        target: UidGidSyncTarget {
            kind: UidGidSyncTargetKind::ContainerUser,
            user: "2001:2001".to_owned(),
            host: HostUserIds { uid: 1000, gid: 1000 },
        },
        container: ResolvedUserIds { name: "syncuser".to_owned(), uid: 2001, gid: 2001 },
    }
}

fn users(user: &str, source: RemoteUserSource) -> EffectiveUsers {
    EffectiveUsers {
        container_user: EffectiveUser { user: user.to_owned(), source },
        remote_user: EffectiveUser { user: user.to_owned(), source },
    }
}

fn endpoint(host_ip: Option<&str>, host_port: u16) -> ComposePublishedPortEndpoint {
    ComposePublishedPortEndpoint {
        host_ip: match host_ip {
            Some(ip) => ComposePublishedPortHostIp::Explicit(ip.to_owned()),
            None => ComposePublishedPortHostIp::Omitted,
        },
        host_port,
    }
}

fn plan_entry(
    service: &str,
    target_port: u16,
    requested: u16,
    planned: u16,
    host_ip: Option<&str>,
) -> ComposePublishedPortPlanEntry {
    ComposePublishedPortPlanEntry {
        service: service.to_owned(),
        port_entry_index: 0,
        source: ComposePublishedPortPlanSource::Compose,
        target_port,
        protocol: ComposePortProtocol::Tcp,
        requested: endpoint(host_ip, requested),
        planned: endpoint(host_ip, planned),
        planned_endpoint_probe: ComposePublishedPortPlannedEndpointProbe::Available,
        relocated: requested != planned,
        allocation_reason: ComposePublishedPortAllocationReason::Unavailable,
    }
}

fn reservation(
    host_port: u16,
    source: ComposePublishedPortReservationSource,
) -> ComposePublishedPortReservation {
    ComposePublishedPortReservation {
        service: "app".to_owned(),
        target_port: 80,
        protocol: ComposePortProtocol::Tcp,
        endpoint: endpoint(Some("0.0.0.0"), host_port),
        source,
    }
}

fn port_fields(texts: &[(&str, &str)], target: u16) -> PortFields {
    let mut fields: PortFields = TextMap::new();
    for (key, value) in texts {
        fields.insert((*key).to_owned(), JsonValue::Text((*value).to_owned()));
    }
    fields.insert("target".to_owned(), JsonValue::Literal(target.to_string()));
    fields
}

fn port_entry(service: &str, entry_index: usize, original_fields: PortFields) -> ComposePortEntry {
    ComposePortEntry { service: service.to_owned(), entry_index, original_fields }
}

fn forward_port(container: u16, host: u16) -> ResolvedForwardPort {
    ResolvedForwardPort {
        service: None,
        container,
        requested_host: host,
        host,
        host_ip: "127.0.0.1".to_owned(),
        protocol: PortProtocol::Tcp,
        require_local: false,
        label: None,
    }
}

fn reusable_container(config_hash: &str) -> UpContainerSummary {
    UpContainerSummary {
        id: "container-id".to_owned(),
        name: "project-app-1".to_owned(),
        image_id: Some("sha256:image".to_owned()),
        config_hash: Some(config_hash.to_owned()),
        config_file: None,
        mounts: Some(Vec::new()),
        running: true,
    }
}

fn decide(
    reserved: Vec<ComposePublishedPortReservation>,
    entries: Vec<ComposePublishedPortPlanEntry>,
    warning: ComposePublishedPortRecreateWarning,
) -> (ExistingContainerDecision, Vec<String>) {
    let containers = vec![reusable_container("stable-hash")];
    let plan = ComposePublishedPortPlan { entries };
    let decided = decide_existing_compose_container(
        &Tool,
        &ComposeExistingContainerDecisionInput {
            containers: &containers,
            project_containers: &containers,
            expected_config_hash: &"stable-hash".to_owned(),
            mount_policy: &CredentialRuntimeMountPolicy::new(Vec::new()),
            rebuild: false,
            existing_project_published_ports: &reserved,
            published_port_plan: &plan,
            warning,
        },
    )
    .unwrap();
    (decided.decision, decided.warnings)
}

#[test]
fn compose_decision_recreates_when_published_port_plan_changes_existing_binding() {
    let (decision, _) = decide(
        vec![reservation(18300, ComposePublishedPortReservationSource::StoppedContainer)],
        vec![plan_entry("app", 80, 18300, 18301, None)],
        ComposePublishedPortRecreateWarning::Suppress,
    );

    assert_eq!(
        decision,
        ExistingContainerDecision::Recreate { containers: vec![reusable_container("stable-hash")] }
    );
}

#[test]
fn compose_decision_reuses_when_published_port_plan_matches_existing_binding() {
    let (decision, _) = decide(
        vec![reservation(18300, ComposePublishedPortReservationSource::RunningContainer)],
        vec![plan_entry("app", 80, 18300, 18300, None)],
        ComposePublishedPortRecreateWarning::Suppress,
    );

    assert_eq!(
        decision,
        ExistingContainerDecision::ReuseRunning {
            id: "container-id".to_owned(),
            name: "project-app-1".to_owned(),
        }
    );
}

#[test]
fn a_moved_port_is_reported_when_the_project_is_made_anew() {
    let (_, warnings) = decide(
        vec![reservation(18300, ComposePublishedPortReservationSource::RunningContainer)],
        vec![plan_entry("app", 80, 18300, 18301, None)],
        ComposePublishedPortRecreateWarning::Emit,
    );
    assert_eq!(
        warnings,
        vec![
            "Compose published port relocation will recreate the Compose project because service \
             `app` target 80/tcp must move from 0.0.0.0:18300 to 18301"
        ]
    );

    let changes = compose_published_port_recreate_changes(
        &Tool,
        &vec![reservation(18300, ComposePublishedPortReservationSource::RunningContainer)],
        &ComposePublishedPortPlan { entries: vec![plan_entry("app", 80, 18300, 18300, None)] },
    );
    assert!(changes.is_empty());
    assert!(warn_on_compose_published_port_recreate(&changes).is_empty());
}

#[test]
fn generated_compose_override_patches_only_primary_service() {
    let mut plan = override_plan(vec![bind_mount("/host/cache", "/cache", true)]);
    plan.config.devcontainer.container_env = text_map(&[("FROM_DECUNE", "1")]);
    plan.resources.labels = text_map(&[("decune.managed", "true")]);

    let content = content(&plan);

    assert!(content.contains("'app':"));
    assert!(content.contains("image: 'decune/test:hash'"));
    assert!(content.contains("pull_policy: 'never'"));
    assert!(content.contains("'FROM_DECUNE': '1'"));
    assert!(content.contains("'decune.managed': 'true'"));
    assert!(content.contains("target: '/cache'"));
    assert!(!content.contains("sidecar"));
}

#[test]
fn generated_compose_override_labels_explicit_sidecar_forwarding_service() {
    let mut plan = override_plan(Vec::new());
    plan.resources.labels = text_map(&[
        ("decune.managed", "true"),
        ("decune.workspace_id", "workspace-id"),
        ("decune.config_hash", "hash"),
    ]);
    let service_forward = vec![ServiceForwardRuntime {
        service: "db".to_owned(),
        mount: bind_mount("/tmp/decune-runtime/forward/db", "/run/decune", false),
    }];

    let content =
        content_with(&plan, None, &service_forward, &ComposePublishedPortOverride::empty());

    assert!(content.contains("  'db':\n"));
    assert!(content.contains("'decune.managed': 'true'"));
    assert!(content.contains("'decune.workspace_id': 'workspace-id'"));
    assert!(content.contains("target: '/run/decune'"));
}

#[test]
fn generated_compose_override_does_not_override_pull_policy_for_original_image() {
    let mut plan = override_plan(Vec::new());
    plan.image = "alpine:3.20".to_owned();
    plan.base_image = "alpine:3.20".to_owned();

    let content = content(&plan);

    assert!(content.contains("image: 'alpine:3.20'"));
    assert!(!content.contains("pull_policy:"));
}

#[test]
fn generated_compose_override_writes_explicit_false_security_booleans() {
    let mut plan = override_plan(Vec::new());
    plan.config.devcontainer.init = Some(false);
    plan.config.devcontainer.privileged = Some(false);

    let content = content(&plan);

    assert!(content.contains("    init: false\n"));
    assert!(content.contains("    privileged: false\n"));
}

#[test]
fn generated_compose_override_writes_synced_container_user() {
    let mut plan = override_plan(Vec::new());
    plan.config.devcontainer.container_user = Some("2001:2001".to_owned());
    plan.effective_users = users("2001:2001", RemoteUserSource::Devcontainer);
    plan.uid_gid_sync_plan = sync_plan();

    let content = content(&plan);

    assert!(content.contains("user: 'syncuser:1000'"));
    assert!(!content.contains("user: '2001:2001'"));
}

#[test]
fn generated_compose_override_writes_compose_service_user_only_when_sync_changes_it() {
    let mut unchanged = override_plan(Vec::new());
    unchanged.effective_users = users("syncuser", RemoteUserSource::ComposeService);
    let unchanged_content = content(&unchanged);
    assert!(!unchanged_content.contains("user:"));

    let mut synced = unchanged;
    synced.effective_users = users("2001:2001", RemoteUserSource::ComposeService);
    synced.uid_gid_sync_plan = sync_plan();
    let synced_content = content(&synced);

    assert!(synced_content.contains("user: 'syncuser:1000'"));
}

#[test]
fn generated_compose_override_preserves_bind_mount_options() {
    let plan = override_plan(vec![DockerMountSpec {
        consistency: Some("cached".to_owned()),
        bind_options: Some(MountBindOptions {
            propagation: Some(MountBindPropagation::RShared),
            create_mountpoint: Some(true),
            ..MountBindOptions::default()
        }),
        ..bind_mount("/host/tools", "/tools", false)
    }]);

    let content = content(&plan);

    assert!(content.contains("consistency: 'cached'"));
    assert!(content.contains("bind:\n"));
    assert!(content.contains("propagation: 'rshared'"));
    assert!(content.contains("create_host_path: true"));
}

#[test]
fn generated_compose_override_disables_default_bind_source_creation() {
    let plan = override_plan(vec![bind_mount("/host/cache", "/cache", false)]);

    let content = content(&plan);

    assert!(content.contains("bind:\n"));
    assert!(content.contains("create_host_path: false"));
}

#[test]
fn generated_compose_override_preserves_volume_mount_options() {
    let plan = override_plan(vec![DockerMountSpec {
        mount_type: MountType::Volume,
        volume_options: Some(MountVolumeOptions {
            no_copy: Some(true),
            subpath: Some("deps".to_owned()),
            ..MountVolumeOptions::default()
        }),
        ..bind_mount("project-cache", "/cache", false)
    }]);

    let content = content(&plan);

    assert!(content.contains("volume:\n"));
    assert!(content.contains("nocopy: true"));
    assert!(content.contains("subpath: 'deps'"));
}

#[test]
fn generated_compose_override_redacts_local_env_derived_container_env() {
    let mut plan = override_plan(Vec::new());
    plan.config.devcontainer.container_env = text_map(&[("NPM_TOKEN", "secret-token")]);
    plan.sensitive_container_env.insert(
        "NPM_TOKEN".to_owned(),
        SensitiveEnvValue {
            value: "secret-token".to_owned(),
            redactions: vec!["secret-token".to_owned()],
        },
    );

    let content = content(&plan);

    assert!(content.contains("'NPM_TOKEN': '${DECUNE_CONTAINER_ENV_NPM_TOKEN}'"));
    assert!(!content.contains("secret-token"));
}

#[test]
fn generated_compose_override_applies_published_port_relocation() {
    let plan = override_plan(Vec::new());
    let entries = vec![
        port_entry(
            "app",
            0,
            port_fields(
                &[
                    ("app_protocol", "http"),
                    ("host_ip", "127.0.0.1"),
                    ("name", "web"),
                    ("protocol", "tcp"),
                    ("published", "3000"),
                ],
                3000,
            ),
        ),
        port_entry("app", 1, port_fields(&[("protocol", "udp"), ("published", "8125")], 8125)),
        port_entry("app", 2, port_fields(&[("protocol", "tcp")], 9000)),
        port_entry("worker", 0, port_fields(&[("published", "4000")], 4000)),
    ];
    let port_plan = ComposePublishedPortPlan {
        entries: vec![plan_entry("app", 3000, 3000, 3001, Some("127.0.0.1"))],
    };
    let port_override = Tool.compose_published_port_override(&entries, &port_plan).unwrap();

    let content = content_with(&plan, None, &Vec::new(), &port_override);

    assert!(content.contains("    ports: !override\n"));
    assert!(content.contains("        published: '3001'\n"));
    assert!(content.contains("        target: 3000\n"));
    assert!(content.contains("      - app_protocol: 'http'\n"));
    assert!(content.contains("        name: 'web'\n"));
    assert!(content.contains("        published: '8125'\n"));
    assert!(content.contains("        target: 8125\n"));
    assert!(content.contains("        target: 9000\n"));
    assert!(!content.contains("'worker':"));
    assert!(!content.contains("published: '3000'"));
}

#[test]
fn generated_compose_override_applies_sidecar_published_port_relocation() {
    let plan = override_plan(Vec::new());
    let entries = vec![
        port_entry("app", 0, port_fields(&[("published", "3000")], 3000)),
        port_entry("db", 0, port_fields(&[("published", "5432")], 5432)),
    ];
    let port_plan =
        ComposePublishedPortPlan { entries: vec![plan_entry("db", 5432, 5432, 5433, None)] };
    let port_override = Tool.compose_published_port_override(&entries, &port_plan).unwrap();

    let content = content_with(&plan, None, &Vec::new(), &port_override);

    assert!(content.contains("  'db':\n"));
    assert!(content.contains("    ports: !override\n"));
    assert!(content.contains("      - published: '5433'\n"));
    assert!(content.contains("        target: 5432\n"));
    assert!(!content.contains("published: '5432'"));
    assert!(!content.contains("host_ip: '0.0.0.0'"));
}

#[test]
fn compose_interpolation_env_is_attached_to_generated_override_command_plan() {
    let mut plan = override_plan(Vec::new());
    plan.compose_project = Some(ComposeProjectPlan {
        project_name: "decune-workspace-abc123".to_owned(),
        generated_override_path: "/state/compose.override.yaml".to_owned(),
        config_hash_files: Vec::new(),
        generated_override_env: TextMap::new(),
        generated_override_redactions: Vec::new(),
    });
    plan.sensitive_container_env.insert(
        "NPM_TOKEN".to_owned(),
        SensitiveEnvValue {
            value: "secret-token".to_owned(),
            redactions: vec!["secret-token".to_owned()],
        },
    );
    attach_compose_interpolation_env_to_plan(&mut plan);

    let project = plan.compose_project.as_ref().unwrap();
    assert_eq!(
        project
            .generated_override_env
            .get("DECUNE_CONTAINER_ENV_NPM_TOKEN")
            .map(String::as_str),
        Some("secret-token")
    );
    assert_eq!(project.generated_override_redactions, vec!["secret-token"]);
}

#[test]
fn generated_compose_override_uses_feature_entrypoint_wrapper_startup() {
    let mut plan = override_plan(Vec::new());
    plan.config.devcontainer.entrypoints =
        vec!["touch /tmp/decune-feature-entrypoint".to_owned()];

    let content = content_with(
        &plan,
        Some(ComposeOverrideStartup {
            entrypoint: vec!["/usr/local/share/decune/feature-entrypoint-wrapper.sh".to_owned()],
            command: vec!["/docker-entrypoint.sh".to_owned(), "server".to_owned()],
        }),
        &Vec::new(),
        &ComposePublishedPortOverride::empty(),
    );

    assert!(content.contains("entrypoint:"));
    assert!(content.contains("'/usr/local/share/decune/feature-entrypoint-wrapper.sh'"));
    assert!(content.contains("command:"));
    assert!(content.contains("'/docker-entrypoint.sh'"));
    assert!(content.contains("'server'"));
}

#[test]
fn generated_compose_override_preserves_multiline_command_values() {
    let plan = override_plan(Vec::new());

    let content = content_with(
        &plan,
        Some(ComposeOverrideStartup {
            entrypoint: vec!["/bin/sh".to_owned()],
            command: vec![
                "-c".to_owned(),
                "trap 'exit 0' TERM\nwhile sleep 1 & wait $!; do :; done".to_owned(),
            ],
        }),
        &Vec::new(),
        &ComposePublishedPortOverride::empty(),
    );

    assert!(content.contains("\"trap 'exit 0' TERM\\nwhile sleep 1 & wait $!; do :; done\""));
    assert!(!content.contains("TERM\nwhile"));
}

fn compose_hash_plan(config_hash: &str, image: &str, version: &str) -> UpPlan {
    let mut config = ResolvedConfig::default();
    config.devcontainer.source = Some(ResolvedDevcontainerSource::Compose(
        LayerDevcontainerCompose {
            files: vec!["compose.yaml".to_owned()],
            service: "app".to_owned(),
            run_services: None,
        },
    ));
    let mut plan = plan_with(config, Vec::new());
    plan.image = image.to_owned();
    plan.resources = DockerResources {
        container_name: "decune-test".to_owned(),
        image_tag: image.to_owned(),
        workspace_volume_name: "decune-test-workspace".to_owned(),
        labels: text_map(&[
            ("decune.managed", "true"),
            ("decune.workspace_id", "workspace-id"),
            ("decune.config_hash", config_hash),
            ("decune.version", version),
            ("com.docker.compose.project", "user-project"),
        ]),
        config_hash: config_hash.to_owned(),
    };
    plan
}

fn override_hash(plan: &UpPlan, ports: &ComposePublishedPortOverride) -> String {
    compose_generated_override_hash_input(
        &Tool,
        &"/state/compose.override.yaml".to_owned(),
        plan,
        &Vec::new(),
        None,
        ports,
    )
    .unwrap()
    .content_hash
}

#[test]
fn generated_override_semantic_hash_changes_for_meaningful_override_change() {
    let none = ComposePublishedPortOverride::empty();
    let first =
        override_hash(&compose_hash_plan("stable-hash", "decune/test:first", "1.0.0"), &none);
    let second =
        override_hash(&compose_hash_plan("stable-hash", "decune/test:first", "1.0.1"), &none);

    assert_ne!(first, second);
}

#[test]
fn generated_override_semantic_hash_changes_for_published_port_override() {
    let plan = compose_hash_plan("stable-hash", "decune/test:first", "1.0.0");
    let baseline = override_hash(&plan, &ComposePublishedPortOverride::empty());
    let mut relocated = ComposePublishedPortOverride::empty();
    relocated
        .services
        .insert("app".to_owned(), vec![port_fields(&[("published", "3001")], 3000)]);

    assert_ne!(baseline, override_hash(&plan, &relocated));
}

#[test]
fn generated_override_semantic_hash_excludes_hash_derived_values() {
    let none = ComposePublishedPortOverride::empty();
    let first = override_hash(
        &compose_hash_plan("first-hash", "decune/test:first-hash", "1.0.0"),
        &none,
    );
    let second = override_hash(
        &compose_hash_plan("second-hash", "decune/test:second-hash", "1.0.0"),
        &none,
    );

    assert_eq!(first, second);
}

#[test]
fn generated_override_semantic_hash_tells_no_secret() {
    let none = ComposePublishedPortOverride::empty();
    let with_token = |token: &str, hidden: bool| {
        let mut plan = compose_hash_plan("stable-hash", "decune/test:first", "1.0.0");
        plan.config.devcontainer.container_env = text_map(&[("NPM_TOKEN", token)]);
        if hidden {
            plan.sensitive_container_env.insert(
                "NPM_TOKEN".to_owned(),
                SensitiveEnvValue {
                    value: token.to_owned(),
                    redactions: vec![token.to_owned()],
                },
            );
        }
        override_hash(&plan, &none)
    };

    assert_eq!(with_token("first", true), with_token("second", true));
    assert_ne!(with_token("first", false), with_token("second", false));
    assert_ne!(with_token("first", true), with_token("first", false));
}

#[test]
fn generated_override_semantic_hash_distinguishes_unspecified_and_false_security_booleans() {
    let none = ComposePublishedPortOverride::empty();
    let unspecified = compose_hash_plan("stable-hash", "decune/test:first", "1.0.0");
    let mut explicit_false = compose_hash_plan("stable-hash", "decune/test:first", "1.0.0");
    explicit_false.config.devcontainer.init = Some(false);
    explicit_false.config.devcontainer.privileged = Some(false);

    assert_ne!(override_hash(&unspecified, &none), override_hash(&explicit_false, &none));
}

#[test]
fn only_compose_plans_have_a_generated_file_to_hash() {
    assert!(compose_generated_override_hash_input(
        &Tool,
        &"/state/compose.override.yaml".to_owned(),
        &override_plan(Vec::new()),
        &Vec::new(),
        None,
        &ComposePublishedPortOverride::empty(),
    )
    .is_none());
}

#[test]
fn finalized_compose_published_ports_reserves_final_forward_ports() {
    let mut plan = compose_hash_plan("stable-hash", "decune/test:first", "1.0.0");
    plan.config.compose.published_ports.automatic_relocation = true;
    plan.forward_ports = vec![forward_port(3000, 3000)];
    let input = ComposePublishedPortPlanningInput {
        primary_service: "app".to_owned(),
        services: vec!["app".to_owned()],
        port_entries: vec![port_entry(
            "app",
            0,
            port_fields(&[("host_ip", "127.0.0.1"), ("published", "3000")], 3000),
        )],
    };
    let (mappings, reserved, external) = (Vec::new(), Vec::new(), Vec::new());

    let (port_plan, port_override) = finalized_compose_published_ports(
        &Tool,
        &plan,
        Some(ComposePublishedPortFinalization {
            input: &input,
            mappings: &mappings,
            existing_project_published_ports: Some(&reserved),
            external_host_reservations: &external,
        }),
    )
    .unwrap();

    assert_eq!(port_plan.entries[0].planned.host_port, 3001);
    assert!(port_plan.entries[0].relocated);
    assert!(matches!(
        port_override.services.get("app").unwrap()[0].get("published"),
        Some(JsonValue::Text(port)) if port == "3001"
    ));
}

#[test]
fn ports_of_the_project_are_reserved_for_it() {
    let input = ComposePublishedPortPlanningInput {
        primary_service: "app".to_owned(),
        services: vec!["app".to_owned()],
        port_entries: Vec::new(),
    };
    let mappings = Vec::new();
    let reserved =
        vec![reservation(18300, ComposePublishedPortReservationSource::RunningContainer)];
    let external = vec![HostPortReservation { host_ip: "127.0.0.1".to_owned(), host: 18080 }];
    let held = compose_published_port_host_reservations(Some(ComposePublishedPortFinalization {
        input: &input,
        mappings: &mappings,
        existing_project_published_ports: Some(&reserved),
        external_host_reservations: &external,
    }));

    assert_eq!(held.len(), 1);
    assert_eq!((held[0].host_ip.as_str(), held[0].host), ("0.0.0.0", 18300));
    assert!(compose_published_port_host_reservations(None).is_empty());
}

fn nothing() -> RuntimeAccess {
    RuntimeAccess { mounts: Vec::new(), container_env: TextMap::new() }
}

fn ssh_access(socket: &str) -> RuntimeAccess {
    RuntimeAccess {
        mounts: vec![bind_mount(socket, SSH_AGENT_SOCKET_TARGET, false)],
        container_env: text_map(&[("SSH_AUTH_SOCK", SSH_AGENT_SOCKET_TARGET)]),
    }
}

fn github_access(runtime_dir: &str) -> RuntimeAccess {
    RuntimeAccess {
        mounts: vec![
            bind_mount(
                &format!("{runtime_dir}/secrets/github-token"),
                GITHUB_CLI_TOKEN_TARGET,
                true,
            ),
            DockerMountSpec {
                source: None,
                mount_type: MountType::Tmpfs,
                ..bind_mount("", GITHUB_CLI_CONFIG_TARGET, false)
            },
        ],
        container_env: text_map(&[("GH_CONFIG_DIR", GITHUB_CLI_CONFIG_TARGET)]),
    }
}

fn forward_access(runtime_dir: &str) -> RuntimeAccess {
    RuntimeAccess {
        mounts: vec![bind_mount(runtime_dir, DECUNE_RUNTIME_TARGET, false)],
        container_env: TextMap::new(),
    }
}

fn credentialed(plan: UpPlan, github: RuntimeAccess, ssh: RuntimeAccess) -> CredentialedPlan {
    add_prepared_credential_runtime_mounts(
        plan,
        nothing(),
        github,
        ssh,
        forward_access("/tmp/runtime"),
        Vec::new(),
    )
}

fn stable_plan() -> UpPlan {
    let mut plan = plan_with(ResolvedConfig::default(), Vec::new());
    plan.resources.config_hash = "stable-hash".to_owned();
    plan
}

#[test]
fn credential_runtime_mounts_add_ssh_agent_without_hashing_socket_path() {
    let a = credentialed(stable_plan(), nothing(), ssh_access("/tmp/agent-a.sock")).plan;
    let b = credentialed(stable_plan(), nothing(), ssh_access("/tmp/agent-b.sock")).plan;

    assert_eq!(a.resources.config_hash, "stable-hash");
    assert_eq!(b.resources.config_hash, "stable-hash");
    assert_eq!(
        a.config.devcontainer.container_env.get("SSH_AUTH_SOCK").map(String::as_str),
        Some(SSH_AGENT_SOCKET_TARGET)
    );
    for (plan, socket) in [(&a, "/tmp/agent-a.sock"), (&b, "/tmp/agent-b.sock")] {
        assert_eq!(
            plan.mounts
                .iter()
                .find(|mount| mount.target == SSH_AGENT_SOCKET_TARGET)
                .and_then(|mount| mount.source.as_deref()),
            Some(socket)
        );
    }
}

#[test]
fn credential_runtime_mounts_add_github_token_file_without_hashing_token_or_env() {
    let plan = credentialed(stable_plan(), github_access("/tmp/runtime"), nothing()).plan;

    assert_eq!(plan.resources.config_hash, "stable-hash");
    assert!(plan
        .config
        .devcontainer
        .container_env
        .values()
        .iter()
        .all(|value| !value.contains("first-secret")));
    assert!(plan.resources.labels.values().iter().all(|value| !value.contains("first-secret")));
    assert!(plan.mounts.iter().any(|mount| {
        mount.target == GITHUB_CLI_TOKEN_TARGET
            && mount
                .source
                .as_deref()
                .is_some_and(|source| source.ends_with("secrets/github-token"))
            && mount.read_only
    }));
    assert_eq!(
        plan.config.devcontainer.container_env.get("GH_CONFIG_DIR").map(String::as_str),
        Some(GITHUB_CLI_CONFIG_TARGET)
    );
    assert!(plan
        .mounts
        .iter()
        .any(|mount| mount.target == GITHUB_CLI_CONFIG_TARGET && !mount.read_only));
}

#[test]
fn credential_runtime_mounts_add_forward_agent_without_hashing_ports() {
    let mut plan = stable_plan();
    plan.forward_ports = vec![forward_port(4321, 54321)];
    let res = credentialed(plan, nothing(), nothing());

    assert_eq!(res.plan.resources.config_hash, "stable-hash");
    assert!(res.plan.mounts.iter().any(|mount| {
        mount.target == DECUNE_RUNTIME_TARGET
            && mount.source.as_deref() == Some("/tmp/runtime")
            && !mount.read_only
    }));
    assert!(res
        .credentials
        .mount_policy()
        .required_mounts
        .iter()
        .any(|mount| mount.target == DECUNE_RUNTIME_TARGET));
}

#[test]
fn credential_runtime_mounts_add_forward_runtime_without_ports() {
    let mut plan = stable_plan();
    plan.config.credentials.git.enabled = false;
    plan.config.credentials.github.enabled = false;
    let res = credentialed(plan, nothing(), nothing());

    assert_eq!(res.plan.resources.config_hash, "stable-hash");
    assert!(res.plan.mounts.iter().any(|mount| {
        mount.target == DECUNE_RUNTIME_TARGET
            && mount.source.as_deref() == Some("/tmp/runtime")
            && !mount.read_only
    }));
    assert!(res
        .credentials
        .mount_policy()
        .required_mounts
        .iter()
        .any(|mount| mount.target == DECUNE_RUNTIME_TARGET));
}

#[test]
fn compose_credentials_secret_leak_generated_override_injects_primary_runtime_mounts() {
    let mut plan = stable_plan();
    plan.config.devcontainer.container_env =
        text_map(&[("APP_ENV", "compose-credentials-test")]);
    plan.forward_ports = vec![forward_port(4321, 54321)];
    let plan =
        credentialed(plan, github_access("/tmp/runtime"), ssh_access("/tmp/agent.sock")).plan;
    let yaml = content(&plan);

    assert!(yaml.contains("  'app':\n"));
    assert!(!yaml.contains("sidecar"));
    assert!(yaml.contains(DECUNE_RUNTIME_TARGET));
    assert!(yaml.contains(SSH_AGENT_SOCKET_TARGET));
    assert!(yaml.contains(GITHUB_CLI_TOKEN_TARGET));
    assert!(yaml.contains("read_only: true"));
    assert!(yaml.contains(GITHUB_CLI_CONFIG_TARGET));
    assert!(yaml.contains("type: tmpfs"));
    assert!(yaml.contains("'SSH_AUTH_SOCK': '/run/decune/ssh-agent.sock'"));
    assert!(yaml.contains("'GH_CONFIG_DIR': '/run/decune/gh'"));
    assert!(!yaml.contains("compose-github-secret"));
}

#[test]
fn compose_credentials_generated_override_honors_disabled_credentials() {
    let mut plan = stable_plan();
    plan.config.credentials.git.enabled = false;
    plan.config.credentials.github.enabled = false;
    let plan = credentialed(plan, nothing(), nothing()).plan;
    let yaml = content(&plan);

    assert!(yaml.contains("  'app':\n"));
    assert!(yaml.contains(DECUNE_RUNTIME_TARGET));
    assert!(!yaml.contains(SSH_AGENT_SOCKET_TARGET));
    assert!(!yaml.contains(GITHUB_CLI_TOKEN_TARGET));
    assert!(!yaml.contains(GITHUB_CLI_CONFIG_TARGET));
    assert!(!yaml.contains("SSH_AUTH_SOCK"));
    assert!(!yaml.contains("GH_CONFIG_DIR"));
    assert!(!yaml.contains("disabled-github-secret"));
}

#[test]
fn existing_container_decision_reuses_runtime_mount_when_forward_ports_are_added_later() {
    let mut plan = stable_plan();
    plan.config.credentials.git.enabled = false;
    plan.config.credentials.github.enabled = false;
    plan.forward_ports = vec![forward_port(4321, 54321)];
    let res = credentialed(plan, nothing(), nothing());
    let container = UpContainerSummary {
        id: "container-id".to_owned(),
        name: "decune-project-abc123".to_owned(),
        image_id: None,
        config_hash: Some("stable-hash".to_owned()),
        config_file: None,
        mounts: Some(vec![UpMountSummary {
            source: Some("/tmp/runtime".to_owned()),
            target: DECUNE_RUNTIME_TARGET.to_owned(),
            mount_type: MountType::Bind,
            read_only: false,
        }]),
        running: true,
    };

    let decision = decide_existing_container(
        &vec![container],
        "stable-hash",
        res.credentials.mount_policy(),
        false,
    )
    .unwrap();

    assert_eq!(
        decision,
        ExistingContainerDecision::ReuseRunning {
            id: "container-id".to_owned(),
            name: "decune-project-abc123".to_owned(),
        }
    );
}

/// What was done to prepare the files for entrypoints of Features, and how it
/// ended. The step at `fails_at` fails.
fn prepared_entrypoints(
    plan: &UpPlan,
    token: &str,
    fails_at: Option<usize>,
) -> (Vec<String>, Result<(), UpError>) {
    let mut done = Vec::new();
    let (mut progress, mut action) = begin_feature_entrypoint_runtime(plan, "/tmp/runtime");
    loop {
        let fails = fails_at == Some(done.len());
        let performed = || {
            EntrypointRuntimeEvent::Performed(if fails {
                Err(UpError::from_text("denied"))
            } else {
                Ok(())
            })
        };
        let event = match action {
            EntrypointRuntimeAction::CreateDirectory { path } => {
                done.push(format!("create {path}"));
                performed()
            }
            EntrypointRuntimeAction::SetMode { path, mode } => {
                done.push(format!("mode {path} {mode:o}"));
                performed()
            }
            EntrypointRuntimeAction::OpenAnew { path, mode } => {
                done.push(format!("open {path} {mode:o}"));
                performed()
            }
            EntrypointRuntimeAction::DrawRandom { count } => {
                done.push(format!("draw {count}"));
                EntrypointRuntimeEvent::Drawn(if fails {
                    Err(UpError::from_text("no randomness"))
                } else {
                    Ok(vec![0xab; count])
                })
            }
            EntrypointRuntimeAction::Write { content } => {
                done.push(format!("write {content}"));
                performed()
            }
            EntrypointRuntimeAction::Done(result) => return (done, result),
        };
        (progress, action) = prepare_feature_entrypoint_sentinel_runtime(
            &Tool,
            plan,
            "/tmp/runtime",
            SENTINEL,
            token,
            progress,
            event,
        );
    }
}

fn plan_with_entrypoint() -> UpPlan {
    let mut plan = override_plan(Vec::new());
    plan.config.devcontainer.entrypoints = vec!["touch /tmp/entrypoint".to_owned()];
    plan
}

#[test]
fn prepare_feature_entrypoint_runtime_creates_sentinel_and_token() {
    let (done, result) = prepared_entrypoints(&plan_with_entrypoint(), TOKEN, None);

    assert!(result.is_ok());
    let token_content = new_feature_entrypoint_token(&[0xabu8; 32]);
    assert_eq!(token_content.len(), 64);
    assert!(token_content
        .bytes()
        .all(|byte| byte.is_ascii_hexdigit() && !byte.is_ascii_uppercase()));
    assert_eq!(
        done,
        vec![
            "create /tmp/runtime".to_owned(),
            "mode /tmp/runtime 711".to_owned(),
            "open /tmp/runtime/feature-entrypoints/sentinel 666".to_owned(),
            "mode /tmp/runtime/feature-entrypoints/sentinel 666".to_owned(),
            "draw 32".to_owned(),
            "open /tmp/runtime/feature-entrypoints/token 600".to_owned(),
            format!("write {token_content}"),
            "mode /tmp/runtime/feature-entrypoints/token 600".to_owned(),
        ]
    );

    let (done, result) = prepared_entrypoints(&override_plan(Vec::new()), TOKEN, None);
    assert!(result.is_ok());
    assert!(done.is_empty());
}

#[test]
fn prepare_feature_entrypoint_runtime_keeps_token_readable_for_nonroot_without_uid_sync() {
    let mut plan = plan_with_entrypoint();
    plan.effective_users = users("app", RemoteUserSource::ImageConfig);

    let (done, result) = prepared_entrypoints(&plan, TOKEN, None);

    assert!(result.is_ok());
    assert_eq!(
        done.last().map(String::as_str),
        Some("mode /tmp/runtime/feature-entrypoints/token 644")
    );
}

#[test]
fn an_entrypoint_token_outside_the_runtime_is_refused() {
    let (done, result) = prepared_entrypoints(&plan_with_entrypoint(), "/tmp/token", None);

    assert_eq!(
        result.unwrap_err().chain,
        vec![
            "Feature entrypoint token must be under /run/decune: /tmp/token",
            "prefix not found"
        ]
    );
    assert_eq!(done.last().map(String::as_str), Some("draw 32"));
}

#[test]
fn a_token_mode_that_cannot_be_told_leaves_directory_and_sentinel() {
    let mut plan = plan_with_entrypoint();
    plan.effective_users = users("", RemoteUserSource::ImageConfig);

    let (done, result) = prepared_entrypoints(&plan, TOKEN, None);
    assert_eq!(result.unwrap_err().chain, vec!["no user"]);
    assert_eq!(
        done,
        vec![
            "create /tmp/runtime",
            "mode /tmp/runtime 711",
            "open /tmp/runtime/feature-entrypoints/sentinel 666",
            "mode /tmp/runtime/feature-entrypoints/sentinel 666",
            "draw 32",
        ]
    );

    let (done, result) = prepared_entrypoints(&plan, TOKEN, Some(0));
    assert_eq!(
        result.unwrap_err().chain,
        vec!["Failed to create Feature entrypoint runtime directory: /tmp/runtime", "denied"]
    );
    assert_eq!(done.len(), 1);
}

#[test]
fn every_failure_of_the_entrypoint_files_is_told() {
    let sentinel = "/tmp/runtime/feature-entrypoints/sentinel";
    let token = "/tmp/runtime/feature-entrypoints/token";
    let messages = [
        "Failed to create Feature entrypoint runtime directory: /tmp/runtime".to_owned(),
        "Failed to set Feature entrypoint runtime directory permissions: /tmp/runtime".to_owned(),
        format!("Failed to prepare Feature entrypoint sentinel: {sentinel}"),
        format!("Failed to set Feature entrypoint sentinel permissions: {sentinel}"),
        String::new(),
        format!("Failed to prepare Feature entrypoint token: {token}"),
        format!("Failed to write Feature entrypoint token: {token}"),
        format!("Failed to set Feature entrypoint token permissions: {token}"),
    ];
    for (position, message) in messages.into_iter().enumerate() {
        let (done, result) =
            prepared_entrypoints(&plan_with_entrypoint(), TOKEN, Some(position));
        let chain = result.unwrap_err().chain;
        if message.is_empty() {
            assert_eq!(chain, vec!["no randomness".to_owned()]);
        } else {
            assert_eq!(chain, vec![message, "denied".to_owned()]);
        }
        assert_eq!(done.len(), position + 1);
    }
}

fn project_facts(services: Vec<String>) -> ComposeProjectFacts {
    ComposeProjectFacts {
        user_services: services.clone(),
        canonical_model: "{}".to_owned(),
        compose_primary_image: "example/app:dev".to_owned(),
        primary_service_has_build: true,
        compose_primary_service: None,
        published_port_policy_input: ComposePublishedPortPlanningInput {
            primary_service: "app".to_owned(),
            services,
            port_entries: Vec::new(),
        },
        mappings: Vec::new(),
        name_rewrite_plan: ComposeIsolationNameRewritePlan::empty(),
        subnet_plan: ComposeIsolationSubnetPlan::empty(),
        endpoint_plan: ComposeIsolationEndpointPlan::empty(),
    }
}

#[test]
fn compose_plans_start_from_what_was_found_out() {
    let mut plan = stable_plan();
    plan.config.compose.published_ports.automatic_relocation = true;
    let started = prepare_compose_startup_context(
        &Tool,
        &mut plan,
        project_facts(vec!["app".to_owned()]),
    )
    .unwrap();

    assert_eq!(plan.base_image, "example/app:dev");
    assert_eq!(started.user_services, vec!["app"]);
    assert_eq!(started.canonical_model, "{}");
    assert!(started.primary_service_has_build);
    assert!(started.published_port_relocation_enabled);
    assert!(started.compose_published_ports(true).is_some());
    assert!(started.existing_compose_containers.is_empty());
}

#[test]
fn refused_published_ports_end_the_start() {
    let mut plan = stable_plan();
    let before = plan.base_image.clone();
    let error = prepare_compose_startup_context(
        &Tool,
        &mut plan,
        project_facts(vec!["db".to_owned()]),
    )
    .unwrap_err();

    assert_eq!(error.chain, vec!["published ports are refused"]);
    assert_eq!(plan.base_image, before);
}

/// What Docker lists of a container that was made from a plan.
fn listed(plan: &UpPlan, made: &UpOutcome, running: bool) -> UpContainerSummary {
    UpContainerSummary {
        id: made.container_id.clone(),
        name: made.container_name.clone(),
        image_id: None,
        config_hash: plan.resources.labels.get("decune.config_hash").cloned(),
        config_file: None,
        mounts: Some(
            plan.mounts
                .iter()
                .map(|mount| UpMountSummary {
                    source: mount.source.clone(),
                    target: mount.target.clone(),
                    mount_type: mount.mount_type,
                    read_only: mount.read_only,
                })
                .collect(),
        ),
        running,
    }
}

fn start_options() -> UpOptions {
    UpOptions {
        workspace: "/workspace".to_owned(),
        config_path: None,
        cli_layer: ConfigLayer::default(),
        config: UpConfigOptions::default(),
        build: UpBuildOptions::default(),
        reuse: UpReuseOptions::default(),
    }
}

fn made_container(name: &str, id: &str) -> UpOutcome {
    let name = name.to_owned();
    let (mut progress, _) = begin_creation();
    for event in [
        CreationEvent::DotfilesWritten(Ok(())),
        CreationEvent::Created(Ok(id.to_owned())),
        CreationEvent::Persisted(Ok(())),
        CreationEvent::Started(Ok(())),
    ] {
        let (next, action) = create_and_start_container_inner(&name, progress, event);
        if let CreationAction::Done(result) = action {
            return result.unwrap();
        }
        progress = next;
    }
    unreachable!()
}

#[test]
fn a_second_start_uses_the_container_and_a_rebuild_replaces_it() {
    let mut plan = stable_plan();
    plan.resources.labels = text_map(&[("decune.config_hash", "stable-hash")]);
    plan.mounts = vec![bind_mount("/work", "/workspaces/project", false)];
    let first = credentialed(plan, github_access("/tmp/runtime"), ssh_access("/tmp/agent.sock"));
    let policy = first.credentials.mount_policy();
    assert_eq!(
        decide_existing_container(&Vec::new(), "stable-hash", policy, false).unwrap(),
        ExistingContainerDecision::Create
    );
    let made = made_container("decune-project", "first-id");
    assert!(!made.reused);

    for running in [true, false] {
        let containers = vec![listed(&first.plan, &made, running)];
        let steps =
            try_start_existing_image_container(&containers, &first.plan, policy).unwrap();
        let used: Vec<UpOutcome> = steps.iter().filter_map(container_reused_by).collect();
        assert_eq!(used.len(), 1);
        assert!(used[0].reused);
        assert_eq!(used[0].container_id, "first-id");
        assert_eq!(used[0].container_name, "decune-project");

        let mut options = start_options();
        options.reuse.rebuild = true;
        let steps =
            start_decided_image_container(&options, &containers, &first.plan, policy, true)
                .unwrap();
        assert!(steps.iter().all(|step| container_reused_by(step).is_none()));
        assert_eq!(
            steps[0],
            ImageStartStep::RemoveContainer {
                id: "first-id".to_owned(),
                name: "decune-project".to_owned(),
            }
        );
        assert!(matches!(steps[1], ImageStartStep::CreateAndStart { .. }));
    }

    let mut changed = first.plan.clone();
    changed.resources.config_hash = "other-hash".to_owned();
    let containers = vec![listed(&first.plan, &made, true)];
    assert!(try_start_existing_image_container(&containers, &changed, policy).is_err());
}

#[test]
fn a_mount_in_the_way_of_credentials_leads_to_a_new_container() {
    let mut plan = stable_plan();
    plan.resources.labels = text_map(&[("decune.config_hash", "stable-hash")]);
    plan.mounts = vec![bind_mount("/elsewhere", DECUNE_RUNTIME_TARGET, false)];
    let first = credentialed(plan, nothing(), nothing());
    let made = made_container("decune-project", "first-id");
    let containers = vec![listed(&first.plan, &made, true)];

    let decision = decide_existing_container(
        &containers,
        "stable-hash",
        first.credentials.mount_policy(),
        false,
    )
    .unwrap();
    assert_eq!(decision, ExistingContainerDecision::Recreate { containers });
}

#[test]
fn the_generated_file_is_written_out_in_full() {
    let mut plan = override_plan(vec![bind_mount("/host/cache", "/cache", true)]);
    plan.config.devcontainer.override_command = true;
    plan.config.devcontainer.container_env = text_map(&[("GREETING", "it's")]);
    plan.config.devcontainer.cap_add = vec!["SYS_PTRACE".to_owned()];
    plan.resources.labels = text_map(&[("decune.managed", "true")]);

    assert_eq!(
        content(&plan),
        "services:\n  'app':\n    image: 'decune/test:hash'\n    pull_policy: 'never'\n    \
         labels:\n      'decune.managed': 'true'\n    environment:\n      \
         'GREETING': 'it''s'\n    cap_add:\n      - 'SYS_PTRACE'\n    volumes:\n      \
         - type: bind\n        source: '/host/cache'\n        target: '/cache'\n        \
         read_only: true\n        bind:\n          create_host_path: false\n    \
         entrypoint:\n      - '/bin/sh'\n    command:\n      - '-c'\n      \
         - 'sleep infinity'\n"
    );
}

#[test]
fn a_new_container_runs_as_the_user_that_ids_were_given_to() {
    let mut plan = override_plan(Vec::new());
    plan.effective_users = users("2001:2001", RemoteUserSource::Devcontainer);
    plan.uid_gid_sync_plan = sync_plan();
    let startup = ContainerStartup { entrypoint: None, command: None };
    let create = create_and_start_container(&Tool, &plan, startup).unwrap();

    assert_eq!(create.user, "syncuser:1000");
    assert_eq!(create.working_dir, "/workspace");
    assert_eq!(create.plan.image, "decune/test:hash");
}

#[test]
fn the_short_way_needs_a_compose_project() {
    let context = startup_context(vec![reusable_container("hash")]);
    let options = start_options();
    let policy = CredentialRuntimeMountPolicy::new(Vec::new());
    let ports = ComposePublishedPortPlan::empty();
    let mut plan = override_plan(Vec::new());
    let error = fast_path_existing_container_decision(
        &Tool, &plan, &context, &options, &policy, &ports,
    )
    .unwrap_err();
    assert_eq!(error.chain, vec!["Docker Compose project plan is missing after finalization"]);

    plan.compose_project = Some(ComposeProjectPlan {
        project_name: "project".to_owned(),
        generated_override_path: "/state/compose.override.yaml".to_owned(),
        config_hash_files: Vec::new(),
        generated_override_env: TextMap::new(),
        generated_override_redactions: Vec::new(),
    });
    let decided = fast_path_existing_container_decision(
        &Tool, &plan, &context, &options, &policy, &ports,
    )
    .unwrap();
    assert_eq!(
        decided.decision,
        ExistingContainerDecision::ReuseRunning {
            id: "container-id".to_owned(),
            name: "project-app-1".to_owned(),
        }
    );
    assert!(decided.warnings.is_empty());
}

fn startup_context(containers: Vec<UpContainerSummary>) -> ComposeStartupContext {
    ComposeStartupContext {
        user_services: Vec::new(),
        canonical_model: "{}".to_owned(),
        compose_primary_image: "example/app:dev".to_owned(),
        primary_service_has_build: false,
        compose_primary_service: None,
        published_port_policy_input: ComposePublishedPortPlanningInput {
            primary_service: "app".to_owned(),
            services: vec!["app".to_owned()],
            port_entries: Vec::new(),
        },
        mappings: Vec::new(),
        existing_compose_project_containers: containers.clone(),
        existing_compose_containers: containers,
        existing_project_published_ports: Vec::new(),
        external_host_reservations: Vec::new(),
        published_port_relocation_enabled: false,
        name_rewrite_plan: ComposeIsolationNameRewritePlan::empty(),
        subnet_plan: ComposeIsolationSubnetPlan::empty(),
        endpoint_plan: ComposeIsolationEndpointPlan::empty(),
    }
}

#[test]
fn clones_get_names_addresses_and_variables_of_their_own() {
    let plan = override_plan(Vec::new());
    let names = ComposeIsolationNameRewritePlan {
        services: Vec::new(),
        service_references: Vec::new(),
        resources: vec![ComposeIsolationResourceRewrite {
            kind: ComposeIsolationResourceKind::Volume,
            resource: "data".to_owned(),
            original_name: "shared-data".to_owned(),
            rewritten_name: "shared-data-abc123".to_owned(),
        }],
    };
    let subnets = ComposeIsolationSubnetPlan {
        allocations: vec![ComposeIsolationSubnetAllocation {
            network: "grpc".to_owned(),
            requested_subnet: "10.0.0.0/24".to_owned(),
            planned_subnet: "10.0.1.0/24".to_owned(),
            planned_gateway: Some("10.0.1.1".to_owned()),
            planned_ip_range: None,
            planned_aux_addresses: TextMap::new(),
            relocated: true,
        }],
        networks_to_remove: Vec::new(),
    };
    let mut endpoints = ComposeIsolationEndpointPlan::empty();
    endpoints.services.insert("app".to_owned(), text_map(&[("ENDPOINT", "grpc://10.0.1.1")]));
    let none = Vec::new();
    let ports = ComposePublishedPortOverride::empty();
    let patch = generated_compose_override_patch(
        &Tool,
        "app",
        &plan,
        None,
        &none,
        &ports,
        ComposeIsolationOverridePlans { names: &names, subnets: &subnets, endpoints: &endpoints },
    )
    .unwrap();
    let content = patch.to_yaml();

    assert!(content.contains("'ENDPOINT': 'grpc://10.0.1.1'"));
    assert!(content.contains("'shared-data-abc123'"));
    assert!(content.contains("10.0.1.0/24"));
    assert!(content.contains("10.0.1.1"));
    assert!(!content.contains("10.0.0.0/24"));
}
