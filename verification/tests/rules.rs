//! Rules that need nothing of the rest of the tool.

use decune::compose::isolation::ComposeIsolationSubnetPlan;
use decune::compose::ports::{
    ComposePortProtocol, ComposePublishedPortAllocationReason, ComposePublishedPortEndpoint,
    ComposePublishedPortHostIp, ComposePublishedPortPlan, ComposePublishedPortPlanEntry,
    ComposePublishedPortPlanSource, ComposePublishedPortPlannedEndpointProbe,
    ComposePublishedPortReservationSource,
};
use decune::config::{
    ConfigLayer, ConfigMergeInput, GithubCredentialsMode, LayerDevcontainerBuild,
    LayerDevcontainerMetadata, LayerDevcontainerMount, LayerUserEnvProbe, LifecycleDefinition,
    MountDefinition, MountType, PortProtocol, ResolvedComposeCloneIsolationEndpoint,
    ResolvedConfig, ResolvedDevcontainerSource, ResolvedFeature, ResolvedPortAttributes,
    ResolvedPublishPort, SshAgentMode,
};
use decune::docker::{
    DockerBuildOptions, DockerMountSpec, DockerResources, EffectiveUsers, HostPlatform,
    HostUserIds, ImageStartupCommand, ResolvedUserIds, UidGidSyncNoopReason, UidGidSyncPlan,
    UidGidSyncTarget, UidGidSyncTargetKind,
};
use decune::error::UpError;
use decune::finalize::github_cli::should_auto_add_github_cli_feature;
use decune::json::JsonValue;
use decune::messages::{deferred_config_warnings, security_notices};
use decune::mounts::{default_workspace_folder, mount_hash_inputs};
use decune::shell::{first_successful_shell_candidate, shell_command_candidates};
use decune::start::compose::{
    compose_published_port_relocation_warning_messages, compose_running_reuse_fast_path_enabled,
};
use decune::start::existing::{decide_existing_container, CredentialRuntimeMountPolicy};
use decune::start::inspect::{
    ContainerInspect, ContainerInspectConfig, ContainerInspectHostConfig, ContainerNetworkSettings,
    ContainerPortBinding, ContainerState, PortBindings,
};
use decune::start::listing::{
    container_belongs_to_compose_project, existing_compose_project_published_ports_from_container,
    external_running_container_published_ports, COMPOSE_PROJECT_LABEL, COMPOSE_SERVICE_LABEL,
};
use decune::start::reuse::{
    compose_service_forward_container_requires_recreate, should_reuse_existing_container,
    ExistingContainerReusePolicy,
};
use decune::start::state_sync::{published_port_runtime_state_for_entry, state_container_snapshot};
use decune::startup_command::{effective_startup_command, ComposeConfigService};
use decune::text_map::TextMap;
use decune::types::{
    ExistingContainerDecision, UpBuildOptions, UpConfigOptions, UpContainerSummary,
    UpMountSummary, UpOptions, UpPlan, UpReuseOptions, Workspace,
};
use decune::uid_gid::{
    effective_user_input_from_plan, uid_gid_sync_base_image, uid_gid_sync_warning,
};

fn text_map(entries: &[(&str, &str)]) -> TextMap<String> {
    let mut map = TextMap::new();
    for (key, value) in entries {
        map.insert((*key).to_owned(), (*value).to_owned());
    }
    map
}

fn resources(config_hash: &str) -> DockerResources {
    DockerResources {
        container_name: "decune-test".to_owned(),
        image_tag: format!("decune/test:{config_hash}"),
        workspace_volume_name: "decune-test-workspace".to_owned(),
        labels: text_map(&[
            ("decune.workspace_id", "workspace-id"),
            ("decune.config_hash", config_hash),
        ]),
        config_hash: config_hash.to_owned(),
    }
}

fn plan_with(config: ResolvedConfig, config_layers: ConfigMergeInput) -> UpPlan {
    UpPlan {
        image: "alpine:3.20".to_owned(),
        base_image: "alpine:3.20".to_owned(),
        build_context: None,
        build_options: DockerBuildOptions::default(),
        feature_install: None,
        feature_build_context_dir: None,
        uid_gid_sync_build_context_dir: None,
        resources: DockerResources {
            container_name: "decune-test".to_owned(),
            image_tag: "decune/test:stable-hash".to_owned(),
            workspace_volume_name: "decune-test-workspace".to_owned(),
            labels: TextMap::new(),
            config_hash: "stable-hash".to_owned(),
        },
        pre_uid_gid_sync_resources: None,
        compose_project: None,
        config_layers,
        config,
        sensitive_container_env: TextMap::new(),
        sensitive_build_args: TextMap::new(),
        compose_interpolation_env: TextMap::new(),
        compose_interpolation_redactions: Vec::new(),
        effective_users: EffectiveUsers::root(),
        uid_gid_sync_plan: UidGidSyncPlan::default(),
        workspace_folder: "/workspaces/project".to_owned(),
        mounts: Vec::new(),
        dotfile_skeletons: Vec::new(),
        forward_ports: Vec::new(),
        ignored_detached_forwarding: false,
    }
}

fn sync_plan() -> UidGidSyncPlan {
    UidGidSyncPlan::Sync {
        target: UidGidSyncTarget {
            kind: UidGidSyncTargetKind::RemoteUser,
            user: "vscode".to_owned(),
            host: HostUserIds { uid: 1000, gid: 1000 },
        },
        container: ResolvedUserIds { name: "vscode".to_owned(), uid: 2001, gid: 2001 },
    }
}

fn quiet_config() -> ResolvedConfig {
    let mut config = ResolvedConfig::default();
    config.credentials.git.enabled = false;
    config.credentials.github.enabled = false;
    config
}

fn text_mount(text: &str, mount_type: MountType) -> LayerDevcontainerMount {
    LayerDevcontainerMount {
        definition: MountDefinition::Text(text.to_owned()),
        mount_type: Some(mount_type),
    }
}

fn options() -> UpOptions {
    UpOptions {
        workspace: "/workspace".to_owned(),
        config_path: None,
        cli_layer: ConfigLayer::default(),
        config: UpConfigOptions::default(),
        build: UpBuildOptions::default(),
        reuse: UpReuseOptions::default(),
    }
}

fn reusable_container(config_hash: &str) -> UpContainerSummary {
    UpContainerSummary {
        id: "container-id".to_owned(),
        name: "project-app-1".to_owned(),
        image_id: Some("sha256:image".to_owned()),
        config_hash: Some(config_hash.to_owned()),
        config_file: None,
        mounts: Some(Vec::new()),
        running: true,
    }
}

fn reuse_policy(pull: bool) -> ExistingContainerReusePolicy {
    ExistingContainerReusePolicy { pull, service_forward_requires_recreate: false }
}

fn port_map(key: &str, host_ip: &str, host_port: &str) -> PortBindings {
    vec![(
        key.to_owned(),
        Some(vec![ContainerPortBinding {
            host_ip: Some(host_ip.to_owned()),
            host_port: Some(host_port.to_owned()),
        }]),
    )]
}

fn container_with_ports(
    running: bool,
    network_ports: Option<PortBindings>,
    host_port_bindings: Option<PortBindings>,
) -> ContainerInspect {
    ContainerInspect {
        name: None,
        state: Some(ContainerState { running: Some(running), status: None, exit_code: None }),
        config: Some(ContainerInspectConfig {
            labels: Some(text_map(&[(COMPOSE_SERVICE_LABEL, "app")])),
        }),
        host_config: Some(ContainerInspectHostConfig { port_bindings: host_port_bindings }),
        network_settings: Some(ContainerNetworkSettings { ports: network_ports }),
    }
}

fn check_ip(ip: &String) -> Result<(), UpError> {
    if ip.chars().all(|ch| ch.is_ascii_hexdigit() || ch == '.' || ch == ':') {
        Ok(())
    } else {
        Err(UpError::from_text("invalid IP address syntax"))
    }
}

fn endpoint(host_ip: Option<&str>, host_port: u16) -> ComposePublishedPortEndpoint {
    ComposePublishedPortEndpoint {
        host_ip: match host_ip {
            Some(ip) => ComposePublishedPortHostIp::Explicit(ip.to_owned()),
            None => ComposePublishedPortHostIp::Omitted,
        },
        host_port,
    }
}

fn relocated_entry(
    requested: ComposePublishedPortEndpoint,
    planned: ComposePublishedPortEndpoint,
    allocation_reason: ComposePublishedPortAllocationReason,
) -> ComposePublishedPortPlanEntry {
    ComposePublishedPortPlanEntry {
        service: "app".to_owned(),
        port_entry_index: 0,
        source: ComposePublishedPortPlanSource::Compose,
        target_port: 3000,
        protocol: ComposePortProtocol::Tcp,
        requested,
        planned,
        planned_endpoint_probe: ComposePublishedPortPlannedEndpointProbe::Available,
        relocated: true,
        allocation_reason,
    }
}

#[test]
fn shell_candidates_use_only_explicit_config_shell() {
    assert_eq!(
        shell_command_candidates(Some(" /bin/zsh "), Some("/bin/fish")),
        vec!["/bin/zsh".to_owned()]
    );
}

#[test]
fn shell_candidates_use_remote_login_shell_before_fallbacks() {
    assert_eq!(
        shell_command_candidates(None, Some("/bin/fish")),
        vec!["/bin/fish".to_owned(), "/bin/bash".to_owned(), "/bin/sh".to_owned()]
    );
}

#[test]
fn shell_candidate_fallback_tries_next_auto_candidate_after_start_failure() {
    let candidates = vec!["/bin/bash".to_owned(), "/bin/sh".to_owned()];
    let mut failures: Vec<UpError> = Vec::new();

    let selected = loop {
        let command = first_successful_shell_candidate(&candidates, &failures).unwrap();
        if command == "/bin/bash" {
            failures.push(UpError::from_text("start failed"));
        } else {
            break command;
        }
    };

    assert_eq!(selected, "/bin/sh");
}

#[test]
fn shell_candidates_fall_back_to_bash_then_sh() {
    assert_eq!(
        shell_command_candidates(None, None),
        vec!["/bin/bash".to_owned(), "/bin/sh".to_owned()]
    );
}

#[test]
fn security_notices_are_empty_for_default_plan_security_surface() {
    assert!(security_notices(&quiet_config()).is_empty());
}

#[test]
fn security_notices_report_risky_container_settings() {
    let mut config = quiet_config();
    config.devcontainer.privileged = Some(true);
    config.devcontainer.cap_add = vec!["SYS_PTRACE".to_owned()];
    config.devcontainer.security_opt = vec!["seccomp=unconfined".to_owned()];
    config.devcontainer.mounts =
        vec![text_mount("type=bind,source=/tmp,target=/host-tmp", MountType::Bind)];

    let notices = security_notices(&config);

    assert!(notices.iter().any(|notice| notice.contains("privileged")));
    assert!(notices.iter().any(|notice| notice.contains("SYS_PTRACE")));
    assert!(notices.iter().any(|notice| notice.contains("seccomp=unconfined")));
    assert!(notices.iter().any(|notice| notice.contains("additional bind mounts")));
    assert!(notices.iter().all(|notice| !notice.contains("/tmp")));
}

#[test]
fn security_notices_skip_devcontainer_volume_mounts() {
    let mut config = quiet_config();
    let mut object: TextMap<JsonValue> = TextMap::new();
    object.insert("type".to_owned(), JsonValue::Text("volume".to_owned()));
    object.insert("source".to_owned(), JsonValue::Text("project-deps".to_owned()));
    object.insert("target".to_owned(), JsonValue::Text("/deps".to_owned()));
    config.devcontainer.mounts = vec![
        text_mount("type=volume,source=project-cache,target=/cache", MountType::Volume),
        LayerDevcontainerMount {
            definition: MountDefinition::Object(object),
            mount_type: Some(MountType::Volume),
        },
    ];
    config.devcontainer.workspace_mount = Some(text_mount(
        "type=volume,source=project-workspace,target=/workspace",
        MountType::Volume,
    ));

    let notices = security_notices(&config);

    assert!(notices.iter().all(|notice| !notice.contains("additional bind mounts")));
}

#[test]
fn security_notices_report_devcontainer_workspace_bind_mount() {
    let mut config = quiet_config();
    config.devcontainer.workspace_mount = Some(text_mount(
        "type=bind,source=${localWorkspaceFolder},target=/workspace",
        MountType::Bind,
    ));

    let notices = security_notices(&config);

    assert!(notices.iter().any(|notice| notice.contains("additional bind mounts")));
}

#[test]
fn security_notices_report_code_execution_surfaces() {
    let mut config = quiet_config();
    config.features = vec![ResolvedFeature {
        id: "tool".to_owned(),
        canonical_id: "ghcr.io/example/features/tool".to_owned(),
        options: TextMap::new(),
    }];
    config.devcontainer.source = Some(ResolvedDevcontainerSource::Dockerfile(
        LayerDevcontainerBuild {
            dockerfile: "Dockerfile".to_owned(),
            context: None,
            args: TextMap::new(),
            options: Vec::new(),
            target: None,
            cache_from: Vec::new(),
        },
    ));
    config.devcontainer.entrypoints = vec!["/usr/local/bin/start".to_owned()];
    config.devcontainer.lifecycle =
        Some(LifecycleDefinition { commands: vec!["make setup".to_owned()] });
    config.devcontainer.user_env_probe = Some(LayerUserEnvProbe::LoginShell);

    let notices = security_notices(&config);

    assert!(notices.iter().any(|notice| notice.contains("Dockerfile")));
    assert!(notices.iter().any(|notice| notice.contains("install.sh")));
    assert!(notices.iter().any(|notice| notice.contains("entrypoint")));
    assert!(notices.iter().any(|notice| notice.contains("lifecycle")));
    assert!(notices.iter().any(|notice| {
        notice.contains("userEnvProbe") && notice.contains("userEnvProbe to \"none\"")
    }));
}

#[test]
fn security_notices_report_enabled_credentials() {
    let notices = security_notices(&ResolvedConfig::default());

    assert!(notices.iter().any(|notice| {
        notice.contains("Git credential forwarding")
            && notice.contains("[credentials.git].enabled = false")
    }));
    assert!(notices.iter().any(|notice| {
        notice.contains("SSH agent forwarding") && notice.contains("ssh_agent = \"off\"")
    }));
    assert!(notices.iter().any(|notice| {
        notice.contains("GitHub credential forwarding")
            && notice.contains("[credentials.github].enabled = false")
    }));

    let disabled_notices = security_notices(&quiet_config());
    assert!(disabled_notices.iter().all(|notice| !notice.contains("credential forwarding")));

    let mut ssh_off = ResolvedConfig::default();
    ssh_off.credentials.git.ssh_agent = SshAgentMode::Off;
    let ssh_off_notices = security_notices(&ssh_off);
    assert!(ssh_off_notices.iter().all(|notice| !notice.contains("SSH agent forwarding")));
}

#[test]
fn deferred_config_warnings_report_app_port_without_explicit_host_ip() {
    let mut config = ResolvedConfig::default();
    config.devcontainer.publish_ports = vec![ResolvedPublishPort {
        container: 8080,
        host: Some(18080),
        host_ip: None,
        protocol: PortProtocol::Tcp,
    }];

    let warnings = deferred_config_warnings(&config);
    let warning = warnings
        .iter()
        .find(|warning| warning.contains("appPort"))
        .expect("expected appPort warning");

    assert!(warning.contains("forwardPorts"));
    assert!(warning.contains("[[ports]]"));
    assert!(warning.contains("localhost-only"));
}

#[test]
fn deferred_config_warnings_skip_localhost_only_app_port() {
    let mut config = ResolvedConfig::default();
    config.devcontainer.publish_ports = vec![ResolvedPublishPort {
        container: 8080,
        host: Some(18080),
        host_ip: Some("127.0.0.1".to_owned()),
        protocol: PortProtocol::Tcp,
    }];

    let warnings = deferred_config_warnings(&config);

    assert!(!warnings.iter().any(|warning| warning.contains("appPort")));
}

#[test]
fn deferred_config_warnings_report_endpoints_when_clone_isolation_is_disabled() {
    let mut config = ResolvedConfig::default();
    config.compose.clone_isolation.endpoints.push(ResolvedComposeCloneIsolationEndpoint {
        service: "app".to_owned(),
        env: "HOST_AGENT_ENDPOINT".to_owned(),
        value: "grpc://${decune.network.grpc.gateway}:50051".to_owned(),
    });

    let warnings = deferred_config_warnings(&config);

    assert!(warnings.iter().any(|warning| {
        warning.contains("compose.clone_isolation.endpoints is ignored")
            && warning.contains("compose.clone_isolation.enabled is false")
            && warning.contains("compose.clone_isolation.enabled = true")
    }));
}

#[test]
fn deferred_config_warnings_report_unsupported_port_attributes() {
    let mut config = ResolvedConfig::default();
    config.devcontainer.port_attributes.insert(
        "3000".to_owned(),
        ResolvedPortAttributes {
            label: Some("web".to_owned()),
            on_auto_forward: None,
            require_local_port: Some(true),
            unsupported_protocol: Some("https".to_owned()),
            unsupported_elevate_if_needed: Some(true),
        },
    );
    config.devcontainer.other_ports_attributes = Some(ResolvedPortAttributes {
        label: None,
        on_auto_forward: None,
        require_local_port: None,
        unsupported_protocol: Some("http".to_owned()),
        unsupported_elevate_if_needed: None,
    });

    let warnings = deferred_config_warnings(&config);

    assert!(warnings.iter().any(|warning| {
        warning.contains("portsAttributes.3000.protocol")
            && warning.contains("ignored")
            && warning.contains("label")
    }));
    assert!(warnings.iter().any(|warning| {
        warning.contains("portsAttributes.3000.elevateIfNeeded") && warning.contains("ignored")
    }));
    assert!(warnings.iter().any(|warning| {
        warning.contains("otherPortsAttributes.protocol") && warning.contains("ignored")
    }));
}

#[test]
fn github_cli_auto_add_requires_token_and_missing_container_binary() {
    let mut config = ResolvedConfig::default();

    assert!(should_auto_add_github_cli_feature(&config, true, false));
    assert!(!should_auto_add_github_cli_feature(&config, false, false));
    assert!(!should_auto_add_github_cli_feature(&config, true, true));

    config.credentials.github.install_feature_if_missing = false;
    assert!(!should_auto_add_github_cli_feature(&config, true, false));

    config.credentials.github.install_feature_if_missing = true;
    config.credentials.github.enabled = false;
    assert!(!should_auto_add_github_cli_feature(&config, true, false));

    config.credentials.github.enabled = true;
    config.credentials.github.mode = GithubCredentialsMode::Off;
    assert!(!should_auto_add_github_cli_feature(&config, true, false));
}

#[test]
fn effective_startup_command_uses_compose_overrides() {
    let image_startup = ImageStartupCommand {
        entrypoint: vec!["/image-entrypoint.sh".to_owned()],
        command: vec!["image-cmd".to_owned()],
    };
    let service = ComposeConfigService {
        entrypoint: Some(vec!["/service-entrypoint.sh".to_owned()]),
        command: Some(vec!["service-cmd".to_owned()]),
        user: None,
    };

    let startup = effective_startup_command(image_startup, Some(&service));

    assert_eq!(startup.entrypoint, vec!["/service-entrypoint.sh".to_owned()]);
    assert_eq!(startup.command, vec!["service-cmd".to_owned()]);
}

#[test]
fn effective_startup_command_falls_back_to_image_parts_independently() {
    let image_startup = ImageStartupCommand {
        entrypoint: vec!["/image-entrypoint.sh".to_owned()],
        command: vec!["image-cmd".to_owned()],
    };
    let service = ComposeConfigService {
        entrypoint: None,
        command: Some(vec!["service-cmd".to_owned()]),
        user: None,
    };

    let startup = effective_startup_command(image_startup, Some(&service));

    assert_eq!(startup.entrypoint, vec!["/image-entrypoint.sh".to_owned()]);
    assert_eq!(startup.command, vec!["service-cmd".to_owned()]);
}

#[test]
fn default_workspace_folder_uses_real_workspace_basename() {
    let workspace = Workspace {
        root: "/tmp/Project Name!".to_owned(),
        basename: "Project Name!".to_owned(),
        id: "abc123".to_owned(),
        state_dir: "/state".to_owned(),
        cache_dir: "/cache".to_owned(),
    };

    assert_eq!(default_workspace_folder(&workspace), "/workspaces/Project Name!");
}

#[test]
fn mount_hash_inputs_preserve_resolved_mount_fields() {
    let mount = DockerMountSpec {
        source: Some("/host/project".to_owned()),
        target: "/workspaces/project".to_owned(),
        mount_type: MountType::Bind,
        read_only: true,
        consistency: Some("cached".to_owned()),
        bind_options: None,
        volume_options: None,
    };

    let input = mount_hash_inputs(&vec![mount]);

    assert_eq!(input.len(), 1);
    assert_eq!(input[0].source.as_deref(), Some("/host/project"));
    assert_eq!(input[0].target, "/workspaces/project");
    assert_eq!(input[0].mount_type, MountType::Bind);
    assert!(input[0].read_only);
    assert_eq!(input[0].consistency.as_deref(), Some("cached"));
}

#[test]
fn uid_gid_sync_warning_reports_only_explicit_true_on_non_linux() {
    let plan = UidGidSyncPlan::Noop { reason: UidGidSyncNoopReason::NonLinuxHost };
    let default_layers = ConfigMergeInput::default();
    let explicit_true = layers_with_update_remote_user_uid(true);
    let explicit_false = layers_with_update_remote_user_uid(false);

    assert_eq!(uid_gid_sync_warning(&default_layers, &plan, true, HostPlatform::NonLinux), None);
    assert_eq!(
        uid_gid_sync_warning(&explicit_true, &plan, true, HostPlatform::NonLinux),
        Some(
            "UID/GID sync is only supported on Linux hosts; skipping updateRemoteUserUID"
                .to_owned()
        )
    );
    assert_eq!(uid_gid_sync_warning(&explicit_false, &plan, false, HostPlatform::NonLinux), None);
}

fn layers_with_update_remote_user_uid(update_remote_user_uid: bool) -> ConfigMergeInput {
    ConfigMergeInput {
        devcontainer: Some(ConfigLayer {
            devcontainer: Some(LayerDevcontainerMetadata {
                update_remote_user_uid: Some(update_remote_user_uid),
                ..LayerDevcontainerMetadata::default()
            }),
            ..ConfigLayer::default()
        }),
        ..ConfigMergeInput::default()
    }
}

#[test]
fn uid_gid_sync_warning_reports_numeric_user_without_passwd_noop() {
    let warning = uid_gid_sync_warning(
        &ConfigMergeInput::default(),
        &UidGidSyncPlan::Noop { reason: UidGidSyncNoopReason::NumericUserWithoutPasswd },
        true,
        HostPlatform::Linux,
    );

    assert_eq!(
        warning.as_deref(),
        Some("UID/GID sync is skipped because the configured numeric user has no passwd entry")
    );
}

#[test]
fn effective_user_input_from_plan_uses_expanded_user_values() {
    let devcontainer_layer = ConfigLayer {
        devcontainer: Some(LayerDevcontainerMetadata {
            remote_user: Some("${localEnv:DECUNE_TEST_REMOTE_USER}".to_owned()),
            container_user: Some("${localEnv:DECUNE_TEST_CONTAINER_USER}".to_owned()),
            ..LayerDevcontainerMetadata::default()
        }),
        ..ConfigLayer::default()
    };
    let mut config = ResolvedConfig::default();
    config.devcontainer.remote_user = Some("remoteuser".to_owned());
    config.devcontainer.container_user = Some("containeruser".to_owned());
    let plan = plan_with(
        config,
        ConfigMergeInput {
            devcontainer: Some(devcontainer_layer),
            ..ConfigMergeInput::default()
        },
    );

    let input = effective_user_input_from_plan(&plan);

    assert_eq!(input.devcontainer_remote_user, Some("remoteuser"));
    assert_eq!(input.devcontainer_container_user, Some("containeruser"));
    assert_eq!(input.image_metadata_remote_user, None);
    assert_eq!(input.image_metadata_container_user, None);
}

#[test]
fn effective_user_input_from_plan_keeps_metadata_user_origin() {
    let feature_layer = ConfigLayer {
        devcontainer: Some(LayerDevcontainerMetadata {
            remote_user: Some("${localEnv:DECUNE_TEST_FEATURE_REMOTE_USER}".to_owned()),
            container_user: Some("${localEnv:DECUNE_TEST_FEATURE_CONTAINER_USER}".to_owned()),
            ..LayerDevcontainerMetadata::default()
        }),
        ..ConfigLayer::default()
    };
    let mut config = ResolvedConfig::default();
    config.devcontainer.remote_user = Some("feature-remote".to_owned());
    config.devcontainer.container_user = Some("feature-container".to_owned());
    let plan = plan_with(
        config,
        ConfigMergeInput {
            feature_metadata: vec![feature_layer],
            ..ConfigMergeInput::default()
        },
    );

    let input = effective_user_input_from_plan(&plan);

    assert_eq!(input.devcontainer_remote_user, None);
    assert_eq!(input.devcontainer_container_user, None);
    assert_eq!(input.image_metadata_remote_user, Some("feature-remote"));
    assert_eq!(input.image_metadata_container_user, Some("feature-container"));
}

#[test]
fn dockerfile_uid_gid_sync_base_uses_resolved_base_image_without_workspace_layer() {
    let mut config = ResolvedConfig::default();
    config.devcontainer.source = Some(ResolvedDevcontainerSource::Dockerfile(
        LayerDevcontainerBuild {
            dockerfile: "Dockerfile".to_owned(),
            context: Some(".".to_owned()),
            args: TextMap::new(),
            options: Vec::new(),
            target: None,
            cache_from: Vec::new(),
        },
    ));
    let mut plan = plan_with(config, ConfigMergeInput::default());
    plan.image = "decune/test:final-sync-hash".to_owned();
    plan.base_image = "decune/test:pre-sync-hash".to_owned();
    plan.resources.image_tag = plan.image.clone();
    plan.resources.config_hash = "final-sync-hash".to_owned();
    plan.pre_uid_gid_sync_resources = Some(resources("pre-sync-hash"));
    plan.uid_gid_sync_plan = sync_plan();

    assert_eq!(uid_gid_sync_base_image(&plan), "decune/test:pre-sync-hash");
}

#[test]
fn image_uid_gid_sync_base_uses_original_image_without_workspace_layer() {
    let mut config = ResolvedConfig::default();
    config.devcontainer.source =
        Some(ResolvedDevcontainerSource::Image("alpine:3.20".to_owned()));
    let mut plan = plan_with(config, ConfigMergeInput::default());
    plan.image = "decune/test:final-sync-hash".to_owned();
    plan.resources.image_tag = plan.image.clone();
    plan.resources.config_hash = "final-sync-hash".to_owned();
    plan.pre_uid_gid_sync_resources = Some(resources("pre-sync-hash"));
    plan.uid_gid_sync_plan = sync_plan();

    assert_eq!(uid_gid_sync_base_image(&plan), "alpine:3.20");
}

#[test]
fn compose_running_reuse_fast_path_only_allows_running_container_without_mutating_flags() {
    let running = vec![reusable_container("stable-hash")];
    let subnets = ComposeIsolationSubnetPlan::empty();
    let mut chosen = options();

    assert!(compose_running_reuse_fast_path_enabled(&chosen, &running, &subnets));

    let stopped = vec![UpContainerSummary { running: false, ..running[0].clone() }];
    assert!(!compose_running_reuse_fast_path_enabled(&chosen, &stopped, &subnets));

    chosen.build.pull = true;
    assert!(!compose_running_reuse_fast_path_enabled(&chosen, &running, &subnets));
    chosen = options();
    chosen.reuse.rebuild = true;
    assert!(!compose_running_reuse_fast_path_enabled(&chosen, &running, &subnets));
    chosen = options();
    chosen.build.no_cache = true;
    assert!(!compose_running_reuse_fast_path_enabled(&chosen, &running, &subnets));
    chosen = options();
    chosen.build.update_features = true;
    assert!(!compose_running_reuse_fast_path_enabled(&chosen, &running, &subnets));
}

#[test]
fn compose_published_port_relocation_warning_messages_follow_config() {
    let mut config = ResolvedConfig::default();
    config.devcontainer.override_command = false;
    let mut plan = plan_with(config, ConfigMergeInput::default());
    let port_plan = ComposePublishedPortPlan {
        entries: vec![relocated_entry(
            endpoint(None, 3000),
            endpoint(None, 3001),
            ComposePublishedPortAllocationReason::Unavailable,
        )],
    };

    assert!(compose_published_port_relocation_warning_messages(&plan, &port_plan).is_empty());

    plan.config.compose.published_ports.warn_on_relocation = true;
    let messages = compose_published_port_relocation_warning_messages(&plan, &port_plan);

    assert_eq!(messages.len(), 1);
    assert!(messages[0].contains("Compose published port relocation changed"));
    assert!(messages[0].contains("service `app`"));
    assert!(messages[0].contains("from 3000 to 3001"));
}

#[test]
fn compose_project_published_ports_include_stopped_host_config_bindings() {
    let reservations = existing_compose_project_published_ports_from_container(
        &container_with_ports(false, None, Some(port_map("80/tcp", "127.0.0.1", "18300"))),
    );

    assert_eq!(reservations.len(), 1);
    assert_eq!(reservations[0].service, "app");
    assert_eq!(reservations[0].target_port, 80);
    assert!(matches!(reservations[0].protocol, ComposePortProtocol::Tcp));
    assert!(matches!(
        &reservations[0].endpoint.host_ip,
        ComposePublishedPortHostIp::Explicit(ip) if ip == "127.0.0.1"
    ));
    assert_eq!(reservations[0].endpoint.host_port, 18300);
    assert_eq!(reservations[0].source, ComposePublishedPortReservationSource::StoppedContainer);
}

#[test]
fn compose_project_published_ports_mark_running_network_bindings() {
    let reservations = existing_compose_project_published_ports_from_container(
        &container_with_ports(true, Some(port_map("80/tcp", "0.0.0.0", "18300")), None),
    );

    assert_eq!(reservations.len(), 1);
    assert_eq!(reservations[0].source, ComposePublishedPortReservationSource::RunningContainer);
}

#[test]
fn external_running_ports_use_actual_tcp_bindings_and_skip_udp() {
    let mut ports = port_map("80/tcp", "", "18080");
    ports.extend(port_map("53/udp", "0.0.0.0", "1053"));
    ports.extend(port_map("443/tcp", "::1", "18443"));
    let mut container = container_with_ports(true, Some(ports), None);
    container.name = Some("/external-app".to_owned());

    let mut reservations =
        external_running_container_published_ports(&container, &check_ip).unwrap();
    reservations.sort_by_key(|reservation| reservation.host);

    let held: Vec<(String, u16)> =
        reservations.into_iter().map(|held| (held.host_ip, held.host)).collect();
    assert_eq!(held, vec![("0.0.0.0".to_owned(), 18080), ("::1".to_owned(), 18443)]);
}

#[test]
fn external_running_ports_reject_malformed_actual_binding_with_context() {
    let mut container = container_with_ports(
        true,
        Some(port_map("80/tcp", "localhost", "not-a-port")),
        None,
    );
    container.name = Some("/broken-app".to_owned());

    let error = external_running_container_published_ports(&container, &check_ip).unwrap_err();
    let message = error.message();

    assert!(message.contains("not-a-port"));
    assert!(message.contains("broken-app"));
}

#[test]
fn current_compose_project_is_excluded_from_external_reservations() {
    let mut current = container_with_ports(true, None, None);
    current
        .config
        .as_mut()
        .and_then(|config| config.labels.as_mut())
        .unwrap()
        .insert(COMPOSE_PROJECT_LABEL.to_owned(), "current".to_owned());

    assert!(container_belongs_to_compose_project(&current, "current"));
    assert!(!container_belongs_to_compose_project(&current, "other"));
}

#[test]
fn compose_service_forward_requires_recreate_when_runtime_mount_is_missing() {
    let required = DockerMountSpec {
        source: Some("/tmp/decune-runtime/forward/db".to_owned()),
        target: "/run/decune".to_owned(),
        mount_type: MountType::Bind,
        read_only: false,
        consistency: None,
        bind_options: None,
        volume_options: None,
    };
    let missing = UpContainerSummary {
        id: "db-id".to_owned(),
        name: "project-db-1".to_owned(),
        image_id: None,
        config_hash: None,
        config_file: None,
        mounts: None,
        running: true,
    };
    let present = UpContainerSummary {
        mounts: Some(vec![UpMountSummary {
            source: Some("/tmp/decune-runtime/forward/db".to_owned()),
            target: "/run/decune".to_owned(),
            mount_type: MountType::Bind,
            read_only: false,
        }]),
        ..missing.clone()
    };

    assert!(compose_service_forward_container_requires_recreate(&missing, &required));
    assert!(!compose_service_forward_container_requires_recreate(&present, &required));
}

#[test]
fn compose_reuse_policy_allows_running_container_without_pull() {
    let decision = decide_existing_container(
        &vec![reusable_container("stable-hash")],
        "stable-hash",
        &CredentialRuntimeMountPolicy::new(Vec::new()),
        false,
    )
    .unwrap();

    assert_eq!(
        decision,
        ExistingContainerDecision::ReuseRunning {
            id: "container-id".to_owned(),
            name: "project-app-1".to_owned(),
        }
    );
    assert!(should_reuse_existing_container(&decision, reuse_policy(false)));
}

#[test]
fn compose_reuse_policy_blocks_running_container_when_pull_is_requested() {
    let decision = decide_existing_container(
        &vec![reusable_container("stable-hash")],
        "stable-hash",
        &CredentialRuntimeMountPolicy::new(Vec::new()),
        false,
    )
    .unwrap();

    assert!(!should_reuse_existing_container(&decision, reuse_policy(true)));
}

#[test]
fn compose_reuse_policy_blocks_rebuild_decision() {
    let container = reusable_container("stable-hash");
    let decision = decide_existing_container(
        &vec![container.clone()],
        "stable-hash",
        &CredentialRuntimeMountPolicy::new(Vec::new()),
        true,
    )
    .unwrap();

    assert_eq!(decision, ExistingContainerDecision::Recreate { containers: vec![container] });
    assert!(!should_reuse_existing_container(&decision, reuse_policy(false)));
}

#[test]
fn compose_reuse_policy_rejects_changed_config_hash() {
    let error = decide_existing_container(
        &vec![reusable_container("old-hash")],
        "stable-hash",
        &CredentialRuntimeMountPolicy::new(Vec::new()),
        false,
    )
    .unwrap_err();

    assert!(error.message().contains("Run decune rebuild"));
}

#[test]
fn compose_reuse_policy_blocks_credential_mount_recreate() {
    let container = reusable_container("stable-hash");
    let required_mount = UpMountSummary {
        source: Some("/tmp/decune/gh".to_owned()),
        target: "/run/decune/gh".to_owned(),
        mount_type: MountType::Bind,
        read_only: true,
    };
    let decision = decide_existing_container(
        &vec![container.clone()],
        "stable-hash",
        &CredentialRuntimeMountPolicy::new(vec![required_mount]),
        false,
    )
    .unwrap();

    assert_eq!(decision, ExistingContainerDecision::Recreate { containers: vec![container] });
    assert!(!should_reuse_existing_container(&decision, reuse_policy(false)));
}

#[test]
fn state_snapshot_records_final_image_tag_for_compose_plan() {
    let mut plan = plan_with(ResolvedConfig::default(), ConfigMergeInput::default());
    plan.image = "decune/project-abc123:config-hash".to_owned();
    plan.base_image = "example/app:dev".to_owned();
    plan.resources.config_hash = "config-hash".to_owned();

    let snapshot = state_container_snapshot(&plan, "container-id".to_owned());

    assert_eq!(snapshot.image, "decune/project-abc123:config-hash");
    assert_eq!(snapshot.config_hash, "config-hash");
}

#[test]
fn host_ip_only_published_port_change_is_relocated_in_runtime_state() {
    let state = published_port_runtime_state_for_entry(
        &Vec::new(),
        relocated_entry(
            endpoint(Some("127.0.0.1"), 3000),
            endpoint(Some("0.0.0.0"), 3000),
            ComposePublishedPortAllocationReason::Mapping,
        ),
    );

    assert!(state.relocated);
    assert_eq!(state.requested.ip_value.as_deref(), Some("127.0.0.1"));
    assert_eq!(state.requested.host_port, 3000);
    assert_eq!(state.planned.ip_value.as_deref(), Some("0.0.0.0"));
    assert_eq!(state.planned.host_port, 3000);
}
