//! What is decided and said on the way to a running container.

use decune::compose::generate::ComposeOverrideStartup;
use decune::compose::isolation::{
    ComposeIsolationEndpointPlan, ComposeIsolationNameRewritePlan, ComposeIsolationResourceKind,
    ComposeIsolationSubnetAllocation, ComposeIsolationSubnetPlan,
};
use decune::compose::override_hash::{
    generated_override_semantic_image, generated_override_semantic_labels,
    generated_override_semantic_pull_policy_never,
};
use decune::compose::placeholder::{compose_container_env_placeholder, compose_interpolation_env};
use decune::compose::ports::{
    compose_port_protocol_name, compose_published_port_endpoint_display, ComposePortProtocol,
    ComposePublishedPortAllocationReason, ComposePublishedPortEndpoint,
    ComposePublishedPortHostIp, ComposePublishedPortPlan, ComposePublishedPortPlanEntry,
    ComposePublishedPortPlanSource, ComposePublishedPortPlannedEndpointProbe,
    ComposePublishedPortPlanningInput, ComposePublishedPortReservation,
    ComposePublishedPortReservationSource,
};
use decune::config::{
    ConfigLayer, ConfigMergeInput, LayerDevcontainerCompose, LayerDevcontainerMetadata, MountType,
    ResolvedComposeCloneIsolationEndpoint, ResolvedConfig, ResolvedPortAttributes,
    ResolvedDevcontainerSource, ResolvedFeature, ResolvedShutdownAction,
};
use decune::docker::{
    DockerBuildOptions, DockerMountSpec, DockerResources, EffectiveUsers, HostEnvironment,
    HostPlatform, HostPortReservation, HostUserIds, ImageStartupCommand, ResolvedBuildContext, SensitiveEnvValue,
    UidGidSyncNoopReason, UidGidSyncPlan,
};
use decune::error::UpError;
use decune::finalize::github_cli::{
    choose_github_cli_feature_plan_for_existing_image_probe, command_probe_arguments,
    github_cli_image_lookup, github_cli_probe, image_has_command, maybe_auto_add_github_cli_feature_to_plan, ExistingHashStep,
    GithubCliChoice,
};
use decune::finalize::image::{
    build_existing_container_decision_plan, dockerfile_image_metadata_for_plan,
    existing_remote_user_image_for_decision, note_metadata_read, prepare_image_based_metadata,
    startup_command_hash_input, startup_command_image, startup_command_is_hashed,
    DecisionMetadataStep, MetadataRead, PullPolicy, RemoteUserImageStep,
};
use decune::finalize::lookup::{
    finish_image_lookup, start_image_lookup, ImageAction, ImageLookup, LookupBuild, LookupStep,
};
use decune::finalize::machine::{
    begin_finalize, finalize_up_plan_mounts, FinalizeAction, FinalizeEvent, FinalizeSettings,
};
use decune::hash_input::UidGidSyncHashState;
use decune::messages::report_deferred_config_messages;
use decune::mounts::{
    reject_workspace_mount_target_conflicts, validate_workspace_folder,
    validate_workspace_folder_under_mount,
};
use decune::numbers::{parse_port, NumberFault};
use decune::paths::{file_name, normalize_container_path, path_has_parent, split_text};
use decune::run::{
    apply_shutdown_action_after_attached_up, forwarding_for_session, starts_compose_project,
    ShutdownStep,
};
use decune::shell::{clamp_exit_code, first_successful_shell_candidate, shell_command_candidates};
use decune::start::compose::{
    compose_plan_source, compose_start_requires_generated_override, compose_start_run_options,
    compose_created_outcome, compose_startup_diagnostics, handle_compose_published_port_relocations,
    validate_compose_canonical_model, ComposeStartupContext,
};
use decune::start::compose_run::{
    active_config_services, add_existing_compose_containers, compose_container_reused_by,
    finalize_compose_start_plan, lists_external_published_ports, lists_project_published_ports,
    network_removal_context, prepare_compose_user_images, prepare_finalized_compose_image,
    start_finalized_compose_project, use_compose_base_image, ComposeImageAction,
    ComposeStartStep, ComposeUserConfigs, ExistingComposeContainers,
};
use decune::start::container::{
    compose_override_startup, container_exited_during_startup_error, container_startup,
    ensure_container_running_after_start, ensure_container_running_now,
    ensure_feature_entrypoints_completed, ensure_original_command_kept_container_running,
    initial_state_error, prepare_image_for_create, start_new_container,
    startup_verification_for_plan, EntrypointRace, ImagePreparation, ImagePreparationAction,
    StartupCheck,
};
use decune::start::credentials::extend_runtime_mounts;
use decune::start::existing::{decide_existing_container, CredentialRuntimeMountPolicy};
use decune::start::fast_path::{
    start_fast_path, try_reuse_running_compose_container_before_image_prepare,
};
use decune::start::feature_entrypoint::{
    container_runtime_user_is_root, feature_entrypoint_runtime_path,
    feature_entrypoint_sentinel_check_command, feature_entrypoint_sentinel_check_script_for,
    feature_entrypoint_sentinel_is_current, hex_lower, shell_word,
};
use decune::start::creation::{
    begin_creation, create_and_start_container_inner, CreationAction, CreationEvent,
    CreationProgress,
};
use decune::start::image::{
    finalize_image_start_plan, start_decided_image_container, tries_existing_container,
    try_start_existing_image_container, ImageStartStep,
};
use decune::start::inspect::{
    ContainerInspect, ContainerInspectConfig, ContainerNetworkSettings, ContainerPortBinding,
    ContainerState,
};
use decune::start::isolation::{
    add_compose_isolation_volume, compose_isolation_needs_networks, fixed_resource_names,
    ComposeIsolationDaemonSnapshot, ComposeIsolationDockerIpamConfig, ComposeIsolationFixedName,
    ComposeIsolationScan, DockerNamedResource, DockerNetworkInspect, DockerNetworkIpam,
};
use decune::start::listing::{
    list_external_running_container_published_ports, parse_container_port_key,
    COMPOSE_PROJECT_LABEL, COMPOSE_SERVICE_LABEL,
};
use decune::start::preflight::{
    begin_compose_isolation_preflight, compose_isolation_daemon_snapshot,
    compose_isolation_lookups, run_compose_isolation_preflight, ComposeIsolationEndpoints,
    ComposeIsolationFinding, ComposeIsolationNameRewritePlanInput, ComposeIsolationPlanInput,
    ComposeIsolationPlans, ComposeIsolationPreflight, ComposeIsolationSubnetPlanInput, IsolationDiscovery, IsolationLookup,
    IsolationServices,
};
use decune::start::reuse::{compose_service_forward_requires_recreate, ExistingContainerReusePolicy};
use decune::start::state_sync::{
    actual_bindings_for_compose_published_port, clone_isolation_runtime_state,
    reusable_lifecycle_state, sync_started_compose_state, sync_started_state,
    CloneIsolationNetworkRuntimeState, LifecycleRunPath, StateContainerSnapshot, StateUpdate,
    WorkspaceState,
};
use decune::text::{decimal_text, non_empty_trimmed, signed_decimal_text, text_is_less, trim};
use decune::text_map::TextMap;
use decune::types::{
    ComposeProjectPlan, ExistingContainerDecision, ForwardingResolution, StartupVerification, UpBuildOptions,
    UpConfigOptions, UpContainerSummary, UpMountSummary, UpOptions, UpOutcome, UpPlan,
    UpReuseOptions,
};
use decune::uid_gid::uid_gid_sync_hash_input;
use decune::yaml::{quoted, render_document, Yaml};

fn text_map(entries: &[(&str, &str)]) -> TextMap<String> {
    let mut map = TextMap::new();
    for (key, value) in entries {
        map.insert((*key).to_owned(), (*value).to_owned());
    }
    map
}

fn plan() -> UpPlan {
    let mut config = ResolvedConfig::default();
    config.devcontainer.source =
        Some(ResolvedDevcontainerSource::Image("alpine:3.20".to_owned()));
    UpPlan {
        image: "alpine:3.20".to_owned(),
        base_image: "alpine:3.20".to_owned(),
        build_context: None,
        build_options: DockerBuildOptions::default(),
        feature_install: None,
        feature_build_context_dir: None,
        uid_gid_sync_build_context_dir: None,
        resources: DockerResources {
            container_name: "decune-test".to_owned(),
            image_tag: "decune/test:hash".to_owned(),
            workspace_volume_name: "decune-test-workspace".to_owned(),
            labels: TextMap::new(),
            config_hash: "hash".to_owned(),
        },
        pre_uid_gid_sync_resources: None,
        compose_project: None,
        config_layers: ConfigMergeInput::default(),
        config,
        sensitive_container_env: TextMap::new(),
        sensitive_build_args: TextMap::new(),
        compose_interpolation_env: TextMap::new(),
        compose_interpolation_redactions: Vec::new(),
        effective_users: EffectiveUsers::root(),
        uid_gid_sync_plan: UidGidSyncPlan::default(),
        workspace_folder: "/workspaces/project".to_owned(),
        mounts: Vec::new(),
        dotfile_skeletons: Vec::new(),
        forward_ports: Vec::new(),
        ignored_detached_forwarding: false,
    }
}

fn layered_plan() -> UpPlan {
    let mut plan = plan();
    plan.config.features = vec![ResolvedFeature {
        id: "ghcr.io/example/features/tool:1".to_owned(),
        canonical_id: "ghcr.io/example/features/tool".to_owned(),
        options: TextMap::new(),
    }];
    plan.image = "decune/test:hash".to_owned();
    plan
}

fn compose_source() -> ResolvedDevcontainerSource {
    ResolvedDevcontainerSource::Compose(LayerDevcontainerCompose {
        files: vec!["compose.yaml".to_owned()],
        service: "app".to_owned(),
        run_services: None,
    })
}

fn options() -> UpOptions {
    UpOptions {
        workspace: "/workspace".to_owned(),
        config_path: None,
        cli_layer: Default::default(),
        config: UpConfigOptions::default(),
        build: UpBuildOptions::default(),
        reuse: UpReuseOptions::default(),
    }
}

fn summary(running: bool) -> UpContainerSummary {
    UpContainerSummary {
        id: "id".to_owned(),
        name: "name".to_owned(),
        image_id: Some("sha256:image".to_owned()),
        config_hash: Some("hash".to_owned()),
        config_file: None,
        mounts: Some(Vec::new()),
        running,
    }
}

fn context(containers: Vec<UpContainerSummary>, has_build: bool) -> ComposeStartupContext {
    ComposeStartupContext {
        user_services: Vec::new(),
        canonical_model: "{}".to_owned(),
        compose_primary_image: "example/app:dev".to_owned(),
        primary_service_has_build: has_build,
        compose_primary_service: None,
        published_port_policy_input: ComposePublishedPortPlanningInput {
            primary_service: "app".to_owned(),
            services: vec!["app".to_owned()],
            port_entries: Vec::new(),
        },
        mappings: Vec::new(),
        existing_compose_project_containers: containers.clone(),
        existing_compose_containers: containers,
        existing_project_published_ports: Vec::new(),
        external_host_reservations: Vec::new(),
        published_port_relocation_enabled: false,
        name_rewrite_plan: ComposeIsolationNameRewritePlan::empty(),
        subnet_plan: ComposeIsolationSubnetPlan::empty(),
        endpoint_plan: ComposeIsolationEndpointPlan::empty(),
    }
}

fn running() -> ExistingContainerDecision {
    ExistingContainerDecision::ReuseRunning { id: "id".to_owned(), name: "name".to_owned() }
}

fn stopped() -> ExistingContainerDecision {
    ExistingContainerDecision::StartStopped { id: "id".to_owned(), name: "name".to_owned() }
}

fn keepalive() -> ComposeOverrideStartup {
    ComposeOverrideStartup {
        entrypoint: vec!["/bin/sh".to_owned()],
        command: vec!["-c".to_owned(), "sleep infinity".to_owned()],
    }
}

fn mount(source: &str, target: &str) -> DockerMountSpec {
    DockerMountSpec {
        source: Some(source.to_owned()),
        target: target.to_owned(),
        mount_type: MountType::Bind,
        read_only: false,
        consistency: None,
        bind_options: None,
        volume_options: None,
    }
}

fn endpoint(host_ip: Option<&str>, host_port: u16) -> ComposePublishedPortEndpoint {
    ComposePublishedPortEndpoint {
        host_ip: match host_ip {
            Some(ip) => ComposePublishedPortHostIp::Explicit(ip.to_owned()),
            None => ComposePublishedPortHostIp::Omitted,
        },
        host_port,
    }
}

fn entry(target_port: u16, requested: u16, planned: u16) -> ComposePublishedPortPlanEntry {
    ComposePublishedPortPlanEntry {
        service: "app".to_owned(),
        port_entry_index: 0,
        source: ComposePublishedPortPlanSource::Compose,
        target_port,
        protocol: ComposePortProtocol::Tcp,
        requested: endpoint(None, requested),
        planned: endpoint(None, planned),
        planned_endpoint_probe: ComposePublishedPortPlannedEndpointProbe::Available,
        relocated: requested != planned,
        allocation_reason: ComposePublishedPortAllocationReason::Unavailable,
    }
}

fn binding(host_ip: &str, host_port: &str) -> ContainerPortBinding {
    ContainerPortBinding {
        host_ip: Some(host_ip.to_owned()),
        host_port: Some(host_port.to_owned()),
    }
}

fn running_container(
    name: &str,
    labels: &[(&str, &str)],
    ports: Vec<(&str, Vec<ContainerPortBinding>)>,
) -> ContainerInspect {
    ContainerInspect {
        name: Some(name.to_owned()),
        state: Some(ContainerState { running: Some(true), status: None, exit_code: None }),
        config: Some(ContainerInspectConfig { labels: Some(text_map(labels)) }),
        host_config: None,
        network_settings: Some(ContainerNetworkSettings {
            ports: Some(
                ports.into_iter().map(|(key, bound)| (key.to_owned(), Some(bound))).collect(),
            ),
        }),
    }
}

#[test]
fn a_map_keeps_its_keys_in_order_and_the_last_value() {
    let mut map = text_map(&[("b", "2"), ("a", "1"), ("c", "3")]);
    map.insert("b".to_owned(), "4".to_owned());

    assert_eq!(map.keys(), vec!["a", "b", "c"]);
    assert_eq!(map.values(), vec!["1", "4", "3"]);
    assert_eq!(map.get("b").map(String::as_str), Some("4"));
    assert_eq!(map.get("a").map(String::as_str), Some("1"));
    assert!(map.get("d").is_none());
    assert!(!map.contains_key("d"));
}

#[test]
fn texts_are_trimmed_ordered_and_numbered() {
    assert_eq!(trim(" \t a b\u{3000}\n"), "a b");
    assert_eq!(non_empty_trimmed("  "), None);
    assert_eq!(non_empty_trimmed(" x "), Some("x"));
    assert!(text_is_less("a", "ab"));
    assert!(!text_is_less("b", "ab"));
    assert_eq!(decimal_text(0), "0");
    assert_eq!(decimal_text(18300), "18300");
    assert_eq!(signed_decimal_text(-7), "-7");
    assert_eq!(signed_decimal_text(i64::MIN), "-9223372036854775808");
}

#[test]
fn container_paths_have_a_shortest_form() {
    assert_eq!(normalize_container_path("/a//b/./c/../"), "/a/b");
    assert_eq!(normalize_container_path("/.."), "/");
    assert_eq!(file_name("/a/b/."), Some("b".to_owned()));
    assert_eq!(file_name("/a/.."), None);
    assert_eq!(file_name("/"), None);
    assert!(path_has_parent("/a"));
    assert!(!path_has_parent("/"));
    assert!(path_has_parent("a"));
    assert!(!path_has_parent(""));
    assert_eq!(split_text("a/b/", '/'), vec!["a", "b", ""]);
}

#[test]
fn ports_are_read_as_numbers() {
    assert_eq!(parse_port("8080"), Ok(8080));
    assert_eq!(parse_port("+80"), Ok(80));
    assert_eq!(parse_port("65535"), Ok(65535));
    assert_eq!(parse_port(""), Err(NumberFault::Empty));
    assert_eq!(parse_port("80a"), Err(NumberFault::InvalidDigit));
    assert_eq!(parse_port("-1"), Err(NumberFault::InvalidDigit));
    assert_eq!(parse_port("65536"), Err(NumberFault::TooLarge));
    assert_eq!(NumberFault::Empty.text(), "cannot parse integer from empty string");
    assert_eq!(NumberFault::InvalidDigit.text(), "invalid digit found in string");
    assert_eq!(NumberFault::TooLarge.text(), "number too large to fit in target type");
}

#[test]
fn shell_candidates_do_not_repeat_their_neighbour() {
    assert_eq!(shell_command_candidates(None, Some("/bin/bash")), vec!["/bin/bash", "/bin/sh"]);
    assert_eq!(
        shell_command_candidates(Some("  "), Some("/bin/sh")),
        vec!["/bin/sh", "/bin/bash", "/bin/sh"]
    );
}

#[test]
fn exhausted_shell_candidates_are_reported() {
    let none = first_successful_shell_candidate(&Vec::new(), &Vec::new()).unwrap_err();
    assert_eq!(none.chain, vec!["No shell command candidate is available"]);

    let failed = first_successful_shell_candidate(
        &vec!["/bin/bash".to_owned(), "/bin/sh".to_owned()],
        &vec![UpError::from_text("first"), UpError::from_text("second")],
    )
    .unwrap_err();
    assert_eq!(
        failed.chain,
        vec![
            "Failed to start any shell command candidate. Tried: /bin/bash: first; /bin/sh: second"
        ]
    );
}

#[test]
fn exit_codes_are_clamped() {
    assert_eq!(clamp_exit_code(0), 0);
    assert_eq!(clamp_exit_code(255), 255);
    assert_eq!(clamp_exit_code(256), 1);
    assert_eq!(clamp_exit_code(-1), 1);
}

#[test]
fn errors_keep_their_causes() {
    let error = UpError::from_text("cause").context("wider");
    assert_eq!(error.chain, vec!["wider", "cause"]);
    assert_eq!(error.message(), "wider");
}

#[test]
fn placeholders_are_safe_and_unique() {
    let mut used = Vec::new();
    assert_eq!(
        compose_container_env_placeholder("npm-token", &mut used),
        "DECUNE_CONTAINER_ENV_NPM_TOKEN"
    );
    assert_eq!(
        compose_container_env_placeholder("NPM_TOKEN", &mut used),
        "DECUNE_CONTAINER_ENV_NPM_TOKEN_2"
    );
    assert_eq!(
        compose_container_env_placeholder("npm.token", &mut used),
        "DECUNE_CONTAINER_ENV_NPM_TOKEN_3"
    );
    assert_eq!(
        compose_container_env_placeholder("1st", &mut used),
        "DECUNE_CONTAINER_ENV__1ST"
    );

    let mut sensitive = TextMap::new();
    for (key, value) in [("a-b", "one"), ("a.b", "two")] {
        sensitive.insert(
            key.to_owned(),
            SensitiveEnvValue { value: value.to_owned(), redactions: vec![value.to_owned()] },
        );
    }
    let (env, redactions) = compose_interpolation_env(&sensitive);
    assert_eq!(env.keys(), vec!["DECUNE_CONTAINER_ENV_A_B", "DECUNE_CONTAINER_ENV_A_B_2"]);
    assert_eq!(env.values(), vec!["one", "two"]);
    assert_eq!(redactions, vec!["one", "two"]);
}

#[test]
fn yaml_is_quoted_and_indented() {
    assert_eq!(quoted("it's"), "'it''s'");
    assert_eq!(quoted("a\tb\"\\\u{1}"), "\"a\\tb\\\"\\\\\\x01\"");
    let document = render_document(&vec![(
        "services".to_owned(),
        Yaml::Mapping(vec![
            ("image".to_owned(), Yaml::Scalar("'x'".to_owned())),
            (
                "ports".to_owned(),
                Yaml::Sequence {
                    items: vec![
                        Yaml::Scalar("1".to_owned()),
                        Yaml::Mapping(vec![
                            ("a".to_owned(), Yaml::Scalar("2".to_owned())),
                            ("b".to_owned(), Yaml::Scalar("3".to_owned())),
                        ]),
                    ],
                    replaces: true,
                },
            ),
        ]),
    )]);
    assert_eq!(
        document,
        "services:\n  image: 'x'\n  ports: !override\n    - 1\n    - a: 2\n      b: 3\n"
    );
}

#[test]
fn the_meaning_of_a_generated_file_leaves_the_hash_out() {
    let mut plan = layered_plan();
    plan.resources.labels = text_map(&[
        ("com.docker.compose.project", "p"),
        ("decune.config_hash", "hash"),
        ("decune.managed", "true"),
    ]);
    assert_eq!(generated_override_semantic_image(&plan), "<decune-generated-image>");
    assert!(generated_override_semantic_pull_policy_never(&plan));
    assert_eq!(
        generated_override_semantic_labels(&plan.resources.labels),
        vec![("decune.managed".to_owned(), "true".to_owned())]
    );
}

#[test]
fn workspace_folders_are_checked() {
    assert_eq!(validate_workspace_folder("/src").unwrap(), "/src");
    assert_eq!(
        validate_workspace_folder("src").unwrap_err().chain,
        vec!["workspaceFolder must be an absolute container path: src"]
    );
    assert!(validate_workspace_folder_under_mount("/workspace/app", "/workspace").is_ok());
    assert_eq!(
        validate_workspace_folder_under_mount("/workspaces", "/workspace").unwrap_err().chain,
        vec![
            "workspaceFolder must be under the workspaceMount target: \
             workspaceFolder=/workspaces, workspaceMount target=/workspace"
        ]
    );
    assert!(reject_workspace_mount_target_conflicts("/w", &vec![mount("/a", "/w/x")]).is_ok());
    assert_eq!(
        reject_workspace_mount_target_conflicts("/w", &vec![mount("/a", "/w/./")])
            .unwrap_err()
            .chain,
        vec!["Mount target conflicts with workspace mount target: /w"]
    );
}

#[test]
fn user_id_changes_are_hashed() {
    let host = HostEnvironment {
        platform: HostPlatform::Linux,
        ids: HostUserIds { uid: 1000, gid: 1001 },
    };
    let plan = UidGidSyncPlan::Noop { reason: UidGidSyncNoopReason::NumericUserWithoutPasswd };
    let input = uid_gid_sync_hash_input(&plan, true, host).unwrap();
    assert!(matches!(
        input.state,
        UidGidSyncHashState::Noop(ref reason) if reason == "numericUserWithoutPasswd"
    ));
    assert_eq!((input.host_uid, input.host_gid), (1000, 1001));
    assert!(uid_gid_sync_hash_input(&plan, false, host).is_none());
}

#[test]
fn sessions_end_as_configured() {
    assert_eq!(forwarding_for_session(true), ForwardingResolution::Resolve);
    assert_eq!(forwarding_for_session(false), ForwardingResolution::IgnoreDetached);

    let mut plan = plan();
    assert!(!starts_compose_project(&plan));
    assert!(matches!(apply_shutdown_action_after_attached_up(&plan), ShutdownStep::KeepRunning));
    plan.config.devcontainer.shutdown_action = ResolvedShutdownAction::StopContainer;
    assert!(matches!(apply_shutdown_action_after_attached_up(&plan), ShutdownStep::StopContainer));

    plan.config.devcontainer.source = Some(compose_source());
    plan.config.devcontainer.shutdown_action = ResolvedShutdownAction::StopCompose;
    plan.compose_project = Some(ComposeProjectPlan {
        project_name: "decune-project".to_owned(),
        generated_override_path: "/state/compose.override.yaml".to_owned(),
        config_hash_files: Vec::new(),
        generated_override_env: TextMap::new(),
        generated_override_redactions: Vec::new(),
    });
    assert!(starts_compose_project(&plan));
    assert!(matches!(apply_shutdown_action_after_attached_up(&plan), ShutdownStep::StopCompose));
    let named = compose_plan_source(&plan, "no project", "no source").unwrap();
    assert_eq!(named.project.project_name, "decune-project");
    assert_eq!(named.compose.service, "app");
}

#[test]
fn existing_containers_are_used_or_replaced() {
    let free = CredentialRuntimeMountPolicy::new(Vec::new());
    assert_eq!(
        decide_existing_container(&Vec::new(), "hash", &free, true).unwrap(),
        ExistingContainerDecision::Create
    );
    assert_eq!(
        decide_existing_container(&vec![summary(false)], "hash", &free, false).unwrap(),
        stopped()
    );

    let mut chosen = options();
    chosen.build.pull = true;
    chosen.reuse.rebuild = true;
    let made = ImagePreparation { pull: true, no_cache: false, image_prepared: true };
    assert_eq!(
        start_decided_image_container(&chosen, &vec![summary(true)], &plan(), &free, true)
            .unwrap(),
        vec![
            ImageStartStep::RemoveContainer { id: "id".to_owned(), name: "name".to_owned() },
            ImageStartStep::CreateAndStart { preparation: made },
            ImageStartStep::RememberContainer { path: LifecycleRunPath::New },
        ]
    );
    assert_eq!(
        try_start_existing_image_container(&vec![summary(true)], &plan(), &free).unwrap(),
        vec![
            ImageStartStep::ReportMessages,
            ImageStartStep::UseRunning { id: "id".to_owned(), name: "name".to_owned() },
            ImageStartStep::RememberContainer { path: LifecycleRunPath::Running },
        ]
    );
    assert_eq!(
        try_start_existing_image_container(&vec![summary(false)], &plan(), &free).unwrap(),
        vec![
            ImageStartStep::ReportMessages,
            ImageStartStep::CheckRemembered { id: "id".to_owned() },
            ImageStartStep::MaterializeDotfiles,
            ImageStartStep::StartAndVerify { id: "id".to_owned(), name: "name".to_owned() },
            ImageStartStep::RememberContainer { path: LifecycleRunPath::Started },
        ]
    );
    assert!(try_start_existing_image_container(&Vec::new(), &plan(), &free).unwrap().is_empty());
    let mut other = plan();
    other.resources.config_hash = "other".to_owned();
    assert_eq!(
        try_start_existing_image_container(&vec![summary(true)], &other, &free)
            .unwrap_err()
            .chain,
        vec![
            "Existing dev container was created for a different configuration. Run decune rebuild \
             to recreate it."
        ]
    );
}

#[test]
fn a_new_container_is_remembered_before_it_is_started() {
    let name = "decune-test".to_owned();
    let (progress, action) = begin_creation();
    assert!(matches!(action, CreationAction::MaterializeDotfiles));
    let (progress, action) =
        create_and_start_container_inner(&name, progress, CreationEvent::DotfilesWritten(Ok(())));
    assert!(matches!(action, CreationAction::CreateContainer));
    let (progress, action) = create_and_start_container_inner(
        &name,
        progress,
        CreationEvent::Created(Ok("id".to_owned())),
    );
    assert!(matches!(action, CreationAction::PersistState { ref id } if id == "id"));
    let (progress, action) =
        create_and_start_container_inner(&name, progress, CreationEvent::Persisted(Ok(())));
    assert!(matches!(action, CreationAction::StartAndVerify));
    let (_, action) =
        create_and_start_container_inner(&name, progress, CreationEvent::Started(Ok(())));
    match action {
        CreationAction::Done(Ok(outcome)) => {
            assert_eq!(outcome.container_id, "id");
            assert_eq!(outcome.container_name, "decune-test");
            assert!(!outcome.reused);
        }
        other => panic!("{other:?}"),
    }
}

#[test]
fn a_new_container_that_fails_is_removed() {
    let name = "box".to_owned();
    let (progress, action) = create_and_start_container_inner(
        &name,
        CreationProgress::Persisting { id: "id".to_owned() },
        CreationEvent::Persisted(Err(UpError::from_text("disk full"))),
    );
    assert!(matches!(action, CreationAction::RemoveContainer));
    let (_, action) =
        create_and_start_container_inner(&name, progress, CreationEvent::Removed(Ok(())));
    match action {
        CreationAction::Done(Err(error)) => assert_eq!(
            error.chain,
            vec![
                "Failed to persist initial lifecycle state for Docker container: box",
                "disk full"
            ]
        ),
        other => panic!("{other:?}"),
    }

    let (progress, action) = create_and_start_container_inner(
        &name,
        CreationProgress::Starting { id: "id".to_owned() },
        CreationEvent::Started(Err(UpError::from_text("no start"))),
    );
    assert!(matches!(action, CreationAction::RemoveContainer));
    let (progress, action) =
        create_and_start_container_inner(&name, progress, CreationEvent::Removed(Ok(())));
    assert!(matches!(action, CreationAction::ForgetContainer));
    let (_, action) =
        create_and_start_container_inner(&name, progress, CreationEvent::Forgotten(Ok(())));
    match action {
        CreationAction::Done(Err(error)) => assert_eq!(error.chain, vec!["no start"]),
        other => panic!("{other:?}"),
    }
}

/// A project that fixes one network, and a Compose that may be too old.
struct Isolation {
    networks: Vec<String>,
    replaces_lists: bool,
    refused: bool,
}

impl IsolationServices for Isolation {
    fn scan_compose_isolation(
        &self,
        _model: &String,
        _project_name: &String,
    ) -> ComposeIsolationScan {
        ComposeIsolationScan { fixed_names: Vec::new(), networks: self.networks.clone() }
    }

    fn plan_compose_isolation_name_rewrites(
        &self,
        _input: &ComposeIsolationNameRewritePlanInput,
    ) -> ComposeIsolationNameRewritePlan {
        ComposeIsolationNameRewritePlan::empty()
    }

    fn apply_compose_isolation_name_rewrites(
        &self,
        scan: &ComposeIsolationScan,
        _plan: &ComposeIsolationNameRewritePlan,
    ) -> ComposeIsolationScan {
        scan.clone()
    }

    fn plan_compose_isolation_subnets(
        &self,
        input: &ComposeIsolationSubnetPlanInput,
    ) -> Result<ComposeIsolationSubnetPlan, UpError> {
        Ok(ComposeIsolationSubnetPlan {
            allocations: input
                .state
                .iter()
                .map(|given| ComposeIsolationSubnetAllocation {
                    network: given.network.clone(),
                    requested_subnet: given.requested_subnet.clone(),
                    planned_subnet: given.planned_subnet.clone(),
                    planned_gateway: None,
                    planned_ip_range: None,
                    planned_aux_addresses: TextMap::new(),
                    relocated: true,
                })
                .collect(),
            networks_to_remove: Vec::new(),
        })
    }

    fn ensure_compose_override_tag(&self) -> Result<(), UpError> {
        if self.replaces_lists {
            Ok(())
        } else {
            Err(UpError::from_text("Compose is too old"))
        }
    }

    fn plan_compose_isolation_endpoints(
        &self,
        _model: &String,
        _scan: &ComposeIsolationScan,
        declarations: &Vec<ResolvedComposeCloneIsolationEndpoint>,
        subnet_plan: ComposeIsolationSubnetPlan,
    ) -> Result<ComposeIsolationEndpoints, UpError> {
        Ok(ComposeIsolationEndpoints {
            plan: ComposeIsolationEndpointPlan::empty(),
            findings: declarations
                .iter()
                .map(|endpoint| ComposeIsolationFinding { message: endpoint.env.clone() })
                .collect(),
            subnet_plan,
        })
    }

    fn apply_compose_isolation_subnet_plan(
        &self,
        scan: &ComposeIsolationScan,
        _plan: &ComposeIsolationSubnetPlan,
    ) -> ComposeIsolationScan {
        scan.clone()
    }

    fn plan_compose_isolation(
        &self,
        input: &ComposeIsolationPlanInput,
    ) -> Vec<ComposeIsolationFinding> {
        vec![ComposeIsolationFinding { message: input.project_name.clone() }]
    }

    fn validate_compose_isolation_diagnostics(
        &self,
        findings: &Vec<ComposeIsolationFinding>,
    ) -> Result<(), UpError> {
        if self.refused {
            let said: Vec<&str> =
                findings.iter().map(|finding| finding.message.as_str()).collect();
            Err(UpError::new(said.join(", ")))
        } else {
            Ok(())
        }
    }
}

/// Whether Docker was asked what it holds, and how a clone is kept apart.
fn isolate(tool: &Isolation, enabled: bool) -> (bool, Result<ComposeIsolationPlans, UpError>) {
    let (model, project, id) = ("{}".to_owned(), "project".to_owned(), "abc123".to_owned());
    let mut clone_isolation = ResolvedConfig::default().compose.clone_isolation;
    clone_isolation.enabled = enabled;
    clone_isolation.endpoints = vec![ResolvedComposeCloneIsolationEndpoint {
        service: "app".to_owned(),
        env: "ENDPOINT".to_owned(),
        value: "x".to_owned(),
    }];
    let named =
        match begin_compose_isolation_preflight(tool, &model, &project, &id, &clone_isolation) {
            ComposeIsolationPreflight::Done(plans) => return (false, Ok(plans)),
            ComposeIsolationPreflight::Lookup(named) => named,
        };
    let remembered = vec![CloneIsolationNetworkRuntimeState {
        network: "net".to_owned(),
        requested_subnet: "10.0.0.0/24".to_owned(),
        planned_subnet: "10.0.1.0/24".to_owned(),
        planned_gateway: None,
        relocated: true,
    }];
    let plans = run_compose_isolation_preflight(
        tool,
        &model,
        &project,
        &id,
        &clone_isolation,
        named,
        &ComposeIsolationDaemonSnapshot::empty(),
        &remembered,
        false,
    );
    (true, plans)
}

#[test]
fn clones_are_kept_apart_before_they_start() {
    let mut tool =
        Isolation { networks: Vec::new(), replaces_lists: true, refused: false };
    let (asked, plans) = isolate(&tool, false);
    let plans = plans.unwrap();
    assert!(!asked);
    assert!(plans.names.services.is_empty());
    assert!(plans.names.resources.is_empty());
    assert!(plans.subnets.allocations.is_empty());
    assert!(plans.subnets.networks_to_remove.is_empty());
    assert!(plans.endpoints.services.is_empty());
    assert!(isolate(&tool, true).0);

    tool.networks = vec!["net".to_owned()];
    let plans = isolate(&tool, false).1.unwrap();
    assert_eq!(plans.subnets.allocations[0].planned_subnet, "10.0.1.0/24");

    tool.refused = true;
    assert_eq!(
        isolate(&tool, true).1.unwrap_err().chain,
        vec!["project, ENDPOINT"]
    );
    assert_eq!(isolate(&tool, false).1.unwrap_err().chain, vec!["project"]);

    tool.replaces_lists = false;
    assert_eq!(
        isolate(&tool, true).1.unwrap_err().chain,
        vec!["Compose is too old"]
    );
}

#[test]
fn docker_is_asked_for_what_the_files_fix() {
    let fixed = |kind, name: &str| ComposeIsolationFixedName { kind, name: name.to_owned() };
    let scan = ComposeIsolationScan {
        fixed_names: vec![
            fixed(ComposeIsolationResourceKind::Secret, "token"),
            fixed(ComposeIsolationResourceKind::ServiceContainer, "web"),
            fixed(ComposeIsolationResourceKind::ServiceContainer, "db"),
        ],
        networks: vec!["net".to_owned()],
    };
    let named = |kind, name: &str| IsolationLookup::Named { kind, name: name.to_owned() };
    assert_eq!(
        compose_isolation_lookups(&scan),
        vec![
            IsolationLookup::Networks,
            named(ComposeIsolationResourceKind::ServiceContainer, "db"),
            named(ComposeIsolationResourceKind::ServiceContainer, "web"),
            named(ComposeIsolationResourceKind::Secret, "token"),
        ]
    );

    let held = compose_isolation_daemon_snapshot(vec![
        IsolationDiscovery::Network(DockerNetworkInspect {
            name: Some(" net ".to_owned()),
            labels: Some(text_map(&[("com.docker.compose.network", "default")])),
            scope: Some("local".to_owned()),
            ipam: Some(DockerNetworkIpam {
                driver: Some("default".to_owned()),
                config: vec![ComposeIsolationDockerIpamConfig {
                    subnet: Some("10.0.0.0/24".to_owned()),
                    gateway: None,
                }],
            }),
            containers: vec!["id".to_owned()],
        }),
        IsolationDiscovery::Network(DockerNetworkInspect {
            name: Some("  ".to_owned()),
            labels: None,
            scope: None,
            ipam: None,
            containers: Vec::new(),
        }),
        IsolationDiscovery::Container {
            requested_name: "db".to_owned(),
            container: running_container("/db", &[(COMPOSE_PROJECT_LABEL, "p")], Vec::new()),
        },
        IsolationDiscovery::Resource {
            kind: ComposeIsolationResourceKind::Secret,
            requested_name: "token".to_owned(),
            resource: DockerNamedResource { name: None, labels: None },
        },
    ]);
    assert_eq!(held.networks.len(), 1);
    assert_eq!(held.networks[0].name, "net");
    assert_eq!(held.networks[0].compose_network.as_deref(), Some("default"));
    assert!(held.networks[0].has_attached_containers);
    let names: Vec<&str> = held.resources.iter().map(|held| held.name.as_str()).collect();
    assert_eq!(names, vec!["net", "db", "token"]);
    assert_eq!(held.resources[1].compose_project.as_deref(), Some("p"));
}

#[test]
fn a_compose_container_without_a_name_goes_by_its_id() {
    assert_eq!(compose_created_outcome("id".to_owned(), None).container_name, "id");
    assert_eq!(
        compose_created_outcome("id".to_owned(), Some("app-1".to_owned())).container_name,
        "app-1"
    );
    assert!(validate_compose_canonical_model(&plan()).is_none());
}

#[test]
fn a_compose_project_is_remembered_with_its_ports() {
    let outcome = UpOutcome {
        container_id: "id".to_owned(),
        container_name: "name".to_owned(),
        reused: false,
    };
    let update = sync_started_compose_state(
        &plan(),
        &outcome,
        LifecycleRunPath::New,
        &vec![running_container(
            "/app-1",
            &[(COMPOSE_SERVICE_LABEL, "app")],
            vec![("80/tcp", vec![binding("", "8090")])],
        )],
        vec![entry(80, 8080, 8081)],
        &ComposeIsolationSubnetPlan::empty(),
        None,
        false,
        "/s.json",
    )
    .unwrap();
    assert!(matches!(update.update, StateUpdate::Fresh { .. }));
    let port = &update.runtime.published_ports[0];
    assert_eq!(port.planned.host_port, 8090);
    assert_eq!(port.actual_bindings[0].host_ip, "0.0.0.0");
    assert_eq!(port.target.protocol, "tcp");
    assert!(port.relocated);
}

#[test]
fn a_service_without_its_mount_is_made_anew() {
    let required = mount("/runtime/db", "/run/decune");
    let mut present = summary(true);
    present.mounts = Some(vec![UpMountSummary {
        source: Some("/runtime/db".to_owned()),
        target: "/run/decune".to_owned(),
        mount_type: MountType::Bind,
        read_only: false,
    }]);
    assert!(!compose_service_forward_requires_recreate(
        &vec![vec![present.clone()]],
        &vec![required.copied()]
    ));
    assert!(compose_service_forward_requires_recreate(
        &vec![vec![summary(true), present], Vec::new()],
        &vec![required.copied(), required]
    ));
}

#[test]
fn added_mounts_replace_what_stands_at_their_target() {
    let mut mounts = vec![mount("/a", "/one"), mount("/b", "/two")];
    extend_runtime_mounts(&mut mounts, &vec![mount("/c", "/three")]);

    let targets: Vec<&str> = mounts.iter().map(|mount| mount.target.as_str()).collect();
    assert_eq!(targets, vec!["/one", "/two", "/three"]);
}

#[test]
fn images_are_prepared_as_the_plan_needs() {
    let preparation = ImagePreparation { pull: true, no_cache: true, image_prepared: false };
    let done = ImagePreparation { image_prepared: true, ..preparation };
    let image_plan = plan();
    assert!(matches!(
        prepare_image_for_create(&image_plan, preparation),
        ImagePreparationAction::PullBaseImage { image, always: true } if image == "alpine:3.20"
    ));
    assert!(matches!(
        prepare_image_for_create(&image_plan, done),
        ImagePreparationAction::Nothing
    ));
    assert!(matches!(
        prepare_image_for_create(&layered_plan(), preparation),
        ImagePreparationAction::BuildLayers { pull: true, no_cache: true }
    ));

    let mut built = plan();
    built.build_context = Some(ResolvedBuildContext {
        context_dir: "/w".to_owned(),
        dockerfile_path: "/w/Dockerfile".to_owned(),
        dockerfile_in_context: "Dockerfile".to_owned(),
        dockerignore_path: None,
    });
    built.build_options.target = Some("dev".to_owned());
    match prepare_image_for_create(&built, preparation) {
        ImagePreparationAction::BuildBaseImage(input) => {
            assert_eq!(input.image_tag, "alpine:3.20");
            assert_eq!(input.context.context_dir, "/w");
            assert_eq!(input.options.target.as_deref(), Some("dev"));
            assert!(input.options.pull);
            assert!(input.options.no_cache);
        }
        other => panic!("{other:?}"),
    }
}

#[test]
fn containers_are_watched_while_they_start() {
    let mut plan = plan();
    assert_eq!(startup_verification_for_plan(&plan), StartupVerification::Keepalive);
    plan.config.devcontainer.override_command = false;
    assert_eq!(startup_verification_for_plan(&plan), StartupVerification::OriginalCommand);
    plan.config.devcontainer.entrypoints = vec!["true".to_owned()];
    let verification = startup_verification_for_plan(&plan);
    assert_eq!(
        verification,
        StartupVerification::FeatureEntrypoints { monitor_delegated_command: true }
    );
    assert_eq!(
        ensure_container_running_after_start(verification),
        vec![
            StartupCheck::MustRunEntrypoints,
            StartupCheck::MustRun,
            StartupCheck::MustNotEnd,
            StartupCheck::MustRun,
        ]
    );
}

#[test]
fn a_container_that_ended_is_reported() {
    let state = |running: bool| {
        Some(ContainerState { running: Some(running), status: None, exit_code: Some(3) })
    };
    assert!(ensure_container_running_now("box", &state(true)).is_ok());
    assert_eq!(
        ensure_container_running_now("box", &state(false)).unwrap_err().chain,
        vec!["Container exited during startup: box with exit code 3"]
    );
    assert_eq!(
        ensure_container_running_now("box", &None).unwrap_err().chain,
        vec!["Container state is unavailable after start: box"]
    );
    assert_eq!(
        container_exited_during_startup_error("box", None).chain,
        vec!["Container exited during startup: box"]
    );
    assert!(ensure_original_command_kept_container_running("box", None).is_ok());
    assert!(ensure_original_command_kept_container_running("box", Some(0)).is_err());
    assert!(ensure_feature_entrypoints_completed("box", EntrypointRace::Ready(Ok(()))).is_ok());
    assert_eq!(
        ensure_feature_entrypoints_completed("box", EntrypointRace::Ended(Ok(9)))
            .unwrap_err()
            .chain,
        vec!["Container exited during startup: box with exit code 9"]
    );
}

#[test]
fn a_container_that_did_not_start_is_forgotten_once_it_is_gone() {
    let gone = start_new_container("box", UpError::from_text("no start"), Ok(()));
    assert!(gone.forget_container);
    assert_eq!(gone.error.chain, vec!["no start"]);

    let left = start_new_container(
        "box",
        UpError::from_text("no start"),
        Err(UpError::from_text("inner").context("outer")),
    );
    assert!(!left.forget_container);
    assert_eq!(
        left.error.chain,
        vec!["Failed to remove Docker container after start failure: box: outer: inner", "no start"]
    );
    assert_eq!(
        initial_state_error(
            "box",
            UpError::from_text("disk full"),
            Err(UpError::from_text("busy"))
        )
        .chain,
        vec![
            "Failed to persist initial lifecycle state for Docker container: box. Failed to \
             remove Docker container after state failure: box: busy",
            "disk full",
        ]
    );
}

#[test]
fn entrypoints_of_features_run_first() {
    let mut plan = plan();
    let plain = container_startup(&plan, keepalive(), None);
    assert_eq!(plain.entrypoint, Some(vec!["/bin/sh".to_owned()]));

    plan.config.devcontainer.entrypoints = vec!["true".to_owned()];
    let wrapped = container_startup(&plan, keepalive(), None);
    assert_eq!(
        wrapped.entrypoint,
        Some(vec!["/usr/local/share/decune/feature-entrypoint-wrapper.sh".to_owned()])
    );
    assert_eq!(
        wrapped.command,
        Some(vec!["/bin/sh".to_owned(), "-c".to_owned(), "sleep infinity".to_owned()])
    );

    plan.config.devcontainer.override_command = false;
    let image = ImageStartupCommand {
        entrypoint: vec!["/entry".to_owned()],
        command: vec!["serve".to_owned()],
    };
    let delegated = compose_override_startup(&plan, keepalive(), Some(image), None).unwrap();
    assert_eq!(delegated.command, vec!["/entry", "serve"]);
}

#[test]
fn what_is_remembered_must_belong_to_the_container() {
    let snapshot = StateContainerSnapshot {
        container_id: "id".to_owned(),
        image: "alpine:3.20".to_owned(),
        config_hash: "hash".to_owned(),
        config_file: None,
    };
    let state = |hash: &str| {
        Some(WorkspaceState { container_id: "id".to_owned(), config_hash: hash.to_owned() })
    };
    assert!(reusable_lifecycle_state(state("hash"), true, &snapshot, "/s.json").is_ok());
    for (existing, ids_match) in [(state("other"), true), (state("hash"), false), (None, true)] {
        assert_eq!(
            reusable_lifecycle_state(existing, ids_match, &snapshot, "/s.json")
                .unwrap_err()
                .chain,
            vec![
                "Cannot safely reuse existing dev container without matching lifecycle state: \
                 /s.json. Run decune rebuild to recreate it."
            ]
        );
    }

    let outcome = UpOutcome {
        container_id: "id".to_owned(),
        container_name: "name".to_owned(),
        reused: true,
    };
    assert!(matches!(
        sync_started_state(&plan(), &outcome, LifecycleRunPath::New, None, false, "/s.json"),
        Ok(StateUpdate::Fresh { .. })
    ));
    assert!(matches!(
        sync_started_state(
            &plan(),
            &outcome,
            LifecycleRunPath::Started,
            state("hash"),
            true,
            "/s.json"
        ),
        Ok(StateUpdate::Reused { refresh_last_started_at: true, .. })
    ));
}

#[test]
fn actual_bindings_are_listed_in_order() {
    let containers = vec![
        running_container(
            "/app-1",
            &[(COMPOSE_SERVICE_LABEL, "app")],
            vec![("80/tcp", vec![binding("127.0.0.1", "8081"), binding("0.0.0.0", "8080")])],
        ),
        running_container(
            "/app-2",
            &[(COMPOSE_SERVICE_LABEL, "app")],
            vec![("80/tcp", vec![binding("0.0.0.0", "8080")])],
        ),
        running_container(
            "/db-1",
            &[(COMPOSE_SERVICE_LABEL, "db")],
            vec![("80/tcp", vec![binding("0.0.0.0", "9999")])],
        ),
    ];
    let bound = actual_bindings_for_compose_published_port(&containers, &entry(80, 8080, 8080));
    let bound: Vec<(String, u16)> =
        bound.into_iter().map(|bound| (bound.host_ip, bound.host_port)).collect();
    assert_eq!(bound, vec![("0.0.0.0".to_owned(), 8080), ("127.0.0.1".to_owned(), 8081)]);
}

#[test]
fn ports_of_other_projects_are_held() {
    let containers = vec![
        running_container(
            "/mine",
            &[(COMPOSE_PROJECT_LABEL, "current")],
            vec![("80/tcp", vec![binding("0.0.0.0", "8080")])],
        ),
        running_container("/other", &[], vec![("80/tcp", vec![binding("0.0.0.0", "8081")])]),
    ];
    let held =
        list_external_running_container_published_ports(&containers, "current", |_: &String| {
            Ok(())
        })
        .unwrap();
    assert_eq!(held.len(), 1);
    assert_eq!(held[0].host, 8081);

    let refused = list_external_running_container_published_ports(
        &containers,
        "current",
        |_: &String| Err(UpError::from_text("not an address")),
    )
    .unwrap_err();
    assert_eq!(refused.chain.last().map(String::as_str), Some("not an address"));

    assert!(matches!(
        parse_container_port_key("80/tcp"),
        Some((80, ComposePortProtocol::Tcp))
    ));
    assert!(parse_container_port_key("http/tcp").is_none());
}

#[test]
fn fixed_names_are_listed_once() {
    let name = |kind, name: &str| ComposeIsolationFixedName { kind, name: name.to_owned() };
    let scan = ComposeIsolationScan {
        fixed_names: vec![
            name(ComposeIsolationResourceKind::Volume, "data"),
            name(ComposeIsolationResourceKind::Network, "net"),
            name(ComposeIsolationResourceKind::Volume, "data"),
            name(ComposeIsolationResourceKind::Volume, "cache"),
        ],
        networks: Vec::new(),
    };
    let mut volumes = fixed_resource_names(&scan, ComposeIsolationResourceKind::Volume);
    volumes.sort();
    assert_eq!(volumes, vec!["cache", "data"]);
    assert!(compose_isolation_needs_networks(&scan));

    let mut snapshot = ComposeIsolationDaemonSnapshot::empty();
    add_compose_isolation_volume(
        &mut snapshot,
        "data",
        &DockerNamedResource {
            name: None,
            labels: Some(text_map(&[(COMPOSE_PROJECT_LABEL, "p")])),
        },
    );
    assert_eq!(snapshot.resources.len(), 1);
    assert_eq!(snapshot.resources[0].name, "data");
    assert_eq!(snapshot.resources[0].compose_project.as_deref(), Some("p"));
}

#[test]
fn planned_networks_are_remembered() {
    let state = clone_isolation_runtime_state(&ComposeIsolationSubnetPlan {
        allocations: vec![ComposeIsolationSubnetAllocation {
            network: "net".to_owned(),
            requested_subnet: "10.0.0.0/24".to_owned(),
            planned_subnet: "10.0.1.0/24".to_owned(),
            planned_gateway: Some("10.0.1.1".to_owned()),
            planned_ip_range: None,
            planned_aux_addresses: TextMap::new(),
            relocated: true,
        }],
        networks_to_remove: Vec::new(),
    });
    assert_eq!(state.networks.len(), 1);
    assert_eq!(state.networks[0].planned_subnet, "10.0.1.0/24");
    assert!(state.networks[0].relocated);
}

#[test]
fn endpoints_are_shown_as_they_are_written() {
    assert_eq!(compose_published_port_endpoint_display(&endpoint(None, 80)), "80");
    assert_eq!(
        compose_published_port_endpoint_display(&endpoint(Some("127.0.0.1"), 80)),
        "127.0.0.1:80"
    );
    assert_eq!(compose_port_protocol_name(&ComposePortProtocol::Udp), "udp");
    assert_eq!(compose_port_protocol_name(&ComposePortProtocol::Other("sctp".to_owned())), "sctp");
}

#[test]
fn entrypoint_scripts_quote_their_paths() {
    assert_eq!(shell_word(""), "''");
    assert_eq!(shell_word("it's"), "'it'\"'\"'s'");
    assert_eq!(hex_lower(&[0x00, 0x0f, 0xa7]), "000fa7");
    assert_eq!(
        feature_entrypoint_sentinel_check_script_for("/s", "/t", "/p"),
        "sentinel='/s'\ntoken_file='/t'\nproc_stat='/p'\n\
         stat_line=$(cat \"$proc_stat\" 2>/dev/null || true)\n\
         stat_tail=${stat_line#*) }\nset -- $stat_tail\nstartup_id=\"${20:-}\"\n\
         token=$(cat \"$token_file\" 2>/dev/null || true)\nexpected=\"$startup_id:$token\"\n\
         test -n \"$startup_id\" && test -n \"$token\" && test -f \"$sentinel\" && \
         test \"$(cat \"$sentinel\")\" = \"$expected\""
    );
    let command = feature_entrypoint_sentinel_check_command("/s", "/t");
    assert_eq!(command[..2], ["/bin/sh".to_owned(), "-c".to_owned()]);
    assert!(command[2].contains("proc_stat='/proc/1/stat'"));
    assert!(feature_entrypoint_sentinel_is_current(Some(0)));
    assert!(!feature_entrypoint_sentinel_is_current(Some(1)));
    assert!(!feature_entrypoint_sentinel_is_current(None));
    assert!(container_runtime_user_is_root("root"));
    assert!(container_runtime_user_is_root("0:0"));
    assert!(!container_runtime_user_is_root("app"));
    assert_eq!(
        feature_entrypoint_runtime_path("/tmp/r", "/run/decune/x", "token").unwrap(),
        "/tmp/r/x"
    );
    assert_eq!(
        feature_entrypoint_runtime_path("/tmp/r", "/tmp/x", "token").unwrap_err().chain,
        vec!["Feature entrypoint token must be under /run/decune: /tmp/x", "prefix not found"]
    );
}

#[test]
fn the_github_cli_is_added_where_it_is_missing() {
    let config = ResolvedConfig::default();
    assert!(matches!(
        maybe_auto_add_github_cli_feature_to_plan(&config, true, false, false),
        GithubCliChoice::AddFeature
    ));
    assert!(matches!(
        maybe_auto_add_github_cli_feature_to_plan(&config, true, false, true),
        GithubCliChoice::KeepPlan
    ));
    assert!(matches!(
        choose_github_cli_feature_plan_for_existing_image_probe(
            &config,
            Some("h2"),
            Some("h1"),
            Some("h2")
        ),
        ExistingHashStep::UseCandidate
    ));
    assert_eq!(
        command_probe_arguments("gh").last().map(String::as_str),
        Some("command -v gh >/dev/null 2>&1")
    );
    assert_eq!(image_has_command("probe", Ok(0), Ok(())).unwrap(), true);
    assert_eq!(image_has_command("probe", Ok(1), Ok(())).unwrap(), false);
    assert_eq!(
        image_has_command("probe", Err(UpError::from_text("no wait")), Ok(()))
            .unwrap_err()
            .chain,
        vec!["no wait"]
    );
    assert_eq!(
        image_has_command("probe", Ok(0), Err(UpError::from_text("busy"))).unwrap_err().chain,
        vec!["Failed to remove command probe container: probe", "busy"]
    );
    assert_eq!(
        image_has_command(
            "probe",
            Err(UpError::from_text("no wait")),
            Err(UpError::from_text("inner").context("busy"))
        )
        .unwrap_err()
        .chain,
        vec!["Failed to remove command probe container probe: busy: inner", "no wait"]
    );
}

#[test]
fn images_are_looked_up_before_they_are_built() {
    let build = Some(LookupBuild { pull: false, no_cache: true });
    assert!(matches!(start_image_lookup(&layered_plan(), None, None), LookupStep::Stop));
    match start_image_lookup(&layered_plan(), None, build) {
        LookupStep::Go { actions, lookup } => {
            assert_eq!(actions.len(), 2);
            assert!(matches!(actions[1], ImageAction::BuildFeatureLayer { no_cache: true }));
            assert_eq!(lookup.image.as_deref(), Some("decune/test:hash"));
        }
        LookupStep::Stop => panic!("stopped"),
    }
    let existing = "sha256:image".to_owned();
    match start_image_lookup(&layered_plan(), Some(&existing), None) {
        LookupStep::Go { actions, lookup } => {
            assert!(actions.is_empty());
            assert_eq!(lookup.image.as_deref(), Some("sha256:image"));
        }
        LookupStep::Stop => panic!("stopped"),
    }
    let lookup = ImageLookup {
        image: Some("alpine:3.20".to_owned()),
        base_image: None,
        stale: None,
        prepared: false,
        deferred: false,
    };
    assert!(finish_image_lookup(&plan(), &lookup, build).is_empty());
}

#[test]
fn completing_a_plan_ends_after_each_step_was_done() {
    let plan = plan();
    let settings = FinalizeSettings {
        existing_image: None,
        build: Some(LookupBuild { pull: false, no_cache: false }),
        forwarding: ForwardingResolution::Resolve,
        update_features: false,
    };
    let (progress, action) = begin_finalize();
    assert!(matches!(action, FinalizeAction::PrepareFeatures));
    let (progress, action) =
        finalize_up_plan_mounts(&settings, &plan, progress, FinalizeEvent::FeaturesPrepared);
    assert!(matches!(action, FinalizeAction::ReadMetadata { ref image } if image == "alpine:3.20"));
    let (progress, action) = finalize_up_plan_mounts(
        &settings,
        &plan,
        progress,
        FinalizeEvent::MetadataRead { is_empty: true, has_forward_ports: false },
    );
    assert!(matches!(action, FinalizeAction::SettleGithubCli { build: Some(_) }));
    let lookup = progress.lookup.clone();
    let (progress, action) = finalize_up_plan_mounts(
        &settings,
        &plan,
        progress,
        FinalizeEvent::GithubCliSettled { lookup },
    );
    assert!(matches!(
        action,
        FinalizeAction::FinalizeResources { remove_feature_lock: true, .. }
    ));
    let (_, action) =
        finalize_up_plan_mounts(&settings, &plan, progress, FinalizeEvent::ResourcesFinalized);
    assert!(matches!(action, FinalizeAction::Done { image_prepared: false, completed: true }));
}

#[test]
fn compose_projects_start_with_their_file_written() {
    let mut chosen = options();
    let fresh = context(Vec::new(), true);
    assert_eq!(
        prepare_compose_user_images(&chosen, &fresh),
        vec![ComposeImageAction::Build { no_cache: false, pull: false }]
    );
    let known = context(vec![summary(true)], true);
    assert!(prepare_compose_user_images(&chosen, &known).is_empty());
    assert_eq!(
        finalize_compose_start_plan(&chosen, &known).existing_image.as_deref(),
        Some("sha256:image")
    );

    let reuse = compose_start_run_options(running(), &chosen, &known, false);
    assert!(reuse.should_reuse);
    assert!(!compose_start_requires_generated_override(&reuse));
    assert_eq!(
        start_finalized_compose_project(&known.subnet_plan, &reuse).last(),
        Some(&ComposeStartStep::RememberContainer { path: LifecycleRunPath::Running })
    );

    for decision in [running(), stopped()] {
        let again = compose_start_run_options(decision, &chosen, &known, false);
        let used: Vec<UpOutcome> = start_finalized_compose_project(&known.subnet_plan, &again)
            .iter()
            .filter_map(compose_container_reused_by)
            .collect();
        assert_eq!(used.len(), 1);
        assert!(used[0].reused);
        assert_eq!(used[0].container_id, "id");
        assert_eq!(used[0].container_name, "name");
    }

    chosen.reuse.rebuild = true;
    let anew = compose_start_run_options(
        ExistingContainerDecision::Recreate { containers: vec![summary(true)] },
        &chosen,
        &known,
        false,
    );
    assert!(!anew.should_reuse);
    let steps = start_finalized_compose_project(
        &ComposeIsolationSubnetPlan {
            allocations: Vec::new(),
            networks_to_remove: vec!["old".to_owned()],
        },
        &anew,
    );
    let up = steps.iter().position(|step| matches!(step, ComposeStartStep::Up { .. })).unwrap();
    let written = steps.iter().position(|step| *step == ComposeStartStep::WriteOverride).unwrap();
    assert!(written < up);
    assert_eq!(
        steps[up],
        ComposeStartStep::Up { force_recreate: true, remove_orphans: true }
    );
    assert!(steps.iter().all(|step| compose_container_reused_by(step).is_none()));
    assert_eq!(steps[0], ComposeStartStep::RemoveNetwork { network: "old".to_owned() });
    assert_eq!(
        network_removal_context("old"),
        "Failed to recreate Docker network `old` for Compose clone isolation. Run decune down, \
         then decune rebuild."
    );

    let mut plain = plan();
    assert!(prepare_finalized_compose_image(&chosen, &known, &mut plain, true).is_none());
    assert_eq!(plain.image, "example/app:dev");
}

#[test]
fn a_running_container_needs_no_image() {
    let fast = start_fast_path(&options(), &context(vec![summary(true)], false)).unwrap();
    assert_eq!(fast.existing_image, "sha256:image");
    assert_eq!(fast.existing_config_hash.as_deref(), Some("hash"));
    assert!(start_fast_path(&options(), &context(vec![summary(false)], false)).is_none());

    let policy =
        ExistingContainerReusePolicy { pull: false, service_forward_requires_recreate: false };
    let outcome =
        try_reuse_running_compose_container_before_image_prepare(running(), policy).unwrap();
    assert_eq!(outcome.container_id, "id");
    assert!(outcome.reused);
    assert!(try_reuse_running_compose_container_before_image_prepare(stopped(), policy).is_none());
}

#[test]
fn moved_ports_need_a_compose_that_can_replace_them() {
    let mut plan = plan();
    plan.config.compose.published_ports.warn_on_relocation = true;
    let moved = ComposePublishedPortPlan { entries: vec![entry(80, 8080, 8081)] };
    let kept = ComposePublishedPortPlan { entries: vec![entry(80, 8080, 8080)] };

    assert_eq!(
        handle_compose_published_port_relocations(Ok(()), &plan, &moved).unwrap(),
        vec!["Compose published port relocation changed service `app` target 80/tcp from 8080 to 8081"]
    );
    let old = || Err(UpError::from_text("too old"));
    assert_eq!(
        handle_compose_published_port_relocations(old(), &plan, &moved).unwrap_err().chain,
        vec!["too old"]
    );
    assert!(handle_compose_published_port_relocations(old(), &plan, &kept).unwrap().is_empty());
}

#[test]
fn compose_plans_name_their_project() {
    let error = compose_plan_source(&plan(), "no project", "no source").unwrap_err();
    assert_eq!(error.chain, vec!["no project"]);
}

#[test]
fn listed_services_have_a_model_of_their_own() {
    let none: Vec<String> = Vec::new();
    assert!(active_config_services(&none).is_none());
    let some = vec!["app".to_owned()];
    assert_eq!(active_config_services(&some), Some(&some));

    let all = ComposeUserConfigs { full: "all", active: None };
    assert_eq!(*all.active_config(), "all");
    let listed = ComposeUserConfigs { full: "all", active: Some("some") };
    assert_eq!(*listed.active_config(), "some");
}

#[test]
fn containers_are_added_to_what_is_known_of_a_project() {
    let held = || ComposePublishedPortReservation {
        service: "app".to_owned(),
        target_port: 80,
        protocol: ComposePortProtocol::Tcp,
        endpoint: endpoint(None, 8080),
        source: ComposePublishedPortReservationSource::RunningContainer,
    };
    let found = |project_containers: Vec<UpContainerSummary>| ExistingComposeContainers {
        project_containers,
        containers: vec![summary(false)],
        published_ports: vec![held()],
        external_host_reservations: vec![HostPortReservation {
            host_ip: "127.0.0.1".to_owned(),
            host: 9090,
        }],
    };
    let mut known = context(Vec::new(), false);
    assert!(!lists_external_published_ports(&known));
    assert!(!lists_project_published_ports(&known, &vec![summary(true)]));
    add_existing_compose_containers(&mut known, found(vec![summary(true)]));
    assert_eq!(known.existing_compose_project_containers.len(), 1);
    assert_eq!(known.existing_compose_containers.len(), 1);
    assert!(known.existing_project_published_ports.is_empty());
    assert!(known.external_host_reservations.is_empty());

    known.published_port_relocation_enabled = true;
    assert!(lists_external_published_ports(&known));
    assert!(!lists_project_published_ports(&known, &Vec::new()));
    assert!(lists_project_published_ports(&known, &vec![summary(true)]));
    add_existing_compose_containers(&mut known, found(Vec::new()));
    assert!(known.existing_project_published_ports.is_empty());
    assert_eq!(known.external_host_reservations.len(), 1);
    add_existing_compose_containers(&mut known, found(vec![summary(true)]));
    assert_eq!(known.existing_project_published_ports.len(), 1);

    let mut plan = plan();
    use_compose_base_image(&mut plan, &known);
    assert_eq!(plan.base_image, "example/app:dev");
    let moved = ComposePublishedPortPlan { entries: vec![entry(80, 8080, 8081)] };
    plan.config.compose.published_ports.automatic_relocation = true;
    let diagnostics =
        compose_startup_diagnostics(&plan, &known.published_port_policy_input, &moved);
    assert!(diagnostics.relocation_enabled);
    assert_eq!(diagnostics.plan.entries.len(), 1);
}

#[test]
fn the_image_of_a_container_is_read_where_the_base_image_is_gone() {
    let image = "sha256:image".to_owned();
    let step = |base, existing| {
        build_existing_container_decision_plan(&plan(), Some(&image), base, existing)
    };
    assert!(matches!(
        step(MetadataRead::Pending, MetadataRead::Pending),
        DecisionMetadataStep::Read { image } if image == "alpine:3.20"
    ));
    assert!(matches!(
        step(MetadataRead::Missing, MetadataRead::Pending),
        DecisionMetadataStep::Read { image } if image == "sha256:image"
    ));
    assert!(matches!(
        step(MetadataRead::Missing, MetadataRead::Missing),
        DecisionMetadataStep::BuildPlain
    ));
    assert!(matches!(
        step(MetadataRead::Found, MetadataRead::Pending),
        DecisionMetadataStep::UseRead
    ));
}

#[test]
fn images_are_read_and_pulled_as_asked() {
    let mut built = plan();
    built.build_context = Some(ResolvedBuildContext {
        context_dir: "/w".to_owned(),
        dockerfile_path: "/w/Dockerfile".to_owned(),
        dockerfile_in_context: "Dockerfile".to_owned(),
        dockerignore_path: None,
    });
    assert_eq!(prepare_image_based_metadata(&plan(), true), Some(PullPolicy::Always));
    assert_eq!(prepare_image_based_metadata(&plan(), false), Some(PullPolicy::Missing));
    assert_eq!(prepare_image_based_metadata(&built, true), None);
    assert!(dockerfile_image_metadata_for_plan(&built));
    assert!(!dockerfile_image_metadata_for_plan(&plan()));

    let image = "sha256:image".to_owned();
    assert_eq!(
        existing_remote_user_image_for_decision(&built, Some(&image), None),
        RemoteUserImageStep::UseContainerImage(Some(&image))
    );
    let mut named = plan();
    named.config_layers.devcontainer = Some(ConfigLayer {
        devcontainer: Some(LayerDevcontainerMetadata {
            remote_user: Some("vscode".to_owned()),
            container_user: Some("vscode".to_owned()),
            ..LayerDevcontainerMetadata::default()
        }),
        ..ConfigLayer::default()
    });
    named.config.devcontainer.remote_user = Some("vscode".to_owned());
    named.config.devcontainer.container_user = Some("vscode".to_owned());
    assert_eq!(
        existing_remote_user_image_for_decision(&named, Some(&image), None),
        RemoteUserImageStep::LookForBaseImage
    );
    assert_eq!(
        existing_remote_user_image_for_decision(&named, Some(&image), Some(true)),
        RemoteUserImageStep::UseNone
    );
    assert_eq!(
        existing_remote_user_image_for_decision(&named, Some(&image), Some(false)),
        RemoteUserImageStep::UseContainerImage(Some(&image))
    );
    let pending = MetadataRead::Pending;
    assert_eq!(note_metadata_read(pending, pending, true), (MetadataRead::Found, pending));
    assert_eq!(
        note_metadata_read(MetadataRead::Missing, pending, false),
        (MetadataRead::Missing, MetadataRead::Missing)
    );

    assert!(finalize_image_start_plan(&plan(), true, false));
    assert!(!finalize_image_start_plan(&layered_plan(), true, false));
    assert!(finalize_image_start_plan(&layered_plan(), false, true));
    assert!(tries_existing_container(&options(), &vec![summary(true)]));
    assert!(!tries_existing_container(&options(), &Vec::new()));
}

#[test]
fn the_startup_command_is_that_of_the_configured_image() {
    let lookup = "sha256:lookup".to_owned();
    assert_eq!(startup_command_image(&plan(), &lookup, true), "alpine:3.20");
    assert_eq!(startup_command_image(&plan(), &lookup, false), "sha256:lookup");
    let mut plan = plan();
    assert!(!startup_command_is_hashed(&plan));
    plan.config.devcontainer.override_command = false;
    assert!(startup_command_is_hashed(&plan));
    let hashed = startup_command_hash_input(
        ImageStartupCommand {
            entrypoint: vec!["/entry".to_owned()],
            command: vec!["serve".to_owned()],
        },
        None,
    );
    assert_eq!(hashed.entrypoint, vec!["/entry"]);
    assert_eq!(hashed.command, vec!["serve"]);
}

#[test]
fn the_github_cli_is_looked_for_in_the_image_in_use() {
    let config = ResolvedConfig::default();
    let lookup_image = "alpine:3.20".to_owned();
    let existing = "sha256:image".to_owned();
    let probe = github_cli_probe(&config, true, Some(&existing), &lookup_image).unwrap();
    assert_eq!(probe.image, "sha256:image");
    assert!(probe.uses_existing_image);
    let probe = github_cli_probe(&config, true, None, &lookup_image).unwrap();
    assert_eq!(probe.image, "alpine:3.20");
    assert!(!probe.uses_existing_image);
    assert!(github_cli_probe(&config, false, None, &lookup_image).is_none());

    let lookup = ImageLookup {
        image: Some("alpine:3.20".to_owned()),
        base_image: None,
        stale: None,
        prepared: false,
        deferred: false,
    };
    let (actions, lookup) = github_cli_image_lookup(
        &layered_plan(),
        lookup,
        Some(LookupBuild { pull: true, no_cache: false }),
    );
    assert_eq!(actions.len(), 2);
    assert_eq!(lookup.image.as_deref(), Some("decune/test:hash"));
    assert_eq!(lookup.base_image.as_deref(), Some("alpine:3.20"));
    assert!(lookup.prepared);
}

#[test]
fn notices_and_warnings_are_told_apart() {
    let mut config = ResolvedConfig::default();
    config.devcontainer.privileged = Some(true);
    config.devcontainer.port_attributes.insert(
        "80".to_owned(),
        ResolvedPortAttributes {
            label: None,
            on_auto_forward: None,
            require_local_port: None,
            unsupported_protocol: None,
            unsupported_elevate_if_needed: Some(true),
        },
    );
    let messages = report_deferred_config_messages(&config);
    assert!(messages.notices[0].contains("privileged"));
    assert_eq!(
        messages.warnings,
        vec![
            "portsAttributes.80.elevateIfNeeded is ignored; low-port privilege elevation is not \
             supported."
        ]
    );
}

#[test]
fn layers_end_up_below_the_final_names() {
    let build = Some(LookupBuild { pull: false, no_cache: false });
    let mut plan = layered_plan();
    plan.image = "decune/test:final".to_owned();
    let lookup = ImageLookup {
        image: Some("decune/test:hash".to_owned()),
        base_image: Some("decune/test:base".to_owned()),
        stale: Some("decune/test:stale".to_owned()),
        prepared: true,
        deferred: false,
    };
    let actions = finish_image_lookup(&plan, &lookup, build);
    let removed: Vec<&str> = actions
        .iter()
        .filter_map(|action| match action {
            ImageAction::RemoveImage { image } => Some(image.as_str()),
            _ => None,
        })
        .collect();
    assert_eq!(removed, vec!["decune/test:hash", "decune/test:base", "decune/test:stale"]);

    let mut plain = self::plan();
    plain.image = "decune/test:final".to_owned();
    let renamed = ImageLookup { base_image: None, stale: None, ..lookup };
    assert!(matches!(
        &finish_image_lookup(&plain, &renamed, build)[..],
        [ImageAction::TagImage { to, .. }, ImageAction::RemoveImage { .. }]
            if to == "decune/test:final"
    ));
}
