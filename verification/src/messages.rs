//! What the user is told about a configuration before anything is started.

use crate::config::{
    GitHttpsMode, GithubCredentialsMode, LayerDevcontainerMount, LayerUserEnvProbe, MountType,
    ResolvedConfig, ResolvedDevcontainerSource, ResolvedPortAttributes, SshAgentMode,
};
use crate::text::{same_text, views};
use vstd::prelude::*;
use vstd::string::*;

verus! {

/// Texts with a separator between them.
pub open spec fn joined(texts: Seq<String>, separator: Seq<char>) -> Seq<char>
    decreases texts.len(),
{
    if texts.len() == 0 {
        Seq::empty()
    } else if texts.len() == 1 {
        texts[0]@
    } else {
        joined(texts.drop_last(), separator) + separator + texts.last()@
    }
}

/// Texts with a separator between them.
pub fn join(texts: &Vec<String>, separator: &str) -> (res: String)
    ensures
        res@ == joined(texts@, separator@),
{
    let mut text = String::new();
    let mut i: usize = 0;
    assert(texts@.take(0) =~= Seq::empty());
    while i < texts.len()
        invariant
            i <= texts@.len(),
            text@ == joined(texts@.take(i as int), separator@),
        decreases texts@.len() - i,
    {
        assert(texts@.take(i as int + 1).drop_last() =~= texts@.take(i as int));
        if i > 0 {
            text.append(separator);
        }
        text.append(texts[i].as_str());
        assert(i == 0 ==> text@ =~= texts@[0]@);
        i = i + 1;
    }
    assert(texts@.take(texts@.len() as int) =~= texts@);
    text
}

/// A text where a condition holds, and nothing where it does not.
pub open spec fn when(condition: bool, text: Seq<char>) -> Seq<Seq<char>> {
    if condition {
        seq![text]
    } else {
        Seq::empty()
    }
}

fn push_when(texts: &mut Vec<String>, condition: bool, text: &str)
    ensures
        views(final(texts)@) == views(old(texts)@) + when(condition, text@),
{
    let ghost before = texts@;
    if condition {
        texts.push(text.to_owned());
    }
    assert(views(texts@) =~= views(before) + when(condition, text@));
}

/// Whether a mount brings in files of the host, or may do so.
pub open spec fn may_be_bind(mount: LayerDevcontainerMount) -> bool {
    mount.mount_type is None || mount.mount_type == Some(MountType::Bind)
}

/// Whether a mount brings in files of the host, or may do so.
pub fn devcontainer_mount_is_bind_or_unknown(mount: &LayerDevcontainerMount) -> (res: bool)
    ensures
        res == may_be_bind(*mount),
{
    match mount.mount_type {
        Some(mount_type) => mount_type == MountType::Bind,
        None => true,
    }
}

/// Whether a configuration brings in files of the host besides the default
/// mount of the workspace.
pub open spec fn brings_host_files(config: ResolvedConfig) -> bool {
    ||| exists|i: int|
        0 <= i < config.mounts@.len() && (#[trigger] config.mounts@[i]).mount_type
            == MountType::Bind
    ||| exists|i: int|
        0 <= i < config.devcontainer.mounts@.len() && may_be_bind(
            #[trigger] config.devcontainer.mounts@[i],
        )
    ||| config.devcontainer.workspace_mount is Some && may_be_bind(
        config.devcontainer.workspace_mount->0,
    )
}

/// Whether a configuration brings in files of the host besides the default
/// mount of the workspace.
pub fn has_extra_bind_mounts(config: &ResolvedConfig) -> (res: bool)
    ensures
        res == brings_host_files(*config),
{
    let mut i: usize = 0;
    while i < config.mounts.len()
        invariant
            i <= config.mounts@.len(),
            forall|j: int|
                0 <= j < i ==> (#[trigger] config.mounts@[j]).mount_type != MountType::Bind,
        decreases config.mounts@.len() - i,
    {
        if config.mounts[i].mount_type == MountType::Bind {
            return true;
        }
        i = i + 1;
    }
    let mut k: usize = 0;
    while k < config.devcontainer.mounts.len()
        invariant
            k <= config.devcontainer.mounts@.len(),
            forall|j: int|
                0 <= j < k ==> !may_be_bind(#[trigger] config.devcontainer.mounts@[j]),
        decreases config.devcontainer.mounts@.len() - k,
    {
        if devcontainer_mount_is_bind_or_unknown(&config.devcontainer.mounts[k]) {
            return true;
        }
        k = k + 1;
    }
    match &config.devcontainer.workspace_mount {
        Some(mount) => devcontainer_mount_is_bind_or_unknown(mount),
        None => false,
    }
}

/// Whether Git credentials of the host are handed in, apart from the SSH
/// agent.
pub open spec fn forwards_git(config: ResolvedConfig) -> bool {
    let git = config.credentials.git;
    git.enabled && (git.copy_user || git.copy_global_config || git.https != GitHttpsMode::Off)
}

/// The notices about what a configuration lets code of the workspace do, one
/// for each thing that it does.
pub open spec fn notices_for(config: ResolvedConfig) -> Seq<Seq<char>> {
    when(
        config.devcontainer.source matches Some(ResolvedDevcontainerSource::Dockerfile(_)),
        "This dev container builds a workspace Dockerfile, which can execute arbitrary build steps. Review Dockerfile contents before running untrusted repositories."@,
    ) + when(
        config.features@.len() > 0,
        "This dev container installs Features, whose install.sh scripts execute during image build. Review Feature sources and lock digests before running untrusted repositories."@,
    ) + when(
        config.devcontainer.entrypoints@.len() > 0,
        "This dev container configures entrypoint commands that execute when the container starts. Review entrypoint scripts before running untrusted repositories."@,
    ) + when(
        config.devcontainer.lifecycle is Some && config.devcontainer.lifecycle->0.commands@.len()
            > 0,
        "This dev container defines lifecycle commands that execute on the host or in the container. Review lifecycle commands before running untrusted repositories."@,
    ) + when(
        config.devcontainer.user_env_probe is Some && config.devcontainer.user_env_probe->0
            != LayerUserEnvProbe::NoProbe,
        "This dev container enables userEnvProbe, which can run shell startup files in the container. Set userEnvProbe to \"none\" for untrusted repositories."@,
    ) + when(
        config.devcontainer.privileged == Some(true),
        "This dev container requests privileged mode, which grants broad container privileges. Remove privileged=true before running untrusted repositories."@,
    ) + when(
        config.devcontainer.cap_add@.len() > 0,
        "This dev container adds Linux capabilities ("@ + joined(
            config.devcontainer.cap_add@,
            ", "@,
        )
            + "), which can weaken container isolation. Remove capAdd entries before running untrusted repositories."@,
    ) + when(
        config.devcontainer.security_opt@.len() > 0,
        "This dev container sets Docker security options ("@ + joined(
            config.devcontainer.security_opt@,
            ", "@,
        )
            + "), which can weaken container isolation. Remove securityOpt entries before running untrusted repositories."@,
    ) + when(
        brings_host_files(config),
        "This dev container declares additional bind mounts that can expose host files. Review mount sources or remove extra bind mounts before running untrusted repositories."@,
    ) + when(
        forwards_git(config),
        "Git credential forwarding is enabled; use https = \"host-helper-read-only\" or set [credentials.git].enabled = false before running untrusted repositories."@,
    ) + when(
        config.credentials.git.enabled && config.credentials.git.ssh_agent != SshAgentMode::Off,
        "SSH agent forwarding is enabled; set [credentials.git].enabled = false or ssh_agent = \"off\" before running untrusted repositories."@,
    ) + when(
        config.credentials.github.enabled && config.credentials.github.mode
            != GithubCredentialsMode::Off,
        "GitHub credential forwarding is enabled; set [credentials.github].enabled = false before running untrusted repositories."@,
    )
}

/// The notices about what a configuration lets code of the workspace do.
pub fn security_notices(config: &ResolvedConfig) -> (res: Vec<String>)
    ensures
        views(res@) == notices_for(*config),
{
    let devcontainer = &config.devcontainer;
    let mut notices: Vec<String> = Vec::new();
    let builds = match &devcontainer.source {
        Some(ResolvedDevcontainerSource::Dockerfile(_)) => true,
        _ => false,
    };
    push_when(
        &mut notices,
        builds,
        "This dev container builds a workspace Dockerfile, which can execute arbitrary build steps. Review Dockerfile contents before running untrusted repositories.",
    );
    push_when(
        &mut notices,
        config.features.len() > 0,
        "This dev container installs Features, whose install.sh scripts execute during image build. Review Feature sources and lock digests before running untrusted repositories.",
    );
    push_when(
        &mut notices,
        devcontainer.entrypoints.len() > 0,
        "This dev container configures entrypoint commands that execute when the container starts. Review entrypoint scripts before running untrusted repositories.",
    );
    let has_commands = match &devcontainer.lifecycle {
        Some(lifecycle) => lifecycle.has_commands(),
        None => false,
    };
    push_when(
        &mut notices,
        has_commands,
        "This dev container defines lifecycle commands that execute on the host or in the container. Review lifecycle commands before running untrusted repositories.",
    );
    let probes = match devcontainer.user_env_probe {
        Some(probe) => probe != LayerUserEnvProbe::NoProbe,
        None => false,
    };
    push_when(
        &mut notices,
        probes,
        "This dev container enables userEnvProbe, which can run shell startup files in the container. Set userEnvProbe to \"none\" for untrusted repositories.",
    );
    push_when(
        &mut notices,
        devcontainer.privileged_enabled(),
        "This dev container requests privileged mode, which grants broad container privileges. Remove privileged=true before running untrusted repositories.",
    );
    let mut capabilities = "This dev container adds Linux capabilities (".to_owned();
    capabilities.append(join(&devcontainer.cap_add, ", ").as_str());
    capabilities.append(
        "), which can weaken container isolation. Remove capAdd entries before running untrusted repositories.",
    );
    push_when(&mut notices, devcontainer.cap_add.len() > 0, capabilities.as_str());
    let mut options = "This dev container sets Docker security options (".to_owned();
    options.append(join(&devcontainer.security_opt, ", ").as_str());
    options.append(
        "), which can weaken container isolation. Remove securityOpt entries before running untrusted repositories.",
    );
    push_when(&mut notices, devcontainer.security_opt.len() > 0, options.as_str());
    push_when(
        &mut notices,
        has_extra_bind_mounts(config),
        "This dev container declares additional bind mounts that can expose host files. Review mount sources or remove extra bind mounts before running untrusted repositories.",
    );
    let git = config.credentials.git;
    push_when(
        &mut notices,
        git.enabled && (git.copy_user || git.copy_global_config || matches!(
            git.https,
            GitHttpsMode::HostHelper | GitHttpsMode::HostHelperReadOnly
        )),
        "Git credential forwarding is enabled; use https = \"host-helper-read-only\" or set [credentials.git].enabled = false before running untrusted repositories.",
    );
    push_when(
        &mut notices,
        git.enabled && git.ssh_agent != SshAgentMode::Off,
        "SSH agent forwarding is enabled; set [credentials.git].enabled = false or ssh_agent = \"off\" before running untrusted repositories.",
    );
    let github = config.credentials.github;
    push_when(
        &mut notices,
        github.enabled && github.mode != GithubCredentialsMode::Off,
        "GitHub credential forwarding is enabled; set [credentials.github].enabled = false before running untrusted repositories.",
    );
    assert(views(notices@) =~= notices_for(*config));
    notices
}

/// Whether a published port may be reached from other machines.
pub open spec fn publishes_beyond_localhost(config: ResolvedConfig) -> bool {
    exists|i: int|
        0 <= i < config.devcontainer.publish_ports@.len() && match (
        #[trigger] config.devcontainer.publish_ports@[i]).host_ip {
            Some(host_ip) => host_ip@ != "127.0.0.1"@,
            None => true,
        }
}

fn publishes_widely(config: &ResolvedConfig) -> (res: bool)
    ensures
        res == publishes_beyond_localhost(*config),
{
    let ports = &config.devcontainer.publish_ports;
    let mut i: usize = 0;
    while i < ports.len()
        invariant
            *ports == config.devcontainer.publish_ports,
            i <= ports@.len(),
            forall|j: int|
                0 <= j < i ==> ((#[trigger] config.devcontainer.publish_ports@[j]).host_ip
                    matches Some(host_ip) && host_ip@ == "127.0.0.1"@),
        decreases ports@.len() - i,
    {
        assert(config.devcontainer.publish_ports@[i as int] == ports@[i as int]);
        match &ports[i].host_ip {
            Some(host_ip) => {
                if !same_text(host_ip.as_str(), "127.0.0.1") {
                    return true;
                }
            },
            None => {
                return true;
            },
        }
        i = i + 1;
    }
    false
}

/// The warnings about attributes of one port that are not supported.
pub open spec fn attribute_warnings(
    path: Seq<char>,
    attributes: ResolvedPortAttributes,
) -> Seq<Seq<char>> {
    (match attributes.unsupported_protocol {
        Some(protocol) => seq![
            path + ".protocol is ignored (value: "@ + protocol@
                + "); raw TCP forwarding only supports label, onAutoForward, and requireLocalPort."@,
        ],
        None => Seq::empty(),
    }) + when(
        attributes.unsupported_elevate_if_needed is Some,
        path + ".elevateIfNeeded is ignored; low-port privilege elevation is not supported."@,
    )
}

/// The warnings about attributes of one port that are not supported.
pub fn unsupported_single_port_attribute_warnings(
    path: &str,
    attributes: &ResolvedPortAttributes,
) -> (res: Vec<String>)
    ensures
        views(res@) == attribute_warnings(path@, *attributes),
{
    let mut warnings: Vec<String> = Vec::new();
    if let Some(protocol) = &attributes.unsupported_protocol {
        let mut warning = path.to_owned();
        warning.append(".protocol is ignored (value: ");
        warning.append(protocol.as_str());
        warning.append(
            "); raw TCP forwarding only supports label, onAutoForward, and requireLocalPort.",
        );
        warnings.push(warning);
    }
    if attributes.unsupported_elevate_if_needed.is_some() {
        let mut warning = path.to_owned();
        warning.append(
            ".elevateIfNeeded is ignored; low-port privilege elevation is not supported.",
        );
        warnings.push(warning);
    }
    assert(views(warnings@) =~= attribute_warnings(path@, *attributes));
    warnings
}

/// The warnings about attributes of listed ports that are not supported, in
/// the order of the ports.
pub open spec fn listed_port_warnings(
    entries: Seq<(Seq<char>, ResolvedPortAttributes)>,
) -> Seq<Seq<char>>
    decreases entries.len(),
{
    if entries.len() == 0 {
        Seq::empty()
    } else {
        listed_port_warnings(entries.drop_last()) + attribute_warnings(
            "portsAttributes."@ + entries.last().0,
            entries.last().1,
        )
    }
}

/// The warnings about attributes of ports that are not supported.
pub open spec fn port_warnings(config: ResolvedConfig) -> Seq<Seq<char>> {
    listed_port_warnings(config.devcontainer.port_attributes@) + match config.devcontainer.other_ports_attributes {
        Some(attributes) => attribute_warnings("otherPortsAttributes"@, attributes),
        None => Seq::empty(),
    }
}

/// The warnings about attributes of ports that are not supported.
pub fn unsupported_port_attribute_warnings(config: &ResolvedConfig) -> (res: Vec<String>)
    ensures
        views(res@) == port_warnings(*config),
{
    let attributes = &config.devcontainer.port_attributes;
    let mut warnings: Vec<String> = Vec::new();
    let mut i: usize = 0;
    assert(attributes@.take(0) =~= Seq::empty());
    assert(views(warnings@) =~= listed_port_warnings(attributes@.take(0)));
    while i < attributes.len()
        invariant
            i <= attributes@.len(),
            views(warnings@) == listed_port_warnings(attributes@.take(i as int)),
        decreases attributes@.len() - i,
    {
        assert(attributes@.take(i as int + 1).drop_last() =~= attributes@.take(i as int));
        let ghost before = warnings@;
        let mut path = "portsAttributes.".to_owned();
        path.append(attributes.key_at(i).as_str());
        let mut more = unsupported_single_port_attribute_warnings(
            path.as_str(),
            attributes.value_at(i),
        );
        let ghost added = more@;
        warnings.append(&mut more);
        assert(views(warnings@) =~= views(before) + views(added));
        i = i + 1;
    }
    assert(attributes@.take(attributes@.len() as int) =~= attributes@);
    if let Some(others) = &config.devcontainer.other_ports_attributes {
        let ghost before = warnings@;
        let mut more = unsupported_single_port_attribute_warnings("otherPortsAttributes", others);
        let ghost added = more@;
        warnings.append(&mut more);
        assert(views(warnings@) =~= views(before) + views(added));
    }
    assert(views(warnings@) =~= port_warnings(*config));
    warnings
}

/// The warnings about settings that do not do what they seem to.
pub open spec fn warnings_for(config: ResolvedConfig) -> Seq<Seq<char>> {
    when(
        publishes_beyond_localhost(config),
        "This dev container publishes appPort through Docker, which may bind outside localhost when no host IP is specified. Use forwardPorts, decune [[ports]], or CLI -p for localhost-only access."@,
    ) + when(
        !config.compose.clone_isolation.enabled && config.compose.clone_isolation.endpoints@.len()
            > 0,
        "compose.clone_isolation.endpoints is ignored because compose.clone_isolation.enabled is false; set compose.clone_isolation.enabled = true to enable endpoint rewriting."@,
    ) + port_warnings(config)
}

/// The warnings about settings that do not do what they seem to.
pub fn deferred_config_warnings(config: &ResolvedConfig) -> (res: Vec<String>)
    ensures
        views(res@) == warnings_for(*config),
{
    let mut warnings: Vec<String> = Vec::new();
    push_when(
        &mut warnings,
        publishes_widely(config),
        "This dev container publishes appPort through Docker, which may bind outside localhost when no host IP is specified. Use forwardPorts, decune [[ports]], or CLI -p for localhost-only access.",
    );
    let isolation = &config.compose.clone_isolation;
    push_when(
        &mut warnings,
        !isolation.enabled && isolation.endpoints.len() > 0,
        "compose.clone_isolation.endpoints is ignored because compose.clone_isolation.enabled is false; set compose.clone_isolation.enabled = true to enable endpoint rewriting.",
    );
    let ghost before = warnings@;
    let mut more = unsupported_port_attribute_warnings(config);
    let ghost added = more@;
    warnings.append(&mut more);
    assert(views(warnings@) =~= views(before) + views(added));
    assert(views(warnings@) =~= warnings_for(*config));
    warnings
}

/// What is printed about a configuration before anything is started.
#[derive(Debug)]
pub struct ConfigMessages {
    /// Notices, printed first.
    pub notices: Vec<String>,
    /// Warnings, printed behind them.
    pub warnings: Vec<String>,
}

/// What is printed about a configuration before anything is started: the
/// notices, then the warnings.
pub fn report_deferred_config_messages(config: &ResolvedConfig) -> (res: ConfigMessages)
    ensures
        views(res.notices@) == notices_for(*config),
        views(res.warnings@) == warnings_for(*config),
{
    ConfigMessages {
        notices: security_notices(config),
        warnings: deferred_config_warnings(config),
    }
}

} // verus!
