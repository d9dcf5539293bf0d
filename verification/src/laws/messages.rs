//! What the user is told about a configuration.

use crate::config::{
    GitHttpsMode, GithubCredentialsMode, LayerUserEnvProbe, MountType, ResolvedConfig,
    ResolvedDevcontainerSource, ResolvedPortAttributes, SshAgentMode,
};
use crate::messages::{
    attribute_warnings, brings_host_files, forwards_git, joined, listed_port_warnings, notices_for,
    port_warnings, publishes_beyond_localhost, warnings_for,
};
use vstd::prelude::*;

verus! {

proof fn told_in_sum(left: Seq<Seq<char>>, right: Seq<Seq<char>>, text: Seq<char>)
    ensures
        (left + right).contains(text) <==> left.contains(text) || right.contains(text),
{
    let both = left + right;
    if left.contains(text) {
        let i = choose|i: int| 0 <= i < left.len() && left[i] == text;
        assert(both[i] == text);
    }
    if right.contains(text) {
        let i = choose|i: int| 0 <= i < right.len() && right[i] == text;
        assert(both[left.len() + i] == text);
    }
    if both.contains(text) {
        let i = choose|i: int| 0 <= i < both.len() && both[i] == text;
        if i < left.len() {
            assert(left[i] == text);
        } else {
            assert(right[i - left.len()] == text);
        }
    }
}

proof fn told_when(condition: bool, message: Seq<char>, text: Seq<char>)
    ensures
        crate::messages::when(condition, message).contains(text) <==> condition && text == message,
{
    if condition {
        assert(seq![message][0] == message);
    }
}

/// Whether a configuration mounts files of the host, or may do so, besides the
/// default mount of the workspace.
pub open spec fn mounts_host_files(config: ResolvedConfig) -> bool {
    ||| exists|i: int|
        0 <= i < config.mounts@.len() && (#[trigger] config.mounts@[i]).mount_type
            == MountType::Bind
    ||| exists|i: int|
        0 <= i < config.devcontainer.mounts@.len() && {
            let mount_type = (#[trigger] config.devcontainer.mounts@[i]).mount_type;
            mount_type is None || mount_type->0 == MountType::Bind
        }
    ||| config.devcontainer.workspace_mount is Some && {
        let mount_type = config.devcontainer.workspace_mount->0.mount_type;
        mount_type is None || mount_type->0 == MountType::Bind
    }
}

/// Whether a text is among several.
#[verifier::opaque]
pub open spec fn is_among(text: Seq<char>, texts: Seq<Seq<char>>) -> bool {
    texts.contains(text)
}

proof fn told_when_added(
    before: Seq<Seq<char>>,
    condition: bool,
    message: Seq<char>,
    text: Seq<char>,
)
    ensures
        is_among(text, before + crate::messages::when(condition, message)) <==> is_among(
            text,
            before,
        ) || (condition && text == message),
{
    reveal(is_among);
    told_in_sum(before, crate::messages::when(condition, message), text);
    told_when(condition, message, text);
}

proof fn told_first(condition: bool, message: Seq<char>, text: Seq<char>)
    ensures
        is_among(text, crate::messages::when(condition, message)) <==> condition && text == message,
{
    reveal(is_among);
    told_when(condition, message, text);
}

proof fn among_is_contained(text: Seq<char>, texts: Seq<Seq<char>>)
    ensures
        is_among(text, texts) <==> texts.contains(text),
{
    reveal(is_among);
}

proof fn host_files_are_mounted(config: ResolvedConfig)
    ensures
        mounts_host_files(config) == brings_host_files(config),
{
}

proof fn twelve_are_listed(
    c0: bool,
    m0: Seq<char>,
    c1: bool,
    m1: Seq<char>,
    c2: bool,
    m2: Seq<char>,
    c3: bool,
    m3: Seq<char>,
    c4: bool,
    m4: Seq<char>,
    c5: bool,
    m5: Seq<char>,
    c6: bool,
    m6: Seq<char>,
    c7: bool,
    m7: Seq<char>,
    c8: bool,
    m8: Seq<char>,
    c9: bool,
    m9: Seq<char>,
    c10: bool,
    m10: Seq<char>,
    c11: bool,
    m11: Seq<char>,
    text: Seq<char>,
)
    ensures
        is_among(
            text,
            crate::messages::when(c0, m0)
                + crate::messages::when(c1, m1)
                + crate::messages::when(c2, m2)
                + crate::messages::when(c3, m3)
                + crate::messages::when(c4, m4)
                + crate::messages::when(c5, m5)
                + crate::messages::when(c6, m6)
                + crate::messages::when(c7, m7)
                + crate::messages::when(c8, m8)
                + crate::messages::when(c9, m9)
                + crate::messages::when(c10, m10)
                + crate::messages::when(c11, m11),
        ) <==> {
            ||| c0 && text == m0
            ||| c1 && text == m1
            ||| c2 && text == m2
            ||| c3 && text == m3
            ||| c4 && text == m4
            ||| c5 && text == m5
            ||| c6 && text == m6
            ||| c7 && text == m7
            ||| c8 && text == m8
            ||| c9 && text == m9
            ||| c10 && text == m10
            ||| c11 && text == m11
        },
{
    let s0 = crate::messages::when(c0, m0);
    told_first(c0, m0, text);
    let s1 = s0 + crate::messages::when(c1, m1);
    told_when_added(s0, c1, m1, text);
    let s2 = s1 + crate::messages::when(c2, m2);
    told_when_added(s1, c2, m2, text);
    let s3 = s2 + crate::messages::when(c3, m3);
    told_when_added(s2, c3, m3, text);
    let s4 = s3 + crate::messages::when(c4, m4);
    told_when_added(s3, c4, m4, text);
    let s5 = s4 + crate::messages::when(c5, m5);
    told_when_added(s4, c5, m5, text);
    let s6 = s5 + crate::messages::when(c6, m6);
    told_when_added(s5, c6, m6, text);
    let s7 = s6 + crate::messages::when(c7, m7);
    told_when_added(s6, c7, m7, text);
    let s8 = s7 + crate::messages::when(c8, m8);
    told_when_added(s7, c8, m8, text);
    let s9 = s8 + crate::messages::when(c9, m9);
    told_when_added(s8, c9, m9, text);
    let s10 = s9 + crate::messages::when(c10, m10);
    told_when_added(s9, c10, m10, text);
    let s11 = s10 + crate::messages::when(c11, m11);
    told_when_added(s10, c11, m11, text);
}

proof fn each_danger_is_listed(config: ResolvedConfig, text: Seq<char>)
    ensures
        is_among(text, notices_for(config)) <==> {
            ||| text == "This dev container builds a workspace Dockerfile, which can execute arbitrary build steps. Review Dockerfile contents before running untrusted repositories."@ && (
                config.devcontainer.source is Some && config.devcontainer.source->0 is Dockerfile)
            ||| text == "This dev container installs Features, whose install.sh scripts execute during image build. Review Feature sources and lock digests before running untrusted repositories."@ && (config.features@.len() > 0)
            ||| text == "This dev container configures entrypoint commands that execute when the container starts. Review entrypoint scripts before running untrusted repositories."@ && (config.devcontainer.entrypoints@.len() > 0)
            ||| text == "This dev container defines lifecycle commands that execute on the host or in the container. Review lifecycle commands before running untrusted repositories."@ && (
                config.devcontainer.lifecycle is Some
                    && config.devcontainer.lifecycle->0.commands@.len() > 0)
            ||| text == "This dev container enables userEnvProbe, which can run shell startup files in the container. Set userEnvProbe to \"none\" for untrusted repositories."@ && (
                config.devcontainer.user_env_probe is Some
                    && config.devcontainer.user_env_probe->0 != LayerUserEnvProbe::NoProbe)
            ||| text == "This dev container requests privileged mode, which grants broad container privileges. Remove privileged=true before running untrusted repositories."@ && (config.devcontainer.privileged == Some(true))
            ||| text == "This dev container adds Linux capabilities ("@ + joined(config.devcontainer.cap_add@, ", "@) + "), which can weaken container isolation. Remove capAdd entries before running untrusted repositories."@ && (config.devcontainer.cap_add@.len() > 0)
            ||| text == "This dev container sets Docker security options ("@ + joined(config.devcontainer.security_opt@, ", "@) + "), which can weaken container isolation. Remove securityOpt entries before running untrusted repositories."@ && (config.devcontainer.security_opt@.len() > 0)
            ||| text == "This dev container declares additional bind mounts that can expose host files. Review mount sources or remove extra bind mounts before running untrusted repositories."@ && (mounts_host_files(config))
            ||| text == "Git credential forwarding is enabled; use https = \"host-helper-read-only\" or set [credentials.git].enabled = false before running untrusted repositories."@ && (
                config.credentials.git.enabled && (config.credentials.git.copy_user
                    || config.credentials.git.copy_global_config
                    || config.credentials.git.https != GitHttpsMode::Off))
            ||| text == "SSH agent forwarding is enabled; set [credentials.git].enabled = false or ssh_agent = \"off\" before running untrusted repositories."@ && (
                config.credentials.git.enabled
                    && config.credentials.git.ssh_agent != SshAgentMode::Off)
            ||| text == "GitHub credential forwarding is enabled; set [credentials.github].enabled = false before running untrusted repositories."@ && (
                config.credentials.github.enabled
                    && config.credentials.github.mode != GithubCredentialsMode::Off)
        },
{
    host_files_are_mounted(config);
    twelve_are_listed(
        config.devcontainer.source matches Some(ResolvedDevcontainerSource::Dockerfile(_)),
        "This dev container builds a workspace Dockerfile, which can execute arbitrary build steps. Review Dockerfile contents before running untrusted repositories."@,
        config.features@.len() > 0,
        "This dev container installs Features, whose install.sh scripts execute during image build. Review Feature sources and lock digests before running untrusted repositories."@,
        config.devcontainer.entrypoints@.len() > 0,
        "This dev container configures entrypoint commands that execute when the container starts. Review entrypoint scripts before running untrusted repositories."@,
        config.devcontainer.lifecycle is Some
                    && config.devcontainer.lifecycle->0.commands@.len() > 0,
        "This dev container defines lifecycle commands that execute on the host or in the container. Review lifecycle commands before running untrusted repositories."@,
        config.devcontainer.user_env_probe is Some
                    && config.devcontainer.user_env_probe->0 != LayerUserEnvProbe::NoProbe,
        "This dev container enables userEnvProbe, which can run shell startup files in the container. Set userEnvProbe to \"none\" for untrusted repositories."@,
        config.devcontainer.privileged == Some(true),
        "This dev container requests privileged mode, which grants broad container privileges. Remove privileged=true before running untrusted repositories."@,
        config.devcontainer.cap_add@.len() > 0,
        "This dev container adds Linux capabilities ("@ + joined(config.devcontainer.cap_add@, ", "@) + "), which can weaken container isolation. Remove capAdd entries before running untrusted repositories."@,
        config.devcontainer.security_opt@.len() > 0,
        "This dev container sets Docker security options ("@ + joined(config.devcontainer.security_opt@, ", "@) + "), which can weaken container isolation. Remove securityOpt entries before running untrusted repositories."@,
        brings_host_files(config),
        "This dev container declares additional bind mounts that can expose host files. Review mount sources or remove extra bind mounts before running untrusted repositories."@,
        forwards_git(config),
        "Git credential forwarding is enabled; use https = \"host-helper-read-only\" or set [credentials.git].enabled = false before running untrusted repositories."@,
        config.credentials.git.enabled
                    && config.credentials.git.ssh_agent != SshAgentMode::Off,
        "SSH agent forwarding is enabled; set [credentials.git].enabled = false or ssh_agent = \"off\" before running untrusted repositories."@,
        config.credentials.github.enabled
                    && config.credentials.github.mode != GithubCredentialsMode::Off,
        "GitHub credential forwarding is enabled; set [credentials.github].enabled = false before running untrusted repositories."@,
        text,
    );
}

/// The user is told of each thing that a configuration lets code of the
/// workspace do, exactly where it does: build a Dockerfile, install Features,
/// run entrypoints or lifecycle commands, read shell start-up files, run
/// privileged, with capabilities or security options, see files of the host, and
/// use Git credentials, the SSH agent or GitHub credentials. Nothing else is
/// told.
pub proof fn each_danger_is_told(config: ResolvedConfig, text: Seq<char>)
    ensures
        notices_for(config).contains(text) <==> {
            ||| text == "This dev container builds a workspace Dockerfile, which can execute arbitrary build steps. Review Dockerfile contents before running untrusted repositories."@ && (
                config.devcontainer.source is Some && config.devcontainer.source->0 is Dockerfile)
            ||| text == "This dev container installs Features, whose install.sh scripts execute during image build. Review Feature sources and lock digests before running untrusted repositories."@ && (config.features@.len() > 0)
            ||| text == "This dev container configures entrypoint commands that execute when the container starts. Review entrypoint scripts before running untrusted repositories."@ && (config.devcontainer.entrypoints@.len() > 0)
            ||| text == "This dev container defines lifecycle commands that execute on the host or in the container. Review lifecycle commands before running untrusted repositories."@ && (
                config.devcontainer.lifecycle is Some
                    && config.devcontainer.lifecycle->0.commands@.len() > 0)
            ||| text == "This dev container enables userEnvProbe, which can run shell startup files in the container. Set userEnvProbe to \"none\" for untrusted repositories."@ && (
                config.devcontainer.user_env_probe is Some
                    && config.devcontainer.user_env_probe->0 != LayerUserEnvProbe::NoProbe)
            ||| text == "This dev container requests privileged mode, which grants broad container privileges. Remove privileged=true before running untrusted repositories."@ && (config.devcontainer.privileged == Some(true))
            ||| text == "This dev container adds Linux capabilities ("@ + joined(config.devcontainer.cap_add@, ", "@) + "), which can weaken container isolation. Remove capAdd entries before running untrusted repositories."@ && (config.devcontainer.cap_add@.len() > 0)
            ||| text == "This dev container sets Docker security options ("@ + joined(config.devcontainer.security_opt@, ", "@) + "), which can weaken container isolation. Remove securityOpt entries before running untrusted repositories."@ && (config.devcontainer.security_opt@.len() > 0)
            ||| text == "This dev container declares additional bind mounts that can expose host files. Review mount sources or remove extra bind mounts before running untrusted repositories."@ && (mounts_host_files(config))
            ||| text == "Git credential forwarding is enabled; use https = \"host-helper-read-only\" or set [credentials.git].enabled = false before running untrusted repositories."@ && (
                config.credentials.git.enabled && (config.credentials.git.copy_user
                    || config.credentials.git.copy_global_config
                    || config.credentials.git.https != GitHttpsMode::Off))
            ||| text == "SSH agent forwarding is enabled; set [credentials.git].enabled = false or ssh_agent = \"off\" before running untrusted repositories."@ && (
                config.credentials.git.enabled
                    && config.credentials.git.ssh_agent != SshAgentMode::Off)
            ||| text == "GitHub credential forwarding is enabled; set [credentials.github].enabled = false before running untrusted repositories."@ && (
                config.credentials.github.enabled
                    && config.credentials.github.mode != GithubCredentialsMode::Off)
        },
{
    each_danger_is_listed(config, text);
    among_is_contained(text, notices_for(config));
}

/// The user is warned of ports that Docker publishes to other machines, as far
/// as not all are published on the local address, and of variables that are not
/// rewritten because clones are not kept apart; then of unsupported attributes
/// of ports.
pub proof fn misleading_settings_are_told(config: ResolvedConfig)
    ensures
        ({
            let wide = exists|i: int|
                0 <= i < config.devcontainer.publish_ports@.len() && !((
                #[trigger] config.devcontainer.publish_ports@[i]).host_ip is Some
                    && config.devcontainer.publish_ports@[i].host_ip->0@ == "127.0.0.1"@);
            let idle = !config.compose.clone_isolation.enabled
                && config.compose.clone_isolation.endpoints@.len() > 0;
            let first = "This dev container publishes appPort through Docker, which may bind outside localhost when no host IP is specified. Use forwardPorts, decune [[ports]], or CLI -p for localhost-only access."@;
            let second = "compose.clone_isolation.endpoints is ignored because compose.clone_isolation.enabled is false; set compose.clone_isolation.enabled = true to enable endpoint rewriting."@;
            let others = port_warnings(config);
            &&& wide && idle ==> warnings_for(config) == seq![first, second] + others
            &&& wide && !idle ==> warnings_for(config) == seq![first] + others
            &&& !wide && idle ==> warnings_for(config) == seq![second] + others
            &&& !wide && !idle ==> warnings_for(config) == others
        }),
{
    let wide = exists|i: int|
        0 <= i < config.devcontainer.publish_ports@.len() && !((
        #[trigger] config.devcontainer.publish_ports@[i]).host_ip is Some
            && config.devcontainer.publish_ports@[i].host_ip->0@ == "127.0.0.1"@);
    assert(wide == publishes_beyond_localhost(config));
    let first = "This dev container publishes appPort through Docker, which may bind outside localhost when no host IP is specified. Use forwardPorts, decune [[ports]], or CLI -p for localhost-only access."@;
    let second = "compose.clone_isolation.endpoints is ignored because compose.clone_isolation.enabled is false; set compose.clone_isolation.enabled = true to enable endpoint rewriting."@;
    let idle = !config.compose.clone_isolation.enabled
        && config.compose.clone_isolation.endpoints@.len() > 0;
    let others = port_warnings(config);
    if wide && idle {
        assert(warnings_for(config) =~= seq![first, second] + others);
    } else if wide {
        assert(warnings_for(config) =~= seq![first] + others);
    } else if idle {
        assert(warnings_for(config) =~= seq![second] + others);
    } else {
        assert(warnings_for(config) =~= others);
    }
}

proof fn listed_warnings(
    entries: Seq<(Seq<char>, ResolvedPortAttributes)>,
    text: Seq<char>,
)
    ensures
        listed_port_warnings(entries).contains(text) <==> exists|i: int|
            0 <= i < entries.len() && attribute_warnings(
                "portsAttributes."@ + (#[trigger] entries[i]).0,
                entries[i].1,
            ).contains(text),
    decreases entries.len(),
{
    if entries.len() > 0 {
        let front = entries.drop_last();
        let own = attribute_warnings("portsAttributes."@ + entries.last().0, entries.last().1);
        listed_warnings(front, text);
        told_in_sum(listed_port_warnings(front), own, text);
        if listed_port_warnings(front).contains(text) {
            let i = choose|i: int|
                0 <= i < front.len() && attribute_warnings(
                    "portsAttributes."@ + (#[trigger] front[i]).0,
                    front[i].1,
                ).contains(text);
            assert(entries[i] == front[i]);
        }
        if own.contains(text) {
            assert(entries[entries.len() - 1] == entries.last());
        }
        if exists|i: int|
            0 <= i < entries.len() && attribute_warnings(
                "portsAttributes."@ + (#[trigger] entries[i]).0,
                entries[i].1,
            ).contains(text) {
            let i = choose|i: int|
                0 <= i < entries.len() && attribute_warnings(
                    "portsAttributes."@ + (#[trigger] entries[i]).0,
                    entries[i].1,
                ).contains(text);
            if i < front.len() {
                assert(front[i] == entries[i]);
            }
        }
    }
}

/// Whether a text warns of an attribute of a port that is not supported.
pub open spec fn warns_of_attribute(
    path: Seq<char>,
    attributes: ResolvedPortAttributes,
    text: Seq<char>,
) -> bool {
    ||| attributes.unsupported_protocol is Some && text == path + ".protocol is ignored (value: "@
        + attributes.unsupported_protocol->0@
        + "); raw TCP forwarding only supports label, onAutoForward, and requireLocalPort."@
    ||| attributes.unsupported_elevate_if_needed is Some && text == path
        + ".elevateIfNeeded is ignored; low-port privilege elevation is not supported."@
}

proof fn attributes_are_told(path: Seq<char>, attributes: ResolvedPortAttributes, text: Seq<char>)
    ensures
        attribute_warnings(path, attributes).contains(text) <==> warns_of_attribute(
            path,
            attributes,
            text,
        ),
{
    let elevate = path
        + ".elevateIfNeeded is ignored; low-port privilege elevation is not supported."@;
    let second = crate::messages::when(attributes.unsupported_elevate_if_needed is Some, elevate);
    told_when(attributes.unsupported_elevate_if_needed is Some, elevate, text);
    match attributes.unsupported_protocol {
        Some(protocol) => {
            let message = path + ".protocol is ignored (value: "@ + protocol@
                + "); raw TCP forwarding only supports label, onAutoForward, and requireLocalPort."@;
            told_in_sum(seq![message], second, text);
            told_when(true, message, text);
        },
        None => {
            told_in_sum(Seq::empty(), second, text);
        },
    }
}

/// The user is warned of each attribute of a port that is not supported: of
/// listed ports under their own name, and of all others together. Of nothing
/// else is warned.
pub proof fn unsupported_attributes_are_told(config: ResolvedConfig, text: Seq<char>)
    ensures
        port_warnings(config).contains(text) <==> {
            ||| exists|i: int|
                0 <= i < config.devcontainer.port_attributes@.len() && warns_of_attribute(
                    "portsAttributes."@ + (#[trigger] config.devcontainer.port_attributes@[i]).0,
                    config.devcontainer.port_attributes@[i].1,
                    text,
                )
            ||| config.devcontainer.other_ports_attributes is Some && warns_of_attribute(
                "otherPortsAttributes"@,
                config.devcontainer.other_ports_attributes->0,
                text,
            )
        },
{
    let entries = config.devcontainer.port_attributes@;
    let listed = listed_port_warnings(entries);
    let others = match config.devcontainer.other_ports_attributes {
        Some(attributes) => attribute_warnings("otherPortsAttributes"@, attributes),
        None => Seq::empty(),
    };
    told_in_sum(listed, others, text);
    listed_warnings(entries, text);
    if config.devcontainer.other_ports_attributes is Some {
        attributes_are_told(
            "otherPortsAttributes"@,
            config.devcontainer.other_ports_attributes->0,
            text,
        );
    }
    assert forall|i: int| 0 <= i < entries.len() implies warns_of_attribute(
        "portsAttributes."@ + (#[trigger] entries[i]).0,
        entries[i].1,
        text,
    ) == attribute_warnings("portsAttributes."@ + entries[i].0, entries[i].1).contains(text) by {
        attributes_are_told("portsAttributes."@ + entries[i].0, entries[i].1, text);
    }
}

/// Texts are joined one behind the other, with the separator between any two.
pub proof fn texts_are_joined_in_order(
    texts: Seq<String>,
    more: String,
    separator: Seq<char>,
)
    ensures
        joined(Seq::empty(), separator).len() == 0,
        joined(seq![more], separator) == more@,
        texts.len() > 0 ==> joined(texts.push(more), separator) == joined(texts, separator)
            + separator + more@,
{
    assert(texts.push(more).drop_last() =~= texts);
    assert(seq![more][0] == more);
}

} // verus!
