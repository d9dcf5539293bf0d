//! Shells, start-up commands, and the end of a session.

use crate::config::ResolvedShutdownAction;
use crate::docker::ImageStartupCommand;
use crate::error::UpError;
use crate::laws::text::number_of;
use crate::numbers::{digits_value, port_value, NumberFault};
use crate::run::shutdown_step;
use crate::shell::{next_candidate, shell_candidates};
use crate::startup_command::{effective_command, effective_entrypoint, ComposeConfigService};
use crate::text::trimmed;
use crate::types::{joined_path, UpPlan};
use vstd::prelude::*;

verus! {

/// A shell that the configuration names is tried alone. Otherwise the login
/// shell of the user comes first, where there is one, and `/bin/bash` and then
/// `/bin/sh` are always tried last, in this order. White space around a shell
/// does not count, and what is nothing else names no shell.
pub proof fn configured_shells_are_tried_alone(
    config_shell: Option<Seq<char>>,
    user_shell: Option<Seq<char>>,
)
    ensures
        ({
            let tried = shell_candidates(config_shell, user_shell);
            let configured = config_shell is Some && trimmed(config_shell->0).len() > 0;
            let known = user_shell is Some && trimmed(user_shell->0).len() > 0;
            &&& configured ==> tried == seq![trimmed(config_shell->0)]
            &&& !configured ==> tried.len() >= 2 && tried[tried.len() - 2] == "/bin/bash"@
                && tried[tried.len() - 1] == "/bin/sh"@
            &&& !configured && known ==> tried[0] == trimmed(user_shell->0)
            &&& !configured && tried.len() > 2 ==> tried.len() == 3 && known
            &&& !configured && known && trimmed(user_shell->0) != "/bin/bash"@ ==> tried.len() == 3
        }),
{
}

/// Shells are tried in order, one after the other failed; only once all have
/// failed, or there is none, is that an error.
pub proof fn shells_are_tried_in_order(
    candidates: Seq<String>,
    failures: Seq<UpError>,
    outcome: Result<String, UpError>,
)
    requires
        failures.len() <= candidates.len(),
        next_candidate(candidates, failures, outcome),
    ensures
        outcome is Ok <==> failures.len() < candidates.len(),
        outcome is Ok ==> outcome->Ok_0 == candidates[failures.len() as int],
        outcome is Err ==> outcome->Err_0@.len() == 1,
        candidates.len() == 0 ==> outcome->Err_0@[0] == "No shell command candidate is available"@,
{
}

/// What is stopped when an attached session ends is what the configuration
/// says: nothing, the container, or the Compose project. The project is stopped
/// only where the container is one of its services; otherwise it is the
/// container.
pub proof fn sessions_end_as_configured(plan: UpPlan)
    ensures
        ({
            let action = plan.config.devcontainer.shutdown_action;
            let in_project = plan.compose_project is Some && plan.config.devcontainer.source is Some
                && plan.config.devcontainer.source->0 is Compose;
            &&& shutdown_step(plan) is KeepRunning <==> action
                == ResolvedShutdownAction::KeepRunning
            &&& shutdown_step(plan) is StopCompose <==> action
                == ResolvedShutdownAction::StopCompose && in_project
            &&& shutdown_step(plan) is StopContainer <==> action
                == ResolvedShutdownAction::StopContainer || (action
                == ResolvedShutdownAction::StopCompose && !in_project)
        }),
{
}

/// A container runs the entrypoint and the command of its service, each where
/// the service has one, and otherwise those of the image. An empty one counts.
pub proof fn services_replace_the_start_up_command(
    image: ImageStartupCommand,
    service: Option<&ComposeConfigService>,
)
    ensures
        service is None ==> effective_entrypoint(image, service) == image.entrypoint@
            && effective_command(image, service) == image.command@,
        service is Some && service->0.entrypoint is Some ==> effective_entrypoint(image, service)
            == service->0.entrypoint->0@,
        service is Some && service->0.entrypoint is None ==> effective_entrypoint(image, service)
            == image.entrypoint@,
        service is Some && service->0.command is Some ==> effective_command(image, service)
            == service->0.command->0@,
        service is Some && service->0.command is None ==> effective_command(image, service)
            == image.command@,
{
}

proof fn digits_are_read(digits: Seq<char>)
    ensures
        digits_value(digits) is Ok ==> digits_value(digits)->Ok_0 == number_of(digits)
            && digits_value(digits)->Ok_0 <= 65535 && all_digits(digits),
        all_digits(digits) && number_of(digits) <= 65535 ==> digits_value(digits) is Ok,
        all_digits(digits) ==> number_of(digits) >= 0,
    decreases digits.len(),
{
    if digits.len() > 0 {
        let front = digits.drop_last();
        digits_are_read(front);
        if all_digits(digits) {
            assert forall|i: int| 0 <= i < front.len() implies '0' <= #[trigger] front[i] <= '9' by {
                assert(front[i] == digits[i]);
            }
            assert('0' <= digits[digits.len() - 1] <= '9');
        }
        if digits_value(digits) is Ok {
            assert forall|i: int| 0 <= i < digits.len() implies '0' <= #[trigger] digits[i] <= '9'
                by {
                if i < front.len() {
                    assert(front[i] == digits[i]);
                }
            }
        }
    }
}

/// The digits of a number, without a plus sign in front.
pub open spec fn without_sign(text: Seq<char>) -> Seq<char> {
    if text.len() > 0 && text[0] == '+' {
        text.drop_first()
    } else {
        text
    }
}

/// Whether all characters are decimal digits.
pub open spec fn all_digits(text: Seq<char>) -> bool {
    forall|i: int| 0 <= i < text.len() ==> '0' <= #[trigger] text[i] <= '9'
}

/// A text is a port number exactly where it consists of digits, with a plus
/// sign in front or not, that stand for a number which is not above 65535; it
/// is that number.
pub proof fn ports_are_decimal_numbers(text: Seq<char>)
    ensures
        port_value(text) is Ok <==> without_sign(text).len() > 0 && all_digits(without_sign(text))
            && number_of(without_sign(text)) <= 65535,
        port_value(text) is Ok ==> port_value(text)->Ok_0 == number_of(without_sign(text)),
        text.len() == 0 ==> port_value(text) == Err::<nat, NumberFault>(NumberFault::Empty),
{
    let digits = without_sign(text);
    digits_are_read(digits);
    if text.len() > 0 && text[0] == '+' {
        if digits.len() == 0 {
            assert(text =~= seq!['+']);
        } else {
            assert(text.len() > 1);
        }
    } else if text.len() > 0 {
        assert(seq!['+'][0] == '+');
    }
}

/// A path below another stands behind it, with exactly one slash between them
/// where the other has none at its end.
pub proof fn paths_are_joined_by_a_slash(base: Seq<char>, name: Seq<char>)
    ensures
        base.len() == 0 ==> joined_path(base, name) == name,
        base.len() > 0 && base.last() == '/' ==> joined_path(base, name) == base + name,
        base.len() > 0 && base.last() != '/' ==> joined_path(base, name) == base + seq!['/'] + name,
{
    reveal_strlit("/");
    assert("/"@ =~= seq!['/']);
    assert(Seq::<char>::empty() + name =~= name);
    if base.len() == 0 {
        assert(base =~= Seq::empty());
    }
}

} // verus!
