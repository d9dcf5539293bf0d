//! The shell to start in a container, and the exit code to hand on.

use crate::error::UpError;
use crate::messages::{join, joined};
use crate::text::{non_empty_trimmed, opt_view, same_text, trimmed_non_empty, views};
use crate::uid_gid::borrowed_view;
use vstd::prelude::*;
use vstd::string::*;

verus! {

/// A shell without white space around it, unless nothing is left.
pub open spec fn normal_shell(shell: Option<Seq<char>>) -> Option<Seq<char>> {
    match shell {
        Some(shell) => trimmed_non_empty(shell),
        None => None,
    }
}

/// A shell without white space around it, unless nothing is left.
pub fn normalized_shell(shell: Option<&str>) -> (res: Option<String>)
    ensures
        opt_view(res) == normal_shell(borrowed_view(shell)),
{
    match shell {
        Some(shell) => match non_empty_trimmed(shell) {
            Some(shell) => Some(shell.to_owned()),
            None => None,
        },
        None => None,
    }
}

/// The shells to try: the configured one alone, or else the login shell of
/// the user, `/bin/bash` and `/bin/sh`. A login shell that is `/bin/bash` is
/// not listed twice.
pub open spec fn shell_candidates(
    config_shell: Option<Seq<char>>,
    remote_user_shell: Option<Seq<char>>,
) -> Seq<Seq<char>> {
    let fallbacks = seq!["/bin/bash"@, "/bin/sh"@];
    match normal_shell(config_shell) {
        Some(shell) => seq![shell],
        None => match normal_shell(remote_user_shell) {
            Some(shell) => if shell == "/bin/bash"@ {
                fallbacks
            } else {
                seq![shell] + fallbacks
            },
            None => fallbacks,
        },
    }
}

/// The shells to try, in order.
pub fn shell_command_candidates(
    config_shell: Option<&str>,
    remote_user_shell: Option<&str>,
) -> (res: Vec<String>)
    ensures
        views(res@) == shell_candidates(
            borrowed_view(config_shell),
            borrowed_view(remote_user_shell),
        ),
{
    let mut candidates: Vec<String> = Vec::new();
    if let Some(shell) = normalized_shell(config_shell) {
        candidates.push(shell);
        assert(views(candidates@) =~= seq![shell@]);
        return candidates;
    }
    if let Some(shell) = normalized_shell(remote_user_shell) {
        if !same_text(shell.as_str(), "/bin/bash") {
            candidates.push(shell);
        }
    }
    candidates.push("/bin/bash".to_owned());
    candidates.push("/bin/sh".to_owned());
    assert(views(candidates@) =~= shell_candidates(
        borrowed_view(config_shell),
        borrowed_view(remote_user_shell),
    ));
    candidates
}

/// Two neighbours among the shells to try are never the same.
pub proof fn neighbouring_candidates_differ(
    config_shell: Option<Seq<char>>,
    remote_user_shell: Option<Seq<char>>,
    position: int,
)
    requires
        0 <= position < shell_candidates(config_shell, remote_user_shell).len() - 1,
    ensures
        shell_candidates(config_shell, remote_user_shell)[position] != shell_candidates(
            config_shell,
            remote_user_shell,
        )[position + 1],
{
    reveal_strlit("/bin/bash");
    reveal_strlit("/bin/sh");
    assert("/bin/bash"@.len() != "/bin/sh"@.len());
}

/// The failures of shells, each with the shell that failed.
pub open spec fn failure_words(candidates: Seq<String>, failures: Seq<UpError>) -> Seq<Seq<char>> {
    Seq::new(
        failures.len(),
        |i: int| candidates[i]@ + ": "@ + joined(failures[i].chain@, ": "@),
    )
}

/// The next shell to try, or why none is left.
pub open spec fn next_candidate(
    candidates: Seq<String>,
    failures: Seq<UpError>,
    outcome: Result<String, UpError>,
) -> bool {
    if candidates.len() == 0 {
        outcome is Err && outcome->Err_0@ == seq!["No shell command candidate is available"@]
    } else if failures.len() < candidates.len() {
        outcome == Ok::<String, UpError>(candidates[failures.len() as int])
    } else {
        exists|words: Seq<String>|
            {
                &&& views(words) == failure_words(candidates, failures)
                &&& outcome is Err
                &&& outcome->Err_0@ == seq![
                    "Failed to start any shell command candidate. Tried: "@ + #[trigger] joined(
                        words,
                        "; "@,
                    ),
                ]
            }
    }
}

/// The next shell to try after some of them failed, or, where none is left,
/// an error that tells of all failures.
pub fn first_successful_shell_candidate(
    candidates: &Vec<String>,
    failures: &Vec<UpError>,
) -> (res: Result<String, UpError>)
    requires
        failures@.len() <= candidates@.len(),
    ensures
        next_candidate(candidates@, failures@, res),
{
    if candidates.len() == 0 {
        return Err(UpError::from_text("No shell command candidate is available"));
    }
    if failures.len() < candidates.len() {
        return Ok(candidates[failures.len()].clone());
    }
    let mut words: Vec<String> = Vec::new();
    let mut i: usize = 0;
    while i < failures.len()
        invariant
            i <= failures@.len() <= candidates@.len(),
            words@.len() == i,
            forall|j: int|
                0 <= j < i ==> (#[trigger] words@[j])@ == failure_words(candidates@, failures@)[j],
        decreases failures@.len() - i,
    {
        let mut text = candidates[i].clone();
        text.append(": ");
        text.append(join(&failures[i].chain, ": ").as_str());
        words.push(text);
        i = i + 1;
    }
    assert(views(words@) =~= failure_words(candidates@, failures@));
    let mut message = "Failed to start any shell command candidate. Tried: ".to_owned();
    message.append(join(&words, "; ").as_str());
    Err(UpError::new(message))
}

/// The exit code of the tool for the exit code of a command: the same where
/// the system can hand it on, and one where it cannot.
pub fn clamp_exit_code(exit_code: i64) -> (res: i32)
    ensures
        res == if 0 <= exit_code <= 255 {
            exit_code as int
        } else {
            1
        },
        0 <= res <= 255,
        res == 0 <==> exit_code == 0,
{
    if 0 <= exit_code && exit_code <= 255 {
        exit_code as i32
    } else {
        1
    }
}

} // verus!
