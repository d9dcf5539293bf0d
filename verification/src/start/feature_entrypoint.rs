//! How it is told that the entrypoints of Features have run: the wrapper in
//! the container writes a token to a file that the tool has prepared.

use crate::docker::UidGidSyncPlan;
use crate::error::UpError;
use crate::paths::{is_idle_segment, split, split_text};
use crate::services::PlanServices;
use crate::text::{chars_of, has_prefix, part, parted, same_text, starts_with, views};
use crate::types::{join_path, joined_path, UpPlan};
use vstd::prelude::*;
use vstd::string::*;

verus! {

/// The directory of the container in which the tool keeps runtime files.
pub const DECUNE_RUNTIME_TARGET: &'static str = "/run/decune";

/// How many bytes a token is made of.
pub const FEATURE_ENTRYPOINT_TOKEN_BYTES: usize = 32;

/// The mode of a token that the container's user can read anyway.
pub const FEATURE_ENTRYPOINT_TOKEN_MODE: u32 = 0o600;

/// The mode of a token that the container's user must be let read.
pub const FEATURE_ENTRYPOINT_TOKEN_COMPAT_MODE: u32 = 0o644;

/// The mode of the file that the wrapper writes to. The wrapper may run as any
/// user of the image.
pub const FEATURE_ENTRYPOINT_SENTINEL_MODE: u32 = 0o666;

/// The mode of the directory of runtime files.
pub const FEATURE_ENTRYPOINT_RUNTIME_DIR_MODE: u32 = 0o711;

/// The steps of a path, apart from those that lead nowhere.
pub open spec fn steps_of(segments: Seq<Seq<char>>) -> Seq<Seq<char>>
    decreases segments.len(),
{
    if segments.len() == 0 {
        Seq::empty()
    } else {
        let before = steps_of(segments.drop_last());
        if is_idle_segment(segments.last()) {
            before
        } else {
            before.push(segments.last())
        }
    }
}

/// Steps with slashes between them.
pub open spec fn relative_path(steps: Seq<Seq<char>>) -> Seq<char>
    decreases steps.len(),
{
    if steps.len() == 0 {
        Seq::empty()
    } else if steps.len() == 1 {
        steps[0]
    } else {
        relative_path(steps.drop_last()) + "/"@ + steps.last()
    }
}

fn path_steps(path: &str) -> (res: Vec<String>)
    ensures
        views(res@) == steps_of(split(path@, '/')),
{
    let segments = split_text(path, '/');
    let ghost all = views(segments@);
    let mut steps: Vec<String> = Vec::new();
    let mut i: usize = 0;
    assert(all.take(0) =~= Seq::empty());
    assert(views(steps@) =~= steps_of(all.take(0)));
    while i < segments.len()
        invariant
            i <= segments@.len(),
            all == views(segments@),
            views(steps@) == steps_of(all.take(i as int)),
        decreases segments@.len() - i,
    {
        assert(all.take(i as int + 1).drop_last() =~= all.take(i as int));
        if !(same_text(segments[i].as_str(), "") || same_text(segments[i].as_str(), ".")) {
            let ghost before = steps@;
            steps.push(segments[i].clone());
            assert(views(steps@) =~= views(before).push(segments@[i as int]@));
        }
        i = i + 1;
    }
    assert(all.take(all.len() as int) =~= all);
    steps
}

/// The path below an absolute directory that an absolute path leads to, where
/// it stands below it.
pub open spec fn below(directory: Seq<char>, path: Seq<char>) -> Option<Seq<char>> {
    let outer = steps_of(split(directory, '/'));
    let inner = steps_of(split(path, '/'));
    if has_prefix(path, "/"@) && outer.len() <= inner.len() && inner.take(outer.len() as int)
        == outer {
        Some(relative_path(inner.skip(outer.len() as int)))
    } else {
        None
    }
}

fn path_below(directory: &str, path: &str) -> (res: Option<String>)
    ensures
        match res {
            Some(rest) => below(directory@, path@) == Some(rest@),
            None => below(directory@, path@) is None,
        },
{
    let outer = path_steps(directory);
    let inner = path_steps(path);
    let ghost outer_steps = steps_of(split(directory@, '/'));
    let ghost inner_steps = steps_of(split(path@, '/'));
    assert(outer_steps.len() == outer@.len());
    assert(inner_steps.len() == inner@.len());
    if !starts_with(path, "/") || outer.len() > inner.len() {
        return None;
    }
    let mut i: usize = 0;
    while i < outer.len()
        invariant
            i <= outer@.len() <= inner@.len(),
            views(outer@) == outer_steps,
            views(inner@) == inner_steps,
            outer_steps == steps_of(split(directory@, '/')),
            inner_steps == steps_of(split(path@, '/')),
            forall|j: int| 0 <= j < i ==> #[trigger] outer_steps[j] == inner_steps[j],
        decreases outer@.len() - i,
    {
        assert(outer_steps[i as int] == outer@[i as int]@);
        assert(inner_steps[i as int] == inner@[i as int]@);
        if !same_text(outer[i].as_str(), inner[i].as_str()) {
            assert(inner_steps.take(outer_steps.len() as int)[i as int] != outer_steps[i as int]);
            return None;
        }
        i = i + 1;
    }
    assert(inner_steps.take(outer_steps.len() as int) =~= outer_steps);
    let ghost rest = inner_steps.skip(outer_steps.len() as int);
    let mut text = String::new();
    let mut k: usize = outer.len();
    assert(rest.take(0) =~= Seq::empty());
    while k < inner.len()
        invariant
            outer@.len() <= k <= inner@.len(),
            views(inner@) == inner_steps,
            outer_steps.len() == outer@.len(),
            rest == inner_steps.skip(outer_steps.len() as int),
            text@ == relative_path(rest.take(k - outer@.len())),
        decreases inner@.len() - k,
    {
        let ghost done = k - outer@.len();
        assert(rest.take(done + 1).drop_last() =~= rest.take(done));
        assert(rest[done] == inner@[k as int]@);
        if k > outer.len() {
            text.append("/");
        }
        text.append(inner[k].as_str());
        assert(done == 0 ==> text@ =~= rest.take(done + 1)[0]);
        k = k + 1;
    }
    assert(rest.take(rest.len() as int) =~= rest);
    Some(text)
}

/// Where a runtime file of the container stands on the host.
pub open spec fn finds_runtime_path(
    runtime_dir: Seq<char>,
    target: Seq<char>,
    description: Seq<char>,
    outcome: Result<String, UpError>,
) -> bool {
    match below("/run/decune"@, target) {
        Some(rest) => outcome is Ok && outcome->Ok_0@ == joined_path(runtime_dir, rest),
        None => outcome is Err && outcome->Err_0@ == seq![
            "Feature entrypoint "@ + description + " must be under /run/decune: "@ + target,
            "prefix not found"@,
        ],
    }
}

/// Where a runtime file of the container stands on the host: at the same
/// place below the runtime directory.
pub fn feature_entrypoint_runtime_path(
    runtime_dir: &str,
    target: &str,
    description: &str,
) -> (res: Result<String, UpError>)
    ensures
        finds_runtime_path(runtime_dir@, target@, description@, res),
{
    match path_below(DECUNE_RUNTIME_TARGET, target) {
        Some(rest) => Ok(join_path(runtime_dir, rest.as_str())),
        None => {
            let mut message = "Feature entrypoint ".to_owned();
            message.append(description);
            message.append(" must be under /run/decune: ");
            message.append(target);
            let cause = UpError::from_text("prefix not found");
            let error = cause.context(message.as_str());
            assert(error@ =~= seq![message@, "prefix not found"@]);
            Err(error)
        },
    }
}

/// Where the file that the wrapper writes to stands on the host.
pub fn feature_entrypoint_sentinel_runtime_path(
    runtime_dir: &str,
    sentinel: &str,
) -> (res: Result<String, UpError>)
    ensures
        finds_runtime_path(runtime_dir@, sentinel@, "sentinel"@, res),
{
    feature_entrypoint_runtime_path(runtime_dir, sentinel, "sentinel")
}

/// Where the token stands on the host.
pub fn feature_entrypoint_token_runtime_path(runtime_dir: &str, token: &str) -> (res: Result<
    String,
    UpError,
>)
    ensures
        finds_runtime_path(runtime_dir@, token@, "token"@, res),
{
    feature_entrypoint_runtime_path(runtime_dir, token, "token")
}

/// Whether a user is root: its name, or its number, in front of a group or
/// not.
pub open spec fn is_root_user(user: Seq<char>) -> bool {
    let name = match parted(user, ':') {
        Some((name, _)) => name,
        None => user,
    };
    name == "root"@ || name == "0"@
}

/// Whether a user is root.
pub fn container_runtime_user_is_root(user: &str) -> (res: bool)
    ensures
        res == is_root_user(user@),
{
    let name = match part(user, ':') {
        Some((name, _)) => name,
        None => user,
    };
    same_text(name, "root") || same_text(name, "0")
}

/// How the mode of a token is chosen.
pub open spec fn chooses_token_mode<S: PlanServices>(
    services: &S,
    plan: UpPlan,
    outcome: Result<u32, UpError>,
) -> bool {
    exists|answer: Result<String, UpError>| #[trigger]
        call_ensures(
            S::uid_gid_sync_runtime_user,
            (services, &plan.effective_users.container_user.user, &plan.uid_gid_sync_plan),
            answer,
        ) && match answer {
            Err(error) => outcome == Err::<u32, UpError>(error),
            Ok(user) => outcome == Ok::<u32, UpError>(
                if is_root_user(user@) || plan.uid_gid_sync_plan is Sync {
                    0o600
                } else {
                    0o644
                },
            ),
        }
}

/// The mode of a token: readable by all only where the container's user is
/// neither root nor given the ids of the host user.
pub fn feature_entrypoint_token_mode<S: PlanServices>(services: &S, plan: &UpPlan) -> (res: Result<
    u32,
    UpError,
>)
    ensures
        chooses_token_mode(services, *plan, res),
{
    match services.uid_gid_sync_runtime_user(
        &plan.effective_users.container_user.user,
        &plan.uid_gid_sync_plan,
    ) {
        Err(error) => Err(error),
        Ok(user) => if container_runtime_user_is_root(user.as_str()) || matches!(
            plan.uid_gid_sync_plan,
            UidGidSyncPlan::Sync { .. }
        ) {
            Ok(FEATURE_ENTRYPOINT_TOKEN_MODE)
        } else {
            Ok(FEATURE_ENTRYPOINT_TOKEN_COMPAT_MODE)
        },
    }
}

/// How far the files for entrypoints of Features are prepared.
#[derive(Debug)]
pub enum EntrypointRuntimeProgress {
    /// The directory is created.
    Directory,
    /// The directory is given its mode.
    DirectoryMode,
    /// The file that the wrapper writes to is made.
    Sentinel {
        /// The file.
        path: String,
    },
    /// That file is given its mode.
    SentinelMode {
        /// The file.
        path: String,
    },
    /// The bytes of the token are drawn.
    Random,
    /// The file of the token is made.
    Token {
        /// The file.
        path: String,
        /// Its mode.
        mode: u32,
        /// The token.
        content: String,
    },
    /// The token is written.
    TokenContent {
        /// The file.
        path: String,
        /// Its mode.
        mode: u32,
    },
    /// The file of the token is given its mode.
    TokenMode {
        /// The file.
        path: String,
    },
    /// The end.
    Finished,
}

/// What came of the last thing that was done.
#[derive(Debug)]
pub enum EntrypointRuntimeEvent {
    /// Something was done to a file or directory.
    Performed(Result<(), UpError>),
    /// Random bytes were drawn.
    Drawn(Result<Vec<u8>, UpError>),
}

/// What is to be done next.
#[derive(Debug)]
pub enum EntrypointRuntimeAction {
    /// A directory is created, with those above it.
    CreateDirectory {
        /// The directory.
        path: String,
    },
    /// A file or directory is given a mode.
    SetMode {
        /// The file or directory.
        path: String,
        /// The mode.
        mode: u32,
    },
    /// A file is made, or emptied, and opened.
    OpenAnew {
        /// The file.
        path: String,
        /// Its mode, where it is made.
        mode: u32,
    },
    /// Random bytes are drawn.
    DrawRandom {
        /// How many.
        count: usize,
    },
    /// A text is written to the file that was opened last.
    Write {
        /// The text.
        content: String,
    },
    /// The end.
    Done(Result<(), UpError>),
}

/// Whether an event may come now.
pub open spec fn entrypoint_event_fits(
    progress: EntrypointRuntimeProgress,
    event: EntrypointRuntimeEvent,
) -> bool {
    match progress {
        EntrypointRuntimeProgress::Random => event is Drawn,
        EntrypointRuntimeProgress::Finished => false,
        _ => event is Performed,
    }
}

/// The message about something that could not be done.
pub open spec fn entrypoint_failure_message(
    progress: EntrypointRuntimeProgress,
    runtime_dir: Seq<char>,
) -> Seq<char> {
    match progress {
        EntrypointRuntimeProgress::Directory =>
            "Failed to create Feature entrypoint runtime directory: "@ + runtime_dir,
        EntrypointRuntimeProgress::DirectoryMode =>
            "Failed to set Feature entrypoint runtime directory permissions: "@ + runtime_dir,
        EntrypointRuntimeProgress::Sentinel { path } =>
            "Failed to prepare Feature entrypoint sentinel: "@ + path@,
        EntrypointRuntimeProgress::SentinelMode { path } =>
            "Failed to set Feature entrypoint sentinel permissions: "@ + path@,
        EntrypointRuntimeProgress::Token { path, .. } =>
            "Failed to prepare Feature entrypoint token: "@ + path@,
        EntrypointRuntimeProgress::TokenContent { path, .. } =>
            "Failed to write Feature entrypoint token: "@ + path@,
        EntrypointRuntimeProgress::TokenMode { path } =>
            "Failed to set Feature entrypoint token permissions: "@ + path@,
        _ => Seq::empty(),
    }
}

/// Whether the files are not prepared further, for a reason.
pub open spec fn entrypoint_fails(
    chain: Seq<Seq<char>>,
    after: EntrypointRuntimeProgress,
    action: EntrypointRuntimeAction,
) -> bool {
    &&& after is Finished
    &&& action is Done
    &&& action->Done_0 is Err
    &&& action->Done_0->Err_0@ == chain
}

/// What follows once the directory has its mode: it is made out where the
/// file that the wrapper writes to stands.
pub open spec fn goes_on_with_sentinel(
    runtime_dir: Seq<char>,
    sentinel: Seq<char>,
    after: EntrypointRuntimeProgress,
    action: EntrypointRuntimeAction,
) -> bool {
    exists|found: Result<String, UpError>| #[trigger]
        finds_runtime_path(runtime_dir, sentinel, "sentinel"@, found) && match found {
            Err(error) => entrypoint_fails(error@, after, action),
            Ok(path) => after == (EntrypointRuntimeProgress::Sentinel { path }) && action == (
            EntrypointRuntimeAction::OpenAnew { path, mode: 0o666 }),
        }
}

/// What follows once random bytes were drawn: it is made out where the token
/// stands, and then who may read it.
pub open spec fn goes_on_with_token<S: PlanServices>(
    services: &S,
    plan: UpPlan,
    runtime_dir: Seq<char>,
    token: Seq<char>,
    random: Seq<u8>,
    after: EntrypointRuntimeProgress,
    action: EntrypointRuntimeAction,
) -> bool {
    exists|found: Result<String, UpError>| #[trigger]
        finds_runtime_path(runtime_dir, token, "token"@, found) && match found {
            Err(error) => entrypoint_fails(error@, after, action),
            Ok(path) => exists|mode: Result<u32, UpError>| #[trigger]
                chooses_token_mode(services, plan, mode) && match mode {
                    Err(error) => entrypoint_fails(error@, after, action),
                    Ok(mode) => {
                        &&& after is Token
                        &&& after->Token_path == path
                        &&& after->Token_mode == mode
                        &&& after->content@ == hex_digits(random)
                        &&& action == (EntrypointRuntimeAction::OpenAnew { path, mode })
                    },
                },
        }
}

/// What is done next, and how far the files are prepared then. What failed is
/// told, and nothing is done after it; what was made before it stays.
pub open spec fn prepares_runtime<S: PlanServices>(
    services: &S,
    plan: UpPlan,
    runtime_dir: Seq<char>,
    sentinel: Seq<char>,
    token: Seq<char>,
    before: EntrypointRuntimeProgress,
    event: EntrypointRuntimeEvent,
    after: EntrypointRuntimeProgress,
    action: EntrypointRuntimeAction,
) -> bool {
    if event is Performed && event->Performed_0 is Err {
        entrypoint_fails(
            seq![entrypoint_failure_message(before, runtime_dir)] + event->Performed_0->Err_0@,
            after,
            action,
        )
    } else {
        match before {
            EntrypointRuntimeProgress::Directory => {
                &&& after is DirectoryMode
                &&& action is SetMode
                &&& action->SetMode_path@ == runtime_dir
                &&& action->SetMode_mode == 0o711
            },
            EntrypointRuntimeProgress::DirectoryMode => goes_on_with_sentinel(
                runtime_dir,
                sentinel,
                after,
                action,
            ),
            EntrypointRuntimeProgress::Sentinel { path } => after == (
            EntrypointRuntimeProgress::SentinelMode { path }) && action == (
            EntrypointRuntimeAction::SetMode { path, mode: 0o666 }),
            EntrypointRuntimeProgress::SentinelMode { .. } => after is Random && action == (
            EntrypointRuntimeAction::DrawRandom { count: 32 }),
            EntrypointRuntimeProgress::Random => match event->Drawn_0 {
                Err(error) => entrypoint_fails(error@, after, action),
                Ok(random) => goes_on_with_token(
                    services,
                    plan,
                    runtime_dir,
                    token,
                    random@,
                    after,
                    action,
                ),
            },
            EntrypointRuntimeProgress::Token { path, mode, content } => after == (
            EntrypointRuntimeProgress::TokenContent { path, mode }) && action == (
            EntrypointRuntimeAction::Write { content }),
            EntrypointRuntimeProgress::TokenContent { path, mode } => after == (
            EntrypointRuntimeProgress::TokenMode { path }) && action == (
            EntrypointRuntimeAction::SetMode { path, mode }),
            EntrypointRuntimeProgress::TokenMode { .. } => after is Finished && action
                == EntrypointRuntimeAction::Done(Ok(())),
            EntrypointRuntimeProgress::Finished => true,
        }
    }
}

/// The first thing that is done before a container with entrypoints of
/// Features is started: the directory of runtime files is created. Nothing is
/// done where there are no entrypoints.
pub fn begin_feature_entrypoint_runtime(plan: &UpPlan, runtime_dir: &str) -> (res: (
    EntrypointRuntimeProgress,
    EntrypointRuntimeAction,
))
    ensures
        plan.config.devcontainer.entrypoints@.len() == 0 ==> res.0 is Finished && res.1
            == EntrypointRuntimeAction::Done(Ok(())),
        plan.config.devcontainer.entrypoints@.len() > 0 ==> {
            &&& res.0 is Directory
            &&& res.1 is CreateDirectory
            &&& res.1->CreateDirectory_path@ == runtime_dir@
        },
{
    if plan.config.devcontainer.entrypoints.len() == 0 {
        (EntrypointRuntimeProgress::Finished, EntrypointRuntimeAction::Done(Ok(())))
    } else {
        (
            EntrypointRuntimeProgress::Directory,
            EntrypointRuntimeAction::CreateDirectory { path: runtime_dir.to_owned() },
        )
    }
}

fn entrypoint_failed(error: UpError) -> (res: (EntrypointRuntimeProgress, EntrypointRuntimeAction))
    ensures
        entrypoint_fails(error@, res.0, res.1),
{
    (EntrypointRuntimeProgress::Finished, EntrypointRuntimeAction::Done(Err(error)))
}

fn entrypoint_failure(progress: &EntrypointRuntimeProgress, runtime_dir: &str) -> (res: String)
    ensures
        res@ == entrypoint_failure_message(*progress, runtime_dir@),
{
    let (text, path) = match progress {
        EntrypointRuntimeProgress::Directory => (
            "Failed to create Feature entrypoint runtime directory: ",
            runtime_dir,
        ),
        EntrypointRuntimeProgress::DirectoryMode => (
            "Failed to set Feature entrypoint runtime directory permissions: ",
            runtime_dir,
        ),
        EntrypointRuntimeProgress::Sentinel { path } => (
            "Failed to prepare Feature entrypoint sentinel: ",
            path.as_str(),
        ),
        EntrypointRuntimeProgress::SentinelMode { path } => (
            "Failed to set Feature entrypoint sentinel permissions: ",
            path.as_str(),
        ),
        EntrypointRuntimeProgress::Token { path, .. } => (
            "Failed to prepare Feature entrypoint token: ",
            path.as_str(),
        ),
        EntrypointRuntimeProgress::TokenContent { path, .. } => (
            "Failed to write Feature entrypoint token: ",
            path.as_str(),
        ),
        EntrypointRuntimeProgress::TokenMode { path } => (
            "Failed to set Feature entrypoint token permissions: ",
            path.as_str(),
        ),
        _ => {
            return String::new();
        },
    };
    let mut message = text.to_owned();
    message.append(path);
    message
}

fn go_on_with_sentinel(runtime_dir: &str, sentinel: &str) -> (res: (
    EntrypointRuntimeProgress,
    EntrypointRuntimeAction,
))
    ensures
        goes_on_with_sentinel(runtime_dir@, sentinel@, res.0, res.1),
{
    let found = feature_entrypoint_sentinel_runtime_path(runtime_dir, sentinel);
    assert(finds_runtime_path(runtime_dir@, sentinel@, "sentinel"@, found));
    match found {
        Err(error) => entrypoint_failed(error),
        Ok(path) => {
            let action = EntrypointRuntimeAction::OpenAnew {
                path: path.clone(),
                mode: FEATURE_ENTRYPOINT_SENTINEL_MODE,
            };
            (EntrypointRuntimeProgress::Sentinel { path }, action)
        },
    }
}

fn go_on_with_token<S: PlanServices>(
    services: &S,
    plan: &UpPlan,
    runtime_dir: &str,
    token: &str,
    random: &Vec<u8>,
) -> (res: (EntrypointRuntimeProgress, EntrypointRuntimeAction))
    ensures
        goes_on_with_token(services, *plan, runtime_dir@, token@, random@, res.0, res.1),
{
    let content = new_feature_entrypoint_token(random.as_slice());
    let found = feature_entrypoint_token_runtime_path(runtime_dir, token);
    assert(finds_runtime_path(runtime_dir@, token@, "token"@, found));
    match found {
        Err(error) => entrypoint_failed(error),
        Ok(path) => {
            let mode = feature_entrypoint_token_mode(services, plan);
            assert(chooses_token_mode(services, *plan, mode));
            match mode {
                Err(error) => entrypoint_failed(error),
                Ok(mode) => {
                    let action = EntrypointRuntimeAction::OpenAnew { path: path.clone(), mode };
                    (EntrypointRuntimeProgress::Token { path, mode, content }, action)
                },
            }
        },
    }
}

/// What is done next to prepare the files for entrypoints of Features.
/// `sentinel` and `token` name the files in the container.
pub fn prepare_feature_entrypoint_sentinel_runtime<S: PlanServices>(
    services: &S,
    plan: &UpPlan,
    runtime_dir: &str,
    sentinel: &str,
    token: &str,
    progress: EntrypointRuntimeProgress,
    event: EntrypointRuntimeEvent,
) -> (res: (EntrypointRuntimeProgress, EntrypointRuntimeAction))
    requires
        entrypoint_event_fits(progress, event),
    ensures
        prepares_runtime(
            services,
            *plan,
            runtime_dir@,
            sentinel@,
            token@,
            progress,
            event,
            res.0,
            res.1,
        ),
{
    let random = match event {
        EntrypointRuntimeEvent::Performed(Err(cause)) => {
            let message = entrypoint_failure(&progress, runtime_dir);
            return entrypoint_failed(cause.context(message.as_str()));
        },
        EntrypointRuntimeEvent::Performed(Ok(())) => Vec::new(),
        EntrypointRuntimeEvent::Drawn(Err(error)) => {
            return entrypoint_failed(error);
        },
        EntrypointRuntimeEvent::Drawn(Ok(random)) => random,
    };
    match progress {
        EntrypointRuntimeProgress::Directory => (
            EntrypointRuntimeProgress::DirectoryMode,
            EntrypointRuntimeAction::SetMode {
                path: runtime_dir.to_owned(),
                mode: FEATURE_ENTRYPOINT_RUNTIME_DIR_MODE,
            },
        ),
        EntrypointRuntimeProgress::DirectoryMode => go_on_with_sentinel(runtime_dir, sentinel),
        EntrypointRuntimeProgress::Sentinel { path } => {
            let action = EntrypointRuntimeAction::SetMode {
                path: path.clone(),
                mode: FEATURE_ENTRYPOINT_SENTINEL_MODE,
            };
            (EntrypointRuntimeProgress::SentinelMode { path }, action)
        },
        EntrypointRuntimeProgress::SentinelMode { .. } => (
            EntrypointRuntimeProgress::Random,
            EntrypointRuntimeAction::DrawRandom { count: FEATURE_ENTRYPOINT_TOKEN_BYTES },
        ),
        EntrypointRuntimeProgress::Random => go_on_with_token(
            services,
            plan,
            runtime_dir,
            token,
            &random,
        ),
        EntrypointRuntimeProgress::Token { path, mode, content } => (
            EntrypointRuntimeProgress::TokenContent { path, mode },
            EntrypointRuntimeAction::Write { content },
        ),
        EntrypointRuntimeProgress::TokenContent { path, mode } => {
            let action = EntrypointRuntimeAction::SetMode { path: path.clone(), mode };
            (EntrypointRuntimeProgress::TokenMode { path }, action)
        },
        EntrypointRuntimeProgress::TokenMode { .. } | EntrypointRuntimeProgress::Finished => (
            EntrypointRuntimeProgress::Finished,
            EntrypointRuntimeAction::Done(Ok(())),
        ),
    }
}

/// How many things are done at most from here on.
pub open spec fn entrypoint_steps_left(progress: EntrypointRuntimeProgress) -> nat {
    match progress {
        EntrypointRuntimeProgress::Directory => 8,
        EntrypointRuntimeProgress::DirectoryMode => 7,
        EntrypointRuntimeProgress::Sentinel { .. } => 6,
        EntrypointRuntimeProgress::SentinelMode { .. } => 5,
        EntrypointRuntimeProgress::Random => 4,
        EntrypointRuntimeProgress::Token { .. } => 3,
        EntrypointRuntimeProgress::TokenContent { .. } => 2,
        EntrypointRuntimeProgress::TokenMode { .. } => 1,
        EntrypointRuntimeProgress::Finished => 0,
    }
}

/// The preparation of the files ends, and it ends well only with the token in
/// place under its own mode.
pub proof fn entrypoint_preparation_ends<S: PlanServices>(
    services: &S,
    plan: UpPlan,
    runtime_dir: Seq<char>,
    sentinel: Seq<char>,
    token: Seq<char>,
    before: EntrypointRuntimeProgress,
    event: EntrypointRuntimeEvent,
    after: EntrypointRuntimeProgress,
    action: EntrypointRuntimeAction,
)
    requires
        entrypoint_event_fits(before, event),
        prepares_runtime(
            services,
            plan,
            runtime_dir,
            sentinel,
            token,
            before,
            event,
            after,
            action,
        ),
    ensures
        entrypoint_steps_left(after) < entrypoint_steps_left(before),
        action is Done <==> after is Finished,
        action is Done && action->Done_0 is Ok ==> before is TokenMode,
{
}

/// The sentinel is made before the token is drawn: a token mode that cannot be
/// told leaves directory and sentinel behind.
pub proof fn sentinel_comes_before_the_token<S: PlanServices>(
    services: &S,
    plan: UpPlan,
    runtime_dir: Seq<char>,
    sentinel: Seq<char>,
    token: Seq<char>,
    before: EntrypointRuntimeProgress,
    event: EntrypointRuntimeEvent,
    after: EntrypointRuntimeProgress,
    action: EntrypointRuntimeAction,
)
    requires
        entrypoint_event_fits(before, event),
        prepares_runtime(
            services,
            plan,
            runtime_dir,
            sentinel,
            token,
            before,
            event,
            after,
            action,
        ),
    ensures
        after is Random ==> before is SentinelMode && event->Performed_0 is Ok,
        after is SentinelMode ==> before is Sentinel && event->Performed_0 is Ok,
        after is Sentinel ==> before is DirectoryMode && event->Performed_0 is Ok,
        after is DirectoryMode ==> before is Directory && event->Performed_0 is Ok,
        after is Token ==> before is Random && event->Drawn_0 is Ok,
{
}

/// The hexadecimal digit of a number below sixteen.
pub open spec fn hex_char(value: int) -> char {
    "0123456789abcdef"@[value]
}

/// The two digits of each byte.
pub open spec fn hex_digits(bytes: Seq<u8>) -> Seq<char>
    decreases bytes.len(),
{
    if bytes.len() == 0 {
        Seq::empty()
    } else {
        hex_digits(bytes.drop_last()) + seq![
            hex_char(bytes.last() as int / 16),
            hex_char(bytes.last() as int % 16),
        ]
    }
}

fn hex_digit(value: u8) -> (res: char)
    requires
        value < 16,
    ensures
        res == hex_char(value as int),
{
    proof {
        reveal_strlit("0123456789abcdef");
    }
    "0123456789abcdef".get_char(value as usize)
}

/// The two hexadecimal digits of each byte.
pub fn hex_lower(bytes: &[u8]) -> (res: String)
    ensures
        res@ == hex_digits(bytes@),
        res@.len() == 2 * bytes@.len(),
        forall|i: int| 0 <= i < res@.len() ==> "0123456789abcdef"@.contains(#[trigger] res@[i]),
{
    let mut output = String::new();
    let mut i: usize = 0;
    assert(bytes@.take(0) =~= Seq::empty());
    while i < bytes.len()
        invariant
            i <= bytes@.len(),
            output@ == hex_digits(bytes@.take(i as int)),
        decreases bytes@.len() - i,
    {
        assert(bytes@.take(i as int + 1).drop_last() =~= bytes@.take(i as int));
        let byte = bytes[i];
        let ghost before = output@;
        output.push(hex_digit(byte / 16));
        output.push(hex_digit(byte % 16));
        assert(output@ =~= before + seq![
            hex_char(byte as int / 16),
            hex_char(byte as int % 16),
        ]);
        i = i + 1;
    }
    assert(bytes@.take(bytes@.len() as int) =~= bytes@);
    proof {
        hex_digits_are_digits(bytes@);
    }
    output
}

proof fn hex_digits_are_digits(bytes: Seq<u8>)
    ensures
        hex_digits(bytes).len() == 2 * bytes.len(),
        forall|i: int|
            0 <= i < hex_digits(bytes).len() ==> "0123456789abcdef"@.contains(
                #[trigger] hex_digits(bytes)[i],
            ),
    decreases bytes.len(),
{
    reveal_strlit("0123456789abcdef");
    if bytes.len() > 0 {
        hex_digits_are_digits(bytes.drop_last());
        let before = hex_digits(bytes.drop_last());
        let high = bytes.last() as int / 16;
        let low = bytes.last() as int % 16;
        assert("0123456789abcdef"@[high] == hex_char(high));
        assert("0123456789abcdef"@[low] == hex_char(low));
        assert forall|i: int| 0 <= i < hex_digits(bytes).len() implies "0123456789abcdef"@.contains(
            #[trigger] hex_digits(bytes)[i],
        ) by {
            if i < before.len() {
                assert(hex_digits(bytes)[i] == before[i]);
            }
        }
    }
}

/// Different bytes have different digits.
pub proof fn hex_digits_tell_apart(left: Seq<u8>, right: Seq<u8>)
    requires
        hex_digits(left) == hex_digits(right),
    ensures
        left == right,
    decreases left.len(),
{
    hex_digits_are_digits(left);
    hex_digits_are_digits(right);
    if left.len() == 0 {
        assert(left =~= right);
    } else {
        reveal_strlit("0123456789abcdef");
        let a = hex_digits(left.drop_last());
        let b = hex_digits(right.drop_last());
        hex_digits_are_digits(left.drop_last());
        hex_digits_are_digits(right.drop_last());
        let all = hex_digits(left);
        let n = all.len();
        assert(all.take(n - 2) =~= a);
        assert(all.take(n - 2) =~= b);
        hex_digits_tell_apart(left.drop_last(), right.drop_last());
        assert(all[n - 2] == hex_char(left.last() as int / 16));
        assert(all[n - 2] == hex_char(right.last() as int / 16));
        assert(all[n - 1] == hex_char(left.last() as int % 16));
        assert(all[n - 1] == hex_char(right.last() as int % 16));
        assert(left.last() == right.last());
        assert(left =~= left.drop_last().push(left.last()));
        assert(right =~= right.drop_last().push(right.last()));
    }
}

/// The token that random bytes make.
pub fn new_feature_entrypoint_token(random: &[u8]) -> (res: String)
    ensures
        res@ == hex_digits(random@),
        res@.len() == 2 * random@.len(),
{
    hex_lower(random)
}

/// A character inside single quotes of a shell.
pub open spec fn shell_char(ch: char) -> Seq<char> {
    if ch == '\'' {
        "'\"'\"'"@
    } else {
        seq![ch]
    }
}

/// Characters inside single quotes of a shell.
pub open spec fn shell_chars(value: Seq<char>) -> Seq<char>
    decreases value.len(),
{
    if value.len() == 0 {
        Seq::empty()
    } else {
        shell_chars(value.drop_last()) + shell_char(value.last())
    }
}

/// A text as one word of a shell, in single quotes.
pub open spec fn shell_quoted(value: Seq<char>) -> Seq<char> {
    "'"@ + shell_chars(value) + "'"@
}

/// A text as one word of a shell, whatever characters it holds.
pub fn shell_word(value: &str) -> (res: String)
    ensures
        res@ == shell_quoted(value@),
{
    let chars = chars_of(value);
    let mut word = "'".to_owned();
    let mut i: usize = 0;
    assert(value@.take(0) =~= Seq::empty());
    assert(word@ =~= "'"@ + shell_chars(value@.take(0)));
    while i < chars.len()
        invariant
            chars@ == value@,
            i <= chars@.len(),
            word@ == "'"@ + shell_chars(value@.take(i as int)),
        decreases chars@.len() - i,
    {
        assert(value@.take(i as int + 1).drop_last() =~= value@.take(i as int));
        let ghost before = word@;
        if chars[i] == '\'' {
            word.append("'\"'\"'");
        } else {
            word.push(chars[i]);
            assert(word@ =~= before + seq![value@[i as int]]);
        }
        assert(word@ =~= "'"@ + shell_chars(value@.take(i as int + 1)));
        i = i + 1;
    }
    assert(value@.take(value@.len() as int) =~= value@);
    word.append("'");
    word
}

/// The quotes that a shell is inside of while it reads a word.
#[derive(Debug, Clone, Copy, PartialEq, Eq, Structural)]
pub enum ShellQuotes {
    /// None.
    Outside,
    /// Single ones.
    Single,
    /// Double ones.
    Double,
}

/// What a shell reads where quotes are the only characters of a word that it
/// treats in a special way.
pub open spec fn shell_reads(word: Seq<char>, quotes: ShellQuotes) -> Seq<char>
    decreases word.len(),
{
    if word.len() == 0 {
        Seq::empty()
    } else {
        let rest = word.drop_first();
        match quotes {
            ShellQuotes::Outside => if word[0] == '\'' {
                shell_reads(rest, ShellQuotes::Single)
            } else if word[0] == '"' {
                shell_reads(rest, ShellQuotes::Double)
            } else {
                seq![word[0]] + shell_reads(rest, ShellQuotes::Outside)
            },
            ShellQuotes::Single => if word[0] == '\'' {
                shell_reads(rest, ShellQuotes::Outside)
            } else {
                seq![word[0]] + shell_reads(rest, ShellQuotes::Single)
            },
            ShellQuotes::Double => if word[0] == '"' {
                shell_reads(rest, ShellQuotes::Outside)
            } else {
                seq![word[0]] + shell_reads(rest, ShellQuotes::Double)
            },
        }
    }
}

proof fn shell_chars_from_front(value: Seq<char>)
    requires
        value.len() > 0,
    ensures
        shell_chars(value) == shell_char(value[0]) + shell_chars(value.drop_first()),
    decreases value.len(),
{
    if value.len() == 1 {
        assert(value.drop_last() =~= Seq::empty());
        assert(value.drop_first() =~= Seq::empty());
        assert(shell_chars(value) =~= shell_char(value[0]) + shell_chars(value.drop_first()));
    } else {
        shell_chars_from_front(value.drop_last());
        assert(value.drop_last().drop_first() =~= value.drop_first().drop_last());
        assert(shell_chars(value) =~= shell_char(value[0]) + shell_chars(value.drop_first()));
    }
}

proof fn shell_reads_quoted_chars(value: Seq<char>)
    ensures
        shell_reads(shell_chars(value) + seq!['\''], ShellQuotes::Single) == value,
    decreases value.len(),
{
    let end = seq!['\''];
    if value.len() == 0 {
        let word = shell_chars(value) + end;
        assert(word =~= end);
        assert(word.drop_first() =~= Seq::empty());
        assert(shell_reads(word.drop_first(), ShellQuotes::Outside) =~= value);
    } else {
        let rest = shell_chars(value.drop_first()) + end;
        shell_reads_quoted_chars(value.drop_first());
        shell_chars_from_front(value);
        let word = shell_chars(value) + end;
        assert(value =~= seq![value[0]] + value.drop_first());
        if value[0] == '\'' {
            reveal_strlit("'\"'\"'");
            let a = seq!['"', '\'', '"', '\''] + rest;
            let b = seq!['\'', '"', '\''] + rest;
            let c = seq!['"', '\''] + rest;
            let d = seq!['\''] + rest;
            assert(word =~= seq!['\''] + a);
            assert(word.drop_first() =~= a);
            assert(a.drop_first() =~= b);
            assert(b.drop_first() =~= c);
            assert(c.drop_first() =~= d);
            assert(d.drop_first() =~= rest);
            assert(shell_reads(d, ShellQuotes::Outside) == shell_reads(rest, ShellQuotes::Single));
            assert(shell_reads(c, ShellQuotes::Double) == shell_reads(d, ShellQuotes::Outside));
            assert(shell_reads(b, ShellQuotes::Double) == seq!['\''] + shell_reads(
                c,
                ShellQuotes::Double,
            ));
            assert(shell_reads(a, ShellQuotes::Outside) == shell_reads(b, ShellQuotes::Double));
            assert(shell_reads(word, ShellQuotes::Single) == shell_reads(a, ShellQuotes::Outside));
        } else {
            assert(word =~= seq![value[0]] + rest);
            assert(word.drop_first() =~= rest);
        }
    }
}

/// A shell reads a quoted text back as it was, whatever characters it holds.
pub proof fn shell_reads_back(value: Seq<char>)
    ensures
        shell_reads(shell_quoted(value), ShellQuotes::Outside) == value,
{
    reveal_strlit("'");
    let word = shell_quoted(value);
    assert("'"@ =~= seq!['\'']);
    assert(word =~= seq!['\''] + (shell_chars(value) + seq!['\'']));
    assert(word.drop_first() =~= shell_chars(value) + seq!['\'']);
    shell_reads_quoted_chars(value);
}

/// The script that tells whether the wrapper has written the token of this
/// start: the time at which the container's first process started, and the
/// token, must stand in the file.
pub open spec fn check_script(
    sentinel: Seq<char>,
    token_file: Seq<char>,
    proc_stat: Seq<char>,
) -> Seq<char> {
    "sentinel="@ + shell_quoted(sentinel) + "\ntoken_file="@ + shell_quoted(token_file)
        + "\nproc_stat="@ + shell_quoted(proc_stat)
        + "\nstat_line=$(cat \"$proc_stat\" 2>/dev/null || true)\nstat_tail=${stat_line#*) }\nset -- $stat_tail\nstartup_id=\"${20:-}\"\ntoken=$(cat \"$token_file\" 2>/dev/null || true)\nexpected=\"$startup_id:$token\"\ntest -n \"$startup_id\" && test -n \"$token\" && test -f \"$sentinel\" && test \"$(cat \"$sentinel\")\" = \"$expected\""@
}

/// The script that tells whether the wrapper has written the token of this
/// start.
pub fn feature_entrypoint_sentinel_check_script_for(
    sentinel: &str,
    token_file: &str,
    proc_stat: &str,
) -> (res: String)
    ensures
        res@ == check_script(sentinel@, token_file@, proc_stat@),
{
    let mut script = "sentinel=".to_owned();
    script.append(shell_word(sentinel).as_str());
    script.append("\ntoken_file=");
    script.append(shell_word(token_file).as_str());
    script.append("\nproc_stat=");
    script.append(shell_word(proc_stat).as_str());
    script.append(
        "\nstat_line=$(cat \"$proc_stat\" 2>/dev/null || true)\nstat_tail=${stat_line#*) }\nset -- $stat_tail\nstartup_id=\"${20:-}\"\ntoken=$(cat \"$token_file\" 2>/dev/null || true)\nexpected=\"$startup_id:$token\"\ntest -n \"$startup_id\" && test -n \"$token\" && test -f \"$sentinel\" && test \"$(cat \"$sentinel\")\" = \"$expected\"",
    );
    script
}

/// The script that tells whether the wrapper has written the token of this
/// start, for the first process of the container.
pub fn feature_entrypoint_sentinel_check_script(sentinel: &str, token: &str) -> (res: String)
    ensures
        res@ == check_script(sentinel@, token@, "/proc/1/stat"@),
{
    feature_entrypoint_sentinel_check_script_for(sentinel, token, "/proc/1/stat")
}

/// The command that runs the script in the container.
pub fn feature_entrypoint_sentinel_check_command(sentinel: &str, token: &str) -> (res: Vec<String>)
    ensures
        views(res@) == seq!["/bin/sh"@, "-c"@, check_script(sentinel@, token@, "/proc/1/stat"@)],
{
    let mut command: Vec<String> = Vec::new();
    command.push("/bin/sh".to_owned());
    command.push("-c".to_owned());
    command.push(feature_entrypoint_sentinel_check_script(sentinel, token));
    assert(views(command@) =~= seq![
        "/bin/sh"@,
        "-c"@,
        check_script(sentinel@, token@, "/proc/1/stat"@),
    ]);
    command
}

/// Whether the wrapper has written the token: the script ran and ended with
/// zero. A script that could not be run is tried again later.
pub fn feature_entrypoint_sentinel_is_current(exit_code: Option<i64>) -> (res: bool)
    ensures
        res == (exit_code == Some(0i64)),
{
    match exit_code {
        Some(code) => code == 0,
        None => false,
    }
}

} // verus!
