//! Files for the entrypoints of Features, and how a container is made.

use crate::error::UpError;
use crate::laws::documents::hex_value;
use crate::laws::text::parts_are_split_off;
use crate::messages::joined;
use crate::paths::split;
use crate::services::PlanServices;
use crate::start::creation::{creates, CreationAction, CreationEvent, CreationProgress};
use crate::start::feature_entrypoint::{
    below, chooses_token_mode, entrypoint_event_fits, finds_runtime_path, hex_digits,
    is_root_user, prepares_runtime, relative_path, steps_of, EntrypointRuntimeAction,
    EntrypointRuntimeEvent, EntrypointRuntimeProgress,
};
use crate::text::{has_prefix, parted};
use crate::types::{joined_path, UpPlan};
use vstd::prelude::*;
use vstd::string::*;

verus! {

/// Whether a text is a step of a path that leads somewhere.
pub open spec fn is_name(step: Seq<char>) -> bool {
    !step.contains('/') && step != ""@ && step != "."@
}

proof fn steps_go_on(path: Seq<char>, step: Seq<char>)
    requires
        is_name(step),
    ensures
        steps_of(split(path + seq!['/'] + step, '/')) == steps_of(split(path, '/')).push(step),
{
    parts_are_split_off(path, step, '/');
    let segments = split(path, '/');
    assert(segments.push(step).drop_last() =~= segments);
}

/// A file of a container that stands right below a directory stands on the host
/// right below the directory for runtime files, under the same name.
pub proof fn files_below_are_found(directory: Seq<char>, name: Seq<char>)
    requires
        has_prefix(directory, "/"@),
        is_name(name),
    ensures
        below(directory, directory + seq!['/'] + name) == Some(name),
{
    let path = directory + seq!['/'] + name;
    reveal_strlit("/");
    steps_go_on(directory, name);
    let outer = steps_of(split(directory, '/'));
    let inner = steps_of(split(path, '/'));
    assert(inner.take(outer.len() as int) =~= outer);
    assert(inner.skip(outer.len() as int) =~= seq![name]);
    assert(relative_path(seq![name]) == name);
    assert(has_prefix(path, "/"@)) by {
        assert(path[0] == directory[0]);
        assert(directory.take(1) =~= "/"@);
        assert(path.take(1) =~= "/"@);
    }
}

/// Every file right below `/run/decune` is found below the runtime directory of
/// the host, and a path that does not begin at the root is refused with its
/// description.
pub proof fn runtime_files_are_found(
    runtime_dir: Seq<char>,
    name: Seq<char>,
    description: Seq<char>,
    outcome: Result<String, UpError>,
    target: Seq<char>,
    refused: Result<String, UpError>,
)
    requires
        is_name(name),
        finds_runtime_path(
            runtime_dir,
            "/run/decune"@ + seq!['/'] + name,
            description,
            outcome,
        ),
        !has_prefix(target, "/"@),
        finds_runtime_path(runtime_dir, target, description, refused),
    ensures
        outcome is Ok,
        outcome->Ok_0@ == joined_path(runtime_dir, name),
        refused is Err,
        refused->Err_0@.len() == 2,
        refused->Err_0@[0] == "Feature entrypoint "@ + description
            + " must be under /run/decune: "@ + target,
        refused->Err_0@[1] == "prefix not found"@,
{
    reveal_strlit("/run/decune");
    reveal_strlit("/");
    assert(has_prefix("/run/decune"@, "/"@)) by {
        assert("/run/decune"@.take(1) =~= "/"@);
    }
    files_below_are_found("/run/decune"@, name);
}

/// The token may be read by all only where the container's user is neither
/// root nor given the ids of the host user. Root is the user `root` or `0`,
/// whatever group stands behind a colon.
pub proof fn tokens_are_kept_from_others<S: PlanServices>(
    services: &S,
    plan: UpPlan,
    outcome: Result<u32, UpError>,
)
    requires
        chooses_token_mode(services, plan, outcome),
        outcome is Ok,
    ensures
        plan.uid_gid_sync_plan is Sync ==> outcome->Ok_0 == 0o600,
        exists|user: Result<String, UpError>|
            {
                &&& #[trigger] call_ensures(
                    S::uid_gid_sync_runtime_user,
                    (services, &plan.effective_users.container_user.user, &plan.uid_gid_sync_plan),
                    user,
                )
                &&& user is Ok
                &&& is_root_user(user->Ok_0@) ==> outcome->Ok_0 == 0o600
                &&& !is_root_user(user->Ok_0@) && !(plan.uid_gid_sync_plan is Sync)
                    ==> outcome->Ok_0 == 0o644
            },
{
}

/// Root is known by its name or number, with or without a group.
pub proof fn root_is_known(user: Seq<char>, group: Seq<char>)
    requires
        !user.contains(':'),
    ensures
        is_root_user(user) <==> user == "root"@ || user == "0"@,
        is_root_user(user + seq![':'] + group) <==> user == "root"@ || user == "0"@,
{
    crate::laws::text::texts_are_parted_at_the_first_occurrence(user, ':');
    let whole = user + seq![':'] + group;
    crate::laws::text::texts_are_parted_at_the_first_occurrence(whole, ':');
    assert(whole[user.len() as int] == ':');
    assert(whole.contains(':'));
    let (name, rest) = parted(whole, ':')->0;
    let again = name + seq![':'] + rest;
    assert(whole == again);
    assert(name =~= user) by {
        assert(name.len() <= whole.len());
        assert forall|i: int| 0 <= i < name.len() implies name[i] == whole[i] by {
            assert(again[i] == name[i]);
        }
        if name.len() < user.len() {
            assert(again[name.len() as int] == ':');
            assert(whole[name.len() as int] == ':');
            assert(user[name.len() as int] == ':');
            assert(user.contains(':'));
        } else if name.len() > user.len() {
            assert(name[user.len() as int] == whole[user.len() as int]);
            assert(name.contains(':'));
        } else {
            assert forall|i: int| 0 <= i < user.len() implies name[i] == user[i] by {
                assert(whole[i] == user[i]);
            }
        }
    }
}

/// Once a step was done, the next one follows, on the file it is about: the
/// directory can be entered by all, the sentinel written by all, and the token
/// holds the random bytes and gets the mode that was chosen for it.
pub proof fn runtime_files_are_made_in_order<S: PlanServices>(
    services: &S,
    plan: UpPlan,
    runtime_dir: Seq<char>,
    sentinel: Seq<char>,
    token: Seq<char>,
    before: EntrypointRuntimeProgress,
    event: EntrypointRuntimeEvent,
    after: EntrypointRuntimeProgress,
    action: EntrypointRuntimeAction,
)
    requires
        entrypoint_event_fits(before, event),
        prepares_runtime(
            services,
            plan,
            runtime_dir,
            sentinel,
            token,
            before,
            event,
            after,
            action,
        ),
        event is Performed ==> event->Performed_0 is Ok,
        !(action is Done && action->Done_0 is Err),
    ensures
        before is Directory ==> action is SetMode && action->SetMode_path@ == runtime_dir
            && action->SetMode_mode == 0o711,
        before is DirectoryMode ==> {
            &&& action is OpenAnew
            &&& action->OpenAnew_mode == 0o666
            &&& after is Sentinel
            &&& after->Sentinel_path == action->OpenAnew_path
            &&& exists|found: Result<String, UpError>| #[trigger]
                finds_runtime_path(runtime_dir, sentinel, "sentinel"@, found) && found is Ok
                    && action->OpenAnew_path == found->Ok_0
        },
        before is Sentinel ==> action is SetMode && action->SetMode_path == before->Sentinel_path
            && action->SetMode_mode == 0o666,
        before is SentinelMode ==> action is DrawRandom && action->count == 32,
        before is Random ==> {
            &&& event->Drawn_0 is Ok
            &&& action is OpenAnew
            &&& after is Token
            &&& after->Token_path == action->OpenAnew_path
            &&& after->Token_mode == action->OpenAnew_mode
            &&& after->content@ == hex_digits(event->Drawn_0->Ok_0@)
            &&& exists|found: Result<String, UpError>| #[trigger]
                finds_runtime_path(runtime_dir, token, "token"@, found) && found is Ok
                    && action->OpenAnew_path == found->Ok_0
            &&& exists|mode: Result<u32, UpError>| #[trigger]
                chooses_token_mode(services, plan, mode) && mode is Ok && action->OpenAnew_mode
                    == mode->Ok_0
        },
        before is Token ==> {
            &&& action is Write
            &&& action->Write_content == before->content
            &&& after is TokenContent
            &&& after->TokenContent_path == before->Token_path
            &&& after->TokenContent_mode == before->Token_mode
        },
        before is TokenContent ==> action is SetMode && action->SetMode_path
            == before->TokenContent_path && action->SetMode_mode == before->TokenContent_mode,
        before is TokenMode ==> action is Done,
{
}

/// What failed ends the preparation with its own causes behind one line.
pub proof fn failed_preparations_end<S: PlanServices>(
    services: &S,
    plan: UpPlan,
    runtime_dir: Seq<char>,
    sentinel: Seq<char>,
    token: Seq<char>,
    before: EntrypointRuntimeProgress,
    cause: UpError,
    after: EntrypointRuntimeProgress,
    action: EntrypointRuntimeAction,
)
    requires
        prepares_runtime(
            services,
            plan,
            runtime_dir,
            sentinel,
            token,
            before,
            EntrypointRuntimeEvent::Performed(Err(cause)),
            after,
            action,
        ),
    ensures
        after is Finished,
        action is Done,
        action->Done_0 is Err,
        action->Done_0->Err_0@.len() == cause@.len() + 1,
        action->Done_0->Err_0@.skip(1) == cause@,
        before is Directory ==> action->Done_0->Err_0@[0]
            == "Failed to create Feature entrypoint runtime directory: "@ + runtime_dir,
        before is DirectoryMode ==> action->Done_0->Err_0@[0]
            == "Failed to set Feature entrypoint runtime directory permissions: "@ + runtime_dir,
        before is Sentinel ==> action->Done_0->Err_0@[0]
            == "Failed to prepare Feature entrypoint sentinel: "@ + before->Sentinel_path@,
        before is SentinelMode ==> action->Done_0->Err_0@[0]
            == "Failed to set Feature entrypoint sentinel permissions: "@
            + before->SentinelMode_path@,
        before is Token ==> action->Done_0->Err_0@[0]
            == "Failed to prepare Feature entrypoint token: "@ + before->Token_path@,
        before is TokenContent ==> action->Done_0->Err_0@[0]
            == "Failed to write Feature entrypoint token: "@ + before->TokenContent_path@,
        before is TokenMode ==> action->Done_0->Err_0@[0]
            == "Failed to set Feature entrypoint token permissions: "@ + before->TokenMode_path@,
{
    assert(action->Done_0->Err_0@.skip(1) =~= cause@);
}

/// Each byte is written as two digits that read back as it, the higher one
/// first.
pub proof fn digits_of_bytes_read_back(bytes: Seq<u8>, i: int)
    requires
        0 <= i < bytes.len(),
    ensures
        hex_digits(bytes).len() == 2 * bytes.len(),
        hex_value(hex_digits(bytes)[2 * i]) * 16 + hex_value(hex_digits(bytes)[2 * i + 1])
            == bytes[i],
    decreases bytes.len(),
{
    reveal_strlit("0123456789abcdef");
    let front = bytes.drop_last();
    if front.len() > 0 {
        digits_of_bytes_read_back(
            front,
            if i < front.len() {
                i
            } else {
                0
            },
        );
        if i < front.len() {
            assert(hex_digits(bytes)[2 * i] == hex_digits(front)[2 * i]);
            assert(hex_digits(bytes)[2 * i + 1] == hex_digits(front)[2 * i + 1]);
        }
    }
    if front.len() == 0 {
        assert(hex_digits(front) =~= Seq::empty());
    }
    let last = bytes.last();
    assert(hex_digits(bytes) == hex_digits(front) + seq![
        "0123456789abcdef"@[last as int / 16],
        "0123456789abcdef"@[last as int % 16],
    ]);
    if i == front.len() {
        assert(hex_digits(bytes)[2 * i] == "0123456789abcdef"@[last as int / 16]);
        assert(hex_digits(bytes)[2 * i + 1] == "0123456789abcdef"@[last as int % 16]);
        let high = bytes[i] as int / 16;
        let low = bytes[i] as int % 16;
        assert(hex_value("0123456789abcdef"@[high]) == high);
        assert(hex_value("0123456789abcdef"@[low]) == low);
    }
}

/// A container that is made, written down and started is told under the id that
/// it was made with and the name that was asked for, as a new one.
pub proof fn made_containers_are_told(
    container_name: String,
    id: String,
    made: (CreationProgress, CreationAction),
    written: (CreationProgress, CreationAction),
    started: (CreationProgress, CreationAction),
)
    requires
        creates(
            container_name,
            CreationProgress::Creating,
            CreationEvent::Created(Ok(id)),
            made.0,
            made.1,
        ),
        creates(
            container_name,
            made.0,
            CreationEvent::Persisted(Ok(())),
            written.0,
            written.1,
        ),
        creates(container_name, written.0, CreationEvent::Started(Ok(())), started.0, started.1),
    ensures
        made.1 is PersistState,
        made.1->PersistState_id == id,
        written.1 is StartAndVerify,
        started.1 is Done,
        started.1->Done_0 is Ok,
        started.1->Done_0->Ok_0.container_id == id,
        started.1->Done_0->Ok_0.container_name == container_name,
        !started.1->Done_0->Ok_0.reused,
{
}

/// A container that does not start is removed and forgotten, and its cause is
/// told as it is; where it cannot be removed, it is not forgotten, and that is
/// told in front.
pub proof fn unstarted_containers_are_removed_and_forgotten(
    container_name: String,
    id: String,
    cause: UpError,
    failed: (CreationProgress, CreationAction),
    removed: (CreationProgress, CreationAction),
    forgotten: (CreationProgress, CreationAction),
    other: UpError,
    kept: (CreationProgress, CreationAction),
)
    requires
        creates(
            container_name,
            CreationProgress::Starting { id },
            CreationEvent::Started(Err(cause)),
            failed.0,
            failed.1,
        ),
        creates(container_name, failed.0, CreationEvent::Removed(Ok(())), removed.0, removed.1),
        creates(
            container_name,
            removed.0,
            CreationEvent::Forgotten(Ok(())),
            forgotten.0,
            forgotten.1,
        ),
        creates(container_name, failed.0, CreationEvent::Removed(Err(other)), kept.0, kept.1),
    ensures
        failed.1 is RemoveContainer,
        removed.1 is ForgetContainer,
        forgotten.1 is Done,
        forgotten.1->Done_0 is Err,
        forgotten.1->Done_0->Err_0@ == cause@,
        kept.1 is Done,
        kept.1->Done_0 is Err,
        kept.1->Done_0->Err_0@ == seq![
            "Failed to remove Docker container after start failure: "@ + container_name@ + ": "@
                + joined(other.chain@, ": "@),
        ] + cause@,
{
}

/// A container that cannot be written down is removed and never started, and
/// both the cause and a failed removal are told.
pub proof fn unwritten_containers_are_removed(
    container_name: String,
    id: String,
    cause: UpError,
    failed: (CreationProgress, CreationAction),
    removal: Result<(), UpError>,
    removed: (CreationProgress, CreationAction),
)
    requires
        creates(
            container_name,
            CreationProgress::Persisting { id },
            CreationEvent::Persisted(Err(cause)),
            failed.0,
            failed.1,
        ),
        creates(container_name, failed.0, CreationEvent::Removed(removal), removed.0, removed.1),
    ensures
        failed.1 is RemoveContainer,
        removed.1 is Done,
        removed.1->Done_0 is Err,
        removed.1->Done_0->Err_0@.len() == cause@.len() + 1,
        removed.1->Done_0->Err_0@.skip(1) == cause@,
        removal is Ok ==> removed.1->Done_0->Err_0@[0]
            == "Failed to persist initial lifecycle state for Docker container: "@
            + container_name@,
        removal is Err ==> removed.1->Done_0->Err_0@[0]
            == "Failed to persist initial lifecycle state for Docker container: "@
            + container_name@ + (". Failed to remove Docker container after state failure: "@
            + container_name@ + ": "@ + joined(removal->Err_0.chain@, ": "@)),
{
    assert(removed.1->Done_0->Err_0@.skip(1) =~= cause@);
    assert("Failed to persist initial lifecycle state for Docker container: "@ + container_name@
        + Seq::<char>::empty()
        =~= "Failed to persist initial lifecycle state for Docker container: "@ + container_name@);
}

} // verus!
