//! Installing the runtime.
//!
//! The archive of the runtime is unpacked on the first launch and after an upgrade.
//! Disk and processes are handled from outside: a stage says what to do or to find
//! out, the reply says how it went, and `ensure_runtime` gives the next stage.

use crate::command::{CommandArg, CommandArgSpec, CommandLine};
use crate::layout::{
    the_last_name_leads_back, Environment, Location, LocationSpec, Platform,
};
use crate::places::{
    bundled_r_list, bundled_r_names, prefix_of, runtime_directory_name, runtime_name,
};
use vstd::prelude::*;

verus! {

/// Why the runtime could not be installed.
#[derive(Clone, Copy, Debug, PartialEq, Eq, Structural)]
pub enum InstallFailure {
    /// The running executable is not known.
    NoExecutable,
    /// The payload could not be copied out of the executable.
    NoPayload,
    /// The runtime directory has no parent.
    NoParent,
    /// The directory in the place of the runtime is not one to remove.
    Refused,
    /// The previous runtime could not be removed.
    NotRemoved,
    /// The directory to unpack into could not be made.
    NotCreated,
    /// The program that unpacks could not be run.
    NoTar,
    /// The program that unpacks failed.
    NotUnpacked,
    /// The archive holds no R.
    NoLauncher,
    /// The version file could not be written.
    NotRecorded,
}

/// What comes next in an installation.
#[derive(Clone, Copy, Debug, PartialEq, Eq, Structural)]
pub enum InstallStage {
    /// Find out whether a developer supplies an R.
    CheckSupplied,
    /// Find out whether the expected runtime is in place.
    CheckInstalled,
    /// Find the running executable.
    LocateExecutable,
    /// Find out whether the executable has a payload.
    FindPayload,
    /// Copy the payload to a temporary file.
    StagePayload,
    /// Find out whether the resources hold an archive.
    FindArchive,
    /// Find out whether something is in the place of the runtime.
    CheckPrefix,
    /// Remove the previous runtime.
    RemovePrevious,
    /// Make the directory to unpack into.
    CreateDestination,
    /// Unpack the archive: `Yes` where the program succeeded, `No` where it ran and
    /// failed, `Failed` where it could not be run.
    Unpack,
    /// Find out whether the runtime holds an R launcher.
    CheckLauncher,
    /// Take the quarantine mark off the runtime: Gatekeeper refuses to run what
    /// bears it. How that went does not matter.
    ClearQuarantine,
    /// Write the version file.
    RecordVersion,
    /// The installation is over, or none is needed.
    Done,
    /// The installation is over without success.
    Failed(InstallFailure),
}

/// How a stage went.
#[derive(Clone, Copy, Debug, PartialEq, Eq, Structural)]
pub enum Reply {
    /// It is so, or it was done.
    Yes,
    /// It is not so.
    No,
    /// It could not be found out, or could not be done.
    Failed,
}

/// The stage after the archive was found.
pub open spec fn after_archive(prefix: LocationSpec) -> InstallStage {
    if prefix.parent() is Some {
        InstallStage::CheckPrefix
    } else {
        InstallStage::Failed(InstallFailure::NoParent)
    }
}

/// The stage that follows `stage` when it went as `reply` says. What cannot be found
/// out counts as not so.
pub open spec fn next_stage(
    platform: Platform,
    prefix: LocationSpec,
    stage: InstallStage,
    reply: Reply,
) -> InstallStage {
    let yes = reply == Reply::Yes;
    match stage {
        InstallStage::CheckSupplied => if yes {
            InstallStage::Done
        } else {
            InstallStage::CheckInstalled
        },
        InstallStage::CheckInstalled => if yes {
            InstallStage::Done
        } else if platform == Platform::Windows {
            InstallStage::LocateExecutable
        } else {
            InstallStage::FindArchive
        },
        InstallStage::LocateExecutable => if yes {
            InstallStage::FindPayload
        } else {
            InstallStage::Failed(InstallFailure::NoExecutable)
        },
        InstallStage::FindPayload => if yes {
            InstallStage::StagePayload
        } else {
            InstallStage::Done
        },
        InstallStage::StagePayload => if yes {
            after_archive(prefix)
        } else {
            InstallStage::Failed(InstallFailure::NoPayload)
        },
        InstallStage::FindArchive => if yes {
            after_archive(prefix)
        } else {
            InstallStage::Done
        },
        InstallStage::CheckPrefix => if !yes {
            InstallStage::CreateDestination
        } else if prefix.file_name() == Some(runtime_name()) {
            InstallStage::RemovePrevious
        } else {
            InstallStage::Failed(InstallFailure::Refused)
        },
        InstallStage::RemovePrevious => if yes {
            InstallStage::CreateDestination
        } else {
            InstallStage::Failed(InstallFailure::NotRemoved)
        },
        InstallStage::CreateDestination => if yes {
            InstallStage::Unpack
        } else {
            InstallStage::Failed(InstallFailure::NotCreated)
        },
        InstallStage::Unpack => match reply {
            Reply::Yes => InstallStage::CheckLauncher,
            Reply::No => InstallStage::Failed(InstallFailure::NotUnpacked),
            Reply::Failed => InstallStage::Failed(InstallFailure::NoTar),
        },
        InstallStage::CheckLauncher => if !yes {
            InstallStage::Failed(InstallFailure::NoLauncher)
        } else if platform == Platform::MacOs {
            InstallStage::ClearQuarantine
        } else {
            InstallStage::RecordVersion
        },
        InstallStage::ClearQuarantine => InstallStage::RecordVersion,
        InstallStage::RecordVersion => if yes {
            InstallStage::Done
        } else {
            InstallStage::Failed(InstallFailure::NotRecorded)
        },
        InstallStage::Done => stage,
        InstallStage::Failed(_) => stage,
    }
}

/// The stage that follows when the archive is there.
fn start_unpacking(prefix: &Location) -> (next: InstallStage)
    ensures
        next == after_archive(prefix@),
{
    match prefix.parent() {
        Some(_) => InstallStage::CheckPrefix,
        None => InstallStage::Failed(InstallFailure::NoParent),
    }
}

/// The first stage of an installation.
pub fn first_stage() -> (stage: InstallStage)
    ensures
        stage == InstallStage::CheckSupplied,
{
    InstallStage::CheckSupplied
}

/// The stage that follows `stage` when it went as `reply` says, on the way to a
/// runtime in `prefix`.
pub fn ensure_runtime(
    platform: Platform,
    prefix: &Location,
    stage: InstallStage,
    reply: Reply,
) -> (next: InstallStage)
    ensures
        next == next_stage(platform, prefix@, stage, reply),
{
    match (stage, reply) {
        (InstallStage::CheckSupplied, Reply::Yes) => InstallStage::Done,
        (InstallStage::CheckSupplied, _) => InstallStage::CheckInstalled,
        (InstallStage::CheckInstalled, Reply::Yes) => InstallStage::Done,
        (InstallStage::CheckInstalled, _) => match platform {
            Platform::Windows => InstallStage::LocateExecutable,
            _ => InstallStage::FindArchive,
        },
        (InstallStage::LocateExecutable, Reply::Yes) => InstallStage::FindPayload,
        (InstallStage::LocateExecutable, _) => InstallStage::Failed(InstallFailure::NoExecutable),
        (InstallStage::FindPayload, Reply::Yes) => InstallStage::StagePayload,
        // No payload: a development build, which uses whatever R is installed.
        (InstallStage::FindPayload, _) => InstallStage::Done,
        (InstallStage::StagePayload, Reply::Yes) => start_unpacking(prefix),
        (InstallStage::StagePayload, _) => InstallStage::Failed(InstallFailure::NoPayload),
        (InstallStage::FindArchive, Reply::Yes) => start_unpacking(prefix),
        (InstallStage::FindArchive, _) => InstallStage::Done,
        // Nothing outside the intended place is ever removed.
        (InstallStage::CheckPrefix, Reply::Yes) => if prefix.is_named("MicroHub") {
            InstallStage::RemovePrevious
        } else {
            InstallStage::Failed(InstallFailure::Refused)
        },
        (InstallStage::CheckPrefix, _) => InstallStage::CreateDestination,
        (InstallStage::RemovePrevious, Reply::Yes) => InstallStage::CreateDestination,
        (InstallStage::RemovePrevious, _) => InstallStage::Failed(InstallFailure::NotRemoved),
        (InstallStage::CreateDestination, Reply::Yes) => InstallStage::Unpack,
        (InstallStage::CreateDestination, _) => InstallStage::Failed(InstallFailure::NotCreated),
        (InstallStage::Unpack, Reply::Yes) => InstallStage::CheckLauncher,
        (InstallStage::Unpack, Reply::No) => InstallStage::Failed(InstallFailure::NotUnpacked),
        (InstallStage::Unpack, Reply::Failed) => InstallStage::Failed(InstallFailure::NoTar),
        (InstallStage::CheckLauncher, Reply::Yes) => match platform {
            Platform::MacOs => InstallStage::ClearQuarantine,
            _ => InstallStage::RecordVersion,
        },
        (InstallStage::CheckLauncher, _) => InstallStage::Failed(InstallFailure::NoLauncher),
        (InstallStage::ClearQuarantine, _) => InstallStage::RecordVersion,
        (InstallStage::RecordVersion, Reply::Yes) => InstallStage::Done,
        (InstallStage::RecordVersion, _) => InstallStage::Failed(InstallFailure::NotRecorded),
        (InstallStage::Done, _) => InstallStage::Done,
        (InstallStage::Failed(failure), _) => InstallStage::Failed(failure),
    }
}

/// The splash text that goes with a stage.
pub open spec fn stage_status(stage: InstallStage) -> Option<Seq<char>> {
    match stage {
        InstallStage::StagePayload => Some("Preparing the runtime\u{2026}"@),
        InstallStage::RemovePrevious => Some("Removing the previous runtime\u{2026}"@),
        InstallStage::CreateDestination => Some(
            "Installing the R runtime. This happens once and takes a few minutes\u{2026}"@,
        ),
        _ => None,
    }
}

/// The splash text to set before a stage, if it has one of its own.
pub fn install_status(stage: InstallStage) -> (status: Option<&'static str>)
    ensures
        match status {
            Some(status) => stage_status(stage) == Some(status@),
            None => stage_status(stage) is None,
        },
{
    match stage {
        InstallStage::StagePayload => Some("Preparing the runtime\u{2026}"),
        InstallStage::RemovePrevious => Some("Removing the previous runtime\u{2026}"),
        InstallStage::CreateDestination => Some(
            "Installing the R runtime. This happens once and takes a few minutes\u{2026}",
        ),
        _ => None,
    }
}

/// Whether what is in the place of the archive is a file with something in it.
pub open spec fn real_archive(file: Option<(bool, u64)>) -> bool {
    match file {
        Some((is_file, len)) => is_file && len > 0,
        None => false,
    }
}

/// Whether the archive among the resources is a real one. A development checkout
/// has an empty file in its place. `file` is `None` where nothing is there, and
/// otherwise says whether it is a file and how long it is.
pub fn is_archive(file: Option<(bool, u64)>) -> (yes: bool)
    ensures
        yes == (file is Some && (file->0).0 && (file->0).1 > 0),
        yes == real_archive(file),
{
    match file {
        Some((is_file, len)) => is_file && len > 0,
        None => false,
    }
}

/// Where the archive is unpacked. The one for Windows holds the parts of the runtime
/// at its top and is unpacked into the runtime directory itself; the others hold
/// that directory and are unpacked beside it.
pub open spec fn destination(platform: Platform, prefix: LocationSpec) -> Option<LocationSpec> {
    match platform {
        Platform::Windows => Some(prefix),
        _ => prefix.parent(),
    }
}

/// Where the archive is unpacked.
pub fn extract_into(platform: Platform, prefix: &Location) -> (place: Option<Location>)
    ensures
        match place {
            Some(place) => destination(platform, prefix@) == Some(place@),
            None => destination(platform, prefix@) is None,
        },
        place is Some && prefix@.wf() ==> place->0@.wf(),
{
    match platform {
        Platform::Windows => Some(prefix.duplicate()),
        _ => prefix.parent(),
    }
}

/// The program that unpacks archives.
pub open spec fn tar_program(platform: Platform) -> Seq<char> {
    match platform {
        Platform::Windows => "C:\\Windows\\System32\\tar.exe"@,
        _ => "/usr/bin/tar"@,
    }
}

/// The program that unpacks archives.
pub fn tar_bin(platform: Platform) -> (program: &'static str)
    ensures
        program@ == tar_program(platform),
{
    match platform {
        Platform::Windows => "C:\\Windows\\System32\\tar.exe",
        _ => "/usr/bin/tar",
    }
}

/// The line that the Windows shell runs: a title and a short explanation, because a
/// console window opens in any case, then the unpacking, with every file named.
pub open spec fn shell_line(archive: Seq<char>, into: Seq<char>) -> Seq<char> {
    "title MicroHub first-time setup     &echo ==============================================     &echo  MicroHub is installing its R runtime.     &echo.     &echo  This happens once, and takes a few minutes.     &echo  The app opens by itself when this finishes.     &echo  You can leave this window alone.     &echo ==============================================     &echo.     &\""@
        + tar_program(Platform::Windows) + "\" -xvzf \""@ + archive + "\" -C \""@ + into
        + "\"     &echo.     &echo  Done. Starting MicroHub..."@
}

/// The program of the command that unpacks.
pub open spec fn extract_program(platform: Platform) -> Seq<char> {
    match platform {
        Platform::Windows => "cmd"@,
        _ => tar_program(platform),
    }
}

/// The arguments of the command that unpacks. The shell of Windows gets the paths as
/// part of its line, as they are shown to the user; `tar` gets them as they are.
pub open spec fn extract_args(
    platform: Platform,
    archive: LocationSpec,
    into: LocationSpec,
    archive_text: Seq<char>,
    into_text: Seq<char>,
) -> Seq<CommandArgSpec> {
    match platform {
        Platform::Windows => seq![
            CommandArgSpec::Text("/c"@),
            CommandArgSpec::Text(shell_line(archive_text, into_text)),
        ],
        _ => seq![
            CommandArgSpec::Text("-xzf"@),
            CommandArgSpec::Place(archive),
            CommandArgSpec::Text("-C"@),
            CommandArgSpec::Place(into),
        ],
    }
}

/// The command that unpacks the runtime archive. `archive_text` and `into_text` are the
/// two paths as they are shown to the user.
pub fn run_extract(
    platform: Platform,
    archive: &Location,
    into: &Location,
    archive_text: &str,
    into_text: &str,
) -> (command: CommandLine)
    ensures
        command.program@ == extract_program(platform),
        command.arguments() == extract_args(platform, archive@, into@, archive_text@, into_text@),
{
    let mut args: Vec<CommandArg> = Vec::new();
    let program = match platform {
        Platform::Windows => {
            let mut line = "title MicroHub first-time setup     &echo ==============================================     &echo  MicroHub is installing its R runtime.     &echo.     &echo  This happens once, and takes a few minutes.     &echo  The app opens by itself when this finishes.     &echo  You can leave this window alone.     &echo ==============================================     &echo.     &\"".to_owned();
            line.append(tar_bin(platform));
            line.append("\" -xvzf \"");
            line.append(archive_text);
            line.append("\" -C \"");
            line.append(into_text);
            line.append("\"     &echo.     &echo  Done. Starting MicroHub...");
            args.push(CommandArg::Text("/c".to_owned()));
            args.push(CommandArg::Text(line));
            "cmd"
        },
        _ => {
            args.push(CommandArg::Text("-xzf".to_owned()));
            args.push(CommandArg::Place(archive.duplicate()));
            args.push(CommandArg::Text("-C".to_owned()));
            args.push(CommandArg::Place(into.duplicate()));
            tar_bin(platform)
        },
    };
    let command = CommandLine { program, args };
    proof {
        assert(command.arguments() =~= extract_args(
            platform,
            archive@,
            into@,
            archive_text@,
            into_text@,
        ));
    }
    command
}

/// The arguments of the command that takes the quarantine mark off.
pub open spec fn quarantine_args(place: LocationSpec) -> Seq<CommandArgSpec> {
    seq![
        CommandArgSpec::Text("-dr"@),
        CommandArgSpec::Text("com.apple.quarantine"@),
        CommandArgSpec::Place(place),
    ]
}

/// The command that takes the quarantine mark of macOS off everything in `place`.
pub fn quarantine_command(place: &Location) -> (command: CommandLine)
    ensures
        command.program@ == "/usr/bin/xattr"@,
        command.arguments() == seq![
            CommandArgSpec::Text("-dr"@),
            CommandArgSpec::Text("com.apple.quarantine"@),
            CommandArgSpec::Place(place@),
        ],
        command.arguments() == quarantine_args(place@),
{
    let mut args: Vec<CommandArg> = Vec::new();
    args.push(CommandArg::Text("-dr".to_owned()));
    args.push(CommandArg::Text("com.apple.quarantine".to_owned()));
    args.push(CommandArg::Place(place.duplicate()));
    let command = CommandLine { program: "/usr/bin/xattr", args };
    proof {
        assert(command.arguments() =~= seq![
            CommandArgSpec::Text("-dr"@),
            CommandArgSpec::Text("com.apple.quarantine"@),
            CommandArgSpec::Place(place@),
        ]);
    }
    command
}

/// The paths of an installation, as they are shown to the user.
#[derive(Debug, PartialEq, Eq)]
pub struct InstallPaths {
    pub prefix: String,
    pub archive: String,
    pub destination: String,
}

/// What the user is told about a failure. `detail` is what the system said, or how
/// the program that unpacks ended.
pub open spec fn failure_text(
    platform: Platform,
    failure: InstallFailure,
    detail: Seq<char>,
    paths: InstallPaths,
) -> Seq<char> {
    match failure {
        InstallFailure::NoExecutable => "Could not locate the running executable: "@ + detail,
        InstallFailure::NoPayload => detail,
        InstallFailure::NoParent => paths.prefix@ + " has no parent directory"@,
        InstallFailure::Refused => "refusing to remove "@ + paths.prefix@,
        InstallFailure::NotRemoved => "Could not remove the old runtime at "@ + paths.prefix@
            + ": "@ + detail,
        InstallFailure::NotCreated => "Could not create "@ + paths.destination@ + ": "@ + detail,
        InstallFailure::NoTar => "Could not run tar: "@ + detail,
        InstallFailure::NotUnpacked => "Unpacking the runtime failed: "@ + tar_program(platform)
            + " exited with "@ + detail + "\narchive: "@ + paths.archive@ + "\ndestination: "@
            + paths.destination@,
        InstallFailure::NoLauncher => "The runtime unpacked but no R was found under "@
            + paths.prefix@ + ". Expected one of: "@ + bundled_r_names(platform),
        InstallFailure::NotRecorded => "Could not record the runtime version: "@ + detail,
    }
}

/// What the user is told about a failure.
pub fn install_error(
    platform: Platform,
    failure: InstallFailure,
    detail: &str,
    paths: &InstallPaths,
) -> (message: String)
    ensures
        message@ == failure_text(platform, failure, detail@, *paths),
{
    let mut message: String;
    match failure {
        InstallFailure::NoExecutable => {
            message = "Could not locate the running executable: ".to_owned();
            message.append(detail);
        },
        InstallFailure::NoPayload => {
            message = detail.to_owned();
        },
        InstallFailure::NoParent => {
            message = paths.prefix.clone();
            message.append(" has no parent directory");
        },
        InstallFailure::Refused => {
            message = "refusing to remove ".to_owned();
            message.append(paths.prefix.as_str());
        },
        InstallFailure::NotRemoved => {
            message = "Could not remove the old runtime at ".to_owned();
            message.append(paths.prefix.as_str());
            message.append(": ");
            message.append(detail);
        },
        InstallFailure::NotCreated => {
            message = "Could not create ".to_owned();
            message.append(paths.destination.as_str());
            message.append(": ");
            message.append(detail);
        },
        InstallFailure::NoTar => {
            message = "Could not run tar: ".to_owned();
            message.append(detail);
        },
        InstallFailure::NotUnpacked => {
            message = "Unpacking the runtime failed: ".to_owned();
            message.append(tar_bin(platform));
            message.append(" exited with ");
            message.append(detail);
            message.append("\narchive: ");
            message.append(paths.archive.as_str());
            message.append("\ndestination: ");
            message.append(paths.destination.as_str());
        },
        InstallFailure::NoLauncher => {
            message = "The runtime unpacked but no R was found under ".to_owned();
            message.append(paths.prefix.as_str());
            message.append(". Expected one of: ");
            message.append(bundled_r_list(platform));
        },
        InstallFailure::NotRecorded => {
            message = "Could not record the runtime version: ".to_owned();
            message.append(detail);
        },
    }
    message
}

/// The stage of an installation after these replies.
pub open spec fn stage_after(
    platform: Platform,
    prefix: LocationSpec,
    replies: Seq<Reply>,
) -> InstallStage
    decreases replies.len(),
{
    if replies.len() == 0 {
        InstallStage::CheckSupplied
    } else {
        next_stage(
            platform,
            prefix,
            stage_after(platform, prefix, replies.drop_last()),
            replies.last(),
        )
    }
}

/// In the course of these replies, `stage` was reached and answered with `reply`.
pub open spec fn answered(
    platform: Platform,
    prefix: LocationSpec,
    replies: Seq<Reply>,
    stage: InstallStage,
    reply: Reply,
) -> bool {
    exists|i: int|
        0 <= i < replies.len() && stage_after(platform, prefix, #[trigger] replies.take(i)) == stage
            && replies[i] == reply
}

/// An installation is over when it is done or has failed.
pub open spec fn is_over(stage: InstallStage) -> bool {
    stage is Done || stage is Failed
}

/// How many more replies an installation takes at most.
pub open spec fn steps_left(stage: InstallStage) -> nat {
    match stage {
        InstallStage::CheckSupplied => 12,
        InstallStage::CheckInstalled => 11,
        InstallStage::LocateExecutable => 10,
        InstallStage::FindPayload => 9,
        InstallStage::StagePayload => 8,
        InstallStage::FindArchive => 8,
        InstallStage::CheckPrefix => 7,
        InstallStage::RemovePrevious => 6,
        InstallStage::CreateDestination => 5,
        InstallStage::Unpack => 4,
        InstallStage::CheckLauncher => 3,
        InstallStage::ClearQuarantine => 2,
        InstallStage::RecordVersion => 1,
        InstallStage::Done => 0,
        InstallStage::Failed(_) => 0,
    }
}

/// What was answered stays answered when more replies come.
pub(crate) proof fn lemma_answered_grows(
    platform: Platform,
    prefix: LocationSpec,
    replies: Seq<Reply>,
    stage: InstallStage,
    reply: Reply,
)
    requires
        replies.len() > 0,
        answered(platform, prefix, replies.drop_last(), stage, reply),
    ensures
        answered(platform, prefix, replies, stage, reply),
{
    let fewer = replies.drop_last();
    let i = choose|i: int|
        0 <= i < fewer.len() && stage_after(platform, prefix, #[trigger] fewer.take(i)) == stage
            && fewer[i] == reply;
    assert(fewer.take(i) =~= replies.take(i));
}

/// The last reply answers the stage before it.
pub(crate) proof fn lemma_answered_last(platform: Platform, prefix: LocationSpec, replies: Seq<Reply>)
    requires
        replies.len() > 0,
    ensures
        answered(
            platform,
            prefix,
            replies,
            stage_after(platform, prefix, replies.drop_last()),
            replies.last(),
        ),
{
    assert(replies.take(replies.len() - 1) =~= replies.drop_last());
}

/// Nothing is removed but a directory with the name of the runtime, and that only
/// where there is something in its place.
pub proof fn only_the_runtime_is_removed(
    platform: Platform,
    prefix: LocationSpec,
    replies: Seq<Reply>,
)
    requires
        stage_after(platform, prefix, replies) == InstallStage::RemovePrevious,
    ensures
        prefix.file_name() == Some(runtime_name()),
        answered(platform, prefix, replies, InstallStage::CheckPrefix, Reply::Yes),
{
    lemma_answered_last(platform, prefix, replies);
}

/// On a system that is neither macOS nor Windows the runtime directory is never
/// removed: an installation that finds something in its place is refused.
pub proof fn nothing_is_removed_elsewhere(env: Environment, replies: Seq<Reply>)
    ensures
        stage_after(Platform::Other, prefix_of(Platform::Other, env), replies)
            != InstallStage::RemovePrevious,
        next_stage(
            Platform::Other,
            prefix_of(Platform::Other, env),
            InstallStage::CheckPrefix,
            Reply::Yes,
        ) == InstallStage::Failed(InstallFailure::Refused),
{
    runtime_directory_name(Platform::Other, env);
    if stage_after(Platform::Other, prefix_of(Platform::Other, env), replies)
        == InstallStage::RemovePrevious {
        only_the_runtime_is_removed(
            Platform::Other,
            prefix_of(Platform::Other, env),
            replies,
        );
    }
}

proof fn lemma_launcher_only_after_unpacking(
    platform: Platform,
    prefix: LocationSpec,
    replies: Seq<Reply>,
)
    requires
        stage_after(platform, prefix, replies) == InstallStage::CheckLauncher,
    ensures
        answered(platform, prefix, replies, InstallStage::Unpack, Reply::Yes),
{
    lemma_answered_last(platform, prefix, replies);
}

/// The version file is written only after the archive was unpacked and has produced
/// an R launcher.
pub proof fn version_is_recorded_only_with_a_launcher(
    platform: Platform,
    prefix: LocationSpec,
    replies: Seq<Reply>,
)
    requires
        stage_after(platform, prefix, replies) == InstallStage::RecordVersion,
    ensures
        answered(platform, prefix, replies, InstallStage::Unpack, Reply::Yes),
        answered(platform, prefix, replies, InstallStage::CheckLauncher, Reply::Yes),
{
    lemma_answered_last(platform, prefix, replies);
    let fewer = replies.drop_last();
    let before = stage_after(platform, prefix, fewer);
    if before == InstallStage::ClearQuarantine {
        lemma_answered_last(platform, prefix, fewer);
        lemma_answered_grows(
            platform,
            prefix,
            replies,
            InstallStage::CheckLauncher,
            Reply::Yes,
        );
        lemma_launcher_only_after_unpacking(platform, prefix, fewer.drop_last());
        lemma_answered_grows(platform, prefix, fewer, InstallStage::Unpack, Reply::Yes);
    } else {
        lemma_launcher_only_after_unpacking(platform, prefix, fewer);
    }
    lemma_answered_grows(platform, prefix, replies, InstallStage::Unpack, Reply::Yes);
}

/// An installation reports success for one of four reasons: a developer supplies an
/// R, the expected runtime is in place, the build carries no archive, or a new
/// runtime was unpacked, found usable and recorded.
pub proof fn success_has_a_reason(platform: Platform, prefix: LocationSpec, replies: Seq<Reply>)
    requires
        stage_after(platform, prefix, replies) == InstallStage::Done,
    ensures
        ({
            ||| answered(platform, prefix, replies, InstallStage::CheckSupplied, Reply::Yes)
            ||| answered(platform, prefix, replies, InstallStage::CheckInstalled, Reply::Yes)
            ||| answered(platform, prefix, replies, InstallStage::FindPayload, Reply::No)
            ||| answered(platform, prefix, replies, InstallStage::FindPayload, Reply::Failed)
            ||| answered(platform, prefix, replies, InstallStage::FindArchive, Reply::No)
            ||| answered(platform, prefix, replies, InstallStage::FindArchive, Reply::Failed)
            ||| {
                &&& answered(platform, prefix, replies, InstallStage::Unpack, Reply::Yes)
                &&& answered(platform, prefix, replies, InstallStage::CheckLauncher, Reply::Yes)
                &&& answered(platform, prefix, replies, InstallStage::RecordVersion, Reply::Yes)
            }
        }),
    decreases replies.len(),
{
    lemma_answered_last(platform, prefix, replies);
    let fewer = replies.drop_last();
    let before = stage_after(platform, prefix, fewer);
    if before == InstallStage::Done {
        success_has_a_reason(platform, prefix, fewer);
        assert forall|stage: InstallStage, reply: Reply|
            answered(platform, prefix, fewer, stage, reply) implies #[trigger] answered(
            platform,
            prefix,
            replies,
            stage,
            reply,
        ) by {
            lemma_answered_grows(platform, prefix, replies, stage, reply);
        }
    } else if before == InstallStage::RecordVersion {
        version_is_recorded_only_with_a_launcher(platform, prefix, fewer);
        lemma_answered_grows(platform, prefix, replies, InstallStage::Unpack, Reply::Yes);
        lemma_answered_grows(platform, prefix, replies, InstallStage::CheckLauncher, Reply::Yes);
    }
}

/// Every installation is over after twelve replies, or before.
pub proof fn installation_ends(platform: Platform, prefix: LocationSpec, replies: Seq<Reply>)
    ensures
        steps_left(stage_after(platform, prefix, replies)) + replies.len() <= 12 || is_over(
            stage_after(platform, prefix, replies),
        ),
        replies.len() >= 12 ==> is_over(stage_after(platform, prefix, replies)),
    decreases replies.len(),
{
    if replies.len() > 0 {
        installation_ends(platform, prefix, replies.drop_last());
    }
}

/// Once an installation is over, nothing changes that.
pub proof fn over_is_over(
    platform: Platform,
    prefix: LocationSpec,
    stage: InstallStage,
    reply: Reply,
)
    requires
        is_over(stage),
    ensures
        next_stage(platform, prefix, stage, reply) == stage,
{
}

/// A step that changes something and fails ends the installation with a failure, so
/// no version is recorded after it. Clearing the quarantine mark is no such step.
pub proof fn failed_step_ends_the_installation(
    platform: Platform,
    prefix: LocationSpec,
    stage: InstallStage,
    reply: Reply,
)
    requires
        stage == InstallStage::StagePayload || stage == InstallStage::RemovePrevious || stage
            == InstallStage::CreateDestination || stage == InstallStage::Unpack || stage
            == InstallStage::RecordVersion,
        reply != Reply::Yes,
    ensures
        next_stage(platform, prefix, stage, reply) is Failed,
{
}

/// What is unpacked ends up in the runtime directory: the archive for Windows is
/// unpacked into it, the one for macOS holds a directory of its name and is unpacked
/// beside it.
pub proof fn archive_lands_in_the_runtime_directory(env: Environment)
    ensures
        destination(Platform::Windows, prefix_of(Platform::Windows, env)) == Some(
            prefix_of(Platform::Windows, env),
        ),
        destination(Platform::MacOs, prefix_of(Platform::MacOs, env)) is Some,
        (destination(Platform::MacOs, prefix_of(Platform::MacOs, env))->0).join(runtime_name())
            == prefix_of(Platform::MacOs, env),
{
    let prefix = prefix_of(Platform::MacOs, env);
    assert(prefix.parts.drop_last().push(runtime_name()) =~= prefix.parts);
}

/// A file with anything in it is an archive, however long it is; an empty one is not, nor
/// is what is no file, or nothing.
pub proof fn any_content_makes_an_archive(len: u64)
    ensures
        real_archive(Some((true, len))) <==> len != 0,
        !real_archive(Some((false, len))),
        !real_archive(None),
{
}

/// The splash text changes before three stages, and says something else at each.
pub proof fn three_stages_are_announced(stage: InstallStage)
    ensures
        stage_status(stage) is Some <==> stage == InstallStage::StagePayload || stage
            == InstallStage::RemovePrevious || stage == InstallStage::CreateDestination,
        stage == InstallStage::StagePayload ==> stage_status(stage) == Some(
            "Preparing the runtime\u{2026}"@,
        ),
        stage == InstallStage::RemovePrevious ==> stage_status(stage) == Some(
            "Removing the previous runtime\u{2026}"@,
        ),
        stage == InstallStage::CreateDestination ==> stage_status(stage) == Some(
            "Installing the R runtime. This happens once and takes a few minutes\u{2026}"@,
        ),
{
}

/// Wherever the runtime is to be, it is where the archive puts it: on Windows the archive
/// is unpacked into the runtime directory, and elsewhere into the directory in which the
/// name of the runtime directory leads to it.
pub proof fn archive_is_unpacked_where_the_runtime_comes_to_be(
    platform: Platform,
    prefix: LocationSpec,
)
    ensures
        platform == Platform::Windows ==> destination(platform, prefix) == Some(prefix),
        platform != Platform::Windows ==> {
            &&& destination(platform, prefix) is Some <==> prefix.file_name() is Some
            &&& destination(platform, prefix) is Some ==> (destination(platform, prefix)->0).join(
                prefix.file_name()->0,
            ) == prefix
        },
{
    the_last_name_leads_back(prefix);
}

/// Outside Windows the archive and the destination are handed to `tar` as they are, the
/// archive behind `-xzf` and the destination behind `-C`, however they are shown.
pub proof fn tar_is_handed_the_two_places(
    platform: Platform,
    archive: LocationSpec,
    into: LocationSpec,
    archive_text: Seq<char>,
    into_text: Seq<char>,
)
    requires
        platform != Platform::Windows,
    ensures
        ({
            let args = extract_args(platform, archive, into, archive_text, into_text);
            &&& extract_program(platform) == "/usr/bin/tar"@
            &&& args.len() == 4
            &&& args[0] == CommandArgSpec::Text("-xzf"@)
            &&& args[1] == CommandArgSpec::Place(archive)
            &&& args[2] == CommandArgSpec::Text("-C"@)
            &&& args[3] == CommandArgSpec::Place(into)
        }),
{
}

/// On Windows the shell runs one line. Whatever the two paths are, they stand in it once
/// each, in quotes and as they are shown, the archive behind `-xvzf` and the destination
/// behind `-C`; the rest of the line is always the same.
pub proof fn shell_unpacks_the_shown_archive(
    archive: LocationSpec,
    into: LocationSpec,
) -> (frame: (Seq<char>, Seq<char>))
    ensures
        extract_program(Platform::Windows) == "cmd"@,
        forall|archive_text: Seq<char>, into_text: Seq<char>|
            #![trigger extract_args(Platform::Windows, archive, into, archive_text, into_text)]
            extract_args(Platform::Windows, archive, into, archive_text, into_text) == seq![
                CommandArgSpec::Text("/c"@),
                CommandArgSpec::Text(
                    frame.0 + "\"C:\\Windows\\System32\\tar.exe\" -xvzf \""@ + archive_text
                        + "\" -C \""@ + into_text + "\""@ + frame.1,
                ),
            ],
{
    let whole = "title MicroHub first-time setup     &echo ==============================================     &echo  MicroHub is installing its R runtime.     &echo.     &echo  This happens once, and takes a few minutes.     &echo  The app opens by itself when this finishes.     &echo  You can leave this window alone.     &echo ==============================================     &echo.     &\""@;
    let after = "\"     &echo.     &echo  Done. Starting MicroHub..."@;
    reveal_strlit("title MicroHub first-time setup     &echo ==============================================     &echo  MicroHub is installing its R runtime.     &echo.     &echo  This happens once, and takes a few minutes.     &echo  The app opens by itself when this finishes.     &echo  You can leave this window alone.     &echo ==============================================     &echo.     &\"");
    reveal_strlit("\"     &echo.     &echo  Done. Starting MicroHub...");
    reveal_strlit("\"C:\\Windows\\System32\\tar.exe\" -xvzf \"");
    reveal_strlit("C:\\Windows\\System32\\tar.exe");
    reveal_strlit("\" -xvzf \"");
    reveal_strlit("\"");
    let frame = (whole.drop_last(), after.drop_first());
    assert(whole =~= frame.0 + "\""@);
    assert(after =~= "\""@ + frame.1);
    assert("\"C:\\Windows\\System32\\tar.exe\" -xvzf \""@ =~= "\""@
        + "C:\\Windows\\System32\\tar.exe"@ + "\" -xvzf \""@);
    assert forall|archive_text: Seq<char>, into_text: Seq<char>|
        #![trigger extract_args(Platform::Windows, archive, into, archive_text, into_text)]
        extract_args(Platform::Windows, archive, into, archive_text, into_text) == seq![
            CommandArgSpec::Text("/c"@),
            CommandArgSpec::Text(
                frame.0 + "\"C:\\Windows\\System32\\tar.exe\" -xvzf \""@ + archive_text
                    + "\" -C \""@ + into_text + "\""@ + frame.1,
            ),
        ] by {
        assert(shell_line(archive_text, into_text) =~= frame.0
            + "\"C:\\Windows\\System32\\tar.exe\" -xvzf \""@ + archive_text + "\" -C \""@
            + into_text + "\""@ + frame.1);
    }
    frame
}

/// The quarantine mark is taken off one place, and that is the one asked for, whichever
/// it is.
pub proof fn quarantine_is_cleared_in_the_asked_place(place: LocationSpec)
    ensures
        quarantine_args(place).len() == 3,
        quarantine_args(place)[0] == CommandArgSpec::Text("-dr"@),
        quarantine_args(place)[1] == CommandArgSpec::Text("com.apple.quarantine"@),
        quarantine_args(place)[2] == CommandArgSpec::Place(place),
{
}

/// Where the system has something to say about a failure, the message ends in it, and the
/// rest of the message does not depend on it; how the program that unpacks ended stands
/// behind its name, before the two paths.
pub proof fn message_passes_on_what_the_system_said(
    platform: Platform,
    failure: InstallFailure,
    detail: Seq<char>,
    paths: InstallPaths,
)
    ensures
        failure == InstallFailure::NoExecutable || failure == InstallFailure::NoPayload || failure
            == InstallFailure::NotRemoved || failure == InstallFailure::NotCreated || failure
            == InstallFailure::NoTar || failure == InstallFailure::NotRecorded ==> failure_text(
            platform,
            failure,
            detail,
            paths,
        ) == failure_text(platform, failure, Seq::empty(), paths) + detail,
        failure == InstallFailure::NotUnpacked ==> failure_text(platform, failure, detail, paths)
            == "Unpacking the runtime failed: "@ + tar_program(platform) + " exited with "@
            + detail + "\narchive: "@ + paths.archive@ + "\ndestination: "@ + paths.destination@,
        failure == InstallFailure::NoParent || failure == InstallFailure::Refused || failure
            == InstallFailure::NoLauncher ==> failure_text(platform, failure, detail, paths)
            == failure_text(platform, failure, Seq::empty(), paths),
{
    assert(failure_text(platform, failure, detail, paths) =~= failure_text(
        platform,
        failure,
        Seq::empty(),
        paths,
    ) + detail || failure == InstallFailure::NotUnpacked || failure == InstallFailure::NoParent
        || failure == InstallFailure::Refused || failure == InstallFailure::NoLauncher);
}

/// A message about a directory names that directory as it is shown, whatever its path.
pub proof fn message_names_the_directory(
    platform: Platform,
    detail: Seq<char>,
    paths: InstallPaths,
)
    ensures
        failure_text(platform, InstallFailure::NoParent, detail, paths) == paths.prefix@
            + " has no parent directory"@,
        failure_text(platform, InstallFailure::Refused, detail, paths) == "refusing to remove "@
            + paths.prefix@,
        failure_text(platform, InstallFailure::NotRemoved, detail, paths)
            == "Could not remove the old runtime at "@ + paths.prefix@ + ": "@ + detail,
        failure_text(platform, InstallFailure::NotCreated, detail, paths) == "Could not create "@
            + paths.destination@ + ": "@ + detail,
        failure_text(platform, InstallFailure::NoLauncher, detail, paths)
            == "The runtime unpacked but no R was found under "@ + paths.prefix@
            + ". Expected one of: "@ + bundled_r_names(platform),
{
}

} // verus!
