//! What a stage of an installation does, and to what.

use crate::install::{
    answered, destination, extract_into, is_over, only_the_runtime_is_removed, stage_after,
    version_is_recorded_only_with_a_launcher, InstallStage, Reply,
};
use crate::layout::{
    below, joining_goes_one_level_down, Location, LocationSpec, Platform, Var,
};
use crate::places::{archive, archive_place, runtime_name, version_file, version_place};
use crate::runtime_id::{expected_id, ready, recorded_runtime_is_recognised};
use crate::text::trim;
use vstd::prelude::*;

verus! {

/// What to do or to find out.
#[derive(Debug, PartialEq, Eq)]
pub enum InstallAction {
    /// Whether the variable is set.
    IsSet(Var),
    /// Whether the runtime in `prefix` has a launcher, and `version_file` says that it
    /// is the expected one.
    IsReady { prefix: Location, version_file: Location, expected: String },
    /// Which file is running.
    FindExecutable,
    /// Whether the running file has a payload.
    HasPayload,
    /// Copy the payload of the running file.
    CopyPayload { to: Location },
    /// Whether a real archive is there.
    IsArchive { file: Location },
    /// Whether anything is there.
    Exists { place: Location },
    /// Remove the directory and all that is in it.
    RemoveDir { place: Location },
    /// Make the directory, and those above it.
    CreateDir { place: Location },
    /// Unpack the archive.
    Unpack { archive: Location, into: Location },
    /// Whether the runtime in `prefix` has a launcher.
    HasLauncher { prefix: Location },
    /// Take the quarantine mark off.
    ClearQuarantine { place: Location },
    /// Write the file.
    WriteFile { file: Location, text: String },
}

/// What to do or to find out, in mathematical terms.
#[verifier::ext_equal]
pub enum InstallActionSpec {
    IsSet(Var),
    IsReady { prefix: LocationSpec, version_file: LocationSpec, expected: Seq<char> },
    FindExecutable,
    HasPayload,
    CopyPayload { to: LocationSpec },
    IsArchive { file: LocationSpec },
    Exists { place: LocationSpec },
    RemoveDir { place: LocationSpec },
    CreateDir { place: LocationSpec },
    Unpack { archive: LocationSpec, into: LocationSpec },
    HasLauncher { prefix: LocationSpec },
    ClearQuarantine { place: LocationSpec },
    WriteFile { file: LocationSpec, text: Seq<char> },
}

impl View for InstallAction {
    type V = InstallActionSpec;

    open spec fn view(&self) -> InstallActionSpec {
        match self {
            InstallAction::IsSet(var) => InstallActionSpec::IsSet(*var),
            InstallAction::IsReady { prefix, version_file, expected } =>
                InstallActionSpec::IsReady {
                prefix: prefix@,
                version_file: version_file@,
                expected: expected@,
            },
            InstallAction::FindExecutable => InstallActionSpec::FindExecutable,
            InstallAction::HasPayload => InstallActionSpec::HasPayload,
            InstallAction::CopyPayload { to } => InstallActionSpec::CopyPayload { to: to@ },
            InstallAction::IsArchive { file } => InstallActionSpec::IsArchive { file: file@ },
            InstallAction::Exists { place } => InstallActionSpec::Exists { place: place@ },
            InstallAction::RemoveDir { place } => InstallActionSpec::RemoveDir { place: place@ },
            InstallAction::CreateDir { place } => InstallActionSpec::CreateDir { place: place@ },
            InstallAction::Unpack { archive, into } => InstallActionSpec::Unpack {
                archive: archive@,
                into: into@,
            },
            InstallAction::HasLauncher { prefix } => InstallActionSpec::HasLauncher {
                prefix: prefix@,
            },
            InstallAction::ClearQuarantine { place } => InstallActionSpec::ClearQuarantine {
                place: place@,
            },
            InstallAction::WriteFile { file, text } => InstallActionSpec::WriteFile {
                file: file@,
                text: text@,
            },
        }
    }
}

impl InstallActionSpec {
    /// Every place that the action names is well formed.
    pub open spec fn wf(self) -> bool {
        match self {
            InstallActionSpec::IsReady { prefix, version_file, .. } => prefix.wf()
                && version_file.wf(),
            InstallActionSpec::CopyPayload { to } => to.wf(),
            InstallActionSpec::IsArchive { file } => file.wf(),
            InstallActionSpec::Exists { place } => place.wf(),
            InstallActionSpec::RemoveDir { place } => place.wf(),
            InstallActionSpec::CreateDir { place } => place.wf(),
            InstallActionSpec::Unpack { archive, into } => archive.wf() && into.wf(),
            InstallActionSpec::HasLauncher { prefix } => prefix.wf(),
            InstallActionSpec::ClearQuarantine { place } => place.wf(),
            InstallActionSpec::WriteFile { file, .. } => file.wf(),
            InstallActionSpec::IsSet(_) => true,
            InstallActionSpec::FindExecutable => true,
            InstallActionSpec::HasPayload => true,
        }
    }
}

/// What a stage does on the way to the runtime `expected` in `prefix`. A stage of an
/// installation that is over does nothing, nor does one that unpacks where there is
/// no directory to unpack into.
pub open spec fn stage_action(
    platform: Platform,
    prefix: LocationSpec,
    expected: Seq<char>,
    stage: InstallStage,
) -> Option<InstallActionSpec> {
    match stage {
        InstallStage::CheckSupplied => Some(InstallActionSpec::IsSet(Var::RBin)),
        InstallStage::CheckInstalled => Some(
            InstallActionSpec::IsReady { prefix, version_file: version_place(prefix), expected },
        ),
        InstallStage::LocateExecutable => Some(InstallActionSpec::FindExecutable),
        InstallStage::FindPayload => Some(InstallActionSpec::HasPayload),
        InstallStage::StagePayload => Some(
            InstallActionSpec::CopyPayload { to: archive_place(platform) },
        ),
        InstallStage::FindArchive => Some(
            InstallActionSpec::IsArchive { file: archive_place(platform) },
        ),
        InstallStage::CheckPrefix => Some(InstallActionSpec::Exists { place: prefix }),
        InstallStage::RemovePrevious => Some(InstallActionSpec::RemoveDir { place: prefix }),
        InstallStage::CreateDestination => match destination(platform, prefix) {
            Some(place) => Some(InstallActionSpec::CreateDir { place }),
            None => None,
        },
        InstallStage::Unpack => match destination(platform, prefix) {
            Some(into) => Some(
                InstallActionSpec::Unpack { archive: archive_place(platform), into },
            ),
            None => None,
        },
        InstallStage::CheckLauncher => Some(InstallActionSpec::HasLauncher { prefix }),
        InstallStage::ClearQuarantine => Some(InstallActionSpec::ClearQuarantine { place: prefix }),
        InstallStage::RecordVersion => Some(
            InstallActionSpec::WriteFile { file: version_place(prefix), text: expected },
        ),
        InstallStage::Done => None,
        InstallStage::Failed(_) => None,
    }
}

/// What a stage does on the way to the runtime `expected` in `prefix`.
pub fn install_action(platform: Platform, prefix: &Location, expected: &str, stage: InstallStage) -> (action:
    Option<InstallAction>)
    ensures
        match action {
            Some(action) => stage_action(platform, prefix@, expected@, stage) == Some(action@),
            None => stage_action(platform, prefix@, expected@, stage) is None,
        },
        action is Some && prefix@.wf() ==> action->0@.wf(),
{
    match stage {
        InstallStage::CheckSupplied => Some(InstallAction::IsSet(Var::RBin)),
        InstallStage::CheckInstalled => Some(
            InstallAction::IsReady {
                prefix: prefix.duplicate(),
                version_file: version_file(prefix),
                expected: expected.to_owned(),
            },
        ),
        InstallStage::LocateExecutable => Some(InstallAction::FindExecutable),
        InstallStage::FindPayload => Some(InstallAction::HasPayload),
        InstallStage::StagePayload => Some(InstallAction::CopyPayload { to: archive(platform) }),
        InstallStage::FindArchive => Some(InstallAction::IsArchive { file: archive(platform) }),
        InstallStage::CheckPrefix => Some(InstallAction::Exists { place: prefix.duplicate() }),
        InstallStage::RemovePrevious => Some(
            InstallAction::RemoveDir { place: prefix.duplicate() },
        ),
        InstallStage::CreateDestination => match extract_into(platform, prefix) {
            Some(place) => Some(InstallAction::CreateDir { place }),
            None => None,
        },
        InstallStage::Unpack => match extract_into(platform, prefix) {
            Some(into) => Some(InstallAction::Unpack { archive: archive(platform), into }),
            None => None,
        },
        InstallStage::CheckLauncher => Some(
            InstallAction::HasLauncher { prefix: prefix.duplicate() },
        ),
        InstallStage::ClearQuarantine => Some(
            InstallAction::ClearQuarantine { place: prefix.duplicate() },
        ),
        InstallStage::RecordVersion => Some(
            InstallAction::WriteFile { file: version_file(prefix), text: expected.to_owned() },
        ),
        InstallStage::Done => None,
        InstallStage::Failed(_) => None,
    }
}

/// An installation that has come as far as looking at the runtime directory knows
/// that this directory has a parent.
proof fn lemma_parent_known(platform: Platform, prefix: LocationSpec, replies: Seq<Reply>)
    ensures
        ({
            let stage = stage_after(platform, prefix, replies);
            stage == InstallStage::CheckPrefix || stage == InstallStage::RemovePrevious || stage
                == InstallStage::CreateDestination || stage == InstallStage::Unpack ==> prefix.parent()
                is Some
        }),
    decreases replies.len(),
{
    if replies.len() > 0 {
        lemma_parent_known(platform, prefix, replies.drop_last());
    }
}

/// An installation that is not over always has something to do.
pub proof fn there_is_always_something_to_do(
    platform: Platform,
    prefix: LocationSpec,
    expected: Seq<char>,
    replies: Seq<Reply>,
)
    ensures
        ({
            let stage = stage_after(platform, prefix, replies);
            is_over(stage) <==> stage_action(platform, prefix, expected, stage) is None
        }),
{
    lemma_parent_known(platform, prefix, replies);
}

/// Whatever an installation removes is the runtime directory, under the name that the
/// program gives it.
pub proof fn what_is_removed_is_the_runtime(
    platform: Platform,
    prefix: LocationSpec,
    expected: Seq<char>,
    replies: Seq<Reply>,
    place: LocationSpec,
)
    requires
        stage_action(platform, prefix, expected, stage_after(platform, prefix, replies)) == Some(
            InstallActionSpec::RemoveDir { place },
        ),
    ensures
        place == prefix,
        place.file_name() == Some(runtime_name()),
{
    only_the_runtime_is_removed(platform, prefix, replies);
}

/// What an installation writes down makes the runtime the expected one on the next
/// launch, and it is written only when the runtime was unpacked and has a launcher.
pub proof fn what_is_recorded_is_recognised(
    platform: Platform,
    prefix: LocationSpec,
    build_id: Option<Seq<char>>,
    version: Seq<char>,
    replies: Seq<Reply>,
    file: LocationSpec,
    text: Seq<char>,
)
    requires
        trim(version) == version,
        stage_action(
            platform,
            prefix,
            expected_id(build_id, version),
            stage_after(platform, prefix, replies),
        ) == Some(InstallActionSpec::WriteFile { file, text }),
    ensures
        file == version_place(prefix),
        ready(true, Some(text), expected_id(build_id, version)),
        answered(platform, prefix, replies, InstallStage::Unpack, Reply::Yes),
        answered(platform, prefix, replies, InstallStage::CheckLauncher, Reply::Yes),
{
    recorded_runtime_is_recognised(build_id, version);
    version_is_recorded_only_with_a_launcher(platform, prefix, replies);
}

/// What is looked at, removed and freed of its mark is the runtime directory, wherever it
/// is to be.
pub proof fn runtime_directory_is_what_is_dealt_with(
    platform: Platform,
    prefix: LocationSpec,
    expected: Seq<char>,
)
    ensures
        stage_action(platform, prefix, expected, InstallStage::CheckPrefix) == Some(
            InstallActionSpec::Exists { place: prefix },
        ),
        stage_action(platform, prefix, expected, InstallStage::RemovePrevious) == Some(
            InstallActionSpec::RemoveDir { place: prefix },
        ),
        stage_action(platform, prefix, expected, InstallStage::CheckLauncher) == Some(
            InstallActionSpec::HasLauncher { prefix },
        ),
        stage_action(platform, prefix, expected, InstallStage::ClearQuarantine) == Some(
            InstallActionSpec::ClearQuarantine { place: prefix },
        ),
{
}

/// The archive that is unpacked is the one that was found among the resources or copied
/// out of the executable, and it is unpacked into the directory that was made for it, from
/// which it comes to be in the runtime directory.
pub proof fn found_archive_is_unpacked_into_the_made_directory(
    platform: Platform,
    prefix: LocationSpec,
    expected: Seq<char>,
    archive: LocationSpec,
    into: LocationSpec,
)
    requires
        stage_action(platform, prefix, expected, InstallStage::Unpack) == Some(
            InstallActionSpec::Unpack { archive, into },
        ),
    ensures
        stage_action(platform, prefix, expected, InstallStage::StagePayload) == Some(
            InstallActionSpec::CopyPayload { to: archive },
        ),
        stage_action(platform, prefix, expected, InstallStage::FindArchive) == Some(
            InstallActionSpec::IsArchive { file: archive },
        ),
        stage_action(platform, prefix, expected, InstallStage::CreateDestination) == Some(
            InstallActionSpec::CreateDir { place: into },
        ),
        platform == Platform::Windows ==> into == prefix,
        platform != Platform::Windows ==> Some(into) == prefix.parent(),
{
}

/// What is written at the end is what is looked for at the start: the same file, in the
/// runtime directory that is looked at, and the whole of the expected id, whatever it is.
pub proof fn what_is_written_is_looked_for(
    platform: Platform,
    prefix: LocationSpec,
    expected: Seq<char>,
)
    ensures
        ({
            let file = below(prefix, seq![".microhub-runtime-version"@]);
            &&& stage_action(platform, prefix, expected, InstallStage::CheckInstalled) == Some(
                InstallActionSpec::IsReady { prefix, version_file: file, expected },
            )
            &&& stage_action(platform, prefix, expected, InstallStage::RecordVersion) == Some(
                InstallActionSpec::WriteFile { file, text: expected },
            )
        }),
{
    joining_goes_one_level_down(prefix, ".microhub-runtime-version"@);
}

/// A supplied R is looked for by its variable, and a payload in the file that is running.
pub proof fn questions_about_the_build(
    platform: Platform,
    prefix: LocationSpec,
    expected: Seq<char>,
)
    ensures
        stage_action(platform, prefix, expected, InstallStage::CheckSupplied) == Some(
            InstallActionSpec::IsSet(Var::RBin),
        ),
        stage_action(platform, prefix, expected, InstallStage::LocateExecutable) == Some(
            InstallActionSpec::FindExecutable,
        ),
        stage_action(platform, prefix, expected, InstallStage::FindPayload) == Some(
            InstallActionSpec::HasPayload,
        ),
{
}

} // verus!
