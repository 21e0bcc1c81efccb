use microhub::command::CommandArg;
use microhub::install::{
    ensure_runtime, extract_into, first_stage, install_error, install_status, is_archive,
    quarantine_command, run_extract, tar_bin, InstallFailure, InstallPaths, InstallStage, Reply,
};
use microhub::install_action::{install_action, InstallAction};
use microhub::layout::{Environment, Location, Platform, Root, Var};
use microhub::payload::{copy_error, CopyFailure};
use microhub::places::runtime_prefix;
use microhub::runtime_id::{expected_runtime_id, runtime_ready};

const ENV: Environment = Environment {
    local_app_data: true,
    home: true,
    r_bin: false,
    app_dir: false,
    path_entries: 0,
};

const PLATFORMS: [Platform; 3] = [Platform::MacOs, Platform::Windows, Platform::Other];

fn after(platform: Platform, replies: &[Reply]) -> InstallStage {
    let prefix = runtime_prefix(platform, ENV);
    let mut stage = first_stage();
    for reply in replies {
        stage = ensure_runtime(platform, &prefix, stage, *reply);
    }
    stage
}

fn paths() -> InstallPaths {
    InstallPaths {
        prefix: "/p/MicroHub".to_string(),
        archive: "/r/runtime.tar.gz".to_string(),
        destination: "/p".to_string(),
    }
}

#[test]
fn nothing_to_install() {
    for platform in PLATFORMS {
        assert_eq!(after(platform, &[]), InstallStage::CheckSupplied);
        assert_eq!(after(platform, &[Reply::Yes]), InstallStage::Done);
        assert_eq!(after(platform, &[Reply::No]), InstallStage::CheckInstalled);
        assert_eq!(after(platform, &[Reply::No, Reply::Yes]), InstallStage::Done);
    }
    assert_eq!(after(Platform::MacOs, &[Reply::No; 3]), InstallStage::Done);
    assert_eq!(after(Platform::Other, &[Reply::No, Reply::No, Reply::Failed]), InstallStage::Done);
    assert_eq!(
        after(Platform::Windows, &[Reply::No, Reply::No, Reply::Yes, Reply::No]),
        InstallStage::Done
    );
}

#[test]
fn upgrades_on_macos() {
    let (y, n) = (Reply::Yes, Reply::No);
    let replies = [n, n, y, y, y, y, y, y, n, y];
    let stages = [
        InstallStage::CheckSupplied,
        InstallStage::CheckInstalled,
        InstallStage::FindArchive,
        InstallStage::CheckPrefix,
        InstallStage::RemovePrevious,
        InstallStage::CreateDestination,
        InstallStage::Unpack,
        InstallStage::CheckLauncher,
        InstallStage::ClearQuarantine,
        InstallStage::RecordVersion,
        InstallStage::Done,
    ];
    for (i, stage) in stages.iter().enumerate() {
        assert_eq!(after(Platform::MacOs, &replies[..i]), *stage);
    }
}

#[test]
fn installs_anew_on_windows() {
    let (y, n) = (Reply::Yes, Reply::No);
    let replies = [n, n, y, y, y, n, y, y, y, y];
    let stages = [
        InstallStage::CheckSupplied,
        InstallStage::CheckInstalled,
        InstallStage::LocateExecutable,
        InstallStage::FindPayload,
        InstallStage::StagePayload,
        InstallStage::CheckPrefix,
        InstallStage::CreateDestination,
        InstallStage::Unpack,
        InstallStage::CheckLauncher,
        InstallStage::RecordVersion,
        InstallStage::Done,
    ];
    for (i, stage) in stages.iter().enumerate() {
        assert_eq!(after(Platform::Windows, &replies[..i]), *stage);
    }
}

#[test]
fn refuses_to_remove_another_directory() {
    let (y, n) = (Reply::Yes, Reply::No);
    assert_eq!(
        after(Platform::Other, &[n, n, y, y]),
        InstallStage::Failed(InstallFailure::Refused)
    );
    assert_eq!(after(Platform::Other, &[n, n, y, n]), InstallStage::CreateDestination);
    assert_eq!(
        after(Platform::Other, &[n, n, y, n, y, y, y, y]),
        InstallStage::Done
    );
}

#[test]
fn every_step_can_fail() {
    let prefix = runtime_prefix(Platform::MacOs, ENV);
    let cases = [
        (InstallStage::LocateExecutable, Reply::Failed, InstallFailure::NoExecutable),
        (InstallStage::StagePayload, Reply::Failed, InstallFailure::NoPayload),
        (InstallStage::RemovePrevious, Reply::Failed, InstallFailure::NotRemoved),
        (InstallStage::CreateDestination, Reply::Failed, InstallFailure::NotCreated),
        (InstallStage::Unpack, Reply::Failed, InstallFailure::NoTar),
        (InstallStage::Unpack, Reply::No, InstallFailure::NotUnpacked),
        (InstallStage::CheckLauncher, Reply::No, InstallFailure::NoLauncher),
        (InstallStage::RecordVersion, Reply::Failed, InstallFailure::NotRecorded),
    ];
    for (stage, reply, failure) in cases {
        let failed = InstallStage::Failed(failure);
        assert_eq!(ensure_runtime(Platform::MacOs, &prefix, stage, reply), failed);
        for reply in [Reply::Yes, Reply::No, Reply::Failed] {
            assert_eq!(ensure_runtime(Platform::MacOs, &prefix, failed, reply), failed);
        }
    }
    let root = Location::at(Root::Temporary);
    for stage in [InstallStage::FindArchive, InstallStage::StagePayload] {
        assert_eq!(
            ensure_runtime(Platform::MacOs, &root, stage, Reply::Yes),
            InstallStage::Failed(InstallFailure::NoParent)
        );
    }
}

#[test]
fn every_course_ends() {
    let prefix = runtime_prefix(Platform::MacOs, ENV);
    let replies = [Reply::Yes, Reply::No, Reply::Failed];
    for platform in PLATFORMS {
        let mut stages = vec![first_stage()];
        for _ in 0..12 {
            stages = stages
                .iter()
                .flat_map(|stage| {
                    replies.iter().map(|reply| ensure_runtime(platform, &prefix, *stage, *reply))
                })
                .collect();
            stages.dedup();
        }
        assert!(stages
            .iter()
            .all(|stage| matches!(stage, InstallStage::Done | InstallStage::Failed(_))));
    }
}

#[test]
fn statuses_go_with_the_slow_steps() {
    assert_eq!(install_status(InstallStage::StagePayload), Some("Preparing the runtime\u{2026}"));
    assert_eq!(
        install_status(InstallStage::RemovePrevious),
        Some("Removing the previous runtime\u{2026}")
    );
    assert_eq!(
        install_status(InstallStage::CreateDestination),
        Some("Installing the R runtime. This happens once and takes a few minutes\u{2026}")
    );
    assert_eq!(install_status(InstallStage::Unpack), None);
    assert_eq!(install_status(InstallStage::Done), None);
}

#[test]
fn an_empty_file_is_no_archive() {
    assert!(is_archive(Some((true, 1))));
    assert!(!is_archive(Some((true, 0))));
    assert!(!is_archive(Some((false, 4096))));
    assert!(!is_archive(None));
}

#[test]
fn archives_are_unpacked_where_they_belong() {
    let mac = runtime_prefix(Platform::MacOs, ENV);
    assert_eq!(
        extract_into(Platform::MacOs, &mac),
        Some(Location::at(Root::Fixed("/Users/Shared")))
    );
    let windows = runtime_prefix(Platform::Windows, ENV);
    assert_eq!(
        extract_into(Platform::Windows, &windows),
        Some(Location::at(Root::Env(Var::LocalAppData)).join("MicroHub"))
    );
    assert_eq!(extract_into(Platform::Other, &Location::at(Root::Temporary)), None);
}

#[test]
fn tar_runs_quietly_outside_windows() {
    let archive = Location::at(Root::Resources).join("a.tar.gz");
    let into = Location::at(Root::Fixed("/into"));
    let command = run_extract(Platform::MacOs, &archive, &into, "/r/a.tar.gz", "/into");
    assert_eq!(command.program, "/usr/bin/tar");
    assert_eq!(
        command.args,
        vec![
            CommandArg::Text("-xzf".to_string()),
            CommandArg::Place(archive),
            CommandArg::Text("-C".to_string()),
            CommandArg::Place(into),
        ]
    );
}

#[test]
fn the_quarantine_mark_is_taken_off_the_runtime() {
    let prefix = runtime_prefix(Platform::MacOs, ENV);
    let command = quarantine_command(&prefix);
    assert_eq!(command.program, "/usr/bin/xattr");
    assert_eq!(
        command.args,
        vec![
            CommandArg::Text("-dr".to_string()),
            CommandArg::Text("com.apple.quarantine".to_string()),
            CommandArg::Place(Location::at(Root::Fixed("/Users/Shared")).join("MicroHub")),
        ]
    );
}

#[test]
fn tar_explains_itself_on_windows() {
    let archive = Location::at(Root::Temporary).join("a.tar.gz");
    let into = Location::at(Root::Fixed("C:\\in to"));
    let command =
        run_extract(Platform::Windows, &archive, &into, "C:\\t\\a.tar.gz", "C:\\in to");
    assert_eq!(command.program, "cmd");
    assert_eq!(command.args.len(), 2);
    assert_eq!(command.args[0], CommandArg::Text("/c".to_string()));
    if let CommandArg::Text(line) = &command.args[1] {
        let segments: Vec<&str> = line.split("     &").collect();
        assert_eq!(
            segments,
            vec![
                "title MicroHub first-time setup",
                "echo ==============================================",
                "echo  MicroHub is installing its R runtime.",
                "echo.",
                "echo  This happens once, and takes a few minutes.",
                "echo  The app opens by itself when this finishes.",
                "echo  You can leave this window alone.",
                "echo ==============================================",
                "echo.",
                "\"C:\\Windows\\System32\\tar.exe\" -xvzf \"C:\\t\\a.tar.gz\" -C \"C:\\in to\"",
                "echo.",
                "echo  Done. Starting MicroHub...",
            ]
        );
    } else {
        panic!("the shell takes a line of text");
    }
    assert_eq!(tar_bin(Platform::Windows), "C:\\Windows\\System32\\tar.exe");
}

#[test]
fn failures_are_explained() {
    let say = |failure| install_error(Platform::MacOs, failure, "why", &paths());
    assert_eq!(
        say(InstallFailure::NoExecutable),
        "Could not locate the running executable: why"
    );
    assert_eq!(say(InstallFailure::NoPayload), "why");
    assert_eq!(say(InstallFailure::NoParent), "/p/MicroHub has no parent directory");
    assert_eq!(say(InstallFailure::Refused), "refusing to remove /p/MicroHub");
    assert_eq!(
        say(InstallFailure::NotRemoved),
        "Could not remove the old runtime at /p/MicroHub: why"
    );
    assert_eq!(say(InstallFailure::NotCreated), "Could not create /p: why");
    assert_eq!(say(InstallFailure::NoTar), "Could not run tar: why");
    assert_eq!(
        say(InstallFailure::NotUnpacked),
        "Unpacking the runtime failed: /usr/bin/tar exited with why\narchive: /r/runtime.tar.gz\ndestination: /p"
    );
    assert_eq!(
        say(InstallFailure::NoLauncher),
        "The runtime unpacked but no R was found under /p/MicroHub. Expected one of: R.framework/Resources/bin/R"
    );
    assert_eq!(say(InstallFailure::NotRecorded), "Could not record the runtime version: why");
}

#[test]
fn copy_failures_are_explained() {
    let say = |failure| copy_error(failure, "a.exe", "b.tar.gz", "why");
    assert_eq!(say(CopyFailure::NoSize), "Could not stat a.exe: why");
    assert_eq!(say(CopyFailure::NotOpened), "Could not open a.exe: why");
    assert_eq!(say(CopyFailure::NoStart), "Could not seek to the payload: why");
    assert_eq!(say(CopyFailure::NotCreated), "Could not create b.tar.gz: why");
    assert_eq!(say(CopyFailure::NotWritten), "Could not write the payload to b.tar.gz: why");
}

#[test]
fn the_build_id_comes_before_the_version() {
    let id = |text: &str| Some(text.to_string());
    assert_eq!(expected_runtime_id(&id(" build-7\r\n"), "1.2.3"), "build-7");
    assert_eq!(expected_runtime_id(&id(" \n"), "1.2.3"), "1.2.3");
    assert_eq!(expected_runtime_id(&id(""), "1.2.3"), "1.2.3");
    assert_eq!(expected_runtime_id(&None, "1.2.3"), "1.2.3");
}

#[test]
fn a_runtime_is_recognised_by_its_record() {
    let recorded = |text: &str| Some(text.to_string());
    let first = expected_runtime_id(&recorded("build-7\n"), "1.2.3");
    let second = expected_runtime_id(&recorded("build-8\n"), "1.2.3");
    assert!(runtime_ready(true, &recorded(&first), &first));
    assert!(runtime_ready(true, &recorded("build-7\n"), &first));
    assert!(!runtime_ready(true, &recorded(&first), &second));
    assert!(!runtime_ready(false, &recorded(&first), &first));
    assert!(!runtime_ready(true, &None, &first));
    assert!(!runtime_ready(true, &recorded(""), &first));
}

#[test]
fn stages_say_what_to_do() {
    let prefix = || runtime_prefix(Platform::MacOs, ENV);
    let act = |stage| install_action(Platform::MacOs, &prefix(), "build-7", stage);
    let version = || prefix().join(".microhub-runtime-version");
    let resource = || Location::at(Root::Resources).join("runtime.tar.gz");
    let shared = || Location::at(Root::Fixed("/Users/Shared"));
    let cases = vec![
        (InstallStage::CheckSupplied, InstallAction::IsSet(Var::RBin)),
        (
            InstallStage::CheckInstalled,
            InstallAction::IsReady {
                prefix: prefix(),
                version_file: version(),
                expected: "build-7".to_string(),
            },
        ),
        (InstallStage::LocateExecutable, InstallAction::FindExecutable),
        (InstallStage::FindPayload, InstallAction::HasPayload),
        (InstallStage::FindArchive, InstallAction::IsArchive { file: resource() }),
        (InstallStage::CheckPrefix, InstallAction::Exists { place: prefix() }),
        (InstallStage::RemovePrevious, InstallAction::RemoveDir { place: prefix() }),
        (InstallStage::CreateDestination, InstallAction::CreateDir { place: shared() }),
        (
            InstallStage::Unpack,
            InstallAction::Unpack { archive: resource(), into: shared() },
        ),
        (InstallStage::CheckLauncher, InstallAction::HasLauncher { prefix: prefix() }),
        (InstallStage::ClearQuarantine, InstallAction::ClearQuarantine { place: prefix() }),
        (
            InstallStage::RecordVersion,
            InstallAction::WriteFile { file: version(), text: "build-7".to_string() },
        ),
    ];
    for (stage, action) in cases {
        assert_eq!(act(stage), Some(action));
    }
    assert_eq!(act(InstallStage::Done), None);
    assert_eq!(act(InstallStage::Failed(InstallFailure::NoTar)), None);
}

#[test]
fn windows_unpacks_its_payload_into_the_runtime() {
    let prefix = runtime_prefix(Platform::Windows, ENV);
    let staged = || Location::at(Root::Temporary).join("microhub-payload.tar.gz");
    let act = |stage| install_action(Platform::Windows, &prefix, "id", stage);
    assert_eq!(
        act(InstallStage::StagePayload),
        Some(InstallAction::CopyPayload { to: staged() })
    );
    assert_eq!(
        act(InstallStage::Unpack),
        Some(InstallAction::Unpack { archive: staged(), into: prefix.duplicate() })
    );
    let root = Location::at(Root::Temporary);
    assert_eq!(install_action(Platform::Other, &root, "id", InstallStage::Unpack), None);
    assert_eq!(install_action(Platform::Other, &root, "id", InstallStage::CreateDestination), None);
}
