//! What an installation comes to, and by which steps, given how each step would go.

use crate::install::{
    answered, is_over, lemma_answered_grows, lemma_answered_last, next_stage, stage_after,
    InstallFailure, InstallStage, Reply,
};
use crate::layout::{Environment, LocationSpec, Platform};
use crate::places::{prefix_of, runtime_is_where_the_variable_says};
use vstd::prelude::*;

verus! {

/// The stage that an installation is at after `n` steps, where `answers` says how each
/// step goes when it is taken.
pub open spec fn course(
    platform: Platform,
    prefix: LocationSpec,
    answers: spec_fn(InstallStage) -> Reply,
    n: nat,
) -> InstallStage
    decreases n,
{
    if n == 0 {
        InstallStage::CheckSupplied
    } else {
        let stage = course(platform, prefix, answers, (n - 1) as nat);
        next_stage(platform, prefix, stage, answers(stage))
    }
}

/// What an installation comes to.
pub open spec fn result(
    platform: Platform,
    prefix: LocationSpec,
    answers: spec_fn(InstallStage) -> Reply,
) -> InstallStage {
    course(platform, prefix, answers, 12)
}

/// An installation takes this step.
pub open spec fn takes(
    platform: Platform,
    prefix: LocationSpec,
    answers: spec_fn(InstallStage) -> Reply,
    step: InstallStage,
) -> bool {
    exists|n: nat| n <= 12 && #[trigger] course(platform, prefix, answers, n) == step
}

/// A runtime has to be installed: none is supplied, and the expected one is not in place.
pub open spec fn is_needed(answers: spec_fn(InstallStage) -> Reply) -> bool {
    answers(InstallStage::CheckSupplied) != Reply::Yes && answers(InstallStage::CheckInstalled)
        != Reply::Yes
}

/// The build carries a runtime to install.
pub open spec fn is_carried(platform: Platform, answers: spec_fn(InstallStage) -> Reply) -> bool {
    if platform == Platform::Windows {
        answers(InstallStage::LocateExecutable) == Reply::Yes && answers(InstallStage::FindPayload)
            == Reply::Yes
    } else {
        answers(InstallStage::FindArchive) == Reply::Yes
    }
}

/// A runtime has to be installed, and its archive is at hand as a file.
pub open spec fn is_at_hand(platform: Platform, answers: spec_fn(InstallStage) -> Reply) -> bool {
    &&& is_needed(answers)
    &&& is_carried(platform, answers)
    &&& platform == Platform::Windows ==> answers(InstallStage::StagePayload) == Reply::Yes
}

/// The place of the runtime has come to be free: nothing was there, or it was the
/// directory `MicroHub` and it was removed.
pub open spec fn is_free(prefix: LocationSpec, answers: spec_fn(InstallStage) -> Reply) -> bool {
    answers(InstallStage::CheckPrefix) == Reply::Yes ==> {
        &&& prefix.file_name() == Some("MicroHub"@)
        &&& answers(InstallStage::RemovePrevious) == Reply::Yes
    }
}

/// The stages of the first half of an installation, up to the look at the place of the
/// runtime.
proof fn lemma_first_half(
    platform: Platform,
    prefix: LocationSpec,
    answers: spec_fn(InstallStage) -> Reply,
)
    ensures
        ({
            let at = |n: nat| course(platform, prefix, answers, n);
            &&& at(0) == InstallStage::CheckSupplied
            &&& at(1) == (if answers(InstallStage::CheckSupplied) == Reply::Yes {
                InstallStage::Done
            } else {
                InstallStage::CheckInstalled
            })
            &&& !is_needed(answers) ==> at(2) == InstallStage::Done
            &&& is_needed(answers) && platform != Platform::Windows ==> {
                &&& at(2) == InstallStage::FindArchive
                &&& at(3) == (if answers(InstallStage::FindArchive) != Reply::Yes {
                    InstallStage::Done
                } else if prefix.parent() is Some {
                    InstallStage::CheckPrefix
                } else {
                    InstallStage::Failed(InstallFailure::NoParent)
                })
            }
            &&& is_needed(answers) && platform == Platform::Windows ==> {
                &&& at(2) == InstallStage::LocateExecutable
                &&& at(3) == (if answers(InstallStage::LocateExecutable) != Reply::Yes {
                    InstallStage::Failed(InstallFailure::NoExecutable)
                } else {
                    InstallStage::FindPayload
                })
                &&& at(3) == InstallStage::FindPayload ==> at(4) == (if answers(
                    InstallStage::FindPayload,
                ) != Reply::Yes {
                    InstallStage::Done
                } else {
                    InstallStage::StagePayload
                })
                &&& at(3) == InstallStage::FindPayload && at(4) == InstallStage::StagePayload
                    ==> at(5) == (if answers(InstallStage::StagePayload) != Reply::Yes {
                    InstallStage::Failed(InstallFailure::NoPayload)
                } else if prefix.parent() is Some {
                    InstallStage::CheckPrefix
                } else {
                    InstallStage::Failed(InstallFailure::NoParent)
                })
            }
        }),
{
    reveal_with_fuel(course, 6);
}

/// A course that is over stays where it is.
proof fn lemma_over_stays(
    platform: Platform,
    prefix: LocationSpec,
    answers: spec_fn(InstallStage) -> Reply,
    m: nat,
    n: nat,
)
    requires
        m <= n,
        is_over(course(platform, prefix, answers, m)),
    ensures
        course(platform, prefix, answers, n) == course(platform, prefix, answers, m),
    decreases n,
{
    if m < n {
        lemma_over_stays(platform, prefix, answers, m, (n - 1) as nat);
    }
}

/// The stages of the second half, from the look at the place of the runtime, which is
/// step `m`.
proof fn lemma_second_half(
    platform: Platform,
    prefix: LocationSpec,
    answers: spec_fn(InstallStage) -> Reply,
    m: nat,
)
    requires
        course(platform, prefix, answers, m) == InstallStage::CheckPrefix,
    ensures
        ({
            let at = |n: nat| course(platform, prefix, answers, n);
            let removing = answers(InstallStage::CheckPrefix) == Reply::Yes;
            let k = if removing {
                m + 2
            } else {
                m + 1
            };
            &&& removing && prefix.file_name() != Some("MicroHub"@) ==> at(m + 1)
                == InstallStage::Failed(InstallFailure::Refused)
            &&& removing && prefix.file_name() == Some("MicroHub"@) ==> {
                &&& at(m + 1) == InstallStage::RemovePrevious
                &&& answers(InstallStage::RemovePrevious) != Reply::Yes ==> at(m + 2)
                    == InstallStage::Failed(InstallFailure::NotRemoved)
            }
            &&& is_free(prefix, answers) ==> {
                &&& at(k) == InstallStage::CreateDestination
                &&& at(k + 1) == (if answers(InstallStage::CreateDestination) == Reply::Yes {
                    InstallStage::Unpack
                } else {
                    InstallStage::Failed(InstallFailure::NotCreated)
                })
                &&& at(k + 1) == InstallStage::Unpack ==> at(k + 2) == (match answers(
                    InstallStage::Unpack,
                ) {
                    Reply::Yes => InstallStage::CheckLauncher,
                    Reply::No => InstallStage::Failed(InstallFailure::NotUnpacked),
                    Reply::Failed => InstallStage::Failed(InstallFailure::NoTar),
                })
                &&& at(k + 2) == InstallStage::CheckLauncher ==> at(k + 3) == (if answers(
                    InstallStage::CheckLauncher,
                ) != Reply::Yes {
                    InstallStage::Failed(InstallFailure::NoLauncher)
                } else if platform == Platform::MacOs {
                    InstallStage::ClearQuarantine
                } else {
                    InstallStage::RecordVersion
                })
                &&& at(k + 3) == InstallStage::ClearQuarantine ==> at(k + 4)
                    == InstallStage::RecordVersion
                &&& at(k + 3) == InstallStage::RecordVersion ==> at(k + 4) == (if answers(
                    InstallStage::RecordVersion,
                ) == Reply::Yes {
                    InstallStage::Done
                } else {
                    InstallStage::Failed(InstallFailure::NotRecorded)
                })
                &&& at(k + 4) == InstallStage::RecordVersion ==> at(k + 5) == (if answers(
                    InstallStage::RecordVersion,
                ) == Reply::Yes {
                    InstallStage::Done
                } else {
                    InstallStage::Failed(InstallFailure::NotRecorded)
                })
            }
        }),
{
    let a1 = course(platform, prefix, answers, m + 1);
    let a2 = course(platform, prefix, answers, m + 2);
    let a3 = course(platform, prefix, answers, m + 3);
    let a4 = course(platform, prefix, answers, m + 4);
    let a5 = course(platform, prefix, answers, m + 5);
    let a6 = course(platform, prefix, answers, m + 6);
    let a7 = course(platform, prefix, answers, m + 7);
    assert(a1 == next_stage(
        platform,
        prefix,
        InstallStage::CheckPrefix,
        answers(InstallStage::CheckPrefix),
    ));
    assert(a2 == next_stage(platform, prefix, a1, answers(a1)));
    assert(a3 == next_stage(platform, prefix, a2, answers(a2)));
    assert(a4 == next_stage(platform, prefix, a3, answers(a3)));
    assert(a5 == next_stage(platform, prefix, a4, answers(a4)));
    assert(a6 == next_stage(platform, prefix, a5, answers(a5)));
    assert(a7 == next_stage(platform, prefix, a6, answers(a6)));
}

/// How many steps an installation takes.
spec fn length(
    platform: Platform,
    prefix: LocationSpec,
    answers: spec_fn(InstallStage) -> Reply,
) -> nat {
    let m: nat = if platform == Platform::Windows {
        5
    } else {
        3
    };
    let k: nat = if answers(InstallStage::CheckPrefix) == Reply::Yes {
        m + 2
    } else {
        m + 1
    };
    if !is_needed(answers) {
        2
    } else if !is_carried(platform, answers) {
        if platform == Platform::Windows && answers(InstallStage::LocateExecutable) == Reply::Yes {
            4
        } else {
            3
        }
    } else if !is_at_hand(platform, answers) || prefix.parent() is None {
        m
    } else if answers(InstallStage::CheckPrefix) == Reply::Yes && prefix.file_name() != Some(
        "MicroHub"@,
    ) {
        m + 1
    } else if !is_free(prefix, answers) {
        m + 2
    } else if answers(InstallStage::CreateDestination) != Reply::Yes {
        k + 1
    } else if answers(InstallStage::Unpack) != Reply::Yes {
        k + 2
    } else if answers(InstallStage::CheckLauncher) != Reply::Yes {
        k + 3
    } else if platform == Platform::MacOs {
        k + 5
    } else {
        k + 4
    }
}

/// A course that is over after `last` steps has been at the stages up to there, and at no
/// other.
proof fn lemma_steps(
    platform: Platform,
    prefix: LocationSpec,
    answers: spec_fn(InstallStage) -> Reply,
    last: nat,
)
    requires
        last <= 12,
        is_over(course(platform, prefix, answers, last)),
    ensures
        result(platform, prefix, answers) == course(platform, prefix, answers, last),
        forall|step: InstallStage|
            #![trigger takes(platform, prefix, answers, step)]
            takes(platform, prefix, answers, step) <==> {
                ||| 0 <= last && course(platform, prefix, answers, 0) == step
                ||| 1 <= last && course(platform, prefix, answers, 1) == step
                ||| 2 <= last && course(platform, prefix, answers, 2) == step
                ||| 3 <= last && course(platform, prefix, answers, 3) == step
                ||| 4 <= last && course(platform, prefix, answers, 4) == step
                ||| 5 <= last && course(platform, prefix, answers, 5) == step
                ||| 6 <= last && course(platform, prefix, answers, 6) == step
                ||| 7 <= last && course(platform, prefix, answers, 7) == step
                ||| 8 <= last && course(platform, prefix, answers, 8) == step
                ||| 9 <= last && course(platform, prefix, answers, 9) == step
                ||| 10 <= last && course(platform, prefix, answers, 10) == step
                ||| 11 <= last && course(platform, prefix, answers, 11) == step
                ||| 12 <= last && course(platform, prefix, answers, 12) == step
            },
{
    lemma_over_stays(platform, prefix, answers, last, 12);
    assert forall|n: nat| last <= n <= 12 implies #[trigger] course(platform, prefix, answers, n)
        == course(platform, prefix, answers, last) by {
        lemma_over_stays(platform, prefix, answers, last, n);
    }
}

/// What an installation comes to, by what is so and what goes well. It is done where no
/// runtime has to be installed, where the build carries none, and where one was
/// installed; otherwise it fails at the first thing that stands in the way.
pub proof fn outcome_of_an_installation(
    platform: Platform,
    prefix: LocationSpec,
    answers: spec_fn(InstallStage) -> Reply,
)
    ensures
        ({
            let end = result(platform, prefix, answers);
            let windows = platform == Platform::Windows;
            let at_hand = is_at_hand(platform, answers);
            let free = at_hand && prefix.parent() is Some && is_free(prefix, answers);
            let made = free && answers(InstallStage::CreateDestination) == Reply::Yes;
            let unpacked = made && answers(InstallStage::Unpack) == Reply::Yes;
            let usable = unpacked && answers(InstallStage::CheckLauncher) == Reply::Yes;
            &&& is_over(end)
            &&& end == InstallStage::Done <==> {
                ||| !is_needed(answers)
                ||| windows && answers(InstallStage::LocateExecutable) == Reply::Yes && answers(
                    InstallStage::FindPayload,
                ) != Reply::Yes
                ||| !windows && answers(InstallStage::FindArchive) != Reply::Yes
                ||| usable && answers(InstallStage::RecordVersion) == Reply::Yes
            }
            &&& end == InstallStage::Failed(InstallFailure::NoExecutable) <==> is_needed(answers)
                && windows && answers(InstallStage::LocateExecutable) != Reply::Yes
            &&& end == InstallStage::Failed(InstallFailure::NoPayload) <==> is_needed(answers) && windows
                && is_carried(platform, answers) && answers(InstallStage::StagePayload) != Reply::Yes
            &&& end == InstallStage::Failed(InstallFailure::NoParent) <==> at_hand && prefix.parent()
                is None
            &&& end == InstallStage::Failed(InstallFailure::Refused) <==> at_hand && prefix.parent()
                is Some && answers(InstallStage::CheckPrefix) == Reply::Yes && prefix.file_name() != Some(
                "MicroHub"@,
            )
            &&& end == InstallStage::Failed(InstallFailure::NotRemoved) <==> at_hand && prefix.parent()
                is Some && answers(InstallStage::CheckPrefix) == Reply::Yes && prefix.file_name() == Some(
                "MicroHub"@,
            ) && answers(InstallStage::RemovePrevious) != Reply::Yes
            &&& end == InstallStage::Failed(InstallFailure::NotCreated) <==> free && answers(
                InstallStage::CreateDestination,
            ) != Reply::Yes
            &&& end == InstallStage::Failed(InstallFailure::NoTar) <==> made && answers(
                InstallStage::Unpack,
            ) == Reply::Failed
            &&& end == InstallStage::Failed(InstallFailure::NotUnpacked) <==> made && answers(
                InstallStage::Unpack,
            ) == Reply::No
            &&& end == InstallStage::Failed(InstallFailure::NoLauncher) <==> unpacked && answers(
                InstallStage::CheckLauncher,
            ) != Reply::Yes
            &&& end == InstallStage::Failed(InstallFailure::NotRecorded) <==> usable && answers(
                InstallStage::RecordVersion,
            ) != Reply::Yes
        }),
{
    lemma_first_half(platform, prefix, answers);
    if is_at_hand(platform, answers) && prefix.parent() is Some {
        lemma_second_half(
            platform,
            prefix,
            answers,
            if platform == Platform::Windows {
                5
            } else {
                3
            },
        );
    }
    let last = length(platform, prefix, answers);
    assert(is_over(course(platform, prefix, answers, last)));
    lemma_steps(platform, prefix, answers, last);
}

/// Which steps an installation takes, by what is so and what goes well.
pub proof fn steps_of_an_installation(
    platform: Platform,
    prefix: LocationSpec,
    answers: spec_fn(InstallStage) -> Reply,
)
    ensures
        ({
            let windows = platform == Platform::Windows;
            let at_hand = is_at_hand(platform, answers) && prefix.parent() is Some;
            let free = at_hand && is_free(prefix, answers);
            let made = free && answers(InstallStage::CreateDestination) == Reply::Yes;
            let unpacked = made && answers(InstallStage::Unpack) == Reply::Yes;
            let usable = unpacked && answers(InstallStage::CheckLauncher) == Reply::Yes;
            &&& takes(platform, prefix, answers, InstallStage::CheckSupplied)
            &&& takes(platform, prefix, answers, InstallStage::CheckInstalled) <==> answers(
                InstallStage::CheckSupplied,
            ) != Reply::Yes
            &&& takes(platform, prefix, answers, InstallStage::LocateExecutable) <==> is_needed(answers)
                && windows
            &&& takes(platform, prefix, answers, InstallStage::FindPayload) <==> is_needed(answers)
                && windows && answers(InstallStage::LocateExecutable) == Reply::Yes
            &&& takes(platform, prefix, answers, InstallStage::StagePayload) <==> is_needed(answers)
                && windows && is_carried(platform, answers)
            &&& takes(platform, prefix, answers, InstallStage::FindArchive) <==> is_needed(answers)
                && !windows
            &&& takes(platform, prefix, answers, InstallStage::CheckPrefix) <==> at_hand
            &&& takes(platform, prefix, answers, InstallStage::RemovePrevious) <==> at_hand && answers(
                InstallStage::CheckPrefix,
            ) == Reply::Yes && prefix.file_name() == Some("MicroHub"@)
            &&& takes(platform, prefix, answers, InstallStage::CreateDestination) <==> free
            &&& takes(platform, prefix, answers, InstallStage::Unpack) <==> made
            &&& takes(platform, prefix, answers, InstallStage::CheckLauncher) <==> unpacked
            &&& takes(platform, prefix, answers, InstallStage::ClearQuarantine) <==> usable && platform
                == Platform::MacOs
            &&& takes(platform, prefix, answers, InstallStage::RecordVersion) <==> usable
        }),
{
    lemma_first_half(platform, prefix, answers);
    if is_at_hand(platform, answers) && prefix.parent() is Some {
        lemma_second_half(
            platform,
            prefix,
            answers,
            if platform == Platform::Windows {
                5
            } else {
                3
            },
        );
    }
    let last = length(platform, prefix, answers);
    assert(is_over(course(platform, prefix, answers, last)));
    lemma_steps(platform, prefix, answers, last);
}

/// An upgrade removes what is in the place of the runtime, on macOS and on Windows alike,
/// whatever the environment is, and unpacks nothing before that is done.
pub proof fn upgrade_removes_the_old_runtime(
    platform: Platform,
    env: Environment,
    answers: spec_fn(InstallStage) -> Reply,
)
    requires
        platform != Platform::Other,
        is_at_hand(platform, answers),
        answers(InstallStage::CheckPrefix) == Reply::Yes,
    ensures
        takes(platform, prefix_of(platform, env), answers, InstallStage::RemovePrevious),
        takes(platform, prefix_of(platform, env), answers, InstallStage::Unpack) ==> answers(
            InstallStage::RemovePrevious,
        ) == Reply::Yes,
{
    let prefix = prefix_of(platform, env);
    runtime_is_where_the_variable_says(platform, env);
    assert(prefix.parts.last() == prefix.parts[0]);
    steps_of_an_installation(platform, prefix, answers);
}

/// In every course of replies, the archive is unpacked only into a place that is free:
/// nothing was seen there, or what was there has been removed.
pub proof fn unpacked_only_where_the_place_is_free(
    platform: Platform,
    prefix: LocationSpec,
    replies: Seq<Reply>,
)
    requires
        stage_after(platform, prefix, replies) == InstallStage::Unpack,
    ensures
        ({
            ||| answered(platform, prefix, replies, InstallStage::CheckPrefix, Reply::No)
            ||| answered(platform, prefix, replies, InstallStage::CheckPrefix, Reply::Failed)
            ||| answered(platform, prefix, replies, InstallStage::RemovePrevious, Reply::Yes)
        }),
{
    let fewer = replies.drop_last();
    lemma_answered_last(platform, prefix, replies);
    lemma_answered_last(platform, prefix, fewer);
    let before = stage_after(platform, prefix, fewer.drop_last());
    lemma_answered_grows(platform, prefix, replies, before, fewer.last());
}

/// What is in the place of the runtime is removed whenever it is the directory
/// `MicroHub`, on every system, and in no other case: otherwise the installation is
/// refused.
pub proof fn what_is_in_the_way_is_removed_or_refused(platform: Platform, prefix: LocationSpec)
    ensures
        next_stage(platform, prefix, InstallStage::CheckPrefix, Reply::Yes)
            == InstallStage::RemovePrevious <==> prefix.file_name() == Some("MicroHub"@),
        next_stage(platform, prefix, InstallStage::CheckPrefix, Reply::Yes)
            == InstallStage::Failed(InstallFailure::Refused) <==> prefix.file_name() != Some(
            "MicroHub"@,
        ),
{
}

/// The system matters in two places: where the archive is, which is another matter on
/// Windows alone, and whether there is a quarantine mark to clear, which is so on macOS
/// alone.
pub proof fn the_system_matters_in_two_places(
    platform: Platform,
    other: Platform,
    prefix: LocationSpec,
    stage: InstallStage,
    reply: Reply,
)
    requires
        stage == InstallStage::CheckInstalled ==> (platform == Platform::Windows <==> other
            == Platform::Windows),
        stage == InstallStage::CheckLauncher ==> (platform == Platform::MacOs <==> other
            == Platform::MacOs),
    ensures
        next_stage(platform, prefix, stage, reply) == next_stage(other, prefix, stage, reply),
{
}

/// Where the runtime is to be matters only for whether it has a parent, once the archive
/// is at hand, and for its name, once something is in its place.
pub proof fn the_place_matters_in_two_ways(
    platform: Platform,
    prefix: LocationSpec,
    other: LocationSpec,
    stage: InstallStage,
    reply: Reply,
)
    requires
        stage == InstallStage::StagePayload || stage == InstallStage::FindArchive ==> (
        prefix.parent() is Some <==> other.parent() is Some),
        stage == InstallStage::CheckPrefix ==> (prefix.file_name() == Some("MicroHub"@)
            <==> other.file_name() == Some("MicroHub"@)),
    ensures
        next_stage(platform, prefix, stage, reply) == next_stage(platform, other, stage, reply),
{
}

/// What could not be found out or done counts as not so, but for the unpacking, where the
/// two are reported as different failures.
pub proof fn what_is_unknown_counts_as_not_so(
    platform: Platform,
    prefix: LocationSpec,
    stage: InstallStage,
)
    ensures
        next_stage(platform, prefix, stage, Reply::No) == next_stage(
            platform,
            prefix,
            stage,
            Reply::Failed,
        ) <==> stage != InstallStage::Unpack,
{
}

} // verus!
