//! Which runtime is installed, and which one should be.

use crate::text::{
    blank, blank_when_trimmed_away, is_blank, trim, trim_finds_the_core, trim_is_idempotent,
    trimmed, white_space,
};
use vstd::prelude::*;

verus! {

/// The id of the runtime that should be installed: the build id that comes with the
/// archive, without the white space round it, or the version of the app where there
/// is no such id. The version alone would keep a stale runtime in place when the
/// archive is built anew at the same version.
pub open spec fn expected_id(build_id: Option<Seq<char>>, version: Seq<char>) -> Seq<char> {
    match build_id {
        Some(id) if trim(id).len() > 0 => trim(id),
        _ => version,
    }
}

/// Whether a runtime is in place: its R launcher is there, and the id that it was
/// installed under is the expected one, but for white space round it.
pub open spec fn ready(launcher: bool, installed: Option<Seq<char>>, expected: Seq<char>) -> bool {
    launcher && installed is Some && trim(installed->0) == expected
}

/// What an optional string says.
pub open spec fn said(text: Option<String>) -> Option<Seq<char>> {
    match text {
        Some(text) => Some(text@),
        None => None,
    }
}

/// Identifies the runtime that should be installed. `build_id` is the id that comes
/// with the archive, as it was read; `version` is the version of the app.
pub fn expected_runtime_id(build_id: &Option<String>, version: &str) -> (id: String)
    ensures
        id@ == expected_id(said(*build_id), version@),
{
    match build_id {
        Some(text) => {
            proof {
                blank_when_trimmed_away(text@);
            }
            if is_blank(text.as_str()) {
                version.to_owned()
            } else {
                trimmed(text.as_str())
            }
        },
        None => version.to_owned(),
    }
}

/// True when the installed runtime matches the one this build ships. `launcher` says
/// whether the R launcher of the runtime was found, and `installed` is what the
/// version file holds, if it can be read.
pub fn runtime_ready(launcher: bool, installed: &Option<String>, expected: &str) -> (yes: bool)
    ensures
        yes == ready(launcher, said(*installed), expected@),
{
    if !launcher {
        return false;
    }
    match installed {
        Some(text) => trimmed(text.as_str()) == expected.to_owned(),
        None => false,
    }
}

/// A runtime is recognised by the id that it was recorded under, as long as its
/// launcher is there: it is installed once. A version neither starts nor ends in
/// white space.
pub proof fn recorded_runtime_is_recognised(build_id: Option<Seq<char>>, version: Seq<char>)
    requires
        trim(version) == version,
    ensures
        ({
            let id = expected_id(build_id, version);
            ready(true, Some(id), id)
        }),
{
    if let Some(id) = build_id {
        trim_is_idempotent(id);
    }
}

/// An archive with another build id is installed anew, even at the same version.
pub proof fn rebuilt_runtime_is_replaced(
    old_id: Seq<char>,
    new_id: Seq<char>,
    version: Seq<char>,
    launcher: bool,
)
    requires
        trim(old_id).len() > 0,
        trim(new_id).len() > 0,
        trim(old_id) != trim(new_id),
    ensures
        !ready(
            launcher,
            Some(expected_id(Some(old_id), version)),
            expected_id(Some(new_id), version),
        ),
{
    trim_is_idempotent(old_id);
}

/// A runtime is in place exactly when its launcher is there and the version file holds the
/// expected id with nothing but white space round it. An id that itself starts or ends in
/// white space is never found.
pub proof fn in_place_means_the_same_id(
    before: Seq<char>,
    id: Seq<char>,
    after: Seq<char>,
    expected: Seq<char>,
    launcher: bool,
)
    requires
        blank(before),
        blank(after),
        id.len() > 0 ==> !white_space(id[0]) && !white_space(id.last()),
    ensures
        ready(launcher, Some(before + id + after), expected) <==> launcher && id == expected,
{
    trim_finds_the_core(before, id, after);
}

/// Without a version file no runtime is in place.
pub proof fn nothing_recorded_nothing_in_place(launcher: bool, expected: Seq<char>)
    ensures
        !ready(launcher, None, expected),
{
}

/// The id of a build is what stands in it between white space, whatever the version of
/// the app is. An id that is white space alone counts for nothing, as none does: the
/// version, as it is, takes its place.
pub proof fn build_id_goes_before_the_version(
    before: Seq<char>,
    id: Seq<char>,
    after: Seq<char>,
    version: Seq<char>,
)
    requires
        blank(before),
        blank(after),
        id.len() > 0 ==> !white_space(id[0]) && !white_space(id.last()),
    ensures
        id.len() > 0 ==> expected_id(Some(before + id + after), version) == id,
        id.len() == 0 ==> expected_id(Some(before + id + after), version) == version,
        expected_id(None, version) == version,
{
    trim_finds_the_core(before, id, after);
}

} // verus!
