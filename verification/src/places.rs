//! The places that the program knows: the installed runtime and what is in it, the
//! app, the log, and the archive that the runtime is unpacked from.

use crate::layout::{
    at, below, joining_goes_one_level_down, plain_name, Environment, Location, LocationSpec, Platform, Root, RootSpec, Var,
};
use crate::text::joined;
use vstd::prelude::*;

verus! {

/// The name of the runtime directory that an upgrade may remove.
pub open spec fn runtime_name() -> Seq<char> {
    "MicroHub"@
}

/// Where the runtime is installed. On macOS the place is fixed: absolute paths are
/// baked into the R framework. On Windows it is per user and needs no
/// administrator; elsewhere it is hidden in the home directory.
pub open spec fn prefix_of(platform: Platform, env: Environment) -> LocationSpec {
    match platform {
        Platform::MacOs => at(RootSpec::Fixed("/Users/Shared"@)).join("MicroHub"@),
        Platform::Windows => if env.local_app_data {
            at(RootSpec::Env(Var::LocalAppData)).join("MicroHub"@)
        } else {
            at(RootSpec::Fixed("C:\\"@)).join("MicroHub"@)
        },
        Platform::Other => if env.home {
            at(RootSpec::Env(Var::Home)).join(".microhub"@)
        } else {
            at(RootSpec::Fixed("/tmp"@)).join(".microhub"@)
        },
    }
}

/// Where the runtime is installed.
pub fn runtime_prefix(platform: Platform, env: Environment) -> (prefix: Location)
    ensures
        prefix@ == prefix_of(platform, env),
        prefix@.wf(),
{
    proof {
        lemma_names_are_plain();
    }
    match platform {
        Platform::MacOs => Location::at(Root::Fixed("/Users/Shared")).join("MicroHub"),
        Platform::Windows => if env.local_app_data {
            Location::at(Root::Env(Var::LocalAppData)).join("MicroHub")
        } else {
            Location::at(Root::Fixed("C:\\")).join("MicroHub")
        },
        Platform::Other => if env.home {
            Location::at(Root::Env(Var::Home)).join(".microhub")
        } else {
            Location::at(Root::Fixed("/tmp")).join(".microhub")
        },
    }
}

/// The locations of a list.
pub open spec fn spots(locations: Seq<Location>) -> Seq<LocationSpec> {
    Seq::new(locations.len(), |i: int| locations[i]@)
}

/// Every location of a list is well formed.
pub open spec fn all_wf(places: Seq<LocationSpec>) -> bool {
    forall|i: int| 0 <= i < places.len() ==> (#[trigger] places[i]).wf()
}

/// Where the R launcher may be inside a runtime, in the order of preference. R for
/// Windows keeps its 64-bit programs in a directory of their own, but not in every
/// layout. Elsewhere `bin/R` is used: a script, which relocation can rewrite.
pub open spec fn bundled_r_places(platform: Platform, prefix: LocationSpec) -> Seq<LocationSpec> {
    match platform {
        Platform::Windows => seq![
            prefix.join("R"@).join("bin"@).join("x64"@).join("Rscript.exe"@),
            prefix.join("R"@).join("bin"@).join("Rscript.exe"@),
        ],
        _ => seq![prefix.join("R.framework"@).join("Resources"@).join("bin"@).join("R"@)],
    }
}

/// Where the R launcher may be inside a runtime, in the order of preference.
pub fn bundled_r_candidates(platform: Platform, prefix: &Location) -> (places: Vec<Location>)
    ensures
        spots(places@) == bundled_r_places(platform, prefix@),
        prefix@.wf() ==> all_wf(spots(places@)),
{
    proof {
        lemma_names_are_plain();
    }
    let mut places: Vec<Location> = Vec::new();
    match platform {
        Platform::Windows => {
            places.push(prefix.duplicate().join("R").join("bin").join("x64").join("Rscript.exe"));
            places.push(prefix.duplicate().join("R").join("bin").join("Rscript.exe"));
        },
        _ => {
            places.push(
                prefix.duplicate().join("R.framework").join("Resources").join("bin").join("R"),
            );
        },
    }
    proof {
        assert(spots(places@) =~= bundled_r_places(platform, prefix@));
    }
    places
}

/// The launchers inside a runtime, as a message names them.
pub open spec fn bundled_r_names(platform: Platform) -> Seq<char> {
    match platform {
        Platform::Windows => "R\\bin\\x64\\Rscript.exe, R\\bin\\Rscript.exe"@,
        _ => "R.framework/Resources/bin/R"@,
    }
}

/// The launchers inside a runtime, as a message names them.
pub fn bundled_r_list(platform: Platform) -> (names: &'static str)
    ensures
        names@ == bundled_r_names(platform),
{
    match platform {
        Platform::Windows => "R\\bin\\x64\\Rscript.exe, R\\bin\\Rscript.exe",
        _ => "R.framework/Resources/bin/R",
    }
}

/// The name of the launcher in a directory of `PATH`.
pub open spec fn rscript_exe(platform: Platform) -> Seq<char> {
    match platform {
        Platform::Windows => "Rscript.exe"@,
        _ => "Rscript"@,
    }
}

/// Where R is usually installed, in the order of preference.
pub open spec fn system_r_places(platform: Platform) -> Seq<LocationSpec> {
    match platform {
        Platform::Windows => seq![
            at(RootSpec::Fixed("C:\\Program Files\\R\\bin\\x64\\Rscript.exe"@)),
            at(RootSpec::Fixed("C:\\Program Files\\R\\bin\\Rscript.exe"@)),
        ],
        _ => seq![
            at(RootSpec::Fixed("/Library/Frameworks/R.framework/Resources/bin/Rscript"@)),
            at(RootSpec::Fixed("/opt/homebrew/bin/Rscript"@)),
            at(RootSpec::Fixed("/usr/local/bin/Rscript"@)),
            at(RootSpec::Fixed("/usr/bin/Rscript"@)),
        ],
    }
}

/// The launcher in each directory of `PATH`.
pub open spec fn search_r_places(platform: Platform, entries: nat) -> Seq<LocationSpec> {
    Seq::new(entries, |i: int| at(RootSpec::SearchDir(i)).join(rscript_exe(platform)))
}

/// Where to look for the R launcher, in order. A launcher that a developer supplies
/// is the only one considered. Otherwise the bundled runtime comes first, then the
/// usual installations (an app started from the Finder has a `PATH` without them),
/// then `PATH`.
pub open spec fn rscript_places(platform: Platform, env: Environment) -> Seq<LocationSpec> {
    if env.r_bin {
        seq![at(RootSpec::Env(Var::RBin))]
    } else {
        bundled_r_places(platform, prefix_of(platform, env)) + system_r_places(platform)
            + search_r_places(platform, env.path_entries as nat)
    }
}

/// Where to look for the R launcher, in order.
pub fn rscript_candidates(platform: Platform, env: Environment) -> (places: Vec<Location>)
    ensures
        spots(places@) == rscript_places(platform, env),
        all_wf(spots(places@)),
{
    proof {
        lemma_names_are_plain();
    }
    if env.r_bin {
        let mut places: Vec<Location> = Vec::new();
        places.push(Location::at(Root::Env(Var::RBin)));
        proof {
            assert(spots(places@) =~= rscript_places(platform, env));
        }
        return places;
    }
    let prefix = runtime_prefix(platform, env);
    let mut places = bundled_r_candidates(platform, &prefix);
    let ghost bundled = spots(places@);
    match platform {
        Platform::Windows => {
            places.push(
                Location::at(Root::Fixed("C:\\Program Files\\R\\bin\\x64\\Rscript.exe")),
            );
            places.push(Location::at(Root::Fixed("C:\\Program Files\\R\\bin\\Rscript.exe")));
        },
        _ => {
            places.push(
                Location::at(
                    Root::Fixed("/Library/Frameworks/R.framework/Resources/bin/Rscript"),
                ),
            );
            places.push(Location::at(Root::Fixed("/opt/homebrew/bin/Rscript")));
            places.push(Location::at(Root::Fixed("/usr/local/bin/Rscript")));
            places.push(Location::at(Root::Fixed("/usr/bin/Rscript")));
        },
    }
    let ghost known = bundled + system_r_places(platform);
    proof {
        assert(spots(places@) =~= known);
        assert(search_r_places(platform, 0) =~= Seq::empty());
        assert(known + search_r_places(platform, 0) =~= known);
    }
    let exe = match platform {
        Platform::Windows => "Rscript.exe",
        _ => "Rscript",
    };
    let mut i: usize = 0;
    while i < env.path_entries
        invariant
            i <= env.path_entries,
            exe@ == rscript_exe(platform),
            plain_name(exe@),
            spots(places@) == known + search_r_places(platform, i as nat),
            all_wf(spots(places@)),
        decreases env.path_entries - i,
    {
        let ghost before = spots(places@);
        places.push(Location::at(Root::SearchDir(i)).join(exe));
        i = i + 1;
        proof {
            assert(spots(places@) =~= before.push(
                at(RootSpec::SearchDir(i - 1)).join(rscript_exe(platform)),
            ));
            assert(search_r_places(platform, i as nat) =~= search_r_places(
                platform,
                (i - 1) as nat,
            ).push(at(RootSpec::SearchDir(i - 1)).join(rscript_exe(platform))));
            assert(spots(places@) =~= known + search_r_places(platform, i as nat));
        }
    }
    places
}

/// The directory of the log. There is none where the home directory is not known.
pub open spec fn log_dir_place(platform: Platform, env: Environment) -> Option<LocationSpec> {
    match platform {
        Platform::Windows => Some(prefix_of(platform, env).join("Logs"@)),
        _ => if env.home {
            Some(at(RootSpec::Env(Var::Home)).join("Library"@).join("Logs"@).join("MicroHub"@))
        } else {
            None
        },
    }
}

/// The directory of the log, which has to exist before the log is opened.
pub fn log_dir(platform: Platform, env: Environment) -> (dir: Option<Location>)
    ensures
        match dir {
            Some(dir) => log_dir_place(platform, env) == Some(dir@),
            None => log_dir_place(platform, env) is None,
        },
        dir is Some ==> dir->0@.wf(),
{
    proof {
        lemma_names_are_plain();
    }
    match platform {
        Platform::Windows => Some(runtime_prefix(platform, env).join("Logs")),
        _ => if env.home {
            Some(Location::at(Root::Env(Var::Home)).join("Library").join("Logs").join("MicroHub"))
        } else {
            None
        },
    }
}

/// Where the output of R is captured, if its directory exists or could be made.
pub open spec fn log_place(
    platform: Platform,
    env: Environment,
    dir_ready: bool,
) -> Option<LocationSpec> {
    match log_dir_place(platform, env) {
        Some(dir) if dir_ready => Some(dir.join("r-session.log"@)),
        _ => None,
    }
}

/// Where the output of R is captured: started from the Finder there is no terminal
/// to inherit, so the log is the only way to see why R failed. `dir_ready` says
/// whether the directory of the log exists or could be made.
pub fn log_path(platform: Platform, env: Environment, dir_ready: bool) -> (path: Option<Location>)
    ensures
        match path {
            Some(path) => dir_ready && log_dir_place(platform, env) is Some && path@ == (
            log_dir_place(platform, env)->0).join("r-session.log"@),
            None => !dir_ready || log_dir_place(platform, env) is None,
        },
        match path {
            Some(path) => log_place(platform, env, dir_ready) == Some(path@),
            None => log_place(platform, env, dir_ready) is None,
        },
        path is Some ==> path->0@.wf(),
{
    proof {
        lemma_names_are_plain();
    }
    if !dir_ready {
        return None;
    }
    match log_dir(platform, env) {
        Some(dir) => Some(dir.join("r-session.log")),
        None => None,
    }
}

/// Where the Shiny app should be: where a developer says, otherwise inside the
/// unpacked payload on Windows, which ships as one file, and in the resources of
/// the app elsewhere, if their directory is known. The directory is not called
/// `app`: that is the name of the binary next to it.
pub open spec fn app_dir_place(
    platform: Platform,
    env: Environment,
    resources: bool,
) -> Option<LocationSpec> {
    if env.app_dir {
        Some(at(RootSpec::Env(Var::AppDir)))
    } else if platform == Platform::Windows {
        Some(prefix_of(platform, env).join("shinyapp"@))
    } else if resources {
        Some(at(RootSpec::Resources).join("shinyapp"@))
    } else {
        None
    }
}

/// The directory to look at for the Shiny app. `resources` says whether the
/// directory of the app's resources is known.
pub fn app_dir_candidate(platform: Platform, env: Environment, resources: bool) -> (place: Option<
    Location,
>)
    ensures
        match place {
            Some(place) => app_dir_place(platform, env, resources) == Some(place@),
            None => app_dir_place(platform, env, resources) is None,
        },
        place is Some ==> place->0@.wf(),
{
    proof {
        lemma_names_are_plain();
    }
    if env.app_dir {
        return Some(Location::at(Root::Env(Var::AppDir)));
    }
    match platform {
        Platform::Windows => Some(runtime_prefix(platform, env).join("shinyapp")),
        _ => if resources {
            Some(Location::at(Root::Resources).join("shinyapp"))
        } else {
            None
        },
    }
}

/// The Shiny app directory, given whether the place for it is a directory.
pub open spec fn app_dir_found(
    platform: Platform,
    env: Environment,
    resources: bool,
    is_dir: bool,
) -> Option<LocationSpec> {
    if is_dir {
        app_dir_place(platform, env, resources)
    } else {
        None
    }
}

/// The Shiny app directory, given whether the candidate is a directory. An override
/// that names none is not replaced by the bundled copy.
pub fn app_dir(platform: Platform, env: Environment, resources: bool, is_dir: bool) -> (dir: Option<
    Location,
>)
    ensures
        match dir {
            Some(dir) => is_dir && app_dir_place(platform, env, resources) == Some(dir@),
            None => !is_dir || app_dir_place(platform, env, resources) is None,
        },
        match dir {
            Some(dir) => app_dir_found(platform, env, resources, is_dir) == Some(dir@),
            None => app_dir_found(platform, env, resources, is_dir) is None,
        },
        dir is Some ==> dir->0@.wf(),
{
    if is_dir {
        app_dir_candidate(platform, env, resources)
    } else {
        None
    }
}

/// The home directory of the bundled R, which anything that starts `Rscript` again
/// needs to be told. R for Windows finds it by itself.
pub open spec fn r_home_place(platform: Platform, prefix: LocationSpec) -> Option<LocationSpec> {
    match platform {
        Platform::Windows => None,
        _ => Some(prefix.join("R.framework"@).join("Resources"@)),
    }
}

/// The home directory of the bundled R, where R has to be told.
pub fn r_home(platform: Platform, prefix: &Location) -> (home: Option<Location>)
    ensures
        match home {
            Some(home) => r_home_place(platform, prefix@) == Some(home@),
            None => r_home_place(platform, prefix@) is None,
        },
        home is Some && prefix@.wf() ==> home->0@.wf(),
{
    proof {
        lemma_names_are_plain();
    }
    match platform {
        Platform::Windows => None,
        _ => Some(prefix.duplicate().join("R.framework").join("Resources")),
    }
}

/// The bundled Python interpreter.
pub open spec fn python_place(platform: Platform, prefix: LocationSpec) -> LocationSpec {
    match platform {
        Platform::Windows => prefix.join("python"@).join("python.exe"@),
        _ => prefix.join("python"@).join("bin"@).join("python3"@),
    }
}

/// The bundled Python interpreter.
pub fn python(platform: Platform, prefix: &Location) -> (place: Location)
    ensures
        place@ == python_place(platform, prefix@),
        prefix@.wf() ==> place@.wf(),
{
    proof {
        lemma_names_are_plain();
    }
    match platform {
        Platform::Windows => prefix.duplicate().join("python").join("python.exe"),
        _ => prefix.duplicate().join("python").join("bin").join("python3"),
    }
}

/// The file that says which runtime is installed in `prefix`.
pub open spec fn version_place(prefix: LocationSpec) -> LocationSpec {
    prefix.join(".microhub-runtime-version"@)
}

/// The file that says which runtime is installed.
pub fn version_file(prefix: &Location) -> (place: Location)
    ensures
        place@ == version_place(prefix@),
        prefix@.wf() ==> place@.wf(),
{
    proof {
        lemma_names_are_plain();
    }
    prefix.duplicate().join(".microhub-runtime-version")
}

/// The file that says which runtime the resources of the app hold. The build for
/// Windows carries the archive inside the executable, and has the id stamped in when it
/// is compiled.
pub open spec fn runtime_id_place(platform: Platform) -> Option<LocationSpec> {
    match platform {
        Platform::Windows => None,
        _ => Some(at(RootSpec::Resources).join("runtime.id"@)),
    }
}

/// The file that says which runtime the resources of the app hold, where there is one.
pub fn runtime_id_file(platform: Platform) -> (place: Option<Location>)
    ensures
        match place {
            Some(place) => runtime_id_place(platform) == Some(place@),
            None => runtime_id_place(platform) is None,
        },
        place is Some ==> place->0@.wf(),
{
    proof {
        lemma_names_are_plain();
    }
    match platform {
        Platform::Windows => None,
        _ => Some(Location::at(Root::Resources).join("runtime.id")),
    }
}

/// The archive that the runtime is unpacked from: on Windows the payload of the
/// executable, which is first copied to a temporary file.
pub open spec fn archive_place(platform: Platform) -> LocationSpec {
    match platform {
        Platform::Windows => at(RootSpec::Temporary).join("microhub-payload.tar.gz"@),
        _ => at(RootSpec::Resources).join("runtime.tar.gz"@),
    }
}

/// The archive that the runtime is unpacked from.
pub fn archive(platform: Platform) -> (place: Location)
    ensures
        place@ == archive_place(platform),
        place@.wf(),
{
    proof {
        lemma_names_are_plain();
    }
    match platform {
        Platform::Windows => Location::at(Root::Temporary).join("microhub-payload.tar.gz"),
        _ => Location::at(Root::Resources).join("runtime.tar.gz"),
    }
}

/// Every name that a place is made of is for one directory level.
proof fn lemma_names_are_plain()
    ensures
        plain_name("MicroHub"@),
        plain_name(".microhub"@),
        plain_name("Logs"@),
        plain_name("Library"@),
        plain_name("r-session.log"@),
        plain_name("shinyapp"@),
        plain_name("R"@),
        plain_name("bin"@),
        plain_name("x64"@),
        plain_name("Rscript.exe"@),
        plain_name("Rscript"@),
        plain_name("R.framework"@),
        plain_name("Resources"@),
        plain_name("python"@),
        plain_name("python.exe"@),
        plain_name("python3"@),
        plain_name("runtime.id"@),
        plain_name("runtime.tar.gz"@),
        plain_name("microhub-payload.tar.gz"@),
        plain_name(".microhub-runtime-version"@),
{
    reveal_strlit("MicroHub");
    assert("MicroHub"@ =~= seq!['M', 'i', 'c', 'r', 'o', 'H', 'u', 'b']);
    reveal_strlit(".microhub");
    assert(".microhub"@ =~= seq!['.', 'm', 'i', 'c', 'r', 'o', 'h', 'u', 'b']);
    reveal_strlit("Logs");
    assert("Logs"@ =~= seq!['L', 'o', 'g', 's']);
    reveal_strlit("Library");
    assert("Library"@ =~= seq!['L', 'i', 'b', 'r', 'a', 'r', 'y']);
    reveal_strlit("r-session.log");
    assert("r-session.log"@ =~= seq![
        'r',
        '-',
        's',
        'e',
        's',
        's',
        'i',
        'o',
        'n',
        '.',
        'l',
        'o',
        'g',
    ]);
    reveal_strlit("shinyapp");
    assert("shinyapp"@ =~= seq!['s', 'h', 'i', 'n', 'y', 'a', 'p', 'p']);
    reveal_strlit("R");
    assert("R"@ =~= seq!['R']);
    reveal_strlit("bin");
    assert("bin"@ =~= seq!['b', 'i', 'n']);
    reveal_strlit("x64");
    assert("x64"@ =~= seq!['x', '6', '4']);
    reveal_strlit("Rscript.exe");
    assert("Rscript.exe"@ =~= seq!['R', 's', 'c', 'r', 'i', 'p', 't', '.', 'e', 'x', 'e']);
    reveal_strlit("Rscript");
    assert("Rscript"@ =~= seq!['R', 's', 'c', 'r', 'i', 'p', 't']);
    reveal_strlit("R.framework");
    assert("R.framework"@ =~= seq!['R', '.', 'f', 'r', 'a', 'm', 'e', 'w', 'o', 'r', 'k']);
    reveal_strlit("Resources");
    assert("Resources"@ =~= seq!['R', 'e', 's', 'o', 'u', 'r', 'c', 'e', 's']);
    reveal_strlit("python");
    assert("python"@ =~= seq!['p', 'y', 't', 'h', 'o', 'n']);
    reveal_strlit("python.exe");
    assert("python.exe"@ =~= seq!['p', 'y', 't', 'h', 'o', 'n', '.', 'e', 'x', 'e']);
    reveal_strlit("python3");
    assert("python3"@ =~= seq!['p', 'y', 't', 'h', 'o', 'n', '3']);
    reveal_strlit("runtime.id");
    assert("runtime.id"@ =~= seq!['r', 'u', 'n', 't', 'i', 'm', 'e', '.', 'i', 'd']);
    reveal_strlit("runtime.tar.gz");
    assert("runtime.tar.gz"@ =~= seq![
        'r',
        'u',
        'n',
        't',
        'i',
        'm',
        'e',
        '.',
        't',
        'a',
        'r',
        '.',
        'g',
        'z',
    ]);
    reveal_strlit("microhub-payload.tar.gz");
    assert("microhub-payload.tar.gz"@ =~= seq![
        'm',
        'i',
        'c',
        'r',
        'o',
        'h',
        'u',
        'b',
        '-',
        'p',
        'a',
        'y',
        'l',
        'o',
        'a',
        'd',
        '.',
        't',
        'a',
        'r',
        '.',
        'g',
        'z',
    ]);
    reveal_strlit(".microhub-runtime-version");
    assert(".microhub-runtime-version"@ =~= seq![
        '.',
        'm',
        'i',
        'c',
        'r',
        'o',
        'h',
        'u',
        'b',
        '-',
        'r',
        'u',
        'n',
        't',
        'i',
        'm',
        'e',
        '-',
        'v',
        'e',
        'r',
        's',
        'i',
        'o',
        'n',
    ]);
    assert("R"@[0] == 'R');
}

/// The runtime directory bears the name that an upgrade may remove on macOS and on
/// Windows, and on no other system.
pub proof fn runtime_directory_name(platform: Platform, env: Environment)
    ensures
        prefix_of(platform, env).file_name() == Some(runtime_name()) <==> platform
            != Platform::Other,
{
    reveal_strlit("MicroHub");
    reveal_strlit(".microhub");
    assert("MicroHub"@.len() != ".microhub"@.len());
    let prefix = prefix_of(platform, env);
    assert(prefix.parts.len() == 1);
    assert(prefix.parts.last() == prefix.parts[0]);
}

/// A launcher that a developer supplies keeps every other one out.
pub proof fn supplied_launcher_is_the_only_one(platform: Platform, env: Environment)
    requires
        env.r_bin,
    ensures
        rscript_places(platform, env) == seq![at(RootSpec::Env(Var::RBin))],
{
}

/// Without a supplied launcher, the bundled runtime is looked at before anything
/// that is installed on the system.
pub proof fn bundled_runtime_comes_first(platform: Platform, env: Environment)
    requires
        !env.r_bin,
    ensures
        ({
            let bundled = bundled_r_places(platform, prefix_of(platform, env));
            rscript_places(platform, env).take(bundled.len() as int) == bundled
        }),
{
    let bundled = bundled_r_places(platform, prefix_of(platform, env));
    assert(rscript_places(platform, env).take(bundled.len() as int) =~= bundled);
}

/// The runtime is one level below a root, and that root is a variable exactly when that
/// very variable is set: the per-user data directory on Windows, the home directory
/// elsewhere, and never one on macOS, where the place is fixed.
pub proof fn runtime_is_where_the_variable_says(platform: Platform, env: Environment)
    ensures
        prefix_of(platform, env).parts.len() == 1,
        prefix_of(platform, env).root is Env <==> {
            ||| platform == Platform::Windows && env.local_app_data
            ||| platform == Platform::Other && env.home
        },
        prefix_of(platform, env).root == RootSpec::Env(Var::LocalAppData) <==> platform
            == Platform::Windows && env.local_app_data,
        prefix_of(platform, env).root == RootSpec::Env(Var::Home) <==> platform
            == Platform::Other && env.home,
        platform == Platform::MacOs ==> prefix_of(platform, env) == below(
            at(RootSpec::Fixed("/Users/Shared"@)),
            seq!["MicroHub"@],
        ),
        platform == Platform::Windows ==> prefix_of(platform, env).file_name() == Some(
            "MicroHub"@,
        ),
        platform == Platform::Windows && !env.local_app_data ==> prefix_of(platform, env).parent()
            == Some(at(RootSpec::Fixed("C:\\"@))),
        platform == Platform::Other ==> prefix_of(platform, env).file_name() == Some(".microhub"@),
        platform == Platform::Other && !env.home ==> prefix_of(platform, env).parent() == Some(
            at(RootSpec::Fixed("/tmp"@)),
        ),
{
    let prefix = prefix_of(platform, env);
    assert(prefix.parts.drop_last() =~= Seq::empty());
    assert(at(RootSpec::Fixed("/Users/Shared"@)).parts + seq!["MicroHub"@] =~= seq!["MicroHub"@]);
    assert(Seq::<Seq<char>>::empty().push("MicroHub"@) =~= seq!["MicroHub"@]);
}

/// Where the runtime is depends on one variable at most, and on nothing else of the
/// environment: two environments that agree on it have the runtime in the same place.
pub proof fn runtime_place_depends_on_one_variable(
    platform: Platform,
    env: Environment,
    other: Environment,
)
    requires
        platform == Platform::Windows ==> env.local_app_data == other.local_app_data,
        platform == Platform::Other ==> env.home == other.home,
    ensures
        prefix_of(platform, env) == prefix_of(platform, other),
{
}

/// The launchers inside a runtime, wherever the runtime is.
pub proof fn bundled_launchers_lie_in_the_runtime(platform: Platform, prefix: LocationSpec)
    ensures
        platform == Platform::Windows ==> bundled_r_places(platform, prefix) == seq![
            below(prefix, seq!["R"@, "bin"@, "x64"@, "Rscript.exe"@]),
            below(prefix, seq!["R"@, "bin"@, "Rscript.exe"@]),
        ],
        platform != Platform::Windows ==> bundled_r_places(platform, prefix) == seq![
            below(prefix, seq!["R.framework"@, "Resources"@, "bin"@, "R"@]),
        ],
{
    let places = bundled_r_places(platform, prefix);
    if platform == Platform::Windows {
        assert(places[0].parts =~= prefix.parts + seq!["R"@, "bin"@, "x64"@, "Rscript.exe"@]);
        assert(places[1].parts =~= prefix.parts + seq!["R"@, "bin"@, "Rscript.exe"@]);
        assert(places =~= seq![
            below(prefix, seq!["R"@, "bin"@, "x64"@, "Rscript.exe"@]),
            below(prefix, seq!["R"@, "bin"@, "Rscript.exe"@]),
        ]);
    } else {
        assert(places[0].parts =~= prefix.parts + seq![
            "R.framework"@,
            "Resources"@,
            "bin"@,
            "R"@,
        ]);
        assert(places =~= seq![
            below(prefix, seq!["R.framework"@, "Resources"@, "bin"@, "R"@]),
        ]);
    }
}

/// A message names exactly the launchers that are looked for, as paths below the runtime,
/// in the order in which they are looked for, wherever the runtime is.
pub proof fn message_names_the_launchers_looked_for(platform: Platform, prefix: LocationSpec)
    ensures
        ({
            let places = bundled_r_places(platform, prefix);
            let separator = if platform == Platform::Windows {
                "\\"@
            } else {
                "/"@
            };
            bundled_r_names(platform) == joined(
                Seq::new(
                    places.len(),
                    |i: int| joined(places[i].parts.skip(prefix.parts.len() as int), separator),
                ),
                ", "@,
            )
        }),
{
    reveal_with_fuel(joined, 5);
    reveal_strlit("\\");
    reveal_strlit("/");
    reveal_strlit(", ");
    reveal_strlit("R");
    reveal_strlit("bin");
    reveal_strlit("x64");
    reveal_strlit("Rscript.exe");
    reveal_strlit("R.framework");
    reveal_strlit("Resources");
    reveal_strlit("R\\bin\\x64\\Rscript.exe, R\\bin\\Rscript.exe");
    reveal_strlit("R.framework/Resources/bin/R");
    bundled_launchers_lie_in_the_runtime(platform, prefix);
    let places = bundled_r_places(platform, prefix);
    let skip = prefix.parts.len() as int;
    if platform == Platform::Windows {
        let long = seq!["R"@, "bin"@, "x64"@, "Rscript.exe"@];
        let short = seq!["R"@, "bin"@, "Rscript.exe"@];
        assert(places[0].parts.skip(skip) =~= long);
        assert(places[1].parts.skip(skip) =~= short);
        assert(long.drop_last() =~= seq!["R"@, "bin"@, "x64"@]);
        assert(long.drop_last().drop_last() =~= seq!["R"@, "bin"@]);
        assert(short.drop_last() =~= seq!["R"@, "bin"@]);
        assert(seq!["R"@, "bin"@].drop_last() =~= seq!["R"@]);
        let paths = Seq::new(
            places.len(),
            |i: int| joined(places[i].parts.skip(skip), "\\"@),
        );
        assert(paths =~= seq![joined(long, "\\"@), joined(short, "\\"@)]);
        assert(paths.drop_last() =~= seq![joined(long, "\\"@)]);
        let base = "R"@ + "\\"@ + "bin"@;
        assert(joined(short, "\\"@) =~= base + "\\"@ + "Rscript.exe"@);
        assert(joined(long, "\\"@) =~= base + "\\"@ + "x64"@ + "\\"@ + "Rscript.exe"@);
        assert(bundled_r_names(platform) =~= joined(paths, ", "@));
    } else {
        let names = seq!["R.framework"@, "Resources"@, "bin"@, "R"@];
        assert(places[0].parts.skip(skip) =~= names);
        assert(names.drop_last() =~= seq!["R.framework"@, "Resources"@, "bin"@]);
        assert(names.drop_last().drop_last() =~= seq!["R.framework"@, "Resources"@]);
        assert(seq!["R.framework"@, "Resources"@].drop_last() =~= seq!["R.framework"@]);
        let paths = Seq::new(places.len(), |i: int| joined(places[i].parts.skip(skip), "/"@));
        assert(paths =~= seq![joined(names, "/"@)]);
        assert(joined(names, "/"@) =~= "R.framework"@ + "/"@ + "Resources"@ + "/"@ + "bin"@
            + "/"@ + "R"@);
        assert(bundled_r_names(platform) =~= joined(paths, ", "@));
    }
}

/// Without a supplied launcher, the usual installations are looked at behind the bundled
/// launchers and before `PATH`, all of them and in this order, on every system.
pub proof fn usual_installations_are_looked_at(platform: Platform, env: Environment)
    requires
        !env.r_bin,
    ensures
        ({
            let places = rscript_places(platform, env);
            let n = bundled_r_places(platform, prefix_of(platform, env)).len() as int;
            if platform == Platform::Windows {
                &&& n == 2
                &&& places[2] == at(RootSpec::Fixed("C:\\Program Files\\R\\bin\\x64\\Rscript.exe"@))
                &&& places[3] == at(RootSpec::Fixed("C:\\Program Files\\R\\bin\\Rscript.exe"@))
                &&& places.len() == 4 + env.path_entries
            } else {
                &&& n == 1
                &&& places[1] == at(
                    RootSpec::Fixed("/Library/Frameworks/R.framework/Resources/bin/Rscript"@),
                )
                &&& places[2] == at(RootSpec::Fixed("/opt/homebrew/bin/Rscript"@))
                &&& places[3] == at(RootSpec::Fixed("/usr/local/bin/Rscript"@))
                &&& places[4] == at(RootSpec::Fixed("/usr/bin/Rscript"@))
                &&& places.len() == 5 + env.path_entries
            }
        }),
{
}

/// Without a supplied launcher, every directory of `PATH` is looked at, in the order of
/// `PATH` and behind everything else, for a launcher by its name on the system.
pub proof fn every_directory_of_path_is_looked_at(platform: Platform, env: Environment, i: int)
    requires
        !env.r_bin,
        0 <= i < env.path_entries,
    ensures
        ({
            let places = rscript_places(platform, env);
            places[places.len() - env.path_entries + i] == below(
                at(RootSpec::SearchDir(i)),
                seq![
                    if platform == Platform::Windows {
                        "Rscript.exe"@
                    } else {
                        "Rscript"@
                    },
                ],
            )
        }),
{
    let name = rscript_exe(platform);
    joining_goes_one_level_down(at(RootSpec::SearchDir(i)), name);
}

/// The bundled launcher is the one inside the runtime of this very environment, wherever
/// that runtime is.
pub proof fn bundled_launcher_is_that_of_the_runtime(platform: Platform, env: Environment, i: int)
    requires
        !env.r_bin,
        0 <= i < bundled_r_places(platform, prefix_of(platform, env)).len(),
    ensures
        rscript_places(platform, env)[i] == bundled_r_places(
            platform,
            prefix_of(platform, env),
        )[i],
        rscript_places(platform, env)[i].root == prefix_of(platform, env).root,
{
    bundled_runtime_comes_first(platform, env);
    let n = bundled_r_places(platform, prefix_of(platform, env)).len() as int;
    assert(rscript_places(platform, env).take(n)[i] == rscript_places(platform, env)[i]);
}

/// The log has a directory on Windows always, and elsewhere exactly when the home
/// directory is known. It lies in the runtime on Windows and in the home directory
/// elsewhere.
pub proof fn log_lies_with_the_user(platform: Platform, env: Environment)
    ensures
        log_dir_place(platform, env) is Some <==> platform == Platform::Windows || env.home,
        platform == Platform::Windows ==> log_dir_place(platform, env) == Some(
            below(prefix_of(platform, env), seq!["Logs"@]),
        ),
        platform != Platform::Windows && env.home ==> log_dir_place(platform, env) == Some(
            below(at(RootSpec::Env(Var::Home)), seq!["Library"@, "Logs"@, "MicroHub"@]),
        ),
{
    joining_goes_one_level_down(prefix_of(platform, env), "Logs"@);
    let home = at(RootSpec::Env(Var::Home));
    assert(home.join("Library"@).join("Logs"@).join("MicroHub"@).parts =~= home.parts + seq![
        "Library"@,
        "Logs"@,
        "MicroHub"@,
    ]);
}

/// There is a log exactly when it has a directory that is there, and it lies in that
/// directory.
pub proof fn log_is_in_its_directory(platform: Platform, env: Environment, dir_ready: bool)
    ensures
        log_place(platform, env, dir_ready) is Some <==> dir_ready && log_dir_place(
            platform,
            env,
        ) is Some,
        log_place(platform, env, dir_ready) is Some ==> {
            &&& (log_place(platform, env, dir_ready)->0).parent() == log_dir_place(platform, env)
            &&& (log_place(platform, env, dir_ready)->0).file_name() == Some("r-session.log"@)
        },
{
    if let Some(dir) = log_dir_place(platform, env) {
        joining_goes_one_level_down(dir, "r-session.log"@);
    }
}

/// The app is where a developer says, if a developer says so; otherwise it is in the
/// runtime on Windows, and elsewhere among the resources, if their directory is known.
/// Nothing else of the environment matters.
pub proof fn app_is_found_in_one_place(
    platform: Platform,
    env: Environment,
    resources: bool,
    is_dir: bool,
)
    ensures
        app_dir_place(platform, env, resources) is Some <==> env.app_dir || platform
            == Platform::Windows || resources,
        env.app_dir ==> app_dir_place(platform, env, resources) == Some(
            at(RootSpec::Env(Var::AppDir)),
        ),
        !env.app_dir && platform == Platform::Windows ==> app_dir_place(platform, env, resources)
            == Some(below(prefix_of(platform, env), seq!["shinyapp"@])),
        !env.app_dir && platform != Platform::Windows && resources ==> app_dir_place(
            platform,
            env,
            resources,
        ) == Some(below(at(RootSpec::Resources), seq!["shinyapp"@])),
        app_dir_found(platform, env, resources, true) == app_dir_place(platform, env, resources),
        app_dir_found(platform, env, resources, false) is None,
{
    joining_goes_one_level_down(prefix_of(platform, env), "shinyapp"@);
    joining_goes_one_level_down(at(RootSpec::Resources), "shinyapp"@);
}

/// Where R is told its home, the bundled launcher lies in that home, wherever the
/// runtime is; on Windows R is not told.
pub proof fn launcher_lies_in_the_home_of_r(platform: Platform, prefix: LocationSpec)
    ensures
        r_home_place(platform, prefix) is Some <==> platform != Platform::Windows,
        platform != Platform::Windows ==> {
            let home = r_home_place(platform, prefix)->0;
            &&& home == below(prefix, seq!["R.framework"@, "Resources"@])
            &&& bundled_r_places(platform, prefix)[0] == below(home, seq!["bin"@, "R"@])
        },
{
    if platform != Platform::Windows {
        let home = r_home_place(platform, prefix)->0;
        assert(home.parts =~= prefix.parts + seq!["R.framework"@, "Resources"@]);
        assert(bundled_r_places(platform, prefix)[0].parts =~= home.parts + seq!["bin"@, "R"@]);
    }
}

/// The bundled Python lies in the directory `python` of the runtime, wherever that is:
/// flat on Windows, in `bin` elsewhere.
pub proof fn python_lies_in_the_runtime(platform: Platform, prefix: LocationSpec)
    ensures
        python_place(platform, prefix) == below(
            prefix,
            if platform == Platform::Windows {
                seq!["python"@, "python.exe"@]
            } else {
                seq!["python"@, "bin"@, "python3"@]
            },
        ),
{
    if platform == Platform::Windows {
        assert(python_place(platform, prefix).parts =~= prefix.parts + seq![
            "python"@,
            "python.exe"@,
        ]);
    } else {
        assert(python_place(platform, prefix).parts =~= prefix.parts + seq![
            "python"@,
            "bin"@,
            "python3"@,
        ]);
    }
}

/// The version file lies in the runtime that it speaks of, wherever that is, so that it
/// goes with it.
pub proof fn version_file_lies_in_the_runtime(prefix: LocationSpec)
    ensures
        version_place(prefix).parent() == Some(prefix),
        version_place(prefix).file_name() == Some(".microhub-runtime-version"@),
{
    joining_goes_one_level_down(prefix, ".microhub-runtime-version"@);
}

/// The archive of the runtime is a temporary file on Windows, where no file says which
/// runtime it is; elsewhere it lies among the resources, beside the file that says so.
pub proof fn archive_lies_beside_its_id(platform: Platform)
    ensures
        platform == Platform::Windows ==> {
            &&& archive_place(platform) == below(
                at(RootSpec::Temporary),
                seq!["microhub-payload.tar.gz"@],
            )
            &&& runtime_id_place(platform) is None
        },
        platform != Platform::Windows ==> {
            &&& archive_place(platform) == below(at(RootSpec::Resources), seq!["runtime.tar.gz"@])
            &&& runtime_id_place(platform) == Some(
                below(at(RootSpec::Resources), seq!["runtime.id"@]),
            )
        },
{
    joining_goes_one_level_down(at(RootSpec::Temporary), "microhub-payload.tar.gz"@);
    joining_goes_one_level_down(at(RootSpec::Resources), "runtime.tar.gz"@);
    joining_goes_one_level_down(at(RootSpec::Resources), "runtime.id"@);
}

} // verus!
