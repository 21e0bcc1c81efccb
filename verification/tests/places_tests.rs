use microhub::layout::{Environment, Location, Platform, Root, Var};
use microhub::places::{
    app_dir, app_dir_candidate, archive, bundled_r_list, log_dir, log_path, python, r_home,
    rscript_candidates, runtime_id_file, runtime_prefix, version_file,
};
use microhub::search::{bundled_r, next_probe, rscript_path, Probe};

const FULL: Environment = Environment {
    local_app_data: true,
    home: true,
    r_bin: false,
    app_dir: false,
    path_entries: 2,
};

const BARE: Environment = Environment {
    local_app_data: false,
    home: false,
    r_bin: false,
    app_dir: false,
    path_entries: 0,
};

fn place(root: Root, parts: &[&str]) -> Location {
    Location { root, parts: parts.iter().map(|part| part.to_string()).collect() }
}

/// Asks a search again and again, on a disk that holds the given files.
fn run(step: impl Fn(&Vec<bool>) -> Probe, files: &[Location]) -> (Option<Location>, usize) {
    let mut answers = vec![];
    loop {
        match step(&answers) {
            Probe::Look(place) => answers.push(files.contains(&place)),
            Probe::Found(place) => return (Some(place), answers.len()),
            Probe::Missing => return (None, answers.len()),
        }
    }
}

#[test]
fn runtime_prefix_follows_the_platform() {
    let shared = place(Root::Fixed("/Users/Shared"), &["MicroHub"]);
    assert_eq!(runtime_prefix(Platform::MacOs, FULL), shared);
    assert_eq!(runtime_prefix(Platform::MacOs, BARE), shared);
    assert_eq!(
        runtime_prefix(Platform::Windows, FULL),
        place(Root::Env(Var::LocalAppData), &["MicroHub"])
    );
    assert_eq!(runtime_prefix(Platform::Windows, BARE), place(Root::Fixed("C:\\"), &["MicroHub"]));
    assert_eq!(runtime_prefix(Platform::Other, FULL), place(Root::Env(Var::Home), &[".microhub"]));
    assert_eq!(runtime_prefix(Platform::Other, BARE), place(Root::Fixed("/tmp"), &[".microhub"]));
}

#[test]
fn variables_have_their_names() {
    assert_eq!(Var::LocalAppData.name(), "LOCALAPPDATA");
    assert_eq!(Var::Home.name(), "HOME");
    assert_eq!(Var::RBin.name(), "MICROHUB_R_BIN");
    assert_eq!(Var::AppDir.name(), "MICROHUB_APP_DIR");
    assert_eq!(Var::Path.name(), "PATH");
    assert_eq!(Var::Debug.name(), "MICROHUB_DEBUG");
}

#[test]
fn parents_and_names() {
    let inner = Location::at(Root::Temporary).join("a").join("b");
    assert!(inner.is_named("b"));
    assert!(!inner.is_named("a"));
    assert_eq!(inner.parent(), Some(place(Root::Temporary, &["a"])));
    assert_eq!(inner.duplicate(), inner);
    let root = Location::at(Root::Temporary);
    assert_eq!(root.parent(), None);
    assert!(!root.is_named(""));
}

#[test]
fn bundled_r_prefers_the_first_layout() {
    let prefix = place(Root::Temporary, &["rt"]);
    let wide = place(Root::Temporary, &["rt", "R", "bin", "x64", "Rscript.exe"]);
    let flat = place(Root::Temporary, &["rt", "R", "bin", "Rscript.exe"]);
    let search = |answers: &Vec<bool>| bundled_r(Platform::Windows, &prefix, answers);
    assert_eq!(run(search, &[]), (None, 2));
    assert_eq!(run(search, &[place(Root::Temporary, &["rt", "R", "bin", "R"])]), (None, 2));
    let both = [place(Root::Temporary, &["rt", "R", "bin", "x64", "Rscript.exe"]), flat];
    assert_eq!(run(search, &both), (Some(wide), 1));
    assert_eq!(run(search, &both[1..]).1, 2);
}

#[test]
fn bundled_r_elsewhere_is_the_script() {
    let prefix = place(Root::Temporary, &["rt"]);
    for platform in [Platform::MacOs, Platform::Other] {
        let script = place(Root::Temporary, &["rt", "R.framework", "Resources", "bin", "R"]);
        let search = |answers: &Vec<bool>| bundled_r(platform, &prefix, answers);
        assert_eq!(run(search, &[script.duplicate()]), (Some(script), 1));
        assert_eq!(run(search, &[]), (None, 1));
        assert_eq!(bundled_r_list(platform), "R.framework/Resources/bin/R");
    }
    assert_eq!(
        bundled_r_list(Platform::Windows),
        "R\\bin\\x64\\Rscript.exe, R\\bin\\Rscript.exe"
    );
}

#[test]
fn a_supplied_launcher_is_the_only_one() {
    let mut env = FULL;
    env.r_bin = true;
    let search = |answers: &Vec<bool>| rscript_path(Platform::MacOs, env, answers);
    let installed = [place(Root::Fixed("/usr/bin/Rscript"), &[])];
    assert_eq!(run(search, &installed), (None, 1));
    let supplied = place(Root::Env(Var::RBin), &[]);
    assert_eq!(run(search, &[supplied.duplicate()]), (Some(supplied), 1));
}

#[test]
fn launchers_are_looked_for_in_order() {
    let places = rscript_candidates(Platform::Other, FULL);
    assert_eq!(
        places,
        vec![
            place(Root::Env(Var::Home), &[".microhub", "R.framework", "Resources", "bin", "R"]),
            place(Root::Fixed("/Library/Frameworks/R.framework/Resources/bin/Rscript"), &[]),
            place(Root::Fixed("/opt/homebrew/bin/Rscript"), &[]),
            place(Root::Fixed("/usr/local/bin/Rscript"), &[]),
            place(Root::Fixed("/usr/bin/Rscript"), &[]),
            place(Root::SearchDir(0), &["Rscript"]),
            place(Root::SearchDir(1), &["Rscript"]),
        ]
    );
    assert_eq!(
        rscript_candidates(Platform::Windows, BARE),
        vec![
            place(Root::Fixed("C:\\"), &["MicroHub", "R", "bin", "x64", "Rscript.exe"]),
            place(Root::Fixed("C:\\"), &["MicroHub", "R", "bin", "Rscript.exe"]),
            place(Root::Fixed("C:\\Program Files\\R\\bin\\x64\\Rscript.exe"), &[]),
            place(Root::Fixed("C:\\Program Files\\R\\bin\\Rscript.exe"), &[]),
        ]
    );
    let search = |answers: &Vec<bool>| rscript_path(Platform::Other, FULL, answers);
    let last_two = [place(Root::SearchDir(1), &["Rscript"]), place(Root::Fixed("/usr/bin/Rscript"), &[])];
    assert_eq!(run(search, &last_two), (Some(place(Root::Fixed("/usr/bin/Rscript"), &[])), 5));
    assert_eq!(run(search, &last_two[..1]), (Some(place(Root::SearchDir(1), &["Rscript"])), 7));
    assert_eq!(run(search, &[]), (None, 7));
}

#[test]
fn windows_looks_up_the_program_with_its_ending() {
    let places = rscript_candidates(Platform::Windows, FULL);
    assert_eq!(places[places.len() - 1], place(Root::SearchDir(1), &["Rscript.exe"]));
}

#[test]
fn more_answers_than_places_change_nothing() {
    assert_eq!(next_probe(&vec![], &vec![true, true]), Probe::Missing);
    let one = vec![Location::at(Root::Resources)];
    assert_eq!(next_probe(&one, &vec![false, true]), Probe::Missing);
    assert_eq!(next_probe(&one, &vec![true, false]), Probe::Found(Location::at(Root::Resources)));
    assert_eq!(next_probe(&one, &vec![]), Probe::Look(Location::at(Root::Resources)));
}

#[test]
fn the_log_has_its_place() {
    let home = ["Library", "Logs", "MicroHub", "r-session.log"];
    assert_eq!(log_path(Platform::MacOs, FULL, true), Some(place(Root::Env(Var::Home), &home)));
    assert_eq!(log_path(Platform::Other, FULL, true), Some(place(Root::Env(Var::Home), &home)));
    assert_eq!(log_path(Platform::Other, BARE, true), None);
    assert_eq!(log_path(Platform::MacOs, FULL, false), None);
    assert_eq!(
        log_path(Platform::Windows, FULL, true),
        Some(place(Root::Env(Var::LocalAppData), &["MicroHub", "Logs", "r-session.log"]))
    );
    assert_eq!(log_dir(Platform::MacOs, FULL), Some(place(Root::Env(Var::Home), &home[..3])));
    assert_eq!(log_dir(Platform::Other, BARE), None);
}

#[test]
fn the_app_has_its_place() {
    let resources = place(Root::Resources, &["shinyapp"]);
    assert_eq!(app_dir(Platform::MacOs, FULL, true, true), Some(resources));
    assert_eq!(app_dir(Platform::MacOs, FULL, true, false), None);
    assert_eq!(app_dir(Platform::Other, FULL, false, true), None);
    assert_eq!(
        app_dir(Platform::Windows, FULL, false, true),
        Some(place(Root::Env(Var::LocalAppData), &["MicroHub", "shinyapp"]))
    );
    let mut env = FULL;
    env.app_dir = true;
    for platform in [Platform::MacOs, Platform::Windows, Platform::Other] {
        let supplied = place(Root::Env(Var::AppDir), &[]);
        assert_eq!(app_dir_candidate(platform, env, true), Some(supplied.duplicate()));
        assert_eq!(app_dir(platform, env, true, true), Some(supplied));
        assert_eq!(app_dir(platform, env, true, false), None);
    }
}

#[test]
fn the_runtime_has_its_parts() {
    let prefix = place(Root::Temporary, &["rt"]);
    assert_eq!(r_home(Platform::Windows, &prefix), None);
    assert_eq!(
        r_home(Platform::MacOs, &prefix),
        Some(place(Root::Temporary, &["rt", "R.framework", "Resources"]))
    );
    assert_eq!(
        python(Platform::Windows, &prefix),
        place(Root::Temporary, &["rt", "python", "python.exe"])
    );
    assert_eq!(
        python(Platform::Other, &prefix),
        place(Root::Temporary, &["rt", "python", "bin", "python3"])
    );
    assert_eq!(
        version_file(&prefix),
        place(Root::Temporary, &["rt", ".microhub-runtime-version"])
    );
    for platform in [Platform::MacOs, Platform::Other] {
        assert_eq!(runtime_id_file(platform), Some(place(Root::Resources, &["runtime.id"])));
    }
    assert_eq!(runtime_id_file(Platform::Windows), None);
    assert_eq!(archive(Platform::MacOs), place(Root::Resources, &["runtime.tar.gz"]));
    assert_eq!(archive(Platform::Windows), place(Root::Temporary, &["microhub-payload.tar.gz"]));
}

#[test]
fn only_two_platforms_use_the_removable_name() {
    for env in [FULL, BARE] {
        assert!(runtime_prefix(Platform::MacOs, env).is_named("MicroHub"));
        assert!(runtime_prefix(Platform::Windows, env).is_named("MicroHub"));
        assert!(!runtime_prefix(Platform::Other, env).is_named("MicroHub"));
    }
}
