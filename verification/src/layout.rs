//! Where things are: the runtime, the app, the log.
//!
//! A place on disk is named by a root that the program looks up when it runs (an
//! environment variable, a fixed directory, the app's resources) and by the names
//! to be joined to it, one directory level each.

use vstd::prelude::*;

verus! {

/// The kind of system the program runs on.
#[derive(Clone, Copy, Debug, PartialEq, Eq, Structural)]
pub enum Platform {
    MacOs,
    Windows,
    Other,
}

/// The environment variables that the program reads.
#[derive(Clone, Copy, Debug, PartialEq, Eq, Structural)]
pub enum Var {
    /// The per-user data directory on Windows.
    LocalAppData,
    /// The home directory elsewhere.
    Home,
    /// An R launcher that a developer supplies.
    RBin,
    /// A Shiny app directory that a developer supplies.
    AppDir,
    /// The directories that programs are looked up in.
    Path,
    /// Opens the web inspector.
    Debug,
}

impl Var {
    /// The name of the variable.
    pub open spec fn name_text(self) -> Seq<char> {
        match self {
            Var::LocalAppData => "LOCALAPPDATA"@,
            Var::Home => "HOME"@,
            Var::RBin => "MICROHUB_R_BIN"@,
            Var::AppDir => "MICROHUB_APP_DIR"@,
            Var::Path => "PATH"@,
            Var::Debug => "MICROHUB_DEBUG"@,
        }
    }

    /// The name of the variable.
    pub fn name(self) -> (name: &'static str)
        ensures
            name@ == self.name_text(),
    {
        match self {
            Var::LocalAppData => "LOCALAPPDATA",
            Var::Home => "HOME",
            Var::RBin => "MICROHUB_R_BIN",
            Var::AppDir => "MICROHUB_APP_DIR",
            Var::Path => "PATH",
            Var::Debug => "MICROHUB_DEBUG",
        }
    }
}

/// What the environment offers: which of the variables are set, and how many
/// directories `PATH` lists (none where it is not set).
#[derive(Clone, Copy, Debug, PartialEq, Eq, Structural)]
pub struct Environment {
    pub local_app_data: bool,
    pub home: bool,
    pub r_bin: bool,
    pub app_dir: bool,
    pub path_entries: usize,
}

/// Where a location starts.
#[derive(Clone, Copy, Debug, PartialEq, Eq)]
pub enum Root {
    /// The path that a variable holds.
    Env(Var),
    /// A path that is known beforehand.
    Fixed(&'static str),
    /// The directory of the app's resources.
    Resources,
    /// The directory for temporary files.
    Temporary,
    /// A directory of `PATH`, by its position.
    SearchDir(usize),
}

/// A root, in mathematical terms.
#[verifier::ext_equal]
pub enum RootSpec {
    Env(Var),
    Fixed(Seq<char>),
    Resources,
    Temporary,
    SearchDir(int),
}

impl View for Root {
    type V = RootSpec;

    open spec fn view(&self) -> RootSpec {
        match *self {
            Root::Env(var) => RootSpec::Env(var),
            Root::Fixed(path) => RootSpec::Fixed(path@),
            Root::Resources => RootSpec::Resources,
            Root::Temporary => RootSpec::Temporary,
            Root::SearchDir(i) => RootSpec::SearchDir(i as int),
        }
    }
}

/// A name for one directory level: not empty, no separator in it, and neither
/// `.` nor `..`.
pub open spec fn plain_name(name: Seq<char>) -> bool {
    &&& name.len() > 0
    &&& !name.contains('/')
    &&& !name.contains('\\')
    &&& name != seq!['.']
    &&& name != seq!['.', '.']
}

/// A location, in mathematical terms.
#[verifier::ext_equal]
pub struct LocationSpec {
    pub root: RootSpec,
    pub parts: Seq<Seq<char>>,
}

/// The location of a root itself.
pub open spec fn at(root: RootSpec) -> LocationSpec {
    LocationSpec { root, parts: Seq::empty() }
}

impl LocationSpec {
    /// The location one level down.
    pub open spec fn join(self, name: Seq<char>) -> LocationSpec {
        LocationSpec { root: self.root, parts: self.parts.push(name) }
    }

    /// The last name of the location.
    pub open spec fn file_name(self) -> Option<Seq<char>> {
        if self.parts.len() > 0 {
            Some(self.parts.last())
        } else {
            None
        }
    }

    /// The location one level up. A root has none within this model.
    pub open spec fn parent(self) -> Option<LocationSpec> {
        if self.parts.len() > 0 {
            Some(LocationSpec { root: self.root, parts: self.parts.drop_last() })
        } else {
            None
        }
    }

    /// Every name is for one directory level.
    pub open spec fn wf(self) -> bool {
        forall|i: int| 0 <= i < self.parts.len() ==> plain_name(#[trigger] self.parts[i])
    }
}

/// A place on disk: a root, and the names to be joined to it in turn.
#[derive(Debug, PartialEq, Eq)]
pub struct Location {
    pub root: Root,
    pub parts: Vec<String>,
}

impl View for Location {
    type V = LocationSpec;

    open spec fn view(&self) -> LocationSpec {
        LocationSpec { root: self.root@, parts: crate::text::texts(self.parts@) }
    }
}

impl Location {
    /// The location of a root itself.
    pub fn at(root: Root) -> (location: Location)
        ensures
            location@ == at(root@),
            location@.wf(),
    {
        let location = Location { root, parts: Vec::new() };
        proof {
            assert(location@.parts =~= Seq::empty());
        }
        location
    }

    /// The location one level down.
    pub fn join(self, name: &str) -> (location: Location)
        requires
            plain_name(name@),
        ensures
            location@ == self@.join(name@),
            self@.wf() ==> location@.wf(),
    {
        let mut parts = self.parts;
        parts.push(name.to_owned());
        let location = Location { root: self.root, parts };
        proof {
            assert(location@.parts =~= self@.parts.push(name@));
        }
        location
    }

    /// A second value for the same location.
    pub fn duplicate(&self) -> (location: Location)
        ensures
            location@ == self@,
    {
        let mut parts: Vec<String> = Vec::new();
        let mut i: usize = 0;
        while i < self.parts.len()
            invariant
                i <= self.parts@.len(),
                parts@ == self.parts@.take(i as int),
            decreases self.parts@.len() - i,
        {
            proof {
                assert(self.parts@.take(i + 1) =~= self.parts@.take(i as int).push(
                    self.parts@[i as int],
                ));
            }
            parts.push(self.parts[i].clone());
            i = i + 1;
        }
        proof {
            assert(self.parts@.take(i as int) =~= self.parts@);
        }
        Location { root: self.root, parts }
    }

    /// The location one level up.
    pub fn parent(&self) -> (location: Option<Location>)
        ensures
            match location {
                Some(up) => self@.parent() == Some(up@),
                None => self@.parent() is None,
            },
            location is Some && self@.wf() ==> location->0@.wf(),
    {
        if self.parts.len() == 0 {
            return None;
        }
        let mut up = self.duplicate();
        up.parts.pop();
        proof {
            assert(self@.parts.len() == self.parts@.len());
            assert(up@.parts =~= self@.parts.drop_last());
        }
        Some(up)
    }

    /// Whether the last name of the location is `name`.
    pub fn is_named(&self, name: &str) -> (yes: bool)
        ensures
            yes == (self@.file_name() == Some(name@)),
    {
        if self.parts.len() == 0 {
            return false;
        }
        self.parts[self.parts.len() - 1] == name.to_owned()
    }
}

/// The location that these names lead to, one level each, from `dir`.
pub open spec fn below(dir: LocationSpec, names: Seq<Seq<char>>) -> LocationSpec {
    LocationSpec { root: dir.root, parts: dir.parts + names }
}

/// Joining a name goes one level down: the location above is the one it was joined to,
/// the name is the last one, and nothing else changes.
pub proof fn joining_goes_one_level_down(dir: LocationSpec, name: Seq<char>)
    ensures
        dir.join(name).parent() == Some(dir),
        dir.join(name).file_name() == Some(name),
        dir.join(name) == below(dir, seq![name]),
{
    assert(dir.join(name).parts.drop_last() =~= dir.parts);
    assert(dir.join(name).parts =~= dir.parts + seq![name]);
}

/// A location has one above it and a last name, or is a root and has neither; its last
/// name leads back to it from the one above.
pub proof fn the_last_name_leads_back(place: LocationSpec)
    ensures
        place.parent() is Some <==> place.file_name() is Some,
        place.parent() is None <==> place == at(place.root),
        place.parent() is Some ==> (place.parent()->0).join(place.file_name()->0) == place,
{
    if place.parts.len() > 0 {
        assert(place.parts.drop_last().push(place.parts.last()) =~= place.parts);
    } else {
        assert(place.parts =~= Seq::<Seq<char>>::empty());
    }
}

/// Two variables never have the same name.
pub proof fn variables_are_told_apart(one: Var, other: Var)
    requires
        one != other,
    ensures
        one.name_text() != other.name_text(),
{
    reveal_strlit("LOCALAPPDATA");
    reveal_strlit("HOME");
    reveal_strlit("MICROHUB_R_BIN");
    reveal_strlit("MICROHUB_APP_DIR");
    reveal_strlit("PATH");
    reveal_strlit("MICROHUB_DEBUG");
    assert("LOCALAPPDATA"@.len() == 12 && "HOME"@[0] == 'H' && "PATH"@[0] == 'P');
    assert("MICROHUB_R_BIN"@[9] == 'R' && "MICROHUB_DEBUG"@[9] == 'D');
    assert("MICROHUB_APP_DIR"@.len() == 16);
}

} // verus!
