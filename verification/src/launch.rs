//! Starting R with the Shiny app.

use crate::layout::{below, Location, LocationSpec, Platform};
use crate::places::{
    launcher_lies_in_the_home_of_r, python, python_lies_in_the_runtime, python_place, r_home,
    r_home_place,
};
use crate::startup::url_text;
use crate::text::{
    decimal, decimal_is_canonical, decimal_reads_back, decimal_text, decimal_value, replace_char,
    replaced, replacing_touches_only_that_character, texts,
};
use vstd::prelude::*;

verus! {

/// A text as `{:?}` writes it: between quotes, with what cannot be printed escaped.
pub uninterp spec fn debug_quoted(text: Seq<char>) -> Seq<char>;

/// `format!` with `{:?}` on a string. Which characters it escapes is left to `std`:
/// the result is named, and depends on the string alone.
#[verifier::external_body]
fn debug_quote(text: &str) -> (quoted: String)
    ensures
        quoted@ == debug_quoted(text@),
{
    format!("{:?}", text)
}

/// The R code that ends R when the process `parent` is gone. A clean exit of the app
/// ends R anyway; this is for a crash.
pub open spec fn watchdog(parent: nat) -> Seq<char> {
    "if (requireNamespace('later', quietly = TRUE)) { local({ parent <- "@ + decimal(parent)
        + "; watch <- function() { if (system2('kill', c('-0', parent), stdout = FALSE, stderr = FALSE) != 0) quit('no'); later::later(watch, 5) }; later::later(watch, 5) }) }; "@
}

/// The R code that serves the app. `quoted` is the app directory as an R string.
pub open spec fn run_app(quoted: Seq<char>, port: nat) -> Seq<char> {
    "shiny::runApp(appDir = "@ + quoted + ", port = "@ + decimal(port)
        + ", host = '127.0.0.1', launch.browser = FALSE)"@
}

/// The R code of a session. Windows needs no watchdog: a job object ends R there.
pub open spec fn session_code(
    platform: Platform,
    parent: nat,
    quoted: Seq<char>,
    port: nat,
) -> Seq<char> {
    match platform {
        Platform::Windows => run_app(quoted, port),
        _ => watchdog(parent) + run_app(quoted, port),
    }
}

/// The R code of a session, for an app directory that is quoted already.
pub fn session_expression(platform: Platform, parent: u32, quoted: &str, port: u16) -> (code: String)
    ensures
        code@ == session_code(platform, parent as nat, quoted@, port as nat),
{
    let mut serve = "shiny::runApp(appDir = ".to_owned();
    serve.append(quoted);
    serve.append(", port = ");
    serve.append(decimal_text(port as u128).as_str());
    serve.append(", host = '127.0.0.1', launch.browser = FALSE)");
    match platform {
        Platform::Windows => serve,
        _ => {
            let mut code =
                "if (requireNamespace('later', quietly = TRUE)) { local({ parent <- ".to_owned();
            code.append(decimal_text(parent as u128).as_str());
            code.append(
                "; watch <- function() { if (system2('kill', c('-0', parent), stdout = FALSE, stderr = FALSE) != 0) quit('no'); later::later(watch, 5) }; later::later(watch, 5) }) }; ",
            );
            code.append(serve.as_str());
            code
        },
    }
}

/// The app directory as R takes it: with forward slashes on every system, and
/// quoted.
pub open spec fn app_dir_argument(app_dir: Seq<char>) -> Seq<char> {
    debug_quoted(replaced(app_dir, '\\', '/'))
}

/// The arguments that R is started with.
pub open spec fn r_arguments(code: Seq<char>) -> Seq<Seq<char>> {
    seq!["--no-save"@, "--no-restore"@, "-e"@, code]
}

/// A variable to set in the environment of R.
#[derive(Debug, PartialEq, Eq)]
pub struct Setting {
    pub name: &'static str,
    pub value: Location,
}

/// What the settings say.
pub open spec fn settings_of(settings: Seq<Setting>) -> Seq<(Seq<char>, LocationSpec)> {
    Seq::new(settings.len(), |i: int| (settings[i].name@, settings[i].value@))
}

/// The variables that R is given: its home directory, where R has to be told and the
/// directory is there, and the bundled Python, where it is there.
pub open spec fn session_settings(
    platform: Platform,
    prefix: LocationSpec,
    home_is_dir: bool,
    python_is_file: bool,
) -> Seq<(Seq<char>, LocationSpec)> {
    let home = if home_is_dir && r_home_place(platform, prefix) is Some {
        seq![("R_HOME"@, r_home_place(platform, prefix)->0)]
    } else {
        Seq::empty()
    };
    let python = if python_is_file {
        seq![("RETICULATE_PYTHON"@, python_place(platform, prefix))]
    } else {
        Seq::empty()
    };
    home + python
}

/// The flag that keeps Windows from opening a console window behind the app.
pub const CREATE_NO_WINDOW: u32 = 0x0800_0000;

/// How to start R.
#[derive(Debug, PartialEq, Eq)]
pub struct LaunchPlan {
    /// The program.
    pub program: Location,
    /// The directory that it runs in.
    pub working_dir: Location,
    /// The arguments.
    pub args: Vec<String>,
    /// Variables to set on top of the environment of the app.
    pub settings: Vec<Setting>,
    /// The process creation flags, where there are any to set.
    pub creation_flags: Option<u32>,
    /// Whether the process goes into a job object, which ends it with the app.
    pub in_job: bool,
    /// Whether the output goes to the log; otherwise R writes where the app writes.
    pub capture_output: bool,
}

/// How to start R, in mathematical terms.
#[verifier::ext_equal]
pub struct LaunchPlanSpec {
    pub program: LocationSpec,
    pub working_dir: LocationSpec,
    pub args: Seq<Seq<char>>,
    pub settings: Seq<(Seq<char>, LocationSpec)>,
    pub creation_flags: Option<u32>,
    pub in_job: bool,
    pub capture_output: bool,
}

impl View for LaunchPlan {
    type V = LaunchPlanSpec;

    open spec fn view(&self) -> LaunchPlanSpec {
        LaunchPlanSpec {
            program: self.program@,
            working_dir: self.working_dir@,
            args: texts(self.args@),
            settings: settings_of(self.settings@),
            creation_flags: self.creation_flags,
            in_job: self.in_job,
            capture_output: self.capture_output,
        }
    }
}

/// What is known before R is started.
#[derive(Clone, Copy, Debug, PartialEq, Eq, Structural)]
pub struct LaunchFacts {
    /// The process that R belongs to.
    pub parent: u32,
    /// The port that R is to serve on.
    pub port: u16,
    /// Whether the home directory of the bundled R is there.
    pub home_is_dir: bool,
    /// Whether the bundled Python is there.
    pub python_is_file: bool,
    /// Whether the log could be opened.
    pub log_is_open: bool,
}

/// The arguments that R is started with for the app in `app_dir`, as it is shown to the
/// user.
pub open spec fn launch_arguments(
    platform: Platform,
    facts: LaunchFacts,
    app_dir: Seq<char>,
) -> Seq<Seq<char>> {
    r_arguments(
        session_code(
            platform,
            facts.parent as nat,
            app_dir_argument(app_dir),
            facts.port as nat,
        ),
    )
}

/// How to start R with these arguments: the launcher runs in the app directory, the
/// system is told what is there, and on Windows R is kept without a console window and
/// ends with the app.
pub open spec fn plan_of(
    platform: Platform,
    prefix: LocationSpec,
    launcher: LocationSpec,
    app_dir: LocationSpec,
    args: Seq<Seq<char>>,
    facts: LaunchFacts,
) -> LaunchPlanSpec {
    LaunchPlanSpec {
        program: launcher,
        working_dir: app_dir,
        args,
        settings: session_settings(platform, prefix, facts.home_is_dir, facts.python_is_file),
        creation_flags: if platform == Platform::Windows {
            Some(CREATE_NO_WINDOW)
        } else {
            None
        },
        in_job: platform == Platform::Windows,
        capture_output: facts.log_is_open,
    }
}

/// How to start the R launcher so that it serves the app in `app_dir`, which is shown
/// to the user as `app_dir_text`, with the runtime in `prefix`.
pub fn spawn_shiny(
    platform: Platform,
    prefix: &Location,
    launcher: &Location,
    app_dir: &Location,
    app_dir_text: &str,
    facts: LaunchFacts,
) -> (plan: LaunchPlan)
    ensures
        plan.program@ == launcher@,
        plan.working_dir@ == app_dir@,
        texts(plan.args@) == r_arguments(
            session_code(
                platform,
                facts.parent as nat,
                app_dir_argument(app_dir_text@),
                facts.port as nat,
            ),
        ),
        texts(plan.args@) == launch_arguments(platform, facts, app_dir_text@),
        settings_of(plan.settings@) == session_settings(
            platform,
            prefix@,
            facts.home_is_dir,
            facts.python_is_file,
        ),
        plan.creation_flags == (if platform == Platform::Windows {
            Some(CREATE_NO_WINDOW)
        } else {
            None
        }),
        plan.in_job == (platform == Platform::Windows),
        plan.capture_output == facts.log_is_open,
        plan@ == plan_of(
            platform,
            prefix@,
            launcher@,
            app_dir@,
            launch_arguments(platform, facts, app_dir_text@),
            facts,
        ),
{
    let quoted = debug_quote(replace_char(app_dir_text, '\\', '/').as_str());
    let code = session_expression(platform, facts.parent, quoted.as_str(), facts.port);
    launch_plan(platform, prefix, launcher, app_dir, code, facts)
}

/// How to start the R launcher in `app_dir` with the given code.
pub fn launch_plan(
    platform: Platform,
    prefix: &Location,
    launcher: &Location,
    app_dir: &Location,
    code: String,
    facts: LaunchFacts,
) -> (plan: LaunchPlan)
    ensures
        plan.program@ == launcher@,
        plan.working_dir@ == app_dir@,
        texts(plan.args@) == r_arguments(code@),
        settings_of(plan.settings@) == session_settings(
            platform,
            prefix@,
            facts.home_is_dir,
            facts.python_is_file,
        ),
        plan.creation_flags == (if platform == Platform::Windows {
            Some(CREATE_NO_WINDOW)
        } else {
            None
        }),
        plan.in_job == (platform == Platform::Windows),
        plan.capture_output == facts.log_is_open,
        plan@ == plan_of(platform, prefix@, launcher@, app_dir@, r_arguments(code@), facts),
{
    let ghost said = code@;
    let mut args: Vec<String> = Vec::new();
    args.push("--no-save".to_owned());
    args.push("--no-restore".to_owned());
    args.push("-e".to_owned());
    args.push(code);
    let mut settings: Vec<Setting> = Vec::new();
    if facts.home_is_dir {
        match r_home(platform, prefix) {
            Some(home) => {
                settings.push(Setting { name: "R_HOME", value: home });
            },
            None => {},
        }
    }
    if facts.python_is_file {
        settings.push(Setting { name: "RETICULATE_PYTHON", value: python(platform, prefix) });
    }
    proof {
        assert(texts(args@) =~= r_arguments(said));
        assert(settings_of(settings@) =~= session_settings(
            platform,
            prefix@,
            facts.home_is_dir,
            facts.python_is_file,
        ));
    }
    let windows = match platform {
        Platform::Windows => true,
        _ => false,
    };
    LaunchPlan {
        program: launcher.duplicate(),
        working_dir: app_dir.duplicate(),
        args,
        settings,
        creation_flags: if windows {
            Some(CREATE_NO_WINDOW)
        } else {
            None
        },
        in_job: windows,
        capture_output: facts.log_is_open,
    }
}

/// No backslash of the app directory reaches R.
pub proof fn no_backslash_reaches_r(app_dir: Seq<char>)
    ensures
        !replaced(app_dir, '\\', '/').contains('\\'),
{
}

/// R for Windows is never told where its home is: it would be told wrongly.
pub proof fn windows_finds_its_own_home(
    prefix: LocationSpec,
    home_is_dir: bool,
    python_is_file: bool,
)
    ensures
        session_settings(Platform::Windows, prefix, home_is_dir, python_is_file)
            == session_settings(Platform::Windows, prefix, false, python_is_file),
{
}

/// The code of a session serves the app that it is given, on the port that it is given,
/// whichever it is: the digits in the code read back as the port, and are those of the
/// address that the window opens.
pub proof fn r_serves_on_the_asked_port(
    platform: Platform,
    parent: nat,
    quoted: Seq<char>,
    port: nat,
) -> (found: (Seq<char>, Seq<char>))
    ensures
        ({
            let (before, digits) = found;
            &&& session_code(platform, parent, quoted, port) == before
                + "shiny::runApp(appDir = "@ + quoted + ", port = "@ + digits
                + ", host = '127.0.0.1', launch.browser = FALSE)"@
            &&& decimal_value(digits) == port
            &&& forall|i: int| 0 <= i < digits.len() ==> '0' <= #[trigger] digits[i] <= '9'
            &&& url_text(port) == "http://127.0.0.1:"@ + digits
            &&& platform == Platform::Windows ==> before.len() == 0
        }),
{
    decimal_reads_back(port);
    decimal_is_canonical(port);
    let digits = decimal(port);
    let before = if platform == Platform::Windows {
        Seq::empty()
    } else {
        watchdog(parent)
    };
    assert(session_code(platform, parent, quoted, port) =~= before + "shiny::runApp(appDir = "@
        + quoted + ", port = "@ + digits + ", host = '127.0.0.1', launch.browser = FALSE)"@);
    (before, digits)
}

/// Everywhere but on Windows the code first sets a watch on the process that R belongs
/// to, whichever it is; what follows is the code for Windows, which depends on no such
/// process.
pub proof fn r_watches_the_asked_process(
    platform: Platform,
    parent: nat,
    other: nat,
    quoted: Seq<char>,
    port: nat,
) -> (digits: Seq<char>)
    requires
        platform != Platform::Windows,
    ensures
        session_code(platform, parent, quoted, port)
            == "if (requireNamespace('later', quietly = TRUE)) { local({ parent <- "@ + digits
            + "; watch <- function() { if (system2('kill', c('-0', parent), stdout = FALSE, stderr = FALSE) != 0) quit('no'); later::later(watch, 5) }; later::later(watch, 5) }) }; "@
            + session_code(Platform::Windows, other, quoted, port),
        decimal_value(digits) == parent,
        forall|i: int| 0 <= i < digits.len() ==> '0' <= #[trigger] digits[i] <= '9',
{
    decimal_reads_back(parent);
    decimal_is_canonical(parent);
    decimal(parent)
}

/// R is told the app directory as it is shown to the user, with a slash in the place of
/// every backslash and every other character as it is, in quotes.
pub proof fn r_is_told_the_directory_with_slashes(app_dir: Seq<char>) -> (told: Seq<char>)
    ensures
        app_dir_argument(app_dir) == debug_quoted(told),
        told.len() == app_dir.len(),
        forall|i: int|
            #![trigger told[i]]
            0 <= i < told.len() ==> told[i] == if app_dir[i] == '\\' {
                '/'
            } else {
                app_dir[i]
            },
{
    let told = replaced(app_dir, '\\', '/');
    assert forall|i: int|
        #![trigger told[i]]
        0 <= i < told.len() implies told[i] == if app_dir[i] == '\\' {
        '/'
    } else {
        app_dir[i]
    } by {
        replacing_touches_only_that_character(app_dir, '\\', '/', i);
    }
    told
}

/// R is handed the whole code as one argument, behind the one that says that code
/// follows; it neither restores a session nor saves one.
pub proof fn r_is_handed_the_code(code: Seq<char>)
    ensures
        r_arguments(code).len() == 4,
        r_arguments(code)[2] == "-e"@,
        r_arguments(code)[3] == code,
        r_arguments(code).contains("--no-save"@),
        r_arguments(code).contains("--no-restore"@),
{
    assert(r_arguments(code)[0] == "--no-save"@);
    assert(r_arguments(code)[1] == "--no-restore"@);
}

/// R is started on the port that the facts name, with the app that it is given, and,
/// everywhere but on Windows, with a watch on the process that the facts name.
pub proof fn launch_follows_the_facts(platform: Platform, facts: LaunchFacts, app_dir: Seq<char>) -> (found:
    (Seq<char>, Seq<char>))
    ensures
        ({
            let (parent, port) = found;
            let args = launch_arguments(platform, facts, app_dir);
            let serve = "shiny::runApp(appDir = "@ + app_dir_argument(app_dir) + ", port = "@ + port
                + ", host = '127.0.0.1', launch.browser = FALSE)"@;
            &&& args.len() == 4
            &&& args[2] == "-e"@
            &&& platform == Platform::Windows ==> args[3] == serve
            &&& platform != Platform::Windows ==> args[3]
                == "if (requireNamespace('later', quietly = TRUE)) { local({ parent <- "@ + parent
                + "; watch <- function() { if (system2('kill', c('-0', parent), stdout = FALSE, stderr = FALSE) != 0) quit('no'); later::later(watch, 5) }; later::later(watch, 5) }) }; "@
                + serve
            &&& decimal_value(parent) == facts.parent
            &&& decimal_value(port) == facts.port
        }),
{
    let quoted = app_dir_argument(app_dir);
    let (before, port) = r_serves_on_the_asked_port(
        Platform::Windows,
        0,
        quoted,
        facts.port as nat,
    );
    assert(before =~= Seq::empty());
    let serve = "shiny::runApp(appDir = "@ + quoted + ", port = "@ + port
        + ", host = '127.0.0.1', launch.browser = FALSE)"@;
    assert(session_code(Platform::Windows, 0, quoted, facts.port as nat) =~= serve);
    if platform == Platform::Windows {
        decimal_reads_back(facts.parent as nat);
        (decimal(facts.parent as nat), port)
    } else {
        let parent = r_watches_the_asked_process(
            platform,
            facts.parent as nat,
            0,
            quoted,
            facts.port as nat,
        );
        (parent, port)
    }
}

/// R is given its home exactly when it has to be told and the directory is there, and the
/// bundled Python exactly when it is there; both lie in the runtime, and nothing else is
/// set.
pub proof fn r_is_given_what_is_there(
    platform: Platform,
    prefix: LocationSpec,
    home_is_dir: bool,
    python_is_file: bool,
)
    ensures
        ({
            let settings = session_settings(platform, prefix, home_is_dir, python_is_file);
            let home = (
                "R_HOME"@,
                below(prefix, seq!["R.framework"@, "Resources"@]),
            );
            let python = (
                "RETICULATE_PYTHON"@,
                below(
                    prefix,
                    if platform == Platform::Windows {
                        seq!["python"@, "python.exe"@]
                    } else {
                        seq!["python"@, "bin"@, "python3"@]
                    },
                ),
            );
            &&& settings.contains(home) <==> home_is_dir && platform != Platform::Windows
            &&& settings.contains(python) <==> python_is_file
            &&& forall|i: int|
                0 <= i < settings.len() ==> #[trigger] settings[i] == home || settings[i] == python
            &&& settings.len() <= 2
        }),
{
    launcher_lies_in_the_home_of_r(platform, prefix);
    python_lies_in_the_runtime(platform, prefix);
    reveal_strlit("R_HOME");
    reveal_strlit("RETICULATE_PYTHON");
    assert("R_HOME"@.len() != "RETICULATE_PYTHON"@.len());
    let settings = session_settings(platform, prefix, home_is_dir, python_is_file);
    if settings.len() > 0 {
        assert(settings.contains(settings[0]));
        assert(settings.contains(settings.last()));
    }
}

/// On every system the program that is started is the launcher that was found, and it
/// runs in the directory of the app, with all its arguments. R ends with the app and has
/// no console window on Windows, and only there; its output goes to the log exactly when
/// the log is open.
pub proof fn found_launcher_runs_in_the_app(
    platform: Platform,
    prefix: LocationSpec,
    launcher: LocationSpec,
    app_dir: LocationSpec,
    args: Seq<Seq<char>>,
    facts: LaunchFacts,
)
    ensures
        ({
            let plan = plan_of(platform, prefix, launcher, app_dir, args, facts);
            &&& plan.program == launcher
            &&& plan.working_dir == app_dir
            &&& plan.args == args
            &&& plan.in_job <==> platform == Platform::Windows
            &&& plan.creation_flags is Some <==> platform == Platform::Windows
            &&& plan.creation_flags is Some ==> plan.creation_flags == Some(0x0800_0000u32)
            &&& plan.capture_output <==> facts.log_is_open
            &&& plan.settings == session_settings(
                platform,
                prefix,
                facts.home_is_dir,
                facts.python_is_file,
            )
        }),
{
}

} // verus!
