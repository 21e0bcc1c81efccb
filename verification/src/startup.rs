//! Starting the backend, and ending it with the app.
//!
//! `start_backend` gives the order of the steps and carries what one step found on to
//! the next; `start_action` says what a step does, and to what. The steps themselves
//! are done from outside.

use crate::layout::{Location, LocationSpec};
use crate::text::{
    decimal, decimal_is_canonical, decimal_reads_back, decimal_text, decimal_value,
};
use crate::waiting::{stage_look, WaitAction, WaitStage, STARTUP_TIMEOUT};
use vstd::prelude::*;

verus! {

/// Why the backend could not be started.
#[derive(Clone, Copy, Debug, PartialEq, Eq, Structural)]
pub enum StartFailure {
    NoWindow,
    NoRuntime,
    NoR,
    NoApp,
    NoPort,
    NotStarted,
    NotServing,
    BadUrl { port: u16 },
    NotOpened { port: u16 },
}

/// What comes next in starting the backend, with what was found so far.
#[derive(Debug, PartialEq, Eq)]
pub enum StartStage {
    /// Find the main window.
    FindWindow,
    /// Install the runtime, where that is needed.
    EnsureRuntime,
    /// Find the R launcher.
    FindR,
    /// Find the Shiny app.
    FindApp { launcher: Location },
    /// Ask the system for an unused port.
    ReservePort { launcher: Location, app_dir: Location },
    /// Start R.
    Spawn { launcher: Location, app_dir: Location, port: u16 },
    /// Wait for R, the process `child`, to serve.
    AwaitServing { child: u32, port: u16 },
    /// Open the address in the window.
    Navigate { child: u32, port: u16, url: String },
    /// The app is open.
    Running { child: u32, port: u16 },
    /// The app could not be opened.
    Failed { failure: StartFailure, detail: String },
}

/// What comes next in starting the backend, in mathematical terms.
#[verifier::ext_equal]
pub enum StartStageSpec {
    FindWindow,
    EnsureRuntime,
    FindR,
    FindApp { launcher: LocationSpec },
    ReservePort { launcher: LocationSpec, app_dir: LocationSpec },
    Spawn { launcher: LocationSpec, app_dir: LocationSpec, port: u16 },
    AwaitServing { child: u32, port: u16 },
    Navigate { child: u32, port: u16, url: Seq<char> },
    Running { child: u32, port: u16 },
    Failed { failure: StartFailure, detail: Seq<char> },
}

impl View for StartStage {
    type V = StartStageSpec;

    open spec fn view(&self) -> StartStageSpec {
        match self {
            StartStage::FindWindow => StartStageSpec::FindWindow,
            StartStage::EnsureRuntime => StartStageSpec::EnsureRuntime,
            StartStage::FindR => StartStageSpec::FindR,
            StartStage::FindApp { launcher } => StartStageSpec::FindApp { launcher: launcher@ },
            StartStage::ReservePort { launcher, app_dir } => StartStageSpec::ReservePort {
                launcher: launcher@,
                app_dir: app_dir@,
            },
            StartStage::Spawn { launcher, app_dir, port } => StartStageSpec::Spawn {
                launcher: launcher@,
                app_dir: app_dir@,
                port: *port,
            },
            StartStage::AwaitServing { child, port } => StartStageSpec::AwaitServing {
                child: *child,
                port: *port,
            },
            StartStage::Navigate { child, port, url } => StartStageSpec::Navigate {
                child: *child,
                port: *port,
                url: url@,
            },
            StartStage::Running { child, port } => StartStageSpec::Running {
                child: *child,
                port: *port,
            },
            StartStage::Failed { failure, detail } => StartStageSpec::Failed {
                failure: *failure,
                detail: detail@,
            },
        }
    }
}

/// How a step went.
#[derive(Debug, PartialEq, Eq)]
pub enum StartReply {
    /// It was done.
    Done,
    /// What was looked for is here.
    Found(Location),
    /// This port is unused.
    Port(u16),
    /// This process was started.
    Process(u32),
    /// It could not be done; the text is what the system said, if anything.
    Failed(String),
}

/// How a step went, in mathematical terms.
#[verifier::ext_equal]
pub enum StartReplySpec {
    Done,
    Found(LocationSpec),
    Port(u16),
    Process(u32),
    Failed(Seq<char>),
}

impl View for StartReply {
    type V = StartReplySpec;

    open spec fn view(&self) -> StartReplySpec {
        match self {
            StartReply::Done => StartReplySpec::Done,
            StartReply::Found(place) => StartReplySpec::Found(place@),
            StartReply::Port(port) => StartReplySpec::Port(*port),
            StartReply::Process(child) => StartReplySpec::Process(*child),
            StartReply::Failed(detail) => StartReplySpec::Failed(detail@),
        }
    }
}

/// The address that R serves the app at.
pub open spec fn url_text(port: nat) -> Seq<char> {
    "http://127.0.0.1:"@ + decimal(port)
}

/// The address that R serves the app at.
pub fn backend_url(port: u16) -> (url: String)
    ensures
        url@ == url_text(port as nat),
{
    let mut url = "http://127.0.0.1:".to_owned();
    url.append(decimal_text(port as u128).as_str());
    url
}

/// What an address says in its normal form, or what is wrong with it.
pub uninterp spec fn parsed_url(text: Seq<char>) -> Result<Seq<char>, Seq<char>>;

/// What a result says.
pub open spec fn outcome(result: Result<String, String>) -> Result<Seq<char>, Seq<char>> {
    match result {
        Ok(text) => Ok(text@),
        Err(text) => Err(text@),
    }
}

/// `url::Url::parse`: the address in its normal form, or the error as it is shown.
/// Both depend on the text alone; what they are is left to the URL standard. It counts
/// the characters of an address in 32 bits, so the length is kept far below that.
#[verifier::external_body]
fn parse_url(text: &str) -> (parsed: Result<String, String>)
    requires
        text@.len() <= 0xffff,
    ensures
        outcome(parsed) == parsed_url(text@),
{
    match url::Url::parse(text) {
        Ok(url) => Ok(url.to_string()),
        Err(error) => Err(error.to_string()),
    }
}

/// The address to open in the window, in its normal form, or what is wrong with it.
pub fn backend_target(port: u16) -> (result: Result<String, String>)
    ensures
        outcome(result) == parsed_url(url_text(port as nat)),
{
    let url = backend_url(port);
    proof {
        reveal_strlit("http://127.0.0.1:");
        reveal_with_fuel(decimal, 6);
    }
    parse_url(url.as_str())
}

/// Whether the start is over.
pub open spec fn start_is_over(stage: StartStageSpec) -> bool {
    stage is Running || stage is Failed
}

/// The failure of a step.
pub open spec fn step_failure(stage: StartStageSpec) -> StartFailure {
    match stage {
        StartStageSpec::FindWindow => StartFailure::NoWindow,
        StartStageSpec::EnsureRuntime => StartFailure::NoRuntime,
        StartStageSpec::FindR => StartFailure::NoR,
        StartStageSpec::FindApp { .. } => StartFailure::NoApp,
        StartStageSpec::ReservePort { .. } => StartFailure::NoPort,
        StartStageSpec::Spawn { .. } => StartFailure::NotStarted,
        StartStageSpec::AwaitServing { .. } => StartFailure::NotServing,
        StartStageSpec::Navigate { port, .. } => StartFailure::NotOpened { port },
        StartStageSpec::Running { port, .. } => StartFailure::NotOpened { port },
        StartStageSpec::Failed { failure, .. } => failure,
    }
}

/// The failure of a step that went as `reply` says. A reply that is not the one that
/// the step asks for is a failure without detail.
pub open spec fn step_failed(stage: StartStageSpec, reply: StartReplySpec) -> StartStageSpec {
    StartStageSpec::Failed {
        failure: step_failure(stage),
        detail: match reply {
            StartReplySpec::Failed(detail) => detail,
            _ => Seq::empty(),
        },
    }
}

/// What comes after R serves, given how the address of the app was parsed.
pub open spec fn serving_next(
    child: u32,
    port: u16,
    parsed: Result<Seq<char>, Seq<char>>,
) -> StartStageSpec {
    match parsed {
        Ok(url) => StartStageSpec::Navigate { child, port, url },
        Err(detail) => StartStageSpec::Failed { failure: StartFailure::BadUrl { port }, detail },
    }
}

/// What comes after R serves, given how the address of the app was parsed.
pub fn after_serving(child: u32, port: u16, parsed: Result<String, String>) -> (next: StartStage)
    ensures
        next@ == serving_next(child, port, outcome(parsed)),
{
    match parsed {
        Ok(url) => StartStage::Navigate { child, port, url },
        Err(detail) => StartStage::Failed { failure: StartFailure::BadUrl { port }, detail },
    }
}

/// What comes after `stage`: the next step, with what was found, where it went well,
/// and its failure where it did not.
pub open spec fn next_start(stage: StartStageSpec, reply: StartReplySpec) -> StartStageSpec {
    match (stage, reply) {
        (StartStageSpec::FindWindow, StartReplySpec::Done) => StartStageSpec::EnsureRuntime,
        (StartStageSpec::EnsureRuntime, StartReplySpec::Done) => StartStageSpec::FindR,
        (StartStageSpec::FindR, StartReplySpec::Found(launcher)) => StartStageSpec::FindApp {
            launcher,
        },
        (StartStageSpec::FindApp { launcher }, StartReplySpec::Found(app_dir)) =>
            StartStageSpec::ReservePort { launcher, app_dir },
        (StartStageSpec::ReservePort { launcher, app_dir }, StartReplySpec::Port(port)) =>
            StartStageSpec::Spawn { launcher, app_dir, port },
        (StartStageSpec::Spawn { port, .. }, StartReplySpec::Process(child)) =>
            StartStageSpec::AwaitServing { child, port },
        (StartStageSpec::AwaitServing { child, port }, StartReplySpec::Done) => serving_next(
            child,
            port,
            parsed_url(url_text(port as nat)),
        ),
        (StartStageSpec::Navigate { child, port, .. }, StartReplySpec::Done) =>
            StartStageSpec::Running { child, port },
        _ => if start_is_over(stage) {
            stage
        } else {
            step_failed(stage, reply)
        },
    }
}

/// The first step of a start.
pub fn first_step() -> (stage: StartStage)
    ensures
        stage@ == StartStageSpec::FindWindow,
{
    StartStage::FindWindow
}

/// The end of a start at a step that failed.
fn give_up(failure: StartFailure, reply: StartReply) -> (stage: StartStage)
    ensures
        stage@ == (StartStageSpec::Failed {
            failure,
            detail: match reply@ {
                StartReplySpec::Failed(detail) => detail,
                _ => Seq::empty(),
            },
        }),
{
    match reply {
        StartReply::Failed(detail) => StartStage::Failed { failure, detail },
        _ => StartStage::Failed { failure, detail: String::new() },
    }
}

/// What comes after `stage`, which went as `reply` says.
pub fn start_backend(stage: StartStage, reply: StartReply) -> (next: StartStage)
    ensures
        next@ == next_start(stage@, reply@),
{
    match stage {
        StartStage::FindWindow => match reply {
            StartReply::Done => StartStage::EnsureRuntime,
            reply => give_up(StartFailure::NoWindow, reply),
        },
        StartStage::EnsureRuntime => match reply {
            StartReply::Done => StartStage::FindR,
            reply => give_up(StartFailure::NoRuntime, reply),
        },
        StartStage::FindR => match reply {
            StartReply::Found(launcher) => StartStage::FindApp { launcher },
            reply => give_up(StartFailure::NoR, reply),
        },
        StartStage::FindApp { launcher } => match reply {
            StartReply::Found(app_dir) => StartStage::ReservePort { launcher, app_dir },
            reply => give_up(StartFailure::NoApp, reply),
        },
        StartStage::ReservePort { launcher, app_dir } => match reply {
            StartReply::Port(port) => StartStage::Spawn { launcher, app_dir, port },
            reply => give_up(StartFailure::NoPort, reply),
        },
        StartStage::Spawn { launcher: _, app_dir: _, port } => match reply {
            StartReply::Process(child) => StartStage::AwaitServing { child, port },
            reply => give_up(StartFailure::NotStarted, reply),
        },
        StartStage::AwaitServing { child, port } => match reply {
            StartReply::Done => after_serving(child, port, backend_target(port)),
            reply => give_up(StartFailure::NotServing, reply),
        },
        StartStage::Navigate { child, port, url: _ } => match reply {
            StartReply::Done => StartStage::Running { child, port },
            reply => give_up(StartFailure::NotOpened { port }, reply),
        },
        StartStage::Running { child, port } => StartStage::Running { child, port },
        StartStage::Failed { failure, detail } => StartStage::Failed { failure, detail },
    }
}

/// What to do.
#[derive(Debug, PartialEq, Eq)]
pub enum StartAction {
    /// Find the window of this name.
    FindWindow { label: &'static str },
    /// Install the runtime, where that is needed.
    EnsureRuntime,
    /// Find the R launcher.
    FindR,
    /// Find the Shiny app.
    FindApp,
    /// Ask the system for an unused port of this host.
    ReservePort { host: [u8; 4] },
    /// Start R with this launcher, to serve this app on this port.
    Spawn { launcher: Location, app_dir: Location, port: u16 },
    /// Wait for the process to serve on the port, for so many nanoseconds at most.
    Await { child: u32, port: u16, timeout: u128 },
    /// Open the address in the window of this name.
    Navigate { label: &'static str, url: String },
}

/// What to do, in mathematical terms.
#[verifier::ext_equal]
pub enum StartActionSpec {
    FindWindow { label: Seq<char> },
    EnsureRuntime,
    FindR,
    FindApp,
    ReservePort { host: [u8; 4] },
    Spawn { launcher: LocationSpec, app_dir: LocationSpec, port: u16 },
    Await { child: u32, port: u16, timeout: u128 },
    Navigate { label: Seq<char>, url: Seq<char> },
}

impl View for StartAction {
    type V = StartActionSpec;

    open spec fn view(&self) -> StartActionSpec {
        match self {
            StartAction::FindWindow { label } => StartActionSpec::FindWindow { label: label@ },
            StartAction::EnsureRuntime => StartActionSpec::EnsureRuntime,
            StartAction::FindR => StartActionSpec::FindR,
            StartAction::FindApp => StartActionSpec::FindApp,
            StartAction::ReservePort { host } => StartActionSpec::ReservePort { host: *host },
            StartAction::Spawn { launcher, app_dir, port } => StartActionSpec::Spawn {
                launcher: launcher@,
                app_dir: app_dir@,
                port: *port,
            },
            StartAction::Await { child, port, timeout } => StartActionSpec::Await {
                child: *child,
                port: *port,
                timeout: *timeout,
            },
            StartAction::Navigate { label, url } => StartActionSpec::Navigate {
                label: label@,
                url: url@,
            },
        }
    }
}

/// What a step does. A start that is over does nothing.
pub open spec fn step_action(stage: StartStageSpec) -> Option<StartActionSpec> {
    match stage {
        StartStageSpec::FindWindow => Some(StartActionSpec::FindWindow { label: "main"@ }),
        StartStageSpec::EnsureRuntime => Some(StartActionSpec::EnsureRuntime),
        StartStageSpec::FindR => Some(StartActionSpec::FindR),
        StartStageSpec::FindApp { .. } => Some(StartActionSpec::FindApp),
        StartStageSpec::ReservePort { .. } => Some(
            StartActionSpec::ReservePort { host: [127, 0, 0, 1] },
        ),
        StartStageSpec::Spawn { launcher, app_dir, port } => Some(
            StartActionSpec::Spawn { launcher, app_dir, port },
        ),
        StartStageSpec::AwaitServing { child, port } => Some(
            StartActionSpec::Await { child, port, timeout: STARTUP_TIMEOUT },
        ),
        StartStageSpec::Navigate { url, .. } => Some(
            StartActionSpec::Navigate { label: "main"@, url },
        ),
        StartStageSpec::Running { .. } => None,
        StartStageSpec::Failed { .. } => None,
    }
}

/// What a step does. A start that is over does nothing.
pub fn start_action(stage: &StartStage) -> (action: Option<StartAction>)
    ensures
        match action {
            Some(action) => step_action(stage@) == Some(action@),
            None => step_action(stage@) is None,
        },
{
    match stage {
        StartStage::FindWindow => Some(StartAction::FindWindow { label: "main" }),
        StartStage::EnsureRuntime => Some(StartAction::EnsureRuntime),
        StartStage::FindR => Some(StartAction::FindR),
        StartStage::FindApp { launcher: _ } => Some(StartAction::FindApp),
        StartStage::ReservePort { launcher: _, app_dir: _ } => Some(
            StartAction::ReservePort { host: [127, 0, 0, 1] },
        ),
        StartStage::Spawn { launcher, app_dir, port } => Some(
            StartAction::Spawn {
                launcher: launcher.duplicate(),
                app_dir: app_dir.duplicate(),
                port: *port,
            },
        ),
        StartStage::AwaitServing { child, port } => Some(
            StartAction::Await { child: *child, port: *port, timeout: STARTUP_TIMEOUT },
        ),
        StartStage::Navigate { child: _, port: _, url } => Some(
            StartAction::Navigate { label: "main", url: url.clone() },
        ),
        StartStage::Running { child: _, port: _ } => None,
        StartStage::Failed { failure: _, detail: _ } => None,
    }
}

/// The splash text that goes with a step.
pub open spec fn step_status(stage: StartStageSpec) -> Option<Seq<char>> {
    match stage {
        StartStageSpec::AwaitServing { .. } => Some(
            "Starting the forecasting environment\u{2026}"@,
        ),
        _ => None,
    }
}

/// The splash text to set before a step, if it has one of its own.
pub fn start_status(stage: &StartStage) -> (status: Option<&'static str>)
    ensures
        match status {
            Some(status) => stage@ is AwaitServing && status@
                == "Starting the forecasting environment\u{2026}"@,
            None => !(stage@ is AwaitServing),
        },
        match status {
            Some(status) => step_status(stage@) == Some(status@),
            None => step_status(stage@) is None,
        },
{
    match stage {
        StartStage::AwaitServing { child: _, port: _ } => Some(
            "Starting the forecasting environment\u{2026}",
        ),
        _ => None,
    }
}

/// What the user is told when the backend could not be started. `detail` is what the
/// system said, or what the step itself has to say.
pub open spec fn start_failure_text(failure: StartFailure, detail: Seq<char>) -> Seq<char> {
    match failure {
        StartFailure::NoWindow => "main window is missing"@,
        StartFailure::NoRuntime => detail,
        StartFailure::NoR =>
            "Could not find R. Install R, or set MICROHUB_R_BIN to the Rscript binary."@,
        StartFailure::NoApp =>
            "Could not find the Shiny app directory. Set MICROHUB_APP_DIR for development."@,
        StartFailure::NoPort => "Could not reserve a port: "@ + detail,
        StartFailure::NotStarted => "Could not start R: "@ + detail,
        StartFailure::NotServing => detail,
        StartFailure::BadUrl { port } => "Invalid URL "@ + url_text(port as nat) + ": "@ + detail,
        StartFailure::NotOpened { port } => "Could not open "@ + url_text(port as nat) + ": "@
            + detail,
    }
}

/// What the user is told when the backend could not be started.
pub fn start_error(failure: StartFailure, detail: &str) -> (message: String)
    ensures
        message@ == start_failure_text(failure, detail@),
{
    let mut message: String;
    match failure {
        StartFailure::NoWindow => {
            message = "main window is missing".to_owned();
        },
        StartFailure::NoRuntime => {
            message = detail.to_owned();
        },
        StartFailure::NoR => {
            message =
            "Could not find R. Install R, or set MICROHUB_R_BIN to the Rscript binary.".to_owned();
        },
        StartFailure::NoApp => {
            message =
            "Could not find the Shiny app directory. Set MICROHUB_APP_DIR for development.".to_owned();
        },
        StartFailure::NoPort => {
            message = "Could not reserve a port: ".to_owned();
            message.append(detail);
        },
        StartFailure::NotStarted => {
            message = "Could not start R: ".to_owned();
            message.append(detail);
        },
        StartFailure::NotServing => {
            message = detail.to_owned();
        },
        StartFailure::BadUrl { port } => {
            message = "Invalid URL ".to_owned();
            message.append(backend_url(port).as_str());
            message.append(": ");
            message.append(detail);
        },
        StartFailure::NotOpened { port } => {
            message = "Could not open ".to_owned();
            message.append(backend_url(port).as_str());
            message.append(": ");
            message.append(detail);
        },
    }
    message
}

/// The stage of a start after these replies.
pub open spec fn start_after(replies: Seq<StartReplySpec>) -> StartStageSpec
    decreases replies.len(),
{
    if replies.len() == 0 {
        StartStageSpec::FindWindow
    } else {
        next_start(start_after(replies.drop_last()), replies.last())
    }
}

/// The replies of a start in which every step went well.
pub open spec fn good_replies(
    launcher: LocationSpec,
    app_dir: LocationSpec,
    port: u16,
    child: u32,
) -> Seq<StartReplySpec> {
    seq![
        StartReplySpec::Done,
        StartReplySpec::Done,
        StartReplySpec::Found(launcher),
        StartReplySpec::Found(app_dir),
        StartReplySpec::Port(port),
        StartReplySpec::Process(child),
        StartReplySpec::Done,
        StartReplySpec::Done,
    ]
}

/// The stages of a start in which every step went well: `n` steps are done, and the
/// address of the app is `url`.
pub open spec fn good_stage(
    launcher: LocationSpec,
    app_dir: LocationSpec,
    port: u16,
    child: u32,
    url: Seq<char>,
    n: int,
) -> StartStageSpec {
    if n == 0 {
        StartStageSpec::FindWindow
    } else if n == 1 {
        StartStageSpec::EnsureRuntime
    } else if n == 2 {
        StartStageSpec::FindR
    } else if n == 3 {
        StartStageSpec::FindApp { launcher }
    } else if n == 4 {
        StartStageSpec::ReservePort { launcher, app_dir }
    } else if n == 5 {
        StartStageSpec::Spawn { launcher, app_dir, port }
    } else if n == 6 {
        StartStageSpec::AwaitServing { child, port }
    } else if n == 7 {
        StartStageSpec::Navigate { child, port, url }
    } else {
        StartStageSpec::Running { child, port }
    }
}

/// Where the address of the app can be parsed, good steps are taken in their order and
/// lead to an open app.
pub proof fn good_steps_are_taken_in_order(
    launcher: LocationSpec,
    app_dir: LocationSpec,
    port: u16,
    child: u32,
    url: Seq<char>,
    n: int,
)
    requires
        0 <= n <= 8,
        parsed_url(url_text(port as nat)) == Ok::<Seq<char>, Seq<char>>(url),
    ensures
        start_after(good_replies(launcher, app_dir, port, child).take(n)) == good_stage(
            launcher,
            app_dir,
            port,
            child,
            url,
            n,
        ),
    decreases n,
{
    let all = good_replies(launcher, app_dir, port, child);
    if n > 0 {
        good_steps_are_taken_in_order(launcher, app_dir, port, child, url, n - 1);
        assert(all.take(n).drop_last() =~= all.take(n - 1));
        assert(all.take(n).last() == all[n - 1]);
    }
}

/// A start that is over does not change.
pub proof fn start_stays_over(replies: Seq<StartReplySpec>, n: int)
    requires
        0 <= n <= replies.len(),
        start_is_over(start_after(replies.take(n))),
    ensures
        start_after(replies) == start_after(replies.take(n)),
    decreases replies.len(),
{
    if n < replies.len() {
        let fewer = replies.drop_last();
        assert(fewer.take(n) =~= replies.take(n));
        start_stays_over(fewer, n);
    } else {
        assert(replies.take(n) =~= replies);
    }
}

/// The first step that fails decides how the start fails, whatever comes after it.
pub proof fn first_failure_decides(replies: Seq<StartReplySpec>, n: int, detail: Seq<char>)
    requires
        0 <= n < replies.len(),
        !start_is_over(start_after(replies.take(n))),
        replies[n] == StartReplySpec::Failed(detail),
    ensures
        start_after(replies) == (StartStageSpec::Failed {
            failure: step_failure(start_after(replies.take(n))),
            detail,
        }),
{
    assert(replies.take(n + 1).drop_last() =~= replies.take(n));
    start_stays_over(replies, n + 1);
}

/// The first replies of a start are those of a good one.
spec fn begins_well(
    replies: Seq<StartReplySpec>,
    launcher: LocationSpec,
    app_dir: LocationSpec,
    port: u16,
    child: u32,
    n: int,
) -> bool {
    n <= replies.len() && replies.take(n) == good_replies(launcher, app_dir, port, child).take(n)
}

/// A start has come to a step by good replies alone.
proof fn lemma_came_by_good_replies(replies: Seq<StartReplySpec>) -> (found: (
    LocationSpec,
    LocationSpec,
    u16,
    u32,
))
    ensures
        ({
            let (l, a, p, c) = found;
            match start_after(replies) {
                StartStageSpec::FindWindow => replies.len() == 0,
                StartStageSpec::EnsureRuntime => replies.len() == 1 && begins_well(
                    replies,
                    l,
                    a,
                    p,
                    c,
                    1,
                ),
                StartStageSpec::FindR => replies.len() == 2 && begins_well(replies, l, a, p, c, 2),
                StartStageSpec::FindApp { launcher } => replies.len() == 3 && begins_well(
                    replies,
                    launcher,
                    a,
                    p,
                    c,
                    3,
                ),
                StartStageSpec::ReservePort { launcher, app_dir } => replies.len() == 4
                    && begins_well(replies, launcher, app_dir, p, c, 4),
                StartStageSpec::Spawn { launcher, app_dir, port } => replies.len() == 5
                    && begins_well(replies, launcher, app_dir, port, c, 5),
                StartStageSpec::AwaitServing { child, port } => replies.len() == 6 && begins_well(
                    replies,
                    l,
                    a,
                    port,
                    child,
                    6,
                ),
                StartStageSpec::Navigate { child, port, url } => replies.len() == 7 && begins_well(
                    replies,
                    l,
                    a,
                    port,
                    child,
                    7,
                ) && parsed_url(url_text(port as nat)) == Ok::<Seq<char>, Seq<char>>(url),
                StartStageSpec::Running { child, port } => replies.len() >= 8 && begins_well(
                    replies,
                    l,
                    a,
                    port,
                    child,
                    8,
                ) && parsed_url(url_text(port as nat)) is Ok,
                StartStageSpec::Failed { .. } => true,
            }
        }),
    decreases replies.len(),
{
    if replies.len() == 0 {
        (arbitrary(), arbitrary(), arbitrary(), arbitrary())
    } else {
        let fewer = replies.drop_last();
        let n = replies.len() as int;
        let (l, a, p, c) = lemma_came_by_good_replies(fewer);
        let found = match (start_after(fewer), replies.last()) {
            (StartStageSpec::FindR, StartReplySpec::Found(place)) => (place, a, p, c),
            (StartStageSpec::FindApp { launcher }, StartReplySpec::Found(place)) => (
                launcher,
                place,
                p,
                c,
            ),
            (StartStageSpec::ReservePort { launcher, app_dir }, StartReplySpec::Port(port)) => (
                launcher,
                app_dir,
                port,
                c,
            ),
            (
                StartStageSpec::Spawn { launcher, app_dir, port },
                StartReplySpec::Process(child),
            ) => (launcher, app_dir, port, child),
            (StartStageSpec::AwaitServing { child, port }, _) => (l, a, port, child),
            (StartStageSpec::Navigate { child, port, .. }, _) => (l, a, port, child),
            (StartStageSpec::Running { child, port }, _) => (l, a, port, child),
            _ => (l, a, p, c),
        };
        let good = good_replies(found.0, found.1, found.2, found.3);
        if start_after(fewer) is Running {
            assert(fewer.take(8) =~= replies.take(8));
        } else if !(start_after(replies) is Failed) {
            assert(replies.take(n) =~= fewer.take(n - 1).push(replies.last()));
            assert(replies.take(n) =~= good.take(n));
        }
        found
    }
}

/// A start is over after one reply for each step, or before.
pub proof fn start_ends(replies: Seq<StartReplySpec>)
    requires
        replies.len() >= 8,
    ensures
        start_is_over(start_after(replies)),
{
    let _found = lemma_came_by_good_replies(replies);
}

/// What a start with these replies does after the first `i` of them.
pub open spec fn done_at(replies: Seq<StartReplySpec>, i: int) -> Option<StartActionSpec> {
    step_action(start_after(replies.take(i)))
}

/// An app that is open was opened with one port throughout: the port that the system
/// gave is the one that R was started on, with the launcher and the app that were
/// found; it is the one on which that same process was awaited, for the startup timeout
/// at most; and only then was the main window taken, once, to the address with that
/// port.
pub proof fn one_port_throughout(replies: Seq<StartReplySpec>, child: u32, port: u16)
    requires
        start_after(replies) == (StartStageSpec::Running { child, port }),
    ensures
        replies.len() >= 8,
        parsed_url(url_text(port as nat)) is Ok,
        exists|launcher: LocationSpec, app_dir: LocationSpec|
            {
                &&& replies.take(8) == #[trigger] good_replies(launcher, app_dir, port, child)
                &&& done_at(replies, 5) == Some(
                    StartActionSpec::Spawn { launcher, app_dir, port },
                )
            },
        done_at(replies, 0) == Some(StartActionSpec::FindWindow { label: "main"@ }),
        done_at(replies, 1) == Some(StartActionSpec::EnsureRuntime),
        done_at(replies, 2) == Some(StartActionSpec::FindR),
        done_at(replies, 3) == Some(StartActionSpec::FindApp),
        done_at(replies, 4) == Some(StartActionSpec::ReservePort { host: [127, 0, 0, 1] }),
        replies[4] == StartReplySpec::Port(port),
        replies[5] == StartReplySpec::Process(child),
        done_at(replies, 6) == Some(
            StartActionSpec::Await { child, port, timeout: STARTUP_TIMEOUT },
        ),
        replies[6] == StartReplySpec::Done,
        done_at(replies, 7) == Some(
            StartActionSpec::Navigate {
                label: "main"@,
                url: parsed_url(url_text(port as nat))->Ok_0,
            },
        ),
        replies[7] == StartReplySpec::Done,
        forall|i: int|
            0 <= i <= replies.len() && i != 7 ==> !(#[trigger] done_at(replies, i) matches Some(
                StartActionSpec::Navigate { .. },
            )),
{
    let (launcher, app_dir, _p, _c) = lemma_came_by_good_replies(replies);
    let good = good_replies(launcher, app_dir, port, child);
    let url = parsed_url(url_text(port as nat))->Ok_0;
    assert(good.take(8) =~= good);
    assert forall|i: int| 0 <= i <= 8 implies #[trigger] done_at(replies, i) == step_action(
        good_stage(launcher, app_dir, port, child, url, i),
    ) by {
        good_steps_are_taken_in_order(launcher, app_dir, port, child, url, i);
        assert(replies.take(i) =~= good.take(i)) by {
            assert(replies.take(8).take(i) =~= replies.take(i));
        }
    }
    assert forall|i: int| 0 <= i < 8 implies replies[i] == #[trigger] good[i] by {
        assert(replies.take(8)[i] == replies[i]);
    }
    assert(good[4] == StartReplySpec::Port(port));
    assert(good[5] == StartReplySpec::Process(child));
    assert(good[6] == StartReplySpec::Done);
    assert(good[7] == StartReplySpec::Done);
    good_steps_are_taken_in_order(launcher, app_dir, port, child, url, 8);
    assert forall|i: int| 8 < i <= replies.len() implies #[trigger] done_at(replies, i) is None by {
        let some = replies.take(i);
        assert(some.take(8) =~= replies.take(8));
        assert(replies.take(8) == good.take(8));
        start_stays_over(some, 8);
    }
}

/// A host as it is written in an address.
pub open spec fn dotted(host: [u8; 4]) -> Seq<char> {
    decimal(host@[0] as nat) + "."@ + decimal(host@[1] as nat) + "."@ + decimal(host@[2] as nat)
        + "."@ + decimal(host@[3] as nat)
}

/// The address that a wait connects to is the address that the window opens: the same
/// host, and the same port.
pub proof fn what_is_awaited_is_opened(port: u16)
    ensures
        match stage_look(WaitStage::Connect, port) {
            Some(WaitAction::Connect { host, port: awaited, .. }) => url_text(port as nat)
                == "http://"@ + dotted(host) + ":"@ + decimal(awaited as nat),
            _ => false,
        },
{
    reveal_strlit("http://127.0.0.1:");
    reveal_strlit("http://");
    reveal_strlit(".");
    reveal_strlit(":");
    reveal_with_fuel(decimal, 4);
    let host: [u8; 4] = [127, 0, 0, 1];
    assert(decimal(127) =~= seq!['1', '2', '7']);
    assert(decimal(0) =~= seq!['0']);
    assert(decimal(1) =~= seq!['1']);
    assert(url_text(port as nat) =~= "http://"@ + dotted(host) + ":"@ + decimal(port as nat));
}

/// What happens to the app as a whole.
#[derive(Clone, Copy, Debug, PartialEq, Eq, Structural)]
pub enum AppEvent {
    /// The backend was started.
    Started,
    /// The backend could not be started.
    NotStarted,
    /// The app exits.
    Exit,
    /// Anything else.
    Other,
}

/// What the app does about it.
#[derive(Clone, Copy, Debug, PartialEq, Eq, Structural)]
pub enum AppAction {
    /// Keep hold of the R process.
    Keep,
    /// Report the failure on the splash page.
    ShowError,
    /// End the R process, and wait for its end.
    Kill,
    /// Nothing.
    Ignore,
}

/// What the app does about an event, and whether it holds an R process afterwards.
pub open spec fn reaction(holding: bool, event: AppEvent) -> (bool, AppAction) {
    match event {
        AppEvent::Started => (true, AppAction::Keep),
        AppEvent::NotStarted => (holding, AppAction::ShowError),
        AppEvent::Exit => (
            false,
            if holding {
                AppAction::Kill
            } else {
                AppAction::Ignore
            },
        ),
        AppEvent::Other => (holding, AppAction::Ignore),
    }
}

/// What the app does about an event, and whether it holds an R process afterwards.
/// Without the step at the exit, closing the window would leave R running.
pub fn react(holding: bool, event: AppEvent) -> (next: (bool, AppAction))
    ensures
        next == reaction(holding, event),
{
    match event {
        AppEvent::Started => (true, AppAction::Keep),
        AppEvent::NotStarted => (holding, AppAction::ShowError),
        AppEvent::Exit => if holding {
            (false, AppAction::Kill)
        } else {
            (false, AppAction::Ignore)
        },
        AppEvent::Other => (holding, AppAction::Ignore),
    }
}

/// Whether the app holds an R process after these events.
pub open spec fn holding_after(events: Seq<AppEvent>) -> bool
    decreases events.len(),
{
    if events.len() == 0 {
        false
    } else {
        reaction(holding_after(events.drop_last()), events.last()).0
    }
}

/// The event at `i` started R, and no exit came after it.
pub open spec fn started_and_not_ended(events: Seq<AppEvent>, i: int) -> bool {
    &&& 0 <= i < events.len()
    &&& events[i] == AppEvent::Started
    &&& forall|j: int| i < j < events.len() ==> #[trigger] events[j] != AppEvent::Exit
}

/// The app holds an R process exactly when one was started and not ended since.
proof fn lemma_holding(events: Seq<AppEvent>)
    ensures
        holding_after(events) <==> exists|i: int| #[trigger] started_and_not_ended(events, i),
    decreases events.len(),
{
    if events.len() > 0 {
        let fewer = events.drop_last();
        let last = events.len() - 1;
        lemma_holding(fewer);
        if events[last] == AppEvent::Started {
            assert(started_and_not_ended(events, last));
        } else if holding_after(events) {
            let i = choose|i: int| #[trigger] started_and_not_ended(fewer, i);
            assert forall|j: int| i < j < events.len() implies #[trigger] events[j]
                != AppEvent::Exit by {
                if j < last {
                    assert(fewer[j] == events[j]);
                }
            }
            assert(started_and_not_ended(events, i));
        }
        assert forall|i: int| #[trigger] started_and_not_ended(events, i) implies holding_after(
            events,
        ) by {
            if i < last {
                assert(events[last] != AppEvent::Exit);
                assert forall|j: int| i < j < fewer.len() implies #[trigger] fewer[j]
                    != AppEvent::Exit by {
                    assert(fewer[j] == events[j]);
                }
                assert(started_and_not_ended(fewer, i));
            }
        }
    }
}

/// At the exit the R process is ended exactly when one was started and not ended
/// since, and afterwards there is none.
pub proof fn exit_ends_r(events: Seq<AppEvent>)
    ensures
        reaction(holding_after(events), AppEvent::Exit).1 == AppAction::Kill <==> exists|i: int| #[trigger]
            started_and_not_ended(events, i),
        !reaction(holding_after(events), AppEvent::Exit).0,
{
    lemma_holding(events);
}

/// The address of the app is on this machine, and its port is the one that R serves on,
/// whichever it is: the digits behind the host read back as that port.
pub proof fn address_names_the_port(port: nat) -> (digits: Seq<char>)
    ensures
        url_text(port) == "http://127.0.0.1:"@ + digits,
        decimal_value(digits) == port,
        forall|i: int| 0 <= i < digits.len() ==> '0' <= #[trigger] digits[i] <= '9',
        digits.len() > 1 ==> digits[0] != '0',
{
    decimal_reads_back(port);
    decimal_is_canonical(port);
    decimal(port)
}

/// The wait for R connects to the very port that R was started on.
pub proof fn awaited_port_is_the_started_one(
    launcher: LocationSpec,
    app_dir: LocationSpec,
    port: u16,
    child: u32,
)
    ensures
        step_action(StartStageSpec::Spawn { launcher, app_dir, port }) == Some(
            StartActionSpec::Spawn { launcher, app_dir, port },
        ),
        next_start(
            StartStageSpec::Spawn { launcher, app_dir, port },
            StartReplySpec::Process(child),
        ) == (StartStageSpec::AwaitServing { child, port }),
        step_action(StartStageSpec::AwaitServing { child, port }) == Some(
            StartActionSpec::Await { child, port, timeout: STARTUP_TIMEOUT },
        ),
        match stage_look(WaitStage::Connect, port) {
            Some(WaitAction::Connect { port: tried, .. }) => tried == port,
            _ => false,
        },
{
}

/// A start that went well up to a step and whose next reply is not the one that the step
/// asks for fails in the way of that step, with what the system said, if it said
/// something. A failure to open the app names its port.
pub proof fn each_step_fails_in_its_own_way(
    launcher: LocationSpec,
    app_dir: LocationSpec,
    port: u16,
    child: u32,
    url: Seq<char>,
    n: int,
    bad: StartReplySpec,
)
    requires
        0 <= n < 8,
        parsed_url(url_text(port as nat)) == Ok::<Seq<char>, Seq<char>>(url),
        n == 0 || n == 1 || n == 6 || n == 7 ==> !(bad is Done),
        n == 2 || n == 3 ==> !(bad is Found),
        n == 4 ==> !(bad is Port),
        n == 5 ==> !(bad is Process),
    ensures
        ({
            let end = start_after(
                good_replies(launcher, app_dir, port, child).take(n).push(bad),
            );
            &&& end matches StartStageSpec::Failed { failure, detail } && {
                &&& failure == StartFailure::NoWindow <==> n == 0
                &&& failure == StartFailure::NoRuntime <==> n == 1
                &&& failure == StartFailure::NoR <==> n == 2
                &&& failure == StartFailure::NoApp <==> n == 3
                &&& failure == StartFailure::NoPort <==> n == 4
                &&& failure == StartFailure::NotStarted <==> n == 5
                &&& failure == StartFailure::NotServing <==> n == 6
                &&& failure == (StartFailure::NotOpened { port }) <==> n == 7
                &&& bad is Failed ==> bad == StartReplySpec::Failed(detail)
                &&& !(bad is Failed) ==> detail.len() == 0
            }
        }),
{
    let replies = good_replies(launcher, app_dir, port, child).take(n).push(bad);
    good_steps_are_taken_in_order(launcher, app_dir, port, child, url, n);
    assert(replies.drop_last() =~= good_replies(launcher, app_dir, port, child).take(n));
}

/// An address that cannot be parsed ends the start when R serves, with the port of the
/// address and what is wrong with it; the window is not taken anywhere.
pub proof fn bad_address_ends_the_start(
    launcher: LocationSpec,
    app_dir: LocationSpec,
    port: u16,
    child: u32,
    detail: Seq<char>,
    reply: StartReplySpec,
)
    requires
        parsed_url(url_text(port as nat)) == Err::<Seq<char>, Seq<char>>(detail),
    ensures
        ({
            let served = good_replies(launcher, app_dir, port, child).take(7);
            let end = StartStageSpec::Failed { failure: StartFailure::BadUrl { port }, detail };
            &&& start_after(served) == end
            &&& start_after(served.push(reply)) == end
        }),
{
    let all = good_replies(launcher, app_dir, port, child);
    reveal_with_fuel(start_after, 8);
    assert(all.take(7).drop_last() =~= all.take(6));
    assert(all.take(6).drop_last() =~= all.take(5));
    assert(all.take(5).drop_last() =~= all.take(4));
    assert(all.take(4).drop_last() =~= all.take(3));
    assert(all.take(3).drop_last() =~= all.take(2));
    assert(all.take(2).drop_last() =~= all.take(1));
    assert(all.take(1).drop_last() =~= all.take(0));
    assert(all.take(7).push(reply).drop_last() =~= all.take(7));
}

/// A message about a start that failed ends in what the system said, where that is said
/// at all, and names the address that could not be opened, with the port of the failure,
/// whichever it is.
pub proof fn start_message_passes_on_what_was_said(failure: StartFailure, detail: Seq<char>)
    ensures
        failure == StartFailure::NoWindow || failure == StartFailure::NoR || failure
            == StartFailure::NoApp ==> start_failure_text(failure, detail) == start_failure_text(
            failure,
            Seq::empty(),
        ),
        failure == StartFailure::NoRuntime || failure == StartFailure::NotServing
            ==> start_failure_text(failure, detail) == detail,
        failure == StartFailure::NoPort ==> start_failure_text(failure, detail)
            == "Could not reserve a port: "@ + detail,
        failure == StartFailure::NotStarted ==> start_failure_text(failure, detail)
            == "Could not start R: "@ + detail,
        failure matches StartFailure::BadUrl { port } ==> start_failure_text(failure, detail)
            == "Invalid URL http://127.0.0.1:"@ + decimal(port as nat) + ": "@ + detail,
        failure matches StartFailure::NotOpened { port } ==> start_failure_text(failure, detail)
            == "Could not open http://127.0.0.1:"@ + decimal(port as nat) + ": "@ + detail,
{
    reveal_strlit("Invalid URL http://127.0.0.1:");
    reveal_strlit("Could not open http://127.0.0.1:");
    reveal_strlit("Invalid URL ");
    reveal_strlit("Could not open ");
    reveal_strlit("http://127.0.0.1:");
    assert("Invalid URL http://127.0.0.1:"@ =~= "Invalid URL "@ + "http://127.0.0.1:"@);
    assert("Could not open http://127.0.0.1:"@ =~= "Could not open "@ + "http://127.0.0.1:"@);
    if let StartFailure::BadUrl { port } = failure {
        assert(start_failure_text(failure, detail) =~= "Invalid URL http://127.0.0.1:"@ + decimal(
            port as nat,
        ) + ": "@ + detail);
    }
    if let StartFailure::NotOpened { port } = failure {
        assert(start_failure_text(failure, detail) =~= "Could not open http://127.0.0.1:"@
            + decimal(port as nat) + ": "@ + detail);
    }
}

/// The splash text changes before the wait for R, and before no other step.
pub proof fn the_wait_is_announced(stage: StartStageSpec)
    ensures
        step_status(stage) is Some <==> stage is AwaitServing,
        stage is AwaitServing ==> step_status(stage) == Some(
            "Starting the forecasting environment\u{2026}"@,
        ),
{
}

/// Each event has one answer: a start is kept, a failure is shown, and only an exit ends R.
/// A failure and anything else leave a running R alone.
pub proof fn each_event_has_its_answer(holding: bool, event: AppEvent)
    ensures
        reaction(holding, event).1 == AppAction::Keep <==> event == AppEvent::Started,
        reaction(holding, event).1 == AppAction::ShowError <==> event == AppEvent::NotStarted,
        reaction(holding, event).1 == AppAction::Kill <==> event == AppEvent::Exit && holding,
        event == AppEvent::Started ==> reaction(holding, event).0,
        event == AppEvent::NotStarted || event == AppEvent::Other ==> reaction(holding, event).0
            == holding,
{
}

/// Once R serves, the window is taken to the address as it was parsed, whatever that is,
/// and the process and its port stay what they are, also when the app is open.
pub proof fn window_is_taken_to_the_parsed_address(
    child: u32,
    port: u16,
    url: Seq<char>,
    detail: Seq<char>,
)
    ensures
        ({
            let opening = serving_next(child, port, Ok(url));
            &&& step_action(opening) == Some(StartActionSpec::Navigate { label: "main"@, url })
            &&& next_start(opening, StartReplySpec::Done) == (StartStageSpec::Running {
                child,
                port,
            })
            &&& next_start(opening, StartReplySpec::Failed(detail)) == (StartStageSpec::Failed {
                failure: StartFailure::NotOpened { port },
                detail,
            })
            &&& serving_next(child, port, Err(detail)) == (StartStageSpec::Failed {
                failure: StartFailure::BadUrl { port },
                detail,
            })
        }),
{
}

} // verus!
