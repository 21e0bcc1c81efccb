use microhub::install::Reply;
use microhub::job::{
    assign_to_job, first_call, job_action, job_error, JobAction, JobFailure, JobStage,
    KILL_ON_JOB_CLOSE,
};
use microhub::launch::{
    session_expression, spawn_shiny, LaunchFacts, LaunchPlan, CREATE_NO_WINDOW,
};
use microhub::layout::{Location, Platform, Root};
use microhub::session_log::CapturedLog;
use microhub::startup::{
    after_serving, backend_target, backend_url, first_step, react, start_action, start_backend,
    start_error, start_status, AppAction, AppEvent, StartAction, StartFailure, StartReply,
    StartStage,
};
use microhub::waiting::{
    first_wait, shows_log, wait_action, wait_error, wait_for_backend, WaitAction, WaitFailure,
    WaitStage, CONNECT_TIMEOUT_MILLIS, REST_MILLIS, STARTUP_TIMEOUT, TAIL_LINES,
};

const FACTS: LaunchFacts = LaunchFacts {
    parent: 4711,
    port: 3838,
    home_is_dir: true,
    python_is_file: true,
    log_is_open: true,
};

const SERVE: &str = "shiny::runApp(appDir = \"C:/My App\", port = 3838, host = '127.0.0.1', launch.browser = FALSE)";

const WATCH: &str = "if (requireNamespace('later', quietly = TRUE)) { local({ parent <- 4711; watch <- function() { if (system2('kill', c('-0', parent), stdout = FALSE, stderr = FALSE) != 0) quit('no'); later::later(watch, 5) }; later::later(watch, 5) }) }; ";

fn launcher() -> Location {
    Location::at(Root::SearchDir(2)).join("Rscript")
}

fn shiny_app() -> Location {
    Location::at(Root::Resources).join("shinyapp")
}

fn plan_for(platform: Platform, prefix: &Location, shown: &str, facts: LaunchFacts) -> LaunchPlan {
    spawn_shiny(platform, prefix, &launcher(), &shiny_app(), shown, facts)
}

#[test]
fn r_serves_the_app_on_windows() {
    let prefix = Location::at(Root::Temporary).join("rt");
    let plan = plan_for(Platform::Windows, &prefix, "C:\\My App", FACTS);
    assert_eq!(plan.program, launcher());
    assert_eq!(plan.working_dir, shiny_app());
    assert_eq!(plan.args, vec!["--no-save", "--no-restore", "-e", SERVE]);
    assert_eq!(plan.settings.len(), 1);
    assert_eq!(plan.settings[0].name, "RETICULATE_PYTHON");
    assert_eq!(plan.settings[0].value, prefix.duplicate().join("python").join("python.exe"));
    assert_eq!(plan.creation_flags, Some(CREATE_NO_WINDOW));
    assert_eq!(CREATE_NO_WINDOW, 0x0800_0000);
    assert!(plan.in_job);
    assert!(plan.capture_output);
}

#[test]
fn r_watches_its_parent_elsewhere() {
    let prefix = Location::at(Root::Temporary).join("rt");
    for platform in [Platform::MacOs, Platform::Other] {
        let plan = plan_for(platform, &prefix, "C:\\My App", FACTS);
        assert_eq!(plan.args[3], format!("{}{}", WATCH, SERVE));
        assert_eq!(plan.settings.len(), 2);
        assert_eq!(plan.settings[0].name, "R_HOME");
        assert_eq!(
            plan.settings[0].value,
            prefix.duplicate().join("R.framework").join("Resources")
        );
        assert_eq!(plan.settings[1].name, "RETICULATE_PYTHON");
        assert_eq!(plan.creation_flags, None);
        assert!(!plan.in_job);
    }
}

#[test]
fn r_is_told_only_of_what_is_there() {
    let prefix = Location::at(Root::Temporary).join("rt");
    let mut facts = FACTS;
    facts.home_is_dir = false;
    facts.python_is_file = false;
    facts.log_is_open = false;
    let plan = plan_for(Platform::MacOs, &prefix, "/a", facts);
    assert_eq!(plan.settings.len(), 0);
    assert!(!plan.capture_output);
}

#[test]
fn the_app_directory_is_quoted() {
    let prefix = Location::at(Root::Temporary).join("rt");
    let plan = plan_for(Platform::Windows, &prefix, "/a \"b\"\nc", FACTS);
    assert_eq!(
        plan.args[3],
        "shiny::runApp(appDir = \"/a \\\"b\\\"\\nc\", port = 3838, host = '127.0.0.1', launch.browser = FALSE)"
    );
    assert_eq!(session_expression(Platform::Windows, 1, "\"C:/My App\"", 3838), SERVE);
}

fn wait(timeout: u128, seen: &[(u128, Reply)]) -> WaitStage {
    let mut stage = first_wait();
    for (elapsed, reply) in seen {
        stage = wait_for_backend(timeout, *elapsed, stage, *reply);
    }
    stage
}

#[test]
fn waits_until_r_accepts() {
    let (y, n) = (Reply::Yes, Reply::No);
    let seen = [(0, y), (1, n), (2, y), (3, y), (4, y), (5, y)];
    let stages = [
        WaitStage::CheckClock,
        WaitStage::Connect,
        WaitStage::CheckProcess,
        WaitStage::Rest,
        WaitStage::CheckClock,
        WaitStage::Connect,
        WaitStage::Ready,
    ];
    for (i, stage) in stages.iter().enumerate() {
        assert_eq!(wait(100, &seen[..i]), *stage);
    }
}

#[test]
fn fails_fast_when_r_exits() {
    let (y, n) = (Reply::Yes, Reply::No);
    assert_eq!(
        wait(100, &[(0, y), (1, n), (2, n)]),
        WaitStage::Failed(WaitFailure::Exited)
    );
    assert_eq!(
        wait(100, &[(0, y), (1, Reply::Failed), (2, Reply::Failed), (3, y)]),
        WaitStage::Failed(WaitFailure::Unknown)
    );
}

#[test]
fn gives_up_at_the_limit() {
    let (y, n) = (Reply::Yes, Reply::No);
    assert_eq!(wait(0, &[(0, y)]), WaitStage::Failed(WaitFailure::TimedOut));
    assert_eq!(wait(100, &[(99, y)]), WaitStage::Connect);
    assert_eq!(wait(100, &[(100, y)]), WaitStage::Failed(WaitFailure::TimedOut));
    assert_eq!(
        wait(100, &[(0, y), (0, n), (0, y), (250, y), (250, y), (250, y)]),
        WaitStage::Failed(WaitFailure::TimedOut)
    );
    assert_eq!(STARTUP_TIMEOUT, 240_000_000_000);
    assert_eq!(CONNECT_TIMEOUT_MILLIS, 500);
    assert_eq!(REST_MILLIS, 250);
    assert_eq!(TAIL_LINES, 25);
}

#[test]
fn a_wait_says_what_to_look_at() {
    assert_eq!(wait_action(WaitStage::CheckClock, 3838), Some(WaitAction::LookAtClock));
    assert_eq!(
        wait_action(WaitStage::Connect, 3838),
        Some(WaitAction::Connect { host: [127, 0, 0, 1], port: 3838, timeout_millis: 500 })
    );
    assert_eq!(wait_action(WaitStage::CheckProcess, 3838), Some(WaitAction::LookAtProcess));
    assert_eq!(wait_action(WaitStage::Rest, 3838), Some(WaitAction::Rest { millis: 250 }));
    assert_eq!(wait_action(WaitStage::Ready, 3838), None);
    for failure in [WaitFailure::Exited, WaitFailure::Unknown, WaitFailure::TimedOut] {
        assert_eq!(wait_action(WaitStage::Failed(failure), 3838), None);
    }
}

#[test]
fn what_is_awaited_is_what_is_opened() {
    for port in [0, 80, 3838, u16::MAX] {
        if let Some(WaitAction::Connect { host, port, .. }) = wait_action(WaitStage::Connect, port) {
            let [a, b, c, d] = host;
            assert_eq!(backend_url(port), format!("http://{a}.{b}.{c}.{d}:{port}"));
        } else {
            panic!("a wait connects");
        }
    }
}

#[test]
fn a_failed_wait_is_explained() {
    let log = |content: &str| {
        Some(CapturedLog { path: "r.log".to_string(), content: Some(content.to_string()) })
    };
    assert_eq!(
        wait_error(WaitFailure::Exited, "exit status: 1", STARTUP_TIMEOUT, &log("one\ntwo\n")),
        "R exited before it started serving (exit status: 1).\n\nLast output from R (r.log):\none\ntwo"
    );
    assert_eq!(
        wait_error(WaitFailure::Unknown, "no child", STARTUP_TIMEOUT, &log("one\ntwo\n")),
        "Could not check on the R process: no child"
    );
    assert_eq!(
        wait_error(WaitFailure::TimedOut, "", STARTUP_TIMEOUT, &None),
        "R did not start listening within 240 seconds."
    );
    assert_eq!(
        wait_error(WaitFailure::TimedOut, "", 1_999_999_999, &log("x")),
        "R did not start listening within 1 seconds.\n\nLast output from R (r.log):\nx"
    );
    assert!(shows_log(WaitFailure::Exited));
    assert!(!shows_log(WaitFailure::Unknown));
    assert!(shows_log(WaitFailure::TimedOut));
}

#[test]
fn a_failed_wait_shows_the_last_lines() {
    let lines: Vec<String> = (1..=30).map(|i| format!("line {i}")).collect();
    let log = CapturedLog { path: "r.log".to_string(), content: Some(lines.join("\n")) };
    let message = wait_error(WaitFailure::TimedOut, "", STARTUP_TIMEOUT, &Some(log));
    let shown: Vec<&str> = message.lines().filter(|line| line.starts_with("line ")).collect();
    assert_eq!(shown.len(), 25);
    assert_eq!(shown[0], "line 6");
    assert_eq!(shown[24], "line 30");
}

fn good_replies() -> Vec<StartReply> {
    vec![
        StartReply::Done,
        StartReply::Done,
        StartReply::Found(launcher()),
        StartReply::Found(shiny_app()),
        StartReply::Port(3838),
        StartReply::Process(99),
        StartReply::Done,
        StartReply::Done,
    ]
}

fn start_with(replies: Vec<StartReply>) -> StartStage {
    let mut stage = first_step();
    for reply in replies {
        stage = start_backend(stage, reply);
    }
    stage
}

fn start_so_far(steps: usize) -> StartStage {
    start_with(good_replies().into_iter().take(steps).collect())
}

#[test]
fn the_start_takes_its_steps_in_order() {
    let url = || "http://127.0.0.1:3838/".to_string();
    let stages = vec![
        StartStage::FindWindow,
        StartStage::EnsureRuntime,
        StartStage::FindR,
        StartStage::FindApp { launcher: launcher() },
        StartStage::ReservePort { launcher: launcher(), app_dir: shiny_app() },
        StartStage::Spawn { launcher: launcher(), app_dir: shiny_app(), port: 3838 },
        StartStage::AwaitServing { child: 99, port: 3838 },
        StartStage::Navigate { child: 99, port: 3838, url: url() },
        StartStage::Running { child: 99, port: 3838 },
    ];
    for (steps, stage) in stages.into_iter().enumerate() {
        assert_eq!(start_so_far(steps), stage);
    }
    let running = StartStage::Running { child: 99, port: 3838 };
    assert_eq!(
        start_backend(running, StartReply::Failed("late".to_string())),
        StartStage::Running { child: 99, port: 3838 }
    );
    for steps in 0..=8 {
        let status = start_status(&start_so_far(steps));
        if steps == 6 {
            assert_eq!(status, Some("Starting the forecasting environment\u{2026}"));
        } else {
            assert_eq!(status, None);
        }
    }
}

#[test]
fn the_first_failure_ends_the_start() {
    let failures = [
        StartFailure::NoWindow,
        StartFailure::NoRuntime,
        StartFailure::NoR,
        StartFailure::NoApp,
        StartFailure::NoPort,
        StartFailure::NotStarted,
        StartFailure::NotServing,
        StartFailure::NotOpened { port: 3838 },
    ];
    for (steps, failure) in failures.into_iter().enumerate() {
        let failed = || StartStage::Failed { failure, detail: "why".to_string() };
        let mut replies = good_replies();
        replies[steps] = StartReply::Failed("why".to_string());
        assert_eq!(start_with(replies), failed());
        assert_eq!(start_backend(failed(), StartReply::Done), failed());
        assert_eq!(start_action(&failed()), None);
    }
}

#[test]
fn a_reply_to_another_question_is_a_failure() {
    assert_eq!(
        start_backend(first_step(), StartReply::Port(1)),
        StartStage::Failed { failure: StartFailure::NoWindow, detail: String::new() }
    );
    assert_eq!(
        start_backend(start_so_far(4), StartReply::Done),
        StartStage::Failed { failure: StartFailure::NoPort, detail: String::new() }
    );
}

#[test]
fn every_step_names_the_same_port() {
    let actions = vec![
        StartAction::FindWindow { label: "main" },
        StartAction::EnsureRuntime,
        StartAction::FindR,
        StartAction::FindApp,
        StartAction::ReservePort { host: [127, 0, 0, 1] },
        StartAction::Spawn { launcher: launcher(), app_dir: shiny_app(), port: 3838 },
        StartAction::Await { child: 99, port: 3838, timeout: 240_000_000_000 },
        StartAction::Navigate { label: "main", url: "http://127.0.0.1:3838/".to_string() },
    ];
    for (steps, action) in actions.into_iter().enumerate() {
        assert_eq!(start_action(&start_so_far(steps)), Some(action));
    }
    assert_eq!(start_action(&start_so_far(8)), None);
}

#[test]
fn a_failed_start_is_explained() {
    let say = |failure| start_error(failure, "why");
    assert_eq!(say(StartFailure::NoWindow), "main window is missing");
    assert_eq!(say(StartFailure::NoRuntime), "why");
    assert_eq!(
        say(StartFailure::NoR),
        "Could not find R. Install R, or set MICROHUB_R_BIN to the Rscript binary."
    );
    assert_eq!(
        say(StartFailure::NoApp),
        "Could not find the Shiny app directory. Set MICROHUB_APP_DIR for development."
    );
    assert_eq!(say(StartFailure::NoPort), "Could not reserve a port: why");
    assert_eq!(say(StartFailure::NotStarted), "Could not start R: why");
    assert_eq!(say(StartFailure::NotServing), "why");
    assert_eq!(
        say(StartFailure::BadUrl { port: 80 }),
        "Invalid URL http://127.0.0.1:80: why"
    );
    assert_eq!(
        say(StartFailure::NotOpened { port: 80 }),
        "Could not open http://127.0.0.1:80: why"
    );
}

#[test]
fn the_window_opens_the_address_in_its_normal_form() {
    assert_eq!(backend_url(3838), "http://127.0.0.1:3838");
    assert_eq!(backend_url(0), "http://127.0.0.1:0");
    assert_eq!(backend_target(3838), Ok("http://127.0.0.1:3838/".to_string()));
    assert_eq!(backend_target(80), Ok("http://127.0.0.1/".to_string()));
    for port in 0..=u16::MAX {
        assert!(backend_target(port).is_ok());
    }
}

#[test]
fn an_address_that_cannot_be_parsed_is_reported() {
    assert_eq!(
        after_serving(7, 1, Err("invalid port number".to_string())),
        StartStage::Failed {
            failure: StartFailure::BadUrl { port: 1 },
            detail: "invalid port number".to_string()
        }
    );
    assert_eq!(
        after_serving(7, 1, Ok("x".to_string())),
        StartStage::Navigate { child: 7, port: 1, url: "x".to_string() }
    );
}

#[test]
fn r_ends_with_the_app() {
    assert_eq!(react(false, AppEvent::Started), (true, AppAction::Keep));
    assert_eq!(react(true, AppEvent::Other), (true, AppAction::Ignore));
    assert_eq!(react(true, AppEvent::Exit), (false, AppAction::Kill));
    assert_eq!(react(false, AppEvent::Exit), (false, AppAction::Ignore));
    assert_eq!(react(false, AppEvent::NotStarted), (false, AppAction::ShowError));
    assert_eq!(react(true, AppEvent::NotStarted), (true, AppAction::ShowError));
}

#[test]
fn r_is_tied_to_the_app_call_by_call() {
    let calls = [
        (JobAction::Create, JobFailure::NotCreated, "CreateJobObjectW failed"),
        (
            JobAction::SetLimits { flags: 0x2000 },
            JobFailure::NotLimited,
            "SetInformationJobObject failed",
        ),
        (JobAction::AssignProcess, JobFailure::NotAssigned, "AssignProcessToJobObject failed"),
    ];
    let mut stage = first_call();
    for (call, failure, text) in calls {
        assert_eq!(job_action(stage), Some(call));
        let failed = JobStage::Failed(failure);
        assert_eq!(assign_to_job(stage, false), failed);
        assert_eq!(assign_to_job(failed, true), failed);
        assert_eq!(job_action(failed), None);
        assert_eq!(job_error(failure), text);
        stage = assign_to_job(stage, true);
    }
    assert_eq!(stage, JobStage::Assigned);
    assert_eq!(job_action(stage), None);
    assert_eq!(assign_to_job(stage, false), JobStage::Assigned);
}

#[test]
fn the_job_flag_is_that_of_the_system() {
    assert_eq!(
        KILL_ON_JOB_CLOSE,
        windows_sys::Win32::System::JobObjects::JOB_OBJECT_LIMIT_KILL_ON_JOB_CLOSE
    );
    assert_eq!(
        CREATE_NO_WINDOW,
        windows_sys::Win32::System::Threading::CREATE_NO_WINDOW
    );
}

#[test]
fn a_wait_that_rests_is_bounded() {
    let timeout: u128 = 10_000_000_000;
    let rest = REST_MILLIS as u128 * 1_000_000;
    let mut stage = first_wait();
    let (mut elapsed, mut rounds, mut looks): (u128, u128, u128) = (0, 0, 0);
    while stage != WaitStage::Failed(WaitFailure::TimedOut) {
        if stage == WaitStage::CheckClock {
            rounds += 1;
        }
        if stage == WaitStage::Rest {
            elapsed += rest;
        }
        let reply = if stage == WaitStage::Connect { Reply::No } else { Reply::Yes };
        stage = wait_for_backend(timeout, elapsed, stage, reply);
        looks += 1;
    }
    assert_eq!(rounds, 41);
    assert_eq!(looks, 4 * 40 + 1);
}
