//! Waiting for R to serve.
//!
//! The clock, the connection and the process are looked at from outside: a stage
//! says what to look at, the reply says what was seen, and `wait_for_backend` gives
//! the next stage.

use crate::install::Reply;
use crate::session_log::{log_note, log_tail, CapturedLog};
use crate::text::{
    decimal, decimal_is_canonical, decimal_reads_back, decimal_text, decimal_value,
};
use vstd::prelude::*;

verus! {

/// How long to wait for R to start listening before giving up, in nanoseconds.
pub const STARTUP_TIMEOUT: u128 = 240_000_000_000;

/// How long one attempt to connect may take, in milliseconds.
pub const CONNECT_TIMEOUT_MILLIS: u64 = 500;

/// How long to rest between two attempts, in milliseconds.
pub const REST_MILLIS: u64 = 250;

/// How many lines of the log an error message shows.
pub const TAIL_LINES: usize = 25;

/// Why R does not serve.
#[derive(Clone, Copy, Debug, PartialEq, Eq, Structural)]
pub enum WaitFailure {
    /// R exited before it started serving.
    Exited,
    /// It could not be found out whether R is still running.
    Unknown,
    /// R did not start listening in time.
    TimedOut,
}

/// What comes next in a wait.
#[derive(Clone, Copy, Debug, PartialEq, Eq, Structural)]
pub enum WaitStage {
    /// Look at the clock.
    CheckClock,
    /// Try to connect: `Yes` where the connection was accepted.
    Connect,
    /// Look at the process: `Yes` where it is running, `No` where it has exited.
    CheckProcess,
    /// Rest a little.
    Rest,
    /// R serves.
    Ready,
    /// R does not serve.
    Failed(WaitFailure),
}

/// The stage that follows `stage` when it went as `reply` says, `elapsed` into a wait
/// of `timeout`. The clock is looked at before every attempt, and the process after
/// every attempt that fails.
pub open spec fn next_wait(
    timeout: int,
    elapsed: int,
    stage: WaitStage,
    reply: Reply,
) -> WaitStage {
    match stage {
        WaitStage::CheckClock => if elapsed < timeout {
            WaitStage::Connect
        } else {
            WaitStage::Failed(WaitFailure::TimedOut)
        },
        WaitStage::Connect => if reply == Reply::Yes {
            WaitStage::Ready
        } else {
            WaitStage::CheckProcess
        },
        WaitStage::CheckProcess => match reply {
            Reply::Yes => WaitStage::Rest,
            Reply::No => WaitStage::Failed(WaitFailure::Exited),
            Reply::Failed => WaitStage::Failed(WaitFailure::Unknown),
        },
        WaitStage::Rest => WaitStage::CheckClock,
        WaitStage::Ready => stage,
        WaitStage::Failed(_) => stage,
    }
}

/// What to do or to find out.
#[derive(Clone, Copy, Debug, PartialEq, Eq)]
pub enum WaitAction {
    /// How long the wait has taken.
    LookAtClock,
    /// Whether a connection to this address is accepted within so many milliseconds.
    Connect { host: [u8; 4], port: u16, timeout_millis: u64 },
    /// Whether the process is running.
    LookAtProcess,
    /// Sleep for so many milliseconds.
    Rest { millis: u64 },
}

/// What a stage of a wait for R on `port` does. A wait that is over does nothing.
pub open spec fn stage_look(stage: WaitStage, port: u16) -> Option<WaitAction> {
    match stage {
        WaitStage::CheckClock => Some(WaitAction::LookAtClock),
        WaitStage::Connect => Some(
            WaitAction::Connect {
                host: [127, 0, 0, 1],
                port,
                timeout_millis: CONNECT_TIMEOUT_MILLIS,
            },
        ),
        WaitStage::CheckProcess => Some(WaitAction::LookAtProcess),
        WaitStage::Rest => Some(WaitAction::Rest { millis: REST_MILLIS }),
        WaitStage::Ready => None,
        WaitStage::Failed(_) => None,
    }
}

/// What a stage of a wait for R on `port` does. A wait that is over does nothing.
pub fn wait_action(stage: WaitStage, port: u16) -> (action: Option<WaitAction>)
    ensures
        action == stage_look(stage, port),
{
    match stage {
        WaitStage::CheckClock => Some(WaitAction::LookAtClock),
        WaitStage::Connect => Some(
            WaitAction::Connect {
                host: [127, 0, 0, 1],
                port,
                timeout_millis: CONNECT_TIMEOUT_MILLIS,
            },
        ),
        WaitStage::CheckProcess => Some(WaitAction::LookAtProcess),
        WaitStage::Rest => Some(WaitAction::Rest { millis: REST_MILLIS }),
        WaitStage::Ready => None,
        WaitStage::Failed(_) => None,
    }
}

/// The first stage of a wait.
pub fn first_wait() -> (stage: WaitStage)
    ensures
        stage == WaitStage::CheckClock,
{
    WaitStage::CheckClock
}

/// The stage that follows `stage` when it went as `reply` says. `timeout` and
/// `elapsed` are in nanoseconds.
pub fn wait_for_backend(timeout: u128, elapsed: u128, stage: WaitStage, reply: Reply) -> (next:
    WaitStage)
    ensures
        next == next_wait(timeout as int, elapsed as int, stage, reply),
{
    match (stage, reply) {
        (WaitStage::CheckClock, _) => if elapsed < timeout {
            WaitStage::Connect
        } else {
            WaitStage::Failed(WaitFailure::TimedOut)
        },
        (WaitStage::Connect, Reply::Yes) => WaitStage::Ready,
        (WaitStage::Connect, _) => WaitStage::CheckProcess,
        (WaitStage::CheckProcess, Reply::Yes) => WaitStage::Rest,
        (WaitStage::CheckProcess, Reply::No) => WaitStage::Failed(WaitFailure::Exited),
        (WaitStage::CheckProcess, Reply::Failed) => WaitStage::Failed(WaitFailure::Unknown),
        (WaitStage::Rest, _) => WaitStage::CheckClock,
        (WaitStage::Ready, _) => WaitStage::Ready,
        (WaitStage::Failed(failure), _) => WaitStage::Failed(failure),
    }
}

/// Whether the end of the log belongs to what the user is told about a failure.
pub open spec fn log_is_shown(failure: WaitFailure) -> bool {
    failure != WaitFailure::Unknown
}

/// Whether the end of the log belongs to what the user is told about a failure.
pub fn shows_log(failure: WaitFailure) -> (yes: bool)
    ensures
        yes == log_is_shown(failure),
{
    match failure {
        WaitFailure::Unknown => false,
        _ => true,
    }
}

/// What the user is told when R does not serve. `detail` is how R ended, or what the
/// system said; `tail` is the end of the log.
pub open spec fn wait_failure_text(
    failure: WaitFailure,
    detail: Seq<char>,
    timeout: nat,
    tail: Seq<char>,
) -> Seq<char> {
    match failure {
        WaitFailure::Exited => "R exited before it started serving ("@ + detail + ")."@ + tail,
        WaitFailure::Unknown => "Could not check on the R process: "@ + detail,
        WaitFailure::TimedOut => "R did not start listening within "@ + decimal(
            timeout / 1_000_000_000,
        ) + " seconds."@ + tail,
    }
}

/// What the user is told when R does not serve. `timeout` is in nanoseconds; `log` is
/// what R printed, and matters only where `shows_log` says so.
pub fn wait_error(
    failure: WaitFailure,
    detail: &str,
    timeout: u128,
    log: &Option<CapturedLog>,
) -> (message: String)
    ensures
        message@ == wait_failure_text(
            failure,
            detail@,
            timeout as nat,
            log_note(*log, TAIL_LINES as int),
        ),
{
    let mut message: String;
    match failure {
        WaitFailure::Exited => {
            message = "R exited before it started serving (".to_owned();
            message.append(detail);
            message.append(").");
            message.append(log_tail(log, TAIL_LINES).as_str());
        },
        WaitFailure::Unknown => {
            message = "Could not check on the R process: ".to_owned();
            message.append(detail);
        },
        WaitFailure::TimedOut => {
            message = "R did not start listening within ".to_owned();
            message.append(decimal_text(timeout / 1_000_000_000).as_str());
            message.append(" seconds.");
            message.append(log_tail(log, TAIL_LINES).as_str());
        },
    }
    message
}

/// Where the log is not shown, the message is the same whatever the log holds.
pub proof fn message_without_log(
    failure: WaitFailure,
    detail: Seq<char>,
    timeout: nat,
    tail: Seq<char>,
    other: Seq<char>,
)
    requires
        !log_is_shown(failure),
    ensures
        wait_failure_text(failure, detail, timeout, tail) == wait_failure_text(
            failure,
            detail,
            timeout,
            other,
        ),
{
}

/// What was seen at one stage of a wait, and when.
pub struct Seen {
    pub elapsed: int,
    pub reply: Reply,
}

/// The stage of a wait after what was seen.
pub open spec fn wait_after(timeout: int, seen: Seq<Seen>) -> WaitStage
    decreases seen.len(),
{
    if seen.len() == 0 {
        WaitStage::CheckClock
    } else {
        next_wait(
            timeout,
            seen.last().elapsed,
            wait_after(timeout, seen.drop_last()),
            seen.last().reply,
        )
    }
}

/// A wait reports that R serves only when a connection was accepted.
pub proof fn ready_means_connected(timeout: int, seen: Seq<Seen>)
    requires
        wait_after(timeout, seen) == WaitStage::Ready,
    ensures
        exists|i: int|
            0 <= i < seen.len() && wait_after(timeout, #[trigger] seen.take(i))
                == WaitStage::Connect && seen[i].reply == Reply::Yes,
    decreases seen.len(),
{
    let fewer = seen.drop_last();
    assert(seen.take(seen.len() - 1) =~= fewer);
    if wait_after(timeout, fewer) == WaitStage::Ready {
        ready_means_connected(timeout, fewer);
        let i = choose|i: int|
            0 <= i < fewer.len() && wait_after(timeout, #[trigger] fewer.take(i))
                == WaitStage::Connect && fewer[i].reply == Reply::Yes;
        assert(fewer.take(i) =~= seen.take(i));
    }
}

/// A wait gives up for want of time only when the clock has reached the limit.
pub proof fn time_out_means_late(timeout: int, seen: Seq<Seen>)
    requires
        wait_after(timeout, seen) == WaitStage::Failed(WaitFailure::TimedOut),
    ensures
        exists|i: int|
            0 <= i < seen.len() && wait_after(timeout, #[trigger] seen.take(i))
                == WaitStage::CheckClock && seen[i].elapsed >= timeout,
    decreases seen.len(),
{
    let fewer = seen.drop_last();
    assert(seen.take(seen.len() - 1) =~= fewer);
    if wait_after(timeout, fewer) == WaitStage::Failed(WaitFailure::TimedOut) {
        time_out_means_late(timeout, fewer);
        let i = choose|i: int|
            0 <= i < fewer.len() && wait_after(timeout, #[trigger] fewer.take(i))
                == WaitStage::CheckClock && fewer[i].elapsed >= timeout;
        assert(fewer.take(i) =~= seen.take(i));
    }
}

/// When R exits, the wait is over at once, whatever time is left.
pub proof fn exit_ends_the_wait(timeout: int, elapsed: int)
    ensures
        next_wait(timeout, elapsed, WaitStage::CheckProcess, Reply::No) == WaitStage::Failed(
            WaitFailure::Exited,
        ),
{
}

/// A connection that is accepted ends the wait at once, whatever time is left.
pub proof fn connection_ends_the_wait(timeout: int, elapsed: int)
    ensures
        next_wait(timeout, elapsed, WaitStage::Connect, Reply::Yes) == WaitStage::Ready,
{
}

/// A wait is over when R serves or does not.
pub open spec fn wait_is_over(stage: WaitStage) -> bool {
    stage is Ready || stage is Failed
}

/// A wait has something to do exactly as long as it is not over.
pub proof fn wait_acts_until_over(stage: WaitStage, port: u16)
    ensures
        stage_look(stage, port) is None <==> wait_is_over(stage),
{
}

/// How often the clock was looked at.
pub open spec fn rounds(timeout: int, seen: Seq<Seen>) -> int
    decreases seen.len(),
{
    if seen.len() == 0 {
        0
    } else {
        rounds(timeout, seen.drop_last()) + if wait_after(timeout, seen.drop_last())
            == WaitStage::CheckClock {
            1int
        } else {
            0int
        }
    }
}

/// The clock goes on by at least `rest` from one look to the next, as it does when the
/// wait rests that long after every failed attempt.
pub open spec fn rested(timeout: int, rest: int, seen: Seq<Seen>) -> bool {
    forall|i: int|
        0 <= i < seen.len() && wait_after(timeout, #[trigger] seen.take(i)) == WaitStage::CheckClock
            ==> seen[i].elapsed >= rest * rounds(timeout, seen.take(i))
}

/// A wait that rests between its attempts does not go on for ever: while it is not
/// over, all rests together but one fit into the time that it has.
pub proof fn wait_is_bounded(timeout: int, rest: int, seen: Seq<Seen>)
    requires
        rested(timeout, rest, seen),
        !wait_is_over(wait_after(timeout, seen)),
        rounds(timeout, seen) > 0,
    ensures
        rest * (rounds(timeout, seen) - 1) < timeout,
    decreases seen.len(),
{
    let fewer = seen.drop_last();
    assert(seen.take(seen.len() - 1) =~= fewer);
    if wait_after(timeout, fewer) != WaitStage::CheckClock {
        assert forall|i: int|
            0 <= i < fewer.len() && wait_after(timeout, #[trigger] fewer.take(i))
                == WaitStage::CheckClock implies fewer[i].elapsed >= rest * rounds(
            timeout,
            fewer.take(i),
        ) by {
            assert(fewer.take(i) =~= seen.take(i));
        }
        wait_is_bounded(timeout, rest, fewer);
    }
}

/// A wait takes four looks a round at most, so a bound on its rounds bounds it.
pub proof fn four_looks_a_round(timeout: int, seen: Seq<Seen>)
    requires
        !wait_is_over(wait_after(timeout, seen)),
    ensures
        seen.len() <= 4 * rounds(timeout, seen),
    decreases seen.len(),
{
    if seen.len() > 0 {
        lemma_looks(timeout, seen);
    }
}

/// How many looks of the current round are done.
spec fn done_in_round(stage: WaitStage) -> int {
    match stage {
        WaitStage::Connect => 1,
        WaitStage::CheckProcess => 2,
        WaitStage::Rest => 3,
        _ => 4,
    }
}

proof fn lemma_looks(timeout: int, seen: Seq<Seen>)
    requires
        seen.len() > 0,
        !wait_is_over(wait_after(timeout, seen)),
    ensures
        seen.len() == 4 * (rounds(timeout, seen) - 1) + done_in_round(wait_after(timeout, seen)),
    decreases seen.len(),
{
    let fewer = seen.drop_last();
    if fewer.len() > 0 {
        lemma_looks(timeout, fewer);
    } else {
        assert(fewer =~= Seq::empty());
        assert(wait_after(timeout, fewer) == WaitStage::CheckClock);
        assert(rounds(timeout, fewer) == 0);
    }
}

/// Whether a wait goes on after what was seen at look `i`, counted from the start. The
/// looks go round: at the clock, which must not have reached the limit; at the
/// connection, which is not accepted yet; at the process, which must be running; then
/// the rest, which ends nothing.
pub open spec fn keeps_waiting(timeout: int, i: int, seen: Seen) -> bool {
    &&& i % 4 == 0 ==> seen.elapsed < timeout
    &&& i % 4 == 1 ==> seen.reply != Reply::Yes
    &&& i % 4 == 2 ==> seen.reply == Reply::Yes
}

/// Nothing of what was seen ends the wait.
pub open spec fn nothing_ends_it(timeout: int, seen: Seq<Seen>) -> bool {
    forall|i: int| 0 <= i < seen.len() ==> keeps_waiting(timeout, i, #[trigger] seen[i])
}

/// While the process is running, the connection is not accepted and the clock has not
/// reached the limit, the wait goes on, round after round, however long it has taken.
pub proof fn wait_goes_on(timeout: int, seen: Seq<Seen>)
    requires
        nothing_ends_it(timeout, seen),
    ensures
        !wait_is_over(wait_after(timeout, seen)),
        wait_after(timeout, seen) == WaitStage::CheckClock <==> seen.len() % 4 == 0,
        wait_after(timeout, seen) == WaitStage::Connect <==> seen.len() % 4 == 1,
        wait_after(timeout, seen) == WaitStage::CheckProcess <==> seen.len() % 4 == 2,
        wait_after(timeout, seen) == WaitStage::Rest <==> seen.len() % 4 == 3,
    decreases seen.len(),
{
    if seen.len() > 0 {
        let fewer = seen.drop_last();
        assert forall|i: int| 0 <= i < fewer.len() implies keeps_waiting(
            timeout,
            i,
            #[trigger] fewer[i],
        ) by {
            assert(fewer[i] == seen[i]);
        }
        wait_goes_on(timeout, fewer);
        assert(keeps_waiting(timeout, seen.len() - 1, seen[seen.len() - 1]));
    }
}

/// The first thing that ends a wait decides how it ends, whatever is seen later: a clock
/// that has reached the limit, a connection that is accepted, a process that has exited,
/// or one that cannot be looked at.
pub proof fn first_end_decides(timeout: int, seen: Seq<Seen>, n: int)
    requires
        0 <= n < seen.len(),
        nothing_ends_it(timeout, seen.take(n)),
        !keeps_waiting(timeout, n, seen[n]),
    ensures
        n % 4 == 0 ==> wait_after(timeout, seen) == WaitStage::Failed(WaitFailure::TimedOut),
        n % 4 == 1 ==> wait_after(timeout, seen) == WaitStage::Ready,
        n % 4 == 2 && seen[n].reply == Reply::No ==> wait_after(timeout, seen)
            == WaitStage::Failed(WaitFailure::Exited),
        n % 4 == 2 && seen[n].reply == Reply::Failed ==> wait_after(timeout, seen)
            == WaitStage::Failed(WaitFailure::Unknown),
    decreases seen.len(),
{
    let fewer = seen.drop_last();
    if n == seen.len() - 1 {
        assert(seen.take(n) =~= fewer);
        wait_goes_on(timeout, fewer);
    } else {
        assert(fewer.take(n) =~= seen.take(n));
        first_end_decides(timeout, fewer, n);
    }
}

/// A wait reports that R has exited, or cannot be looked at, only where a look at the
/// process said just that.
pub proof fn failure_means_the_process_was_seen_so(timeout: int, seen: Seq<Seen>)
    ensures
        wait_after(timeout, seen) == WaitStage::Failed(WaitFailure::Exited) ==> exists|i: int|
            0 <= i < seen.len() && wait_after(timeout, #[trigger] seen.take(i))
                == WaitStage::CheckProcess && seen[i].reply == Reply::No,
        wait_after(timeout, seen) == WaitStage::Failed(WaitFailure::Unknown) ==> exists|i: int|
            0 <= i < seen.len() && wait_after(timeout, #[trigger] seen.take(i))
                == WaitStage::CheckProcess && seen[i].reply == Reply::Failed,
    decreases seen.len(),
{
    if seen.len() > 0 {
        let fewer = seen.drop_last();
        assert(seen.take(seen.len() - 1) =~= fewer);
        failure_means_the_process_was_seen_so(timeout, fewer);
        if wait_after(timeout, fewer) == WaitStage::Failed(WaitFailure::Exited) {
            let i = choose|i: int|
                0 <= i < fewer.len() && wait_after(timeout, #[trigger] fewer.take(i))
                    == WaitStage::CheckProcess && fewer[i].reply == Reply::No;
            assert(fewer.take(i) =~= seen.take(i));
        }
        if wait_after(timeout, fewer) == WaitStage::Failed(WaitFailure::Unknown) {
            let i = choose|i: int|
                0 <= i < fewer.len() && wait_after(timeout, #[trigger] fewer.take(i))
                    == WaitStage::CheckProcess && fewer[i].reply == Reply::Failed;
            assert(fewer.take(i) =~= seen.take(i));
        }
    }
}

/// The clock matters only where it is looked at: everywhere else two waits go on in the
/// same way, whatever their limits and the time.
pub proof fn time_matters_only_at_the_clock(
    stage: WaitStage,
    reply: Reply,
    timeout: int,
    elapsed: int,
    other_timeout: int,
    other_elapsed: int,
)
    requires
        stage != WaitStage::CheckClock,
    ensures
        next_wait(timeout, elapsed, stage, reply) == next_wait(
            other_timeout,
            other_elapsed,
            stage,
            reply,
        ),
{
}

/// What is connected to is this machine, on the port that was asked for, whichever it
/// is. One attempt and the rest after it take less than a second together.
pub proof fn the_asked_port_is_tried(stage: WaitStage, port: u16)
    ensures
        match stage_look(stage, port) {
            Some(WaitAction::Connect { host, port: tried, timeout_millis }) => {
                &&& stage == WaitStage::Connect
                &&& host@ == seq![127u8, 0, 0, 1]
                &&& tried == port
                &&& timeout_millis == 500
            },
            Some(WaitAction::Rest { millis }) => stage == WaitStage::Rest && millis == 250,
            Some(WaitAction::LookAtClock) => stage == WaitStage::CheckClock,
            Some(WaitAction::LookAtProcess) => stage == WaitStage::CheckProcess,
            None => stage is Ready || stage is Failed,
        },
{
}

/// A message about R that does not serve ends in the end of the log, unless the log is
/// left out.
pub proof fn message_ends_in_the_log(
    failure: WaitFailure,
    detail: Seq<char>,
    timeout: nat,
    tail: Seq<char>,
)
    requires
        log_is_shown(failure),
    ensures
        wait_failure_text(failure, detail, timeout, tail) == wait_failure_text(
            failure,
            detail,
            timeout,
            Seq::empty(),
        ) + tail,
        failure == WaitFailure::Exited || failure == WaitFailure::TimedOut,
{
    assert(wait_failure_text(failure, detail, timeout, tail) =~= wait_failure_text(
        failure,
        detail,
        timeout,
        Seq::empty(),
    ) + tail);
}

/// A message about R that exited, or that cannot be looked at, says how, as the system
/// said it, and does not depend on the limit.
pub proof fn message_says_what_the_system_said(
    detail: Seq<char>,
    timeout: nat,
    tail: Seq<char>,
)
    ensures
        wait_failure_text(WaitFailure::Exited, detail, timeout, tail)
            == "R exited before it started serving ("@ + detail + ")."@ + tail,
        wait_failure_text(WaitFailure::Unknown, detail, timeout, tail)
            == "Could not check on the R process: "@ + detail,
{
}

/// A message about R that is late names the whole seconds of the limit, whatever the
/// limit is, and does not depend on what the system said.
pub proof fn message_names_the_seconds(
    detail: Seq<char>,
    timeout: nat,
    tail: Seq<char>,
) -> (digits: Seq<char>)
    ensures
        wait_failure_text(WaitFailure::TimedOut, detail, timeout, tail)
            == "R did not start listening within "@ + digits + " seconds."@ + tail,
        forall|i: int| 0 <= i < digits.len() ==> '0' <= #[trigger] digits[i] <= '9',
        decimal_value(digits) * 1_000_000_000 <= timeout,
        timeout < (decimal_value(digits) + 1) * 1_000_000_000,
{
    let seconds = timeout / 1_000_000_000;
    decimal_reads_back(seconds);
    decimal_is_canonical(seconds);
    decimal(seconds)
}

} // verus!
