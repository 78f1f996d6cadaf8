//! Supervising a launched server: waiting until it is ready, noticing an
//! unexpected exit, and stopping it.  Each is a small state machine: the
//! caller performs the probe, pause or signal it asks for and reports back.
use vstd::prelude::*;
use crate::status::{ServerState, ServerStatus};

verus! {

/// Where a readiness wait stands: first the port must accept a connection,
/// then the health endpoint must answer with success.
#[derive(PartialEq, Eq, Structural, Clone, Copy)]
pub enum ReadyPhase {
    Connecting,
    CheckingHealth,
    Ready,
}

/// What a readiness wait asks for next.
#[derive(PartialEq, Eq, Structural, Clone, Copy)]
pub enum ReadyAction {
    /// Try to connect to the port.
    Connect,
    /// Ask the health endpoint.
    CheckHealth,
    /// The wait is over: ready, or timed out.
    Finish(bool),
}

/// The next step of a readiness wait `elapsed_ms` milliseconds after it
/// began, with a limit of `timeout_ms`: a probe of the current phase while
/// time is left, the end (not ready) once it is up; ready once the health
/// check passed.
pub fn ready_action(phase: ReadyPhase, elapsed_ms: u64, timeout_ms: u64) -> (a: ReadyAction)
    ensures
        a == match phase {
            ReadyPhase::Ready => ReadyAction::Finish(true),
            ReadyPhase::Connecting => if elapsed_ms < timeout_ms { ReadyAction::Connect } else { ReadyAction::Finish(false) },
            ReadyPhase::CheckingHealth => if elapsed_ms < timeout_ms { ReadyAction::CheckHealth } else { ReadyAction::Finish(false) },
        },
{
    match phase {
        ReadyPhase::Ready => ReadyAction::Finish(true),
        ReadyPhase::Connecting => if elapsed_ms < timeout_ms { ReadyAction::Connect } else { ReadyAction::Finish(false) },
        ReadyPhase::CheckingHealth => if elapsed_ms < timeout_ms { ReadyAction::CheckHealth } else { ReadyAction::Finish(false) },
    }
}

/// The phase after a probe of phase `phase` that succeeded (`ok`) or not,
/// and whether to pause before the next step: a connection moves on to the
/// health check at once; a passed health check makes the server ready; a
/// failed probe is repeated after a pause.
pub fn after_ready_probe(phase: ReadyPhase, ok: bool) -> (r: (ReadyPhase, bool))
    ensures
        r == match phase {
            ReadyPhase::Connecting => if ok { (ReadyPhase::CheckingHealth, false) } else { (ReadyPhase::Connecting, true) },
            ReadyPhase::CheckingHealth => if ok { (ReadyPhase::Ready, false) } else { (ReadyPhase::CheckingHealth, true) },
            ReadyPhase::Ready => (ReadyPhase::Ready, false),
        },
        r.0 == ready_step(phase, ok),
{
    match phase {
        ReadyPhase::Connecting => if ok { (ReadyPhase::CheckingHealth, false) } else { (ReadyPhase::Connecting, true) },
        ReadyPhase::CheckingHealth => if ok { (ReadyPhase::Ready, false) } else { (ReadyPhase::CheckingHealth, true) },
        ReadyPhase::Ready => (ReadyPhase::Ready, false),
    }
}

/// The phase after a probe of phase `phase` that succeeded (`ok`) or not.
pub open spec fn ready_step(phase: ReadyPhase, ok: bool) -> ReadyPhase {
    match phase {
        ReadyPhase::Connecting => if ok { ReadyPhase::CheckingHealth } else { ReadyPhase::Connecting },
        ReadyPhase::CheckingHealth => if ok { ReadyPhase::Ready } else { ReadyPhase::CheckingHealth },
        ReadyPhase::Ready => ReadyPhase::Ready,
    }
}

/// The phase of a readiness wait after probes with outcomes `oks`, in order.
pub open spec fn phase_after(oks: Seq<bool>) -> ReadyPhase
    decreases oks.len(),
{
    if oks.len() == 0 {
        ReadyPhase::Connecting
    } else {
        ready_step(phase_after(oks.drop_last()), oks.last())
    }
}

/// How many of the probes succeeded.
pub open spec fn successes(oks: Seq<bool>) -> nat
    decreases oks.len(),
{
    if oks.len() == 0 {
        0
    } else {
        successes(oks.drop_last()) + if oks.last() { 1nat } else { 0nat }
    }
}

/// Readiness takes two stages: the first successful probe is a connection
/// to the port and leads to the health check, the second is a passed health
/// check and makes the server ready; failed probes change nothing.
pub proof fn readiness_takes_two_stages(oks: Seq<bool>)
    ensures
        phase_after(oks) == if successes(oks) == 0 {
            ReadyPhase::Connecting
        } else if successes(oks) == 1 {
            ReadyPhase::CheckingHealth
        } else {
            ReadyPhase::Ready
        },
    decreases oks.len(),
{
    if oks.len() > 0 {
        readiness_takes_two_stages(oks.drop_last());
    }
}

/// What asking a child process whether it has exited gave.
#[derive(PartialEq, Eq, Structural, Clone, Copy)]
pub enum ExitPoll {
    Exited,
    Running,
    Failed,
}

/// A crash notice with message `msg` and no details.
pub open spec fn crash_notice(st: ServerStatus, msg: Seq<char>) -> bool {
    &&& st.state == ServerState::Crashed
    &&& st.message matches Some(m) && m@ == msg
    &&& st.pid is None && st.port is None && st.host is None && st.model is None && st.started_at is None
}

/// The status to announce after polling a running server: it crashed when
/// the process has exited or its state could not be read; nothing while it runs.
pub fn exit_notice(poll: ExitPoll) -> (s: Option<ServerStatus>)
    ensures
        match poll {
            ExitPoll::Running => s is None,
            ExitPoll::Exited => s matches Some(st) && crash_notice(st, "进程已退出"@),
            ExitPoll::Failed => s matches Some(st) && crash_notice(st, "进程状态检查失败"@),
        },
{
    match poll {
        ExitPoll::Running => None,
        ExitPoll::Exited => Some(ServerStatus::notice(ServerState::Crashed, Some(String::from_str("进程已退出")))),
        ExitPoll::Failed => Some(ServerStatus::notice(ServerState::Crashed, Some(String::from_str("进程状态检查失败")))),
    }
}

/// How many times a terminated server is polled before it is killed.
pub const STOP_POLLS: u32 = 50;

/// Where stopping a server stands.
#[derive(PartialEq, Eq, Structural, Clone, Copy)]
pub enum StopStage {
    /// Send the terminate signal to the process group.
    Terminate,
    /// `polls` polls have found the process still running; at `STOP_POLLS`
    /// the kill signal is sent.
    Polling { polls: u32 },
    /// Wait for the process to be gone.
    Reap,
    Done,
}

/// What stopping a server asks for next.
#[derive(PartialEq, Eq, Structural, Clone, Copy)]
pub enum StopAction {
    SignalTerminate,
    Poll,
    SignalKill,
    Wait,
    Nothing,
}

/// The first stage of stopping a server: signals go to its process group
/// when its process id is known; otherwise there is only the wait.
pub fn stop_begin(has_pid: bool) -> (s: StopStage)
    ensures
        s == if has_pid { StopStage::Terminate } else { StopStage::Reap },
{
    if has_pid { StopStage::Terminate } else { StopStage::Reap }
}

/// The action of stage `s` (as a spec function).
pub open spec fn stop_action_of(s: StopStage) -> StopAction {
    match s {
        StopStage::Terminate => StopAction::SignalTerminate,
        StopStage::Polling { polls } => if polls < STOP_POLLS { StopAction::Poll } else { StopAction::SignalKill },
        StopStage::Reap => StopAction::Wait,
        StopStage::Done => StopAction::Nothing,
    }
}

/// The action of stage `s`: poll while fewer than `STOP_POLLS` polls have
/// been made, then kill.
pub fn stop_action(s: StopStage) -> (a: StopAction)
    ensures
        a == stop_action_of(s),
{
    match s {
        StopStage::Terminate => StopAction::SignalTerminate,
        StopStage::Polling { polls } => if polls < STOP_POLLS { StopAction::Poll } else { StopAction::SignalKill },
        StopStage::Reap => StopAction::Wait,
        StopStage::Done => StopAction::Nothing,
    }
}

/// The stage after stage `s` performed its action (as a spec function).
pub open spec fn stop_next_of(s: StopStage, poll: ExitPoll) -> (StopStage, bool) {
    match s {
        StopStage::Terminate => (StopStage::Polling { polls: 0 }, false),
        StopStage::Polling { polls } => if polls < STOP_POLLS {
            match poll {
                ExitPoll::Running => (StopStage::Polling { polls: (polls + 1) as u32 }, true),
                _ => (StopStage::Done, false),
            }
        } else {
            (StopStage::Reap, false)
        },
        StopStage::Reap => (StopStage::Done, false),
        StopStage::Done => (StopStage::Done, false),
    }
}

/// The stage after stage `s` performed its action, and whether to pause
/// first; `poll` is what the poll gave when the action was one (it is not
/// looked at otherwise).  A process that has exited, or whose state cannot
/// be read, ends the stop at once; one still running is polled again after a
/// pause; after the kill signal the process is waited for.
pub fn stop_next(s: StopStage, poll: ExitPoll) -> (r: (StopStage, bool))
    ensures
        r == stop_next_of(s, poll),
{
    match s {
        StopStage::Terminate => (StopStage::Polling { polls: 0 }, false),
        StopStage::Polling { polls } => if polls < STOP_POLLS {
            match poll {
                ExitPoll::Running => (StopStage::Polling { polls: polls + 1 }, true),
                _ => (StopStage::Done, false),
            }
        } else {
            (StopStage::Reap, false)
        },
        StopStage::Reap => (StopStage::Done, false),
        StopStage::Done => (StopStage::Done, false),
    }
}

/// The stage reached from `s` after `k` steps whose polls all found the
/// process running.
pub open spec fn stop_while_running(s: StopStage, k: nat) -> StopStage
    decreases k,
{
    if k == 0 {
        s
    } else {
        stop_next_of(stop_while_running(s, (k - 1) as nat), ExitPoll::Running).0
    }
}

/// A server that never exits on its own: after the terminate signal it is
/// polled `STOP_POLLS` times, each time after the previous poll found it
/// running, and then killed and waited for; the stop then ends.
pub proof fn stop_kills_after_polls(k: nat)
    requires
        k <= STOP_POLLS,
    ensures
        stop_while_running(StopStage::Terminate, k + 1) == (StopStage::Polling { polls: k as u32 }),
        k < STOP_POLLS ==> stop_action_of(stop_while_running(StopStage::Terminate, k + 1)) == StopAction::Poll,
        stop_action_of(stop_while_running(StopStage::Terminate, STOP_POLLS as nat + 1)) == StopAction::SignalKill,
        stop_while_running(StopStage::Terminate, STOP_POLLS as nat + 2) == StopStage::Reap,
        stop_while_running(StopStage::Terminate, STOP_POLLS as nat + 3) == StopStage::Done,
{
    lemma_running_polls(k);
    lemma_running_polls(STOP_POLLS as nat);
    let n = STOP_POLLS as nat;
    assert(stop_while_running(StopStage::Terminate, n + 2)
        == stop_next_of(stop_while_running(StopStage::Terminate, n + 1), ExitPoll::Running).0);
    assert(stop_while_running(StopStage::Terminate, n + 3)
        == stop_next_of(stop_while_running(StopStage::Terminate, n + 2), ExitPoll::Running).0);
}

proof fn lemma_running_polls(k: nat)
    requires
        k <= STOP_POLLS,
    ensures
        stop_while_running(StopStage::Terminate, k + 1) == (StopStage::Polling { polls: k as u32 }),
    decreases k,
{
    if k > 0 {
        lemma_running_polls((k - 1) as nat);
        assert(stop_while_running(StopStage::Terminate, k + 1)
            == stop_next_of(stop_while_running(StopStage::Terminate, k), ExitPoll::Running).0);
    } else {
        assert(stop_while_running(StopStage::Terminate, 1)
            == stop_next_of(stop_while_running(StopStage::Terminate, 0), ExitPoll::Running).0);
    }
}

/// A stop that ends through a poll ends because that poll found the process
/// gone or unreadable: a running process is never given up on before the kill.
pub proof fn stop_ends_only_on_exit(s: StopStage, poll: ExitPoll)
    requires
        s matches StopStage::Polling { polls } && polls < STOP_POLLS,
    ensures
        stop_next_of(s, poll).0 == StopStage::Done <==> poll != ExitPoll::Running,
{
}

} // verus!
