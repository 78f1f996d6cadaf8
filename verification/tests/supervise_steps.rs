use llama_rgui::status::ServerState;
use llama_rgui::supervise::{
    after_ready_probe, exit_notice, ready_action, stop_action, stop_begin, stop_next, ExitPoll, ReadyAction,
    ReadyPhase, StopAction, StopStage, STOP_POLLS,
};

#[test]
fn ready_wait_connects_then_checks_health() {
    let timeout = 180_000;
    let mut phase = ReadyPhase::Connecting;
    assert!(ready_action(phase, 0, timeout) == ReadyAction::Connect);
    let (p, pause) = after_ready_probe(phase, false);
    assert!(p == ReadyPhase::Connecting && pause);
    let (p, pause) = after_ready_probe(phase, true);
    assert!(p == ReadyPhase::CheckingHealth && !pause);
    phase = p;
    assert!(ready_action(phase, 500, timeout) == ReadyAction::CheckHealth);
    let (p, pause) = after_ready_probe(phase, false);
    assert!(p == ReadyPhase::CheckingHealth && pause);
    let (p, _) = after_ready_probe(phase, true);
    assert!(p == ReadyPhase::Ready);
    assert!(ready_action(p, 999_999, timeout) == ReadyAction::Finish(true));
}

#[test]
fn ready_wait_times_out() {
    assert!(ready_action(ReadyPhase::Connecting, 180_000, 180_000) == ReadyAction::Finish(false));
    assert!(ready_action(ReadyPhase::CheckingHealth, 180_001, 180_000) == ReadyAction::Finish(false));
    assert!(ready_action(ReadyPhase::CheckingHealth, 179_999, 180_000) == ReadyAction::CheckHealth);
}

#[test]
fn exit_notices() {
    assert!(exit_notice(ExitPoll::Running).is_none());
    let s = exit_notice(ExitPoll::Exited).unwrap();
    assert!(s.state == ServerState::Crashed);
    assert_eq!(s.message.as_deref(), Some("进程已退出"));
    assert!(s.pid.is_none() && s.port.is_none());
    let s = exit_notice(ExitPoll::Failed).unwrap();
    assert_eq!(s.message.as_deref(), Some("进程状态检查失败"));
}

#[test]
fn stop_of_a_stubborn_process() {
    let mut stage = stop_begin(true);
    assert!(stop_action(stage) == StopAction::SignalTerminate);
    let mut polls = 0;
    let mut pauses = 0;
    loop {
        match stop_action(stage) {
            StopAction::Poll => polls += 1,
            StopAction::SignalKill => break,
            StopAction::SignalTerminate => {}
            _ => panic!("unexpected action"),
        }
        let (next, pause) = stop_next(stage, ExitPoll::Running);
        if pause {
            pauses += 1;
        }
        stage = next;
    }
    assert_eq!(polls, STOP_POLLS);
    assert_eq!(pauses, 50);
    let (stage, _) = stop_next(stage, ExitPoll::Running);
    assert!(stage == StopStage::Reap);
    assert!(stop_action(stage) == StopAction::Wait);
    let (stage, _) = stop_next(stage, ExitPoll::Running);
    assert!(stop_action(stage) == StopAction::Nothing);
}

#[test]
fn stop_ends_when_process_exits() {
    let (stage, _) = stop_next(StopStage::Terminate, ExitPoll::Running);
    assert!(stage == StopStage::Polling { polls: 0 });
    let (stage, pause) = stop_next(stage, ExitPoll::Exited);
    assert!(stage == StopStage::Done && !pause);
    let (stage, _) = stop_next(StopStage::Polling { polls: 7 }, ExitPoll::Failed);
    assert!(stage == StopStage::Done);
}

#[test]
fn stop_without_pid_only_waits() {
    let stage = stop_begin(false);
    assert!(stage == StopStage::Reap);
    assert!(stop_action(stage) == StopAction::Wait);
}
