use tradeassembly_runtime::agent_runner::codex::{
    run_codex_command, CallAction, CallEvent, CallStage, CallStep, ChildPoll,
};
use tradeassembly_runtime::agent_runner::deployment::DEFAULT_RUN_TIMEOUT_MS;

fn polled(child: ChildPoll, elapsed_ms: u64) -> CallStep {
    run_codex_command(CallStage::Waiting, CallEvent::Polled { child, elapsed_ms })
}

fn ask(step: CallStep) -> (CallStage, CallAction) {
    match step {
        CallStep::Ask { stage, action } => (stage, action),
        CallStep::Finish(result) => panic!("finished: {result:?}"),
    }
}

fn finished(step: CallStep) -> Result<Option<String>, String> {
    match step {
        CallStep::Finish(result) => result,
        other => panic!("not finished: {other:?}"),
    }
}

#[test]
fn a_call_collects_the_output_of_a_process_that_succeeds() {
    let started = CallEvent::Spawned { readable: true };
    let (stage, action) = ask(run_codex_command(CallStage::Spawning, started));
    assert_eq!(action, CallAction::Poll);
    assert!(matches!(stage, CallStage::Waiting));
    let (_, action) = ask(polled(ChildPoll::Running, DEFAULT_RUN_TIMEOUT_MS - 1));
    assert_eq!(action, CallAction::PollLater);
    let (stage, action) = ask(polled(ChildPoll::Exited { success: true }, 10));
    assert_eq!(action, CallAction::Collect);
    let output = CallEvent::Output(Some("{\"é\": 1}".as_bytes().to_vec()));
    assert_eq!(
        finished(run_codex_command(stage, output)),
        Ok(Some("{\"é\": 1}".to_string()))
    );
    let (stage, _) = ask(polled(ChildPoll::Exited { success: false }, 10));
    let output = CallEvent::Output(Some(b"trace".to_vec()));
    assert_eq!(finished(run_codex_command(stage, output)), Ok(None));
}

#[test]
fn an_overdue_or_lost_process_is_ended() {
    let (stage, action) = ask(polled(ChildPoll::Running, DEFAULT_RUN_TIMEOUT_MS));
    assert_eq!(action, CallAction::End);
    assert_eq!(
        finished(run_codex_command(stage, CallEvent::Ended)),
        Err("codex_cli_timeout".to_string())
    );
    let (stage, action) = ask(polled(ChildPoll::Lost, 0));
    assert_eq!(action, CallAction::End);
    assert_eq!(
        finished(run_codex_command(stage, CallEvent::Ended)),
        Err("codex_cli_failed".to_string())
    );
}

#[test]
fn a_process_that_cannot_be_read_is_refused() {
    assert_eq!(
        finished(run_codex_command(CallStage::Spawning, CallEvent::Failed)),
        Err("codex_cli_unavailable".to_string())
    );
    let unreadable = CallEvent::Spawned { readable: false };
    assert_eq!(
        finished(run_codex_command(CallStage::Spawning, unreadable)),
        Err("codex_cli_output_invalid".to_string())
    );
    let invalid = CallEvent::Output(Some(vec![0xff, 0xfe]));
    assert_eq!(
        finished(run_codex_command(CallStage::Collecting { success: true }, invalid)),
        Err("codex_cli_output_invalid".to_string())
    );
    let lost = CallEvent::Output(None);
    assert_eq!(
        finished(run_codex_command(CallStage::Collecting { success: true }, lost)),
        Err("codex_cli_output_invalid".to_string())
    );
}
