use sandbox_exec::orchestrator::step;
use sandbox_exec::orchestrator::ApprovalResult;
use sandbox_exec::orchestrator::AttemptAction;
use sandbox_exec::orchestrator::AttemptConfig;
use sandbox_exec::orchestrator::AttemptEvent;
use sandbox_exec::orchestrator::AttemptState;
use sandbox_exec::orchestrator::ErrorKind;
use sandbox_exec::orchestrator::RunResult;
use sandbox_exec::policy::AskReason;
use sandbox_exec::policy::PolicyOutcome;
use sandbox_exec::policy::RejectConfig;
use sandbox_exec::policy::RejectReason;
use sandbox_exec::policy::UnsandboxedReason;
use sandbox_exec::sandboxing::LaunchError;
use sandbox_exec::state::ApprovalDecision;

const ESCALATING: AttemptConfig = AttemptConfig { escalate_on_failure: true, may_prompt_on_failure: true };

fn drive(config: AttemptConfig, events: &[AttemptEvent]) -> (AttemptState, Vec<AttemptAction>) {
    let mut state = AttemptState::New;
    let mut actions = Vec::new();
    for event in events {
        let (next, action) = step(config, state, *event);
        state = next;
        actions.push(action);
    }
    (state, actions)
}

fn approved(decision: ApprovalDecision) -> AttemptEvent {
    AttemptEvent::Approval { result: ApprovalResult::Decided { decision } }
}

#[test]
fn a_sandboxed_run_that_succeeds() {
    let (state, actions) = drive(ESCALATING, &[
        AttemptEvent::Policy { outcome: PolicyOutcome::RunSandboxed },
        AttemptEvent::Planned,
        AttemptEvent::Ran { result: RunResult::Completed { success: true } },
    ]);
    assert_eq!(state, AttemptState::Completed { success: true });
    assert_eq!(actions, vec![AttemptAction::BuildPlan { sandboxed: true }, AttemptAction::Run { sandboxed: true }, AttemptAction::Finish]);
}

#[test]
fn a_failing_command_is_a_result_not_an_error() {
    let (state, _) = drive(ESCALATING, &[
        AttemptEvent::Policy { outcome: PolicyOutcome::RunUnsandboxed { reason: UnsandboxedReason::Policy } },
        AttemptEvent::Planned,
        AttemptEvent::Ran { result: RunResult::Completed { success: false } },
    ]);
    assert_eq!(state, AttemptState::Completed { success: false });
}

#[test]
fn rejections_are_final() {
    let (state, actions) = drive(ESCALATING, &[
        AttemptEvent::Policy { outcome: PolicyOutcome::Reject { reason: RejectReason::InvalidInput } },
        AttemptEvent::Planned,
        approved(ApprovalDecision::Approved),
    ]);
    assert_eq!(state, AttemptState::Fatal { error: ErrorKind::InvalidInput });
    assert_eq!(actions, vec![AttemptAction::Finish, AttemptAction::Nothing, AttemptAction::Nothing]);

    let config = RejectConfig { sandbox_approval: true, rules: true, mcp_elicitations: false };
    let reason = RejectReason::Configured(config);
    let (state, _) = drive(ESCALATING, &[AttemptEvent::Policy { outcome: PolicyOutcome::Reject { reason } }]);
    assert_eq!(state, AttemptState::Fatal { error: ErrorKind::PolicyRejected { reason } });
}

#[test]
fn the_user_decides_when_asked() {
    let ask = AttemptEvent::Policy { outcome: PolicyOutcome::AskUser { prompt: AskReason::NotTrusted } };
    let (state, actions) = drive(ESCALATING, &[ask, approved(ApprovalDecision::ApprovedForSession), AttemptEvent::Planned]);
    assert_eq!(state, AttemptState::Running { sandboxed: true, retried: false });
    assert_eq!(actions[0], AttemptAction::Ask { prompt: AskReason::NotTrusted });
    assert_eq!(actions[1], AttemptAction::BuildPlan { sandboxed: true });

    for (decision, error) in [(ApprovalDecision::Denied, ErrorKind::ApprovalDenied), (ApprovalDecision::Abort, ErrorKind::ApprovalDenied)] {
        let (state, _) = drive(ESCALATING, &[ask, approved(decision)]);
        assert_eq!(state, AttemptState::Fatal { error });
    }
    let (state, _) = drive(ESCALATING, &[ask, AttemptEvent::Approval { result: ApprovalResult::TimedOut }]);
    assert_eq!(state, AttemptState::Fatal { error: ErrorKind::ApprovalTimedOut });
    let (state, _) = drive(ESCALATING, &[ask, AttemptEvent::Approval { result: ApprovalResult::Cancelled }]);
    assert_eq!(state, AttemptState::Fatal { error: ErrorKind::ApprovalCancelled });
}

#[test]
fn a_denial_is_retried_once_after_approval() {
    let denied = AttemptEvent::Ran { result: RunResult::Denied };
    let (state, actions) = drive(ESCALATING, &[
        AttemptEvent::Policy { outcome: PolicyOutcome::RunSandboxed },
        AttemptEvent::Planned,
        denied,
        approved(ApprovalDecision::Approved),
        AttemptEvent::Ran { result: RunResult::Completed { success: true } },
    ]);
    assert_eq!(state, AttemptState::Completed { success: true });
    assert_eq!(actions[2], AttemptAction::Ask { prompt: AskReason::Retry });
    assert_eq!(actions[3], AttemptAction::RunWithoutSandbox);

    let (state, actions) = drive(ESCALATING, &[
        AttemptEvent::Policy { outcome: PolicyOutcome::RunSandboxed },
        AttemptEvent::Planned,
        denied,
        approved(ApprovalDecision::Approved),
        denied,
        approved(ApprovalDecision::Approved),
    ]);
    assert_eq!(state, AttemptState::Fatal { error: ErrorKind::SandboxDenied });
    assert_eq!(actions[4], AttemptAction::Finish);
    assert_eq!(actions[5], AttemptAction::Nothing);
}

#[test]
fn a_denial_is_surfaced_when_no_retry_is_allowed() {
    let events = [
        AttemptEvent::Policy { outcome: PolicyOutcome::RunSandboxed },
        AttemptEvent::Planned,
        AttemptEvent::Ran { result: RunResult::Denied },
    ];
    for config in [
        AttemptConfig { escalate_on_failure: false, may_prompt_on_failure: true },
        AttemptConfig { escalate_on_failure: true, may_prompt_on_failure: false },
    ] {
        let (state, actions) = drive(config, &events);
        assert_eq!(state, AttemptState::Fatal { error: ErrorKind::SandboxDenied });
        assert_eq!(actions[2], AttemptAction::Finish);
    }
    let (state, _) = drive(ESCALATING, &[events[0], events[1], events[2], approved(ApprovalDecision::Denied)]);
    assert_eq!(state, AttemptState::Fatal { error: ErrorKind::SandboxDenied });
    let (state, _) = drive(ESCALATING, &[events[0], events[1], events[2], AttemptEvent::Approval { result: ApprovalResult::TimedOut }]);
    assert_eq!(state, AttemptState::Fatal { error: ErrorKind::SandboxDenied });
    let unsandboxed = [
        AttemptEvent::Policy { outcome: PolicyOutcome::RunUnsandboxed { reason: UnsandboxedReason::Policy } },
        AttemptEvent::Planned,
        AttemptEvent::Ran { result: RunResult::Denied },
    ];
    let (state, _) = drive(ESCALATING, &unsandboxed);
    assert_eq!(state, AttemptState::Fatal { error: ErrorKind::SandboxDenied });
}

#[test]
fn timeouts_and_io_errors_are_never_retried() {
    let start = [AttemptEvent::Policy { outcome: PolicyOutcome::RunSandboxed }, AttemptEvent::Planned];
    let (state, _) = drive(ESCALATING, &[start[0], start[1], AttemptEvent::Ran { result: RunResult::TimedOut }]);
    assert_eq!(state, AttemptState::Fatal { error: ErrorKind::Timeout });
    let (state, _) = drive(ESCALATING, &[start[0], start[1], AttemptEvent::Ran { result: RunResult::Io }]);
    assert_eq!(state, AttemptState::Fatal { error: ErrorKind::Io });
    assert!(ErrorKind::SandboxDenied.is_retryable());
    assert!(!ErrorKind::Timeout.is_retryable());
    assert!(!ErrorKind::InvalidInput.is_retryable());
}

#[test]
fn a_plan_that_cannot_be_built_ends_the_invocation() {
    let start = AttemptEvent::Policy { outcome: PolicyOutcome::RunSandboxed };
    let (state, _) = drive(ESCALATING, &[start, AttemptEvent::PlanFailed { error: LaunchError::SandboxUnavailable }]);
    assert_eq!(state, AttemptState::Fatal { error: ErrorKind::SandboxUnavailable });
    let (state, _) = drive(ESCALATING, &[start, AttemptEvent::PlanFailed { error: LaunchError::InvalidInput }]);
    assert_eq!(state, AttemptState::Fatal { error: ErrorKind::InvalidInput });
}

#[test]
fn an_unexpected_event_is_an_internal_error() {
    let (state, actions) = drive(ESCALATING, &[AttemptEvent::Planned]);
    assert_eq!(state, AttemptState::Fatal { error: ErrorKind::Internal });
    assert_eq!(actions, vec![AttemptAction::Finish]);
    assert!(state.terminal());
    assert!(!AttemptState::New.terminal());
}
