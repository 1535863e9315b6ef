//! The orchestrator's decisions for one tool invocation: policy, approval,
//! plan, run, and at most one second run without the sandbox.
//!
//! The caller asks the user, builds the plan and runs the child; it feeds
//! what came of each to `step` and performs the action that comes back.

use crate::exec::ExecToolCallOutput;
use crate::exec::utf8_lossy;
use crate::policy::AskReason;
use crate::policy::PolicyOutcome;
use crate::policy::RejectReason;
use crate::sandboxing::LaunchError;
use crate::state::ApprovalDecision;
use vstd::prelude::*;

verus! {

/// The kinds of failure that an invocation can end with.
#[derive(PartialEq, Eq, Structural, Clone, Copy, Debug)]
pub enum ErrorKind {
    InvalidInput,
    PolicyRejected { reason: RejectReason },
    ApprovalDenied,
    ApprovalTimedOut,
    ApprovalCancelled,
    SandboxUnavailable,
    SandboxDenied,
    Timeout,
    Io,
    Protocol,
    Internal,
}

impl ErrorKind {
    pub open spec fn spec_is_retryable(self) -> bool {
        self is SandboxDenied
    }

    /// Whether an attempt that failed in this way may be tried again. Only a
    /// denial by the sandbox may.
    pub fn is_retryable(&self) -> (r: bool)
        ensures
            r == self.spec_is_retryable(),
    {
        match self {
            ErrorKind::SandboxDenied => true,
            _ => false,
        }
    }
}

impl ErrorKind {
    /// The name of the kind.
    pub open spec fn spec_name(self) -> Seq<char> {
        match self {
            ErrorKind::InvalidInput => "InvalidInput"@,
            ErrorKind::PolicyRejected { .. } => "PolicyRejected"@,
            ErrorKind::ApprovalDenied => "ApprovalDenied"@,
            ErrorKind::ApprovalTimedOut => "ApprovalTimedOut"@,
            ErrorKind::ApprovalCancelled => "ApprovalCancelled"@,
            ErrorKind::SandboxUnavailable => "SandboxUnavailable"@,
            ErrorKind::SandboxDenied => "SandboxDenied"@,
            ErrorKind::Timeout => "Timeout"@,
            ErrorKind::Io => "Io"@,
            ErrorKind::Protocol => "Protocol"@,
            ErrorKind::Internal => "Internal"@,
        }
    }

    pub fn name(&self) -> (s: &'static str)
        ensures
            s@ == self.spec_name(),
    {
        match self {
            ErrorKind::InvalidInput => "InvalidInput",
            ErrorKind::PolicyRejected { .. } => "PolicyRejected",
            ErrorKind::ApprovalDenied => "ApprovalDenied",
            ErrorKind::ApprovalTimedOut => "ApprovalTimedOut",
            ErrorKind::ApprovalCancelled => "ApprovalCancelled",
            ErrorKind::SandboxUnavailable => "SandboxUnavailable",
            ErrorKind::SandboxDenied => "SandboxDenied",
            ErrorKind::Timeout => "Timeout",
            ErrorKind::Io => "Io",
            ErrorKind::Protocol => "Protocol",
            ErrorKind::Internal => "Internal",
        }
    }
}

/// What the caller of a tool gets in the end.
pub struct ToolResult {
    /// What is shown: the output of the command, or the name of the error.
    pub content: String,
    pub success: bool,
    pub exit_code: Option<i32>,
    pub aggregated_output: Option<String>,
}

/// The result of an invocation that ended in `state`, with the output of its
/// last run if there was one. Only a command that exited with code zero is
/// a success. The exit code and the aggregate are reported whenever there is
/// an output; the content is the aggregate for a command that completed and
/// the name of the error otherwise.
pub fn structure_result(state: AttemptState, output: Option<&ExecToolCallOutput>) -> (r: ToolResult)
    ensures
        r.success == (state == (AttemptState::Completed { success: true })),
        r.exit_code == match output {
            Some(out) => Some(out.exit_code),
            None => None,
        },
        r.aggregated_output is Some == output is Some,
        output matches Some(out) ==> r.aggregated_output->0@ == utf8_lossy(
            out.aggregated_output.text@,
        ),
        r.content@ == match state {
            AttemptState::Fatal { error } => error.spec_name(),
            _ => match output {
                Some(out) => utf8_lossy(out.aggregated_output.text@),
                None => Seq::<char>::empty(),
            },
        },
{
    let (exit_code, aggregated_output) = match output {
        Some(out) => (Some(out.exit_code), Some(out.aggregated_output.text_lossy())),
        None => (None, None),
    };
    let content = match state {
        AttemptState::Fatal { error } => error.name().to_string(),
        _ => match &aggregated_output {
            Some(text) => text.clone(),
            None => String::new(),
        },
    };
    let success = match state {
        AttemptState::Completed { success } => success,
        _ => false,
    };
    ToolResult { content, success, exit_code, aggregated_output }
}

/// What the component that runs the tool allows.
#[derive(PartialEq, Eq, Structural, Clone, Copy, Debug)]
pub struct AttemptConfig {
    /// A denial by the sandbox may lead to a second run without it.
    pub escalate_on_failure: bool,
    /// The approval policy lets the user be asked at that point.
    pub may_prompt_on_failure: bool,
}

/// How the wait for an approval ended.
#[derive(PartialEq, Eq, Structural, Clone, Copy, Debug)]
pub enum ApprovalResult {
    Decided { decision: ApprovalDecision },
    TimedOut,
    Cancelled,
}

/// How a run ended.
#[derive(PartialEq, Eq, Structural, Clone, Copy, Debug)]
pub enum RunResult {
    /// The child exited; `success` says whether with code zero.
    Completed { success: bool },
    /// The sandbox stood in the child's way.
    Denied,
    /// The expiration fired.
    TimedOut,
    /// The child could not be run.
    Io,
}

#[derive(PartialEq, Eq, Structural, Clone, Copy, Debug)]
pub enum AttemptState {
    New,
    /// The user is being asked; `retry` says whether about a second run.
    Prompting { retry: bool },
    /// The plan is being built.
    Planning { sandboxed: bool },
    /// The child runs; `retried` says whether this is the second run.
    Running { sandboxed: bool, retried: bool },
    /// The invocation ended with a result; `success` says whether the child
    /// exited with code zero.
    Completed { success: bool },
    /// The invocation ended with an error.
    Fatal { error: ErrorKind },
}

#[allow(inconsistent_fields)]
#[derive(PartialEq, Eq, Structural, Clone, Copy, Debug)]
pub enum AttemptEvent {
    /// The policy engine's answer.
    Policy { outcome: PolicyOutcome },
    /// The answer of the approval gate, from the cache or from the user.
    Approval { result: ApprovalResult },
    /// The plan was built.
    Planned,
    /// No plan can be built.
    PlanFailed { error: LaunchError },
    /// The run ended.
    Ran { result: RunResult },
}

#[derive(PartialEq, Eq, Structural, Clone, Copy, Debug)]
pub enum AttemptAction {
    Nothing,
    /// Ask the approval gate; on a retry with the retry reason, past the cache.
    Ask { prompt: AskReason },
    /// Build the plan.
    BuildPlan { sandboxed: bool },
    /// Run the plan that was built.
    Run { sandboxed: bool },
    /// Run the command of the plan without the sandbox, in the plan's
    /// environment and working directory.
    RunWithoutSandbox,
    /// Report the end of the invocation.
    Finish,
}

impl AttemptState {
    pub open spec fn is_terminal(self) -> bool {
        self is Completed || self is Fatal
    }

    pub fn terminal(&self) -> (r: bool)
        ensures
            r == self.is_terminal(),
    {
        match self {
            AttemptState::Completed { .. } => true,
            AttemptState::Fatal { .. } => true,
            _ => false,
        }
    }
}

/// The error that a refused plan ends the invocation with.
pub open spec fn launch_error_kind(error: LaunchError) -> ErrorKind {
    match error {
        LaunchError::InvalidInput => ErrorKind::InvalidInput,
        LaunchError::SandboxUnavailable => ErrorKind::SandboxUnavailable,
    }
}

/// One step of an invocation. An event that the state does not expect ends
/// the invocation as `Internal`; a state that is terminal stays.
pub open spec fn spec_step(config: AttemptConfig, state: AttemptState, event: AttemptEvent) -> (
    AttemptState,
    AttemptAction,
) {
    match (state, event) {
        (AttemptState::Completed { .. }, _) => (state, AttemptAction::Nothing),
        (AttemptState::Fatal { .. }, _) => (state, AttemptAction::Nothing),
        (AttemptState::New, AttemptEvent::Policy { outcome }) => match outcome {
            PolicyOutcome::Reject { reason } => (
                AttemptState::Fatal {
                    error: if reason is InvalidInput {
                        ErrorKind::InvalidInput
                    } else {
                        ErrorKind::PolicyRejected { reason }
                    },
                },
                AttemptAction::Finish,
            ),
            PolicyOutcome::RunSandboxed => (
                AttemptState::Planning { sandboxed: true },
                AttemptAction::BuildPlan { sandboxed: true },
            ),
            PolicyOutcome::RunUnsandboxed { .. } => (
                AttemptState::Planning { sandboxed: false },
                AttemptAction::BuildPlan { sandboxed: false },
            ),
            PolicyOutcome::AskUser { prompt } => (
                AttemptState::Prompting { retry: false },
                AttemptAction::Ask { prompt },
            ),
        },
        (AttemptState::Prompting { retry: false }, AttemptEvent::Approval { result }) => match result {
            ApprovalResult::Decided { decision } => if decision.spec_is_approval() {
                (
                    AttemptState::Planning { sandboxed: true },
                    AttemptAction::BuildPlan { sandboxed: true },
                )
            } else {
                (AttemptState::Fatal { error: ErrorKind::ApprovalDenied }, AttemptAction::Finish)
            },
            ApprovalResult::TimedOut => (
                AttemptState::Fatal { error: ErrorKind::ApprovalTimedOut },
                AttemptAction::Finish,
            ),
            ApprovalResult::Cancelled => (
                AttemptState::Fatal { error: ErrorKind::ApprovalCancelled },
                AttemptAction::Finish,
            ),
        },
        (AttemptState::Prompting { retry: true }, AttemptEvent::Approval { result }) => match result {
            ApprovalResult::Decided { decision } => if decision.spec_is_approval() {
                (
                    AttemptState::Running { sandboxed: false, retried: true },
                    AttemptAction::RunWithoutSandbox,
                )
            } else {
                (AttemptState::Fatal { error: ErrorKind::SandboxDenied }, AttemptAction::Finish)
            },
            _ => (AttemptState::Fatal { error: ErrorKind::SandboxDenied }, AttemptAction::Finish),
        },
        (AttemptState::Planning { sandboxed }, AttemptEvent::Planned) => (
            AttemptState::Running { sandboxed, retried: false },
            AttemptAction::Run { sandboxed },
        ),
        (AttemptState::Planning { .. }, AttemptEvent::PlanFailed { error }) => (
            AttemptState::Fatal { error: launch_error_kind(error) },
            AttemptAction::Finish,
        ),
        (AttemptState::Running { sandboxed, retried }, AttemptEvent::Ran { result }) => match result {
            RunResult::Completed { success } => (
                AttemptState::Completed { success },
                AttemptAction::Finish,
            ),
            RunResult::TimedOut => (
                AttemptState::Fatal { error: ErrorKind::Timeout },
                AttemptAction::Finish,
            ),
            RunResult::Io => (AttemptState::Fatal { error: ErrorKind::Io }, AttemptAction::Finish),
            RunResult::Denied => if sandboxed && !retried && config.escalate_on_failure
                && config.may_prompt_on_failure {
                (AttemptState::Prompting { retry: true }, AttemptAction::Ask { prompt: AskReason::Retry })
            } else {
                (AttemptState::Fatal { error: ErrorKind::SandboxDenied }, AttemptAction::Finish)
            },
        },
        _ => (AttemptState::Fatal { error: ErrorKind::Internal }, AttemptAction::Finish),
    }
}

pub fn step(config: AttemptConfig, state: AttemptState, event: AttemptEvent) -> (r: (
    AttemptState,
    AttemptAction,
))
    ensures
        r == spec_step(config, state, event),
{
    match (state, event) {
        (AttemptState::Completed { .. }, _) => (state, AttemptAction::Nothing),
        (AttemptState::Fatal { .. }, _) => (state, AttemptAction::Nothing),
        (AttemptState::New, AttemptEvent::Policy { outcome }) => match outcome {
            PolicyOutcome::Reject { reason } => {
                let error = match reason {
                    RejectReason::InvalidInput => ErrorKind::InvalidInput,
                    _ => ErrorKind::PolicyRejected { reason },
                };
                (AttemptState::Fatal { error }, AttemptAction::Finish)
            },
            PolicyOutcome::RunSandboxed => (
                AttemptState::Planning { sandboxed: true },
                AttemptAction::BuildPlan { sandboxed: true },
            ),
            PolicyOutcome::RunUnsandboxed { .. } => (
                AttemptState::Planning { sandboxed: false },
                AttemptAction::BuildPlan { sandboxed: false },
            ),
            PolicyOutcome::AskUser { prompt } => (
                AttemptState::Prompting { retry: false },
                AttemptAction::Ask { prompt },
            ),
        },
        (AttemptState::Prompting { retry: false }, AttemptEvent::Approval { result }) => match result {
            ApprovalResult::Decided { decision } => if decision.is_approval() {
                (
                    AttemptState::Planning { sandboxed: true },
                    AttemptAction::BuildPlan { sandboxed: true },
                )
            } else {
                (AttemptState::Fatal { error: ErrorKind::ApprovalDenied }, AttemptAction::Finish)
            },
            ApprovalResult::TimedOut => (
                AttemptState::Fatal { error: ErrorKind::ApprovalTimedOut },
                AttemptAction::Finish,
            ),
            ApprovalResult::Cancelled => (
                AttemptState::Fatal { error: ErrorKind::ApprovalCancelled },
                AttemptAction::Finish,
            ),
        },
        (AttemptState::Prompting { retry: true }, AttemptEvent::Approval { result }) => match result {
            ApprovalResult::Decided { decision } => if decision.is_approval() {
                (
                    AttemptState::Running { sandboxed: false, retried: true },
                    AttemptAction::RunWithoutSandbox,
                )
            } else {
                (AttemptState::Fatal { error: ErrorKind::SandboxDenied }, AttemptAction::Finish)
            },
            _ => (AttemptState::Fatal { error: ErrorKind::SandboxDenied }, AttemptAction::Finish),
        },
        (AttemptState::Planning { sandboxed }, AttemptEvent::Planned) => (
            AttemptState::Running { sandboxed, retried: false },
            AttemptAction::Run { sandboxed },
        ),
        (AttemptState::Planning { .. }, AttemptEvent::PlanFailed { error }) => {
            let error = match error {
                LaunchError::InvalidInput => ErrorKind::InvalidInput,
                LaunchError::SandboxUnavailable => ErrorKind::SandboxUnavailable,
            };
            (AttemptState::Fatal { error }, AttemptAction::Finish)
        },
        (AttemptState::Running { sandboxed, retried }, AttemptEvent::Ran { result }) => match result {
            RunResult::Completed { success } => (
                AttemptState::Completed { success },
                AttemptAction::Finish,
            ),
            RunResult::TimedOut => (
                AttemptState::Fatal { error: ErrorKind::Timeout },
                AttemptAction::Finish,
            ),
            RunResult::Io => (AttemptState::Fatal { error: ErrorKind::Io }, AttemptAction::Finish),
            RunResult::Denied => if sandboxed && !retried && config.escalate_on_failure
                && config.may_prompt_on_failure {
                (AttemptState::Prompting { retry: true }, AttemptAction::Ask { prompt: AskReason::Retry })
            } else {
                (AttemptState::Fatal { error: ErrorKind::SandboxDenied }, AttemptAction::Finish)
            },
        },
        _ => (AttemptState::Fatal { error: ErrorKind::Internal }, AttemptAction::Finish),
    }
}

/// The first step of an invocation: what the policy's answer asks for.
pub fn start(config: AttemptConfig, outcome: PolicyOutcome) -> (r: (AttemptState, AttemptAction))
    ensures
        r == spec_step(config, AttemptState::New, AttemptEvent::Policy { outcome }),
{
    step(config, AttemptState::New, AttemptEvent::Policy { outcome })
}

/// The state after the events of `events`, one after the other.
pub open spec fn state_after(config: AttemptConfig, start: AttemptState, events: Seq<AttemptEvent>) -> AttemptState
    decreases events.len(),
{
    if events.len() == 0 {
        start
    } else {
        spec_step(config, state_after(config, start, events.drop_last()), events.last()).0
    }
}

/// The action that the `i`-th event of `events` asks for.
pub open spec fn action_at(
    config: AttemptConfig,
    start: AttemptState,
    events: Seq<AttemptEvent>,
    i: int,
) -> AttemptAction {
    spec_step(config, state_after(config, start, events.take(i)), events[i]).1
}

/// How far an invocation has come; no step goes back.
pub open spec fn progress(state: AttemptState) -> nat {
    match state {
        AttemptState::New => 0,
        AttemptState::Prompting { retry: false } => 1,
        AttemptState::Planning { .. } => 2,
        AttemptState::Running { retried: false, .. } => 3,
        AttemptState::Prompting { retry: true } => 4,
        AttemptState::Running { retried: true, .. } => 5,
        AttemptState::Completed { .. } => 6,
        AttemptState::Fatal { .. } => 6,
    }
}

/// A step never goes back, and a step that asks the caller for something
/// moves forward.
pub proof fn lemma_step_makes_progress(
    config: AttemptConfig,
    state: AttemptState,
    event: AttemptEvent,
)
    ensures
        progress(state) <= progress(spec_step(config, state, event).0),
        !(spec_step(config, state, event).1 is Nothing) ==> progress(state) < progress(
            spec_step(config, state, event).0,
        ),
        spec_step(config, state, event).1 is Nothing <==> state.is_terminal(),
{
}

/// Along any sequence of events the progress only grows.
pub proof fn lemma_progress_is_monotonic(
    config: AttemptConfig,
    start: AttemptState,
    events: Seq<AttemptEvent>,
    i: int,
    j: int,
)
    requires
        0 <= i <= j <= events.len(),
    ensures
        progress(state_after(config, start, events.take(i))) <= progress(
            state_after(config, start, events.take(j)),
        ),
    decreases j - i,
{
    if i < j {
        lemma_progress_is_monotonic(config, start, events, i, j - 1);
        assert(events.take(j).drop_last() =~= events.take(j - 1));
        lemma_step_makes_progress(
            config,
            state_after(config, start, events.take(j - 1)),
            events.take(j).last(),
        );
    }
}

/// A denial by the sandbox is retried at most once: whatever the events, the
/// caller is asked at most once to run without the sandbox after a denial,
/// and then only in answer to an approval.
pub proof fn lemma_at_most_one_retry(
    config: AttemptConfig,
    events: Seq<AttemptEvent>,
    i: int,
    j: int,
)
    requires
        0 <= i < events.len(),
        0 <= j < events.len(),
        action_at(config, AttemptState::New, events, i) is RunWithoutSandbox,
        action_at(config, AttemptState::New, events, j) is RunWithoutSandbox,
    ensures
        i == j,
        events[i] matches AttemptEvent::Approval { result } && result matches ApprovalResult::Decided {
            decision,
        } && decision.spec_is_approval(),
        config.escalate_on_failure && config.may_prompt_on_failure,
{
    let start = AttemptState::New;
    if i != j {
        let (a, b) = if i < j {
            (i, j)
        } else {
            (j, i)
        };
        assert(events.take(a + 1).drop_last() =~= events.take(a));
        assert(events.take(a + 1).last() == events[a]);
        lemma_progress_is_monotonic(config, start, events, a + 1, b);
    }
    lemma_retry_needs_permission(config, events, i);
}

/// The state in which the user is asked about a second run is reached only
/// where the component escalates on failure and the policy lets the user be
/// asked.
pub proof fn lemma_retry_needs_permission(config: AttemptConfig, events: Seq<AttemptEvent>, n: int)
    requires
        0 <= n <= events.len(),
        state_after(config, AttemptState::New, events.take(n)) == (AttemptState::Prompting {
            retry: true,
        }),
    ensures
        config.escalate_on_failure && config.may_prompt_on_failure,
    decreases n,
{
    if n > 0 {
        assert(events.take(n).drop_last() =~= events.take(n - 1));
        let before = state_after(config, AttemptState::New, events.take(n - 1));
        if before == (AttemptState::Prompting { retry: true }) {
            lemma_retry_needs_permission(config, events, n - 1);
        }
    }
}

/// An input that the policy rejects is never run: after a rejection no
/// event makes the caller build a plan or run anything.
pub proof fn lemma_rejected_is_never_run(
    config: AttemptConfig,
    reason: RejectReason,
    events: Seq<AttemptEvent>,
    i: int,
)
    requires
        events.len() > 0,
        events[0] == (AttemptEvent::Policy { outcome: PolicyOutcome::Reject { reason } }),
        0 <= i < events.len(),
    ensures
        !(action_at(config, AttemptState::New, events, i) is Run),
        !(action_at(config, AttemptState::New, events, i) is RunWithoutSandbox),
        !(action_at(config, AttemptState::New, events, i) is BuildPlan),
        i > 0 ==> action_at(config, AttemptState::New, events, i) is Nothing,
{
    let start = AttemptState::New;
    assert(events.take(1).drop_last() =~= events.take(0));
    assert(events.take(1).last() == events[0]);
    assert(state_after(config, start, events.take(0)) == start);
    if i > 0 {
        lemma_progress_is_monotonic(config, start, events, 1, i);
    } else {
        assert(events.take(0) =~= Seq::<AttemptEvent>::empty());
    }
}

} // verus!
