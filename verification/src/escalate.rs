//! The host side of the escalation protocol: a process inside the sandbox asks
//! the host to run one program outside of it.
//!
//! A session is a state machine. The caller owns the sockets and the child
//! process; it feeds what happened to `step` and performs the action that
//! comes back.

use crate::exec::ExecExpiration;
use crate::exec::ExecToolCallOutput;
use crate::exec::utf8_lossy;
use crate::exec_env::apply_boxlite_runtime_env;
use crate::exec_env::env_set;
use crate::exec_env::env_view;
use crate::exec_env::spec_apply_runtime_env;
use crate::paths::absolutize;
use crate::policy::decide;
use crate::policy::is_trusted;
use crate::policy::spec_decide;
use crate::policy::AskForApproval;
use crate::policy::PolicyOutcome;
use crate::policy::SandboxPolicy;
use crate::policy::TrustedCommand;
use crate::paths::absolutized;
use crate::paths::spec_is_absolute;
use crate::sandboxing::CommandSpec;
use crate::sandboxing::SandboxPermissions;
use crate::strmap::StrMap;
use crate::text::i32_to_string;
use crate::text::signed_decimal;
use crate::text::words;
use vstd::prelude::*;

verus! {

/// Exit code reported when the child was reaped without one.
pub const EXIT_CODE_NOT_REAPED: i32 = 127;

/// What the host decided for one request.
pub enum EscalateAction {
    /// The caller runs the program itself, inside the sandbox.
    Run,
    /// The host runs the program outside the sandbox.
    Escalate,
    /// The program is not run at all.
    Deny { reason: Option<String> },
}

pub struct EscalateRequest {
    pub file: String,
    pub argv: Vec<String>,
    pub workdir: String,
    pub env: StrMap<String>,
}

pub struct EscalateResponse {
    pub action: EscalateAction,
}

/// The destination descriptor numbers for the descriptors that travel with
/// the message as ancillary data, in the same order.
pub struct SuperExecMessage {
    pub fds: Vec<i32>,
}

pub struct SuperExecResult {
    pub exit_code: i32,
}

/// Why a session ended without completing the protocol.
#[derive(PartialEq, Eq, Structural, Clone, Copy, Debug)]
pub enum SessionError {
    /// A message arrived that the current state does not expect.
    OutOfOrder,
    /// The message names `in_message` destinations, `received` descriptors came with it.
    FdCountMismatch { in_message: usize, received: usize },
    /// A destination number is also the number of a received descriptor.
    OverlappingFds,
    /// The request has no `argv[0]` to run the program under.
    EmptyArgv,
    /// The policy could not decide.
    PolicyFailed,
    /// The paths of the request could not be made absolute.
    PathResolution,
    /// The child could not be started.
    SpawnFailed,
    /// The socket broke.
    Transport,
    /// A handshake datagram came with `received` descriptors, not with one.
    HandshakeFdCount { received: usize },
}

/// One descriptor to put in place before the program starts: `dup2(src, dst)`.
#[derive(PartialEq, Eq, Structural, Clone, Copy, Debug)]
pub struct FdPair {
    pub src: i32,
    pub dst: i32,
}

/// Everything needed to start the escalated program.
pub struct SpawnPlan {
    pub program: String,
    pub arg0: String,
    pub args: Vec<String>,
    pub env: StrMap<String>,
    pub cwd: String,
    pub fd_map: Vec<FdPair>,
    /// Standard input is the null device: no pair has destination 0.
    pub stdin_null: bool,
    /// Standard output is the null device: no pair has destination 1.
    pub stdout_null: bool,
    /// Standard error is the null device: no pair has destination 2.
    pub stderr_null: bool,
}

pub enum SessionState {
    AwaitingRequest,
    AwaitingDecision { request: EscalateRequest },
    AwaitingSuperExec { request: EscalateRequest },
    AwaitingExit,
    Finished,
    Aborted { error: SessionError },
}

pub enum SessionEvent {
    /// The request arrived; its paths are absolute.
    Request { request: EscalateRequest },
    /// The policy decided.
    Decision { action: EscalateAction },
    /// The policy returned an error.
    PolicyFailed,
    /// The second message arrived, with the numbers of the descriptors that
    /// came with it.
    SuperExec { message: SuperExecMessage, received_fds: Vec<i32> },
    /// The child could not be started.
    SpawnFailed,
    /// The child was reaped.
    Exited { code: Option<i32> },
    /// Reading or writing the socket failed.
    TransportFailed,
}

pub enum SessionAction {
    Nothing,
    /// Ask the policy about the request held by the state.
    ConsultPolicy,
    /// Send the response to the client.
    Reply { response: EscalateResponse },
    /// Start the program.
    Spawn { plan: SpawnPlan },
    /// Send the result to the client.
    SendResult { result: SuperExecResult },
}

impl SessionState {
    pub open spec fn is_terminal(self) -> bool {
        self is Finished || self is Aborted
    }

    /// How far the protocol has come; it never goes back.
    pub open spec fn phase(self) -> nat {
        match self {
            SessionState::AwaitingRequest => 0,
            SessionState::AwaitingDecision { .. } => 1,
            SessionState::AwaitingSuperExec { .. } => 2,
            SessionState::AwaitingExit => 3,
            SessionState::Finished => 4,
            SessionState::Aborted { .. } => 4,
        }
    }

    pub fn terminal(&self) -> (r: bool)
        ensures
            r == self.is_terminal(),
    {
        match self {
            SessionState::Finished => true,
            SessionState::Aborted { .. } => true,
            _ => false,
        }
    }
}

/// Some destination number is also the number of a received descriptor.
pub open spec fn fds_overlap(dst: Seq<i32>, received: Seq<i32>) -> bool {
    exists|i: int, j: int| 0 <= i < dst.len() && 0 <= j < received.len() && dst[i] == received[j]
}

/// What `validate_fds` returns.
pub open spec fn spec_validate_fds(dst: Seq<i32>, received: Seq<i32>) -> Result<(), SessionError> {
    if dst.len() != received.len() {
        Err(
            SessionError::FdCountMismatch {
                in_message: dst.len() as usize,
                received: received.len() as usize,
            },
        )
    } else if fds_overlap(dst, received) {
        Err(SessionError::OverlappingFds)
    } else {
        Ok(())
    }
}

fn contains_fd(list: &Vec<i32>, fd: i32) -> (r: bool)
    ensures
        r == list@.contains(fd),
{
    let mut i: usize = 0;
    while i < list.len()
        invariant
            i <= list.len(),
            forall|j: int| 0 <= j < i ==> list@[j] != fd,
        decreases list.len() - i,
    {
        if list[i] == fd {
            return true;
        }
        i += 1;
    }
    false
}

/// Checks the descriptors of a `SuperExecMessage`: as many must have arrived
/// as the message names, and no destination may be the number of one that
/// arrived.
pub fn validate_fds(dst: &Vec<i32>, received: &Vec<i32>) -> (r: Result<(), SessionError>)
    ensures
        r == spec_validate_fds(dst@, received@),
{
    if dst.len() != received.len() {
        return Err(
            SessionError::FdCountMismatch { in_message: dst.len(), received: received.len() },
        );
    }
    let mut i: usize = 0;
    while i < dst.len()
        invariant
            i <= dst.len(),
            dst.len() == received.len(),
            forall|a: int, b: int|
                0 <= a < i && 0 <= b < received.len() ==> dst@[a] != received@[b],
        decreases dst.len() - i,
    {
        if contains_fd(received, dst[i]) {
            proof {
                let j = received@.index_of(dst@[i as int]);
                assert(0 <= j < received@.len() && dst@[i as int] == received@[j]);
                assert(fds_overlap(dst@, received@));
            }
            return Err(SessionError::OverlappingFds);
        }
        i += 1;
    }
    Ok(())
}

/// `plan` starts the program of `request` with the descriptors of the second
/// message in place.
pub open spec fn plan_matches(
    plan: SpawnPlan,
    request: EscalateRequest,
    dst: Seq<i32>,
    received: Seq<i32>,
) -> bool {
    &&& request.argv@.len() > 0
    &&& dst.len() == received.len()
    &&& plan.program == request.file
    &&& plan.arg0 == request.argv@[0]
    &&& plan.args@ == request.argv@.subrange(1, request.argv@.len() as int)
    &&& plan.env == request.env
    &&& plan.cwd == request.workdir
    &&& plan.fd_map@.len() == dst.len()
    &&& forall|i: int|
        0 <= i < dst.len() ==> #[trigger] plan.fd_map@[i] == (FdPair {
            src: received[i],
            dst: dst[i],
        })
    &&& plan.stdin_null == !dst.contains(0i32)
    &&& plan.stdout_null == !dst.contains(1i32)
    &&& plan.stderr_null == !dst.contains(2i32)
}

/// The exit code sent back for a child that was reaped with `code`.
pub open spec fn reported_exit_code(code: Option<i32>) -> i32 {
    match code {
        Some(c) => c,
        None => EXIT_CODE_NOT_REAPED,
    }
}

/// The transition relation of a session: in state `pre`, `event` leads to
/// `post` and asks the caller for `action`.
pub open spec fn transition(
    pre: SessionState,
    event: SessionEvent,
    post: SessionState,
    action: SessionAction,
) -> bool {
    if pre.is_terminal() {
        post == pre && action is Nothing
    } else if event is TransportFailed {
        post == (SessionState::Aborted { error: SessionError::Transport }) && action is Nothing
    } else {
        match (pre, event) {
            (SessionState::AwaitingRequest, SessionEvent::Request { request }) => {
                post == (SessionState::AwaitingDecision { request }) && action is ConsultPolicy
            },
            (SessionState::AwaitingDecision { request }, SessionEvent::Decision { action: decided }) => {
                &&& action == (SessionAction::Reply {
                    response: EscalateResponse { action: decided },
                })
                &&& post == if decided is Escalate {
                    SessionState::AwaitingSuperExec { request }
                } else {
                    SessionState::Finished
                }
            },
            (SessionState::AwaitingDecision { .. }, SessionEvent::PolicyFailed) => {
                post == (SessionState::Aborted { error: SessionError::PolicyFailed })
                    && action is Nothing
            },
            (
                SessionState::AwaitingSuperExec { request },
                SessionEvent::SuperExec { message, received_fds },
            ) => {
                match spec_validate_fds(message.fds@, received_fds@) {
                    Err(error) => post == (SessionState::Aborted { error }) && action is Nothing,
                    Ok(_) => if request.argv@.len() == 0 {
                        post == (SessionState::Aborted { error: SessionError::EmptyArgv })
                            && action is Nothing
                    } else {
                        &&& post is AwaitingExit
                        &&& action matches SessionAction::Spawn { plan }
                        &&& plan_matches(plan, request, message.fds@, received_fds@)
                    },
                }
            },
            (SessionState::AwaitingExit, SessionEvent::SpawnFailed) => {
                post == (SessionState::Aborted { error: SessionError::SpawnFailed })
                    && action is Nothing
            },
            (SessionState::AwaitingExit, SessionEvent::Exited { code }) => {
                &&& post is Finished
                &&& action == (SessionAction::SendResult {
                    result: SuperExecResult { exit_code: reported_exit_code(code) },
                })
            },
            _ => post == (SessionState::Aborted { error: SessionError::OutOfOrder })
                && action is Nothing,
        }
    }
}

fn pair_fds(dst: &Vec<i32>, received: &Vec<i32>) -> (pairs: Vec<FdPair>)
    requires
        dst.len() == received.len(),
    ensures
        pairs@.len() == dst.len(),
        forall|i: int|
            0 <= i < dst.len() ==> #[trigger] pairs@[i] == (FdPair {
                src: received@[i],
                dst: dst@[i],
            }),
{
    let mut pairs: Vec<FdPair> = Vec::new();
    let mut i: usize = 0;
    while i < dst.len()
        invariant
            i <= dst.len(),
            dst.len() == received.len(),
            pairs@.len() == i,
            forall|j: int|
                0 <= j < i ==> #[trigger] pairs@[j] == (FdPair {
                    src: received@[j],
                    dst: dst@[j],
                }),
        decreases dst.len() - i,
    {
        pairs.push(FdPair { src: received[i], dst: dst[i] });
        i += 1;
    }
    pairs
}

/// The plan for the program of `request`, once the descriptors were checked.
pub fn build_spawn_plan(request: EscalateRequest, dst: &Vec<i32>, received: &Vec<i32>) -> (plan:
    SpawnPlan)
    requires
        request.argv@.len() > 0,
        dst.len() == received.len(),
    ensures
        plan_matches(plan, request, dst@, received@),
{
    let EscalateRequest { file, argv, workdir, env } = request;
    let mut args = argv;
    let arg0 = args.remove(0);
    assert(args@ =~= request.argv@.subrange(1, request.argv@.len() as int));
    let fd_map = pair_fds(dst, received);
    SpawnPlan {
        program: file,
        arg0,
        args,
        env,
        cwd: workdir,
        fd_map,
        stdin_null: !contains_fd(dst, 0),
        stdout_null: !contains_fd(dst, 1),
        stderr_null: !contains_fd(dst, 2),
    }
}

/// One step of a session.
pub fn step(pre: SessionState, event: SessionEvent) -> (r: (SessionState, SessionAction))
    ensures
        transition(pre, event, r.0, r.1),
{
    if pre.terminal() {
        return (pre, SessionAction::Nothing);
    }
    if let SessionEvent::TransportFailed = event {
        return (SessionState::Aborted { error: SessionError::Transport }, SessionAction::Nothing);
    }
    match (pre, event) {
        (SessionState::AwaitingRequest, SessionEvent::Request { request }) => {
            (SessionState::AwaitingDecision { request }, SessionAction::ConsultPolicy)
        },
        (SessionState::AwaitingDecision { request }, SessionEvent::Decision { action }) => {
            let next = match action {
                EscalateAction::Escalate => SessionState::AwaitingSuperExec { request },
                _ => SessionState::Finished,
            };
            (next, SessionAction::Reply { response: EscalateResponse { action } })
        },
        (SessionState::AwaitingDecision { .. }, SessionEvent::PolicyFailed) => {
            (
                SessionState::Aborted { error: SessionError::PolicyFailed },
                SessionAction::Nothing,
            )
        },
        (
            SessionState::AwaitingSuperExec { request },
            SessionEvent::SuperExec { message, received_fds },
        ) => {
            match validate_fds(&message.fds, &received_fds) {
                Err(error) => (SessionState::Aborted { error }, SessionAction::Nothing),
                Ok(_) => {
                    if request.argv.len() == 0 {
                        (
                            SessionState::Aborted { error: SessionError::EmptyArgv },
                            SessionAction::Nothing,
                        )
                    } else {
                        let plan = build_spawn_plan(request, &message.fds, &received_fds);
                        (SessionState::AwaitingExit, SessionAction::Spawn { plan })
                    }
                },
            }
        },
        (SessionState::AwaitingExit, SessionEvent::SpawnFailed) => {
            (SessionState::Aborted { error: SessionError::SpawnFailed }, SessionAction::Nothing)
        },
        (SessionState::AwaitingExit, SessionEvent::Exited { code }) => {
            let exit_code = match code {
                Some(c) => c,
                None => EXIT_CODE_NOT_REAPED,
            };
            (
                SessionState::Finished,
                SessionAction::SendResult { result: SuperExecResult { exit_code } },
            )
        },
        _ => (SessionState::Aborted { error: SessionError::OutOfOrder }, SessionAction::Nothing),
    }
}

/// `resolved` is `request` with its two paths made absolute against `cwd`.
pub open spec fn resolves_to(request: EscalateRequest, cwd: Seq<char>, resolved: EscalateRequest) -> bool {
    &&& spec_is_absolute(cwd)
    &&& resolved.file@ == absolutized(request.file@, cwd)
    &&& spec_is_absolute(resolved.file@)
    &&& resolved.workdir@ == absolutized(request.workdir@, cwd)
    &&& spec_is_absolute(resolved.workdir@)
    &&& resolved.argv == request.argv
    &&& resolved.env == request.env
}

/// Takes the first message of a session: makes the program's path and the
/// working directory absolute against `cwd`, then steps with the request.
/// With a `cwd` that is not absolute itself the paths cannot be resolved,
/// and the session is aborted instead.
pub fn receive_request(pre: SessionState, request: EscalateRequest, cwd: &str) -> (r: (
    SessionState,
    SessionAction,
))
    ensures
        pre.is_terminal() ==> r.0 == pre && r.1 is Nothing,
        !pre.is_terminal() && !spec_is_absolute(cwd@) ==> r.0 == (SessionState::Aborted {
            error: SessionError::PathResolution,
        }) && r.1 is Nothing,
        !pre.is_terminal() && spec_is_absolute(cwd@) ==> exists|resolved: EscalateRequest| #[trigger]
            resolves_to(request, cwd@, resolved) && transition(
                pre,
                SessionEvent::Request { request: resolved },
                r.0,
                r.1,
            ),
{
    if pre.terminal() {
        return (pre, SessionAction::Nothing);
    }
    let EscalateRequest { file, argv, workdir, env } = request;
    let file = match absolutize(file.as_str(), cwd) {
        Some(p) => p,
        None => {
            return (
                SessionState::Aborted { error: SessionError::PathResolution },
                SessionAction::Nothing,
            );
        },
    };
    let workdir = match absolutize(workdir.as_str(), cwd) {
        Some(p) => p,
        None => {
            return (
                SessionState::Aborted { error: SessionError::PathResolution },
                SessionAction::Nothing,
            );
        },
    };
    let resolved = EscalateRequest { file, argv, workdir, env };
    assert(resolves_to(request, cwd@, resolved));
    step(pre, SessionEvent::Request { request: resolved })
}

/// Decides what becomes of a request. The host supplies the implementation.
pub trait EscalationPolicy {
    fn determine_action(&self, file: &str, argv: &Vec<String>, workdir: &str) -> Result<
        EscalateAction,
        String,
    >;
}

/// A policy that gives the same answer to every request.
pub struct DeterministicEscalationPolicy {
    pub action: EscalateAction,
}

impl EscalateAction {
    /// A copy of the action.
    pub fn duplicate(&self) -> (r: Self)
        ensures
            r == *self,
    {
        match self {
            EscalateAction::Run => EscalateAction::Run,
            EscalateAction::Escalate => EscalateAction::Escalate,
            EscalateAction::Deny { reason } => {
                let reason = match reason {
                    Some(text) => Some(text.clone()),
                    None => None,
                };
                EscalateAction::Deny { reason }
            },
        }
    }
}

impl EscalationPolicy for DeterministicEscalationPolicy {
    /// The policy's one answer, whatever the request.
    fn determine_action(&self, file: &str, argv: &Vec<String>, workdir: &str) -> (r: Result<
        EscalateAction,
        String,
    >)
        ensures
            r == Ok::<EscalateAction, String>(self.action),
    {
        Ok(self.action.duplicate())
    }
}

/// What the policy engine's outcome means for a request from inside the
/// sandbox: a command that may run sandboxed runs where it is; one that may
/// run unsandboxed is escalated; one that the user must approve is escalated
/// if `approved` says so and denied otherwise; one that is rejected is
/// denied, with the reason of the rejection.
pub open spec fn spec_action_for(outcome: PolicyOutcome, approved: bool) -> (bool, bool, Option<Seq<char>>) {
    match outcome {
        PolicyOutcome::RunSandboxed => (true, false, None),
        PolicyOutcome::RunUnsandboxed { .. } => (false, true, None),
        PolicyOutcome::AskUser { .. } => if approved {
            (false, true, None)
        } else {
            (false, false, None)
        },
        PolicyOutcome::Reject { reason } => (false, false, Some(reason.spec_as_str())),
    }
}

/// `action` is the action that `meant` describes: whether to run, whether to
/// escalate, and the reason of a denial.
pub open spec fn action_matches(action: EscalateAction, meant: (bool, bool, Option<Seq<char>>)) -> bool {
    &&& action is Run == meant.0
    &&& action is Escalate == meant.1
    &&& action matches EscalateAction::Deny { reason } ==> match meant.2 {
        Some(text) => reason matches Some(r) && r@ == text,
        None => reason is None,
    }
}

pub fn action_for(outcome: PolicyOutcome, approved: bool) -> (action: EscalateAction)
    ensures
        action_matches(action, spec_action_for(outcome, approved)),
{
    match outcome {
        PolicyOutcome::RunSandboxed => EscalateAction::Run,
        PolicyOutcome::RunUnsandboxed { .. } => EscalateAction::Escalate,
        PolicyOutcome::AskUser { .. } => if approved {
            EscalateAction::Escalate
        } else {
            EscalateAction::Deny { reason: None }
        },
        PolicyOutcome::Reject { reason } => EscalateAction::Deny {
            reason: Some(reason.as_str().to_string()),
        },
    }
}

/// A policy that asks the policy engine and never the user: what would need
/// an approval is denied.
pub struct EnginePolicy {
    pub sandbox_policy: SandboxPolicy,
    pub ask: AskForApproval,
    pub trusted: Vec<TrustedCommand>,
}

impl EnginePolicy {
    /// The engine's outcome for a command that was not flagged and is not a
    /// retry.
    pub open spec fn outcome(&self, argv: Seq<Seq<char>>, workdir: Seq<char>) -> PolicyOutcome {
        spec_decide(
            argv,
            workdir,
            self.sandbox_policy is DangerFullAccess,
            self.ask,
            is_trusted(argv, self.trusted@),
            false,
            false,
        )
    }

    /// What becomes of the command `argv` in `workdir`.
    pub fn action(&self, argv: &Vec<String>, workdir: &str) -> (action: EscalateAction)
        ensures
            action_matches(action, spec_action_for(self.outcome(words(argv@), workdir@), false)),
    {
        let outcome = decide(
            argv,
            workdir,
            &self.sandbox_policy,
            self.ask,
            &self.trusted,
            false,
            None,
        );
        action_for(outcome, false)
    }
}

impl EscalationPolicy for EnginePolicy {
    /// The engine always decides: the answer is the action that `action`
    /// gives for the command and its working directory. The program's path
    /// plays no part.
    fn determine_action(&self, file: &str, argv: &Vec<String>, workdir: &str) -> (r: Result<
        EscalateAction,
        String,
    >)
        ensures
            r matches Ok(action) && action_matches(
                action,
                spec_action_for(self.outcome(words(argv@), workdir@), false),
            ),
    {
        Ok(self.action(argv, workdir))
    }
}

/// Asks `policy` about the request that waits for a decision and steps with
/// its answer. In any other state nothing happens.
pub fn consult<P: EscalationPolicy>(pre: SessionState, policy: &P) -> (r: (
    SessionState,
    SessionAction,
))
    ensures
        !(pre is AwaitingDecision) ==> r.0 == pre && r.1 is Nothing,
        pre is AwaitingDecision ==> exists|event: SessionEvent|
            (event is Decision || event is PolicyFailed) && #[trigger] transition(
                pre,
                event,
                r.0,
                r.1,
            ),
{
    let answer = match &pre {
        SessionState::AwaitingDecision { request } => policy.determine_action(
            request.file.as_str(),
            &request.argv,
            request.workdir.as_str(),
        ),
        _ => {
            return (pre, SessionAction::Nothing);
        },
    };
    let event = match answer {
        Ok(action) => SessionEvent::Decision { action },
        Err(_) => SessionEvent::PolicyFailed,
    };
    step(pre, event)
}

/// What the server loop does with one handshake datagram.
pub enum HandshakeOutcome {
    /// Start a session on the stream socket behind this descriptor.
    StartSession { stream_fd: i32 },
    /// A protocol violation: report it and drop the datagram.
    Violation { error: SessionError },
}

/// A handshake carries exactly one descriptor, that of the session's stream
/// socket; any other count is a protocol violation.
pub fn accept_handshake(fds: &Vec<i32>) -> (r: HandshakeOutcome)
    ensures
        fds@.len() == 1 ==> r == (HandshakeOutcome::StartSession { stream_fd: fds@[0] }),
        fds@.len() != 1 ==> r == (HandshakeOutcome::Violation {
            error: SessionError::HandshakeFdCount { received: fds@.len() as usize },
        }),
{
    if fds.len() == 1 {
        HandshakeOutcome::StartSession { stream_fd: fds[0] }
    } else {
        HandshakeOutcome::Violation {
            error: SessionError::HandshakeFdCount { received: fds.len() },
        }
    }
}

/// The variable that tells the helper inside the sandbox under which
/// descriptor number it finds the control socket.
pub const ESCALATE_SOCKET_ENV_VAR: &'static str = "CODEX_ESCALATE_SOCKET";

/// The variable that tells the shell which program to run in place of every
/// program it is about to execute.
pub const EXEC_WRAPPER_ENV_VAR: &'static str = "EXEC_WRAPPER";

/// The older name of `EXEC_WRAPPER_ENV_VAR`, still set for older shells.
pub const LEGACY_BASH_EXEC_WRAPPER_ENV_VAR: &'static str = "BASH_EXEC_WRAPPER";

/// A shell command to run under the sandbox with escalation at hand.
pub struct ExecParams {
    pub command: String,
    pub workdir: String,
    pub timeout_ms: Option<u64>,
    /// Whether the shell is a login shell; it is unless this is `Some(false)`.
    pub login: Option<bool>,
}

/// What is reported of the shell command.
pub struct ExecResult {
    pub exit_code: i32,
    pub output: String,
    /// How long the command took, in milliseconds.
    pub duration_ms: u64,
    pub timed_out: bool,
}

impl ExecResult {
    /// The report for `output`: its exit code, the aggregate of its streams
    /// as text, its duration and whether it timed out.
    pub fn from_output(output: &ExecToolCallOutput) -> (r: Self)
        ensures
            r.exit_code == output.exit_code,
            r.output@ == utf8_lossy(output.aggregated_output.text@),
            r.duration_ms == output.duration_ms,
            r.timed_out == output.timed_out,
    {
        ExecResult {
            exit_code: output.exit_code,
            output: output.aggregated_output.text_lossy(),
            duration_ms: output.duration_ms,
            timed_out: output.timed_out,
        }
    }
}

/// Runs shell commands under the sandbox and serves the escalation requests
/// that come out of it.
pub struct EscalateServer<P: EscalationPolicy> {
    pub bash_path: String,
    pub execve_wrapper: String,
    pub policy: P,
}

/// The shell's option for a command: `-c`, or `-lc` for a login shell.
pub open spec fn shell_flag(login: Option<bool>) -> Seq<char> {
    if login == Some(false) {
        "-c"@
    } else {
        "-lc"@
    }
}

/// The environment of the shell: the host's, with the runtime directory
/// applied, then the control socket's descriptor number and the wrapper
/// under both of its names.
pub open spec fn server_env(
    host: Map<Seq<char>, Seq<char>>,
    runtime_dir: Option<Seq<char>>,
    socket_fd: i32,
    execve_wrapper: Seq<char>,
) -> Map<Seq<char>, Seq<char>> {
    spec_apply_runtime_env(host, runtime_dir).insert(
        ESCALATE_SOCKET_ENV_VAR@,
        signed_decimal(socket_fd as int),
    ).insert(EXEC_WRAPPER_ENV_VAR@, execve_wrapper).insert(
        LEGACY_BASH_EXEC_WRAPPER_ENV_VAR@,
        execve_wrapper,
    )
}

impl<P: EscalationPolicy> EscalateServer<P> {
    pub fn new(bash_path: String, execve_wrapper: String, policy: P) -> (server: Self)
        ensures
            server.bash_path == bash_path,
            server.execve_wrapper == execve_wrapper,
            server.policy == policy,
    {
        EscalateServer { bash_path, execve_wrapper, policy }
    }

    /// The invocation for `params`: the shell with the command as its
    /// argument, in the command's working directory, until the caller
    /// cancels, in the environment that `server_env` describes.
    /// `client_socket_fd` is the number under which the child inherits the
    /// control socket.
    pub fn exec(
        &self,
        params: ExecParams,
        host_env: StrMap<String>,
        runtime_dir: Option<&str>,
        client_socket_fd: i32,
    ) -> (spec: CommandSpec)
        ensures
            spec.program@ == self.bash_path@,
            words(spec.argv@) == seq![self.bash_path@, shell_flag(params.login), params.command@],
            spec.cwd == params.workdir,
            spec.expiration == ExecExpiration::Cancellation,
            spec.sandbox_permissions == SandboxPermissions::UseDefault,
            spec.justification is None,
            spec.arg0 is None,
            env_view(spec.env) == server_env(
                env_view(host_env),
                match runtime_dir {
                    Some(dir) => Some(dir@),
                    None => None,
                },
                client_socket_fd,
                self.execve_wrapper@,
            ),
    {
        let mut env = host_env;
        apply_boxlite_runtime_env(&mut env, runtime_dir);
        env_set(&mut env, ESCALATE_SOCKET_ENV_VAR.to_string(), i32_to_string(client_socket_fd));
        env_set(&mut env, EXEC_WRAPPER_ENV_VAR.to_string(), self.execve_wrapper.clone());
        env_set(
            &mut env,
            LEGACY_BASH_EXEC_WRAPPER_ENV_VAR.to_string(),
            self.execve_wrapper.clone(),
        );
        let ExecParams { command, workdir, timeout_ms: _, login } = params;
        let flag = match login {
            Some(false) => "-c".to_string(),
            _ => "-lc".to_string(),
        };
        let ghost flag_view = flag@;
        let ghost command_view = command@;
        let mut argv: Vec<String> = Vec::new();
        argv.push(self.bash_path.clone());
        argv.push(flag);
        argv.push(command);
        assert(words(argv@) =~= seq![self.bash_path@, flag_view, command_view]);
        CommandSpec {
            program: self.bash_path.clone(),
            argv,
            cwd: workdir,
            env,
            expiration: ExecExpiration::Cancellation,
            sandbox_permissions: SandboxPermissions::UseDefault,
            justification: None,
            arg0: None,
        }
    }
}

/// A run of a session: `states[i]` takes `events[i]` to `states[i + 1]` and
/// asks for `actions[i]`.
pub open spec fn is_run(
    states: Seq<SessionState>,
    events: Seq<SessionEvent>,
    actions: Seq<SessionAction>,
) -> bool {
    &&& states.len() == events.len() + 1
    &&& actions.len() == events.len()
    &&& forall|i: int|
        0 <= i < events.len() ==> transition(
            #[trigger] states[i],
            events[i],
            states[i + 1],
            actions[i],
        )
}

/// A step never goes back in the protocol; a step that asks the caller for
/// something moves forward, and each kind of action belongs to one phase.
pub proof fn lemma_step_moves_forward(
    pre: SessionState,
    event: SessionEvent,
    post: SessionState,
    action: SessionAction,
)
    requires
        transition(pre, event, post, action),
    ensures
        pre.phase() <= post.phase(),
        !(action is Nothing) ==> pre.phase() < post.phase(),
        action is ConsultPolicy ==> pre.phase() == 0,
        action is Reply ==> pre.phase() == 1,
        action is Spawn ==> pre.phase() == 2,
        action is SendResult ==> pre.phase() == 3,
{
}

/// Along a run the phase only grows.
pub proof fn lemma_run_moves_forward(
    states: Seq<SessionState>,
    events: Seq<SessionEvent>,
    actions: Seq<SessionAction>,
    i: int,
    j: int,
)
    requires
        is_run(states, events, actions),
        0 <= i <= j < states.len(),
    ensures
        states[i].phase() <= states[j].phase(),
    decreases j - i,
{
    if i < j {
        lemma_run_moves_forward(states, events, actions, i, j - 1);
        assert(transition(states[j - 1], events[j - 1], states[j - 1 + 1], actions[j - 1]));
        lemma_step_moves_forward(states[j - 1], events[j - 1], states[j], actions[j - 1]);
    }
}

/// In a run each message goes out at most once: two steps that ask for the
/// same kind of action are the same step. So one request gets at most one
/// response, one child and one result.
pub proof fn lemma_each_action_at_most_once(
    states: Seq<SessionState>,
    events: Seq<SessionEvent>,
    actions: Seq<SessionAction>,
    i: int,
    j: int,
)
    requires
        is_run(states, events, actions),
        0 <= i < actions.len(),
        0 <= j < actions.len(),
        !(actions[i] is Nothing),
        (actions[i] is ConsultPolicy && actions[j] is ConsultPolicy) || (actions[i] is Reply
            && actions[j] is Reply) || (actions[i] is Spawn && actions[j] is Spawn) || (
        actions[i] is SendResult && actions[j] is SendResult),
    ensures
        i == j,
{
    if i != j {
        let (a, b) = if i < j {
            (i, j)
        } else {
            (j, i)
        };
        assert(transition(states[a], events[a], states[a + 1], actions[a]));
        assert(transition(states[b], events[b], states[b + 1], actions[b]));
        lemma_step_moves_forward(states[a], events[a], states[a + 1], actions[a]);
        lemma_step_moves_forward(states[b], events[b], states[b + 1], actions[b]);
        lemma_run_moves_forward(states, events, actions, a + 1, b);
    }
}

/// After a response other than `Escalate` the session asks for nothing more:
/// no child is started and no further message is sent.
pub proof fn lemma_nothing_follows_run_or_deny(
    states: Seq<SessionState>,
    events: Seq<SessionEvent>,
    actions: Seq<SessionAction>,
    i: int,
    j: int,
)
    requires
        is_run(states, events, actions),
        0 <= i < j < actions.len(),
        actions[i] matches SessionAction::Reply { response } && !(response.action is Escalate),
    ensures
        actions[j] is Nothing,
        states[j + 1] is Finished,
    decreases j - i,
{
    assert(transition(states[i], events[i], states[i + 1], actions[i]));
    assert(states[i + 1] is Finished);
    if i + 1 < j {
        lemma_nothing_follows_run_or_deny(states, events, actions, i, j - 1);
    }
    assert(transition(states[j], events[j], states[j + 1], actions[j]));
}

/// A run that sent `Escalate` and finished exchanged the second message and
/// the result: after the response there is a step that takes a
/// `SuperExecMessage` naming as many destinations as descriptors arrived and
/// starts the child, and a later step that sends the `SuperExecResult`.
pub proof fn lemma_escalation_completes(
    states: Seq<SessionState>,
    events: Seq<SessionEvent>,
    actions: Seq<SessionAction>,
    i: int,
)
    requires
        is_run(states, events, actions),
        0 <= i < actions.len(),
        actions[i] matches SessionAction::Reply { response } && response.action is Escalate,
        states.last() is Finished,
    ensures
        exists|j: int, k: int|
            i < j < k < actions.len() && #[trigger] actions[j] is Spawn && (
            events[j] matches SessionEvent::SuperExec { message, received_fds } && message.fds@.len()
                == received_fds@.len()) && #[trigger] actions[k] is SendResult,
{
    assert(transition(states[i], events[i], states[i + 1], actions[i]));
    assert(states[i + 1] is AwaitingSuperExec);
    let j = lemma_leaves_state(states, events, actions, i + 1);
    assert(states[j].phase() == 2 && states[j + 1].phase() != 2);
    assert(transition(states[j], events[j], states[j + 1], actions[j]));
    lemma_run_moves_forward(states, events, actions, j + 1, states.len() - 1);
    assert(states[j + 1] is AwaitingExit) by {
        if !(states[j + 1] is AwaitingExit) {
            assert(states[j + 1] is Aborted);
            lemma_terminal_stays(states, events, actions, j + 1, states.len() - 1);
        }
    }
    let k = lemma_leaves_state(states, events, actions, j + 1);
    assert(transition(states[k], events[k], states[k + 1], actions[k]));
    assert(states[k + 1] is Finished) by {
        if !(states[k + 1] is Finished) {
            assert(states[k + 1] is Aborted);
            lemma_terminal_stays(states, events, actions, k + 1, states.len() - 1);
        }
    }
    assert(actions[j] is Spawn);
    assert(actions[k] is SendResult);
}

/// A terminal state is kept for the rest of the run.
pub proof fn lemma_terminal_stays(
    states: Seq<SessionState>,
    events: Seq<SessionEvent>,
    actions: Seq<SessionAction>,
    i: int,
    j: int,
)
    requires
        is_run(states, events, actions),
        0 <= i <= j < states.len(),
        states[i].is_terminal(),
    ensures
        states[j] == states[i],
    decreases j - i,
{
    if i < j {
        lemma_terminal_stays(states, events, actions, i, j - 1);
        assert(transition(states[j - 1], events[j - 1], states[j - 1 + 1], actions[j - 1]));
    }
}

/// From a state that is not terminal, a run that ends in a terminal state has
/// a first step that leaves the phase of `states[m]`.
proof fn lemma_leaves_state(
    states: Seq<SessionState>,
    events: Seq<SessionEvent>,
    actions: Seq<SessionAction>,
    m: int,
) -> (j: int)
    requires
        is_run(states, events, actions),
        0 <= m < states.len(),
        !states[m].is_terminal(),
        states.last().is_terminal(),
    ensures
        m <= j < actions.len(),
        states[j].phase() == states[m].phase(),
        states[j + 1].phase() != states[m].phase(),
    decreases states.len() - m,
{
    assert(m < states.len() - 1);
    if states[m + 1].phase() != states[m].phase() {
        m
    } else {
        lemma_leaves_state(states, events, actions, m + 1)
    }
}

} // verus!
