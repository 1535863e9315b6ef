//! The endpoint that runs one command outside of any thread.

use crate::error::ApiError;
use crate::exec::ExecExpiration;
use crate::exec::ExecToolCallOutput;
use crate::exec::utf8_lossy;
use crate::paths::is_absolute;
use crate::paths::spec_is_absolute;
use crate::policy::SandboxPolicy;
use crate::sandboxing::CommandSpec;
use crate::sandboxing::SandboxPermissions;
use crate::sandboxing::SandboxType;
use crate::strmap::StrMap;
use crate::text::concat;
use vstd::prelude::*;

verus! {

/// How long a command may run, in milliseconds.
pub const COMMAND_TIMEOUT_MS: u64 = 10000;

pub struct ExecuteCommandRequest {
    pub command: Vec<String>,
    pub cwd: Option<String>,
}

pub struct ExecuteCommandResponse {
    pub stdout: String,
    pub stderr: String,
    pub exit_code: i32,
}

/// What the caller found of the working directory that the request names:
/// its canonical form, or why it has none.
pub enum CanonicalCwd {
    Resolved(String),
    Failed(String),
}

/// Why a command was not run.
pub enum ExecFailure {
    Timeout,
    InvalidRequest(String),
    UnsupportedOperation(String),
    Other(String),
}

/// The working directory of the command: the canonical form of the one that
/// the request names, which must be absolute, or the server's home.
pub fn resolve_cwd(requested: Option<CanonicalCwd>, codex_home: &str) -> (r: Result<String, ApiError>)
    ensures
        match requested {
            None => r matches Ok(dir) && dir@ == codex_home@,
            Some(CanonicalCwd::Failed(cause)) => r matches Err(ApiError::InvalidRequest(msg))
                && msg@ == "Invalid cwd: "@ + cause@,
            Some(CanonicalCwd::Resolved(dir)) => if spec_is_absolute(dir@) {
                r == Ok::<String, ApiError>(dir)
            } else {
                r matches Err(ApiError::InvalidRequest(msg)) && msg@
                    == "CWD must be an absolute path"@
            },
        },
{
    match requested {
        None => Ok(codex_home.to_string()),
        Some(CanonicalCwd::Failed(cause)) => Err(
            ApiError::InvalidRequest(concat("Invalid cwd: ", cause.as_str())),
        ),
        Some(CanonicalCwd::Resolved(dir)) => if is_absolute(dir.as_str()) {
            Ok(dir)
        } else {
            Err(ApiError::InvalidRequest("CWD must be an absolute path".to_string()))
        },
    }
}

/// What is answered under a policy that confines nothing.
pub const UNCONFINED_POLICY: &'static str = "Refusing to execute commands with sandbox_policy=DangerFullAccess/ExternalSandbox";

/// What is answered where the lite VM is not at hand.
pub const LITE_VM_REQUIRED: &'static str = "BoxLite sandbox is required for /api/v2/commands; configure BOXLITE_RUNTIME_DIR so BoxLite can locate boxlite-guest/mke2fs/debugfs";

/// Commands are run only where something confines them: not under a policy
/// that grants full access or leaves the sandbox to others, and only with
/// the lite VM.
pub fn check_execution_allowed(policy: &SandboxPolicy, sandbox: SandboxType) -> (r: Result<
    (),
    ApiError,
>)
    ensures
        if *policy is DangerFullAccess || *policy is ExternalSandbox {
            r matches Err(ApiError::InternalError(msg)) && msg@ == UNCONFINED_POLICY@
        } else if !(sandbox is LiteVm) {
            r matches Err(ApiError::InternalError(msg)) && msg@ == LITE_VM_REQUIRED@
        } else {
            r is Ok
        },
{
    match policy {
        SandboxPolicy::DangerFullAccess => {
            return Err(ApiError::InternalError(UNCONFINED_POLICY.to_string()));
        },
        SandboxPolicy::ExternalSandbox { .. } => {
            return Err(ApiError::InternalError(UNCONFINED_POLICY.to_string()));
        },
        _ => {},
    }
    match sandbox {
        SandboxType::LiteVm => Ok(()),
        _ => Err(ApiError::InternalError(LITE_VM_REQUIRED.to_string())),
    }
}

/// What stands in the way of a request, if anything: no command, a working
/// directory that cannot be used, or nothing that confines the command; the
/// numbers give the order in which these are looked at.
pub open spec fn refusal(
    req: ExecuteCommandRequest,
    requested: Option<CanonicalCwd>,
    policy: SandboxPolicy,
    sandbox: SandboxType,
) -> Option<int> {
    if req.command@.len() == 0 {
        Some(0)
    } else if requested matches Some(CanonicalCwd::Failed(_)) {
        Some(1)
    } else if requested matches Some(CanonicalCwd::Resolved(dir)) && !spec_is_absolute(dir@) {
        Some(2)
    } else if policy is DangerFullAccess || policy is ExternalSandbox {
        Some(3)
    } else if !(sandbox is LiteVm) {
        Some(4)
    } else {
        None
    }
}

/// The invocation for a request: its command, in the working directory that
/// `resolve_cwd` gives and in `env`, for at most `COMMAND_TIMEOUT_MS`.
///
/// The request is refused, in this order, if it has no command, if its
/// working directory cannot be used, and if nothing confines the command.
pub fn execute_command(
    req: ExecuteCommandRequest,
    requested: Option<CanonicalCwd>,
    codex_home: &str,
    policy: &SandboxPolicy,
    sandbox: SandboxType,
    env: StrMap<String>,
) -> (r: Result<CommandSpec, ApiError>)
    ensures
        match refusal(req, requested, *policy, sandbox) {
            Some(kind) => if kind == 0 {
                r matches Err(ApiError::InvalidRequest(msg)) && msg@ == "Command cannot be empty"@
            } else if kind == 1 {
                r matches Err(ApiError::InvalidRequest(msg)) && msg@ == "Invalid cwd: "@
                    + requested->0->Failed_0@
            } else if kind == 2 {
                r matches Err(ApiError::InvalidRequest(msg)) && msg@
                    == "CWD must be an absolute path"@
            } else if kind == 3 {
                r matches Err(ApiError::InternalError(msg)) && msg@ == UNCONFINED_POLICY@
            } else {
                r matches Err(ApiError::InternalError(msg)) && msg@ == LITE_VM_REQUIRED@
            },
            None => {
                &&& r matches Ok(spec)
                &&& spec.program == req.command@[0]
                &&& spec.argv == req.command
                &&& spec.cwd@ == match requested {
                    Some(CanonicalCwd::Resolved(dir)) => dir@,
                    _ => codex_home@,
                }
                &&& spec.env == env
                &&& spec.expiration == (ExecExpiration::Timeout { ms: COMMAND_TIMEOUT_MS })
                &&& spec.sandbox_permissions == SandboxPermissions::UseDefault
                &&& spec.justification is None
                &&& spec.arg0 is None
            },
        },
{
    if req.command.len() == 0 {
        return Err(ApiError::InvalidRequest("Command cannot be empty".to_string()));
    }
    let cwd = match resolve_cwd(requested, codex_home) {
        Ok(cwd) => cwd,
        Err(e) => {
            return Err(e);
        },
    };
    match check_execution_allowed(policy, sandbox) {
        Ok(_) => {},
        Err(e) => {
            return Err(e);
        },
    }
    let program = req.command[0].clone();
    Ok(
        CommandSpec {
            program,
            argv: req.command,
            cwd,
            env,
            expiration: ExecExpiration::Timeout { ms: COMMAND_TIMEOUT_MS },
            sandbox_permissions: SandboxPermissions::UseDefault,
            justification: None,
            arg0: None,
        },
    )
}

/// The error that a command which was not run is answered with.
pub fn exec_error(failure: ExecFailure) -> (e: ApiError)
    ensures
        match failure {
            ExecFailure::Timeout => e matches ApiError::Timeout(msg) && msg@
                == "Command exceeded 10s timeout"@,
            ExecFailure::InvalidRequest(text) => e == ApiError::InvalidRequest(text),
            ExecFailure::UnsupportedOperation(text) => e == ApiError::InvalidRequest(text),
            ExecFailure::Other(text) => e == ApiError::InternalError(text),
        },
{
    match failure {
        ExecFailure::Timeout => ApiError::Timeout("Command exceeded 10s timeout".to_string()),
        ExecFailure::InvalidRequest(text) => ApiError::InvalidRequest(text),
        ExecFailure::UnsupportedOperation(text) => ApiError::InvalidRequest(text),
        ExecFailure::Other(text) => ApiError::InternalError(text),
    }
}

/// The answer for a command that ran: what it wrote on each stream, as text,
/// and its exit code.
pub fn command_response(output: &ExecToolCallOutput) -> (r: ExecuteCommandResponse)
    ensures
        r.stdout@ == utf8_lossy(output.stdout.text@),
        r.stderr@ == utf8_lossy(output.stderr.text@),
        r.exit_code == output.exit_code,
{
    ExecuteCommandResponse {
        stdout: output.stdout.text_lossy(),
        stderr: output.stderr.text_lossy(),
        exit_code: output.exit_code,
    }
}

} // verus!
