//! The apply-patch runtime: a patch that was verified upstream is applied by
//! running the host binary itself, with a flag that makes it apply the patch,
//! under the sandbox.

use crate::approval_manager::ApprovalManager;
use crate::approval_manager::GateOutcome;
use crate::approval_manager::request_post;
use crate::approval_manager::DEFAULT_APPROVAL_TIMEOUT_MS;
use crate::approval_manager::PATCH_TOOL_NAME;
use crate::exec::ExecExpiration;
use crate::orchestrator::spec_step;
use crate::orchestrator::start;
use crate::orchestrator::AttemptAction;
use crate::orchestrator::AttemptConfig;
use crate::orchestrator::AttemptEvent;
use crate::orchestrator::AttemptState;
use crate::policy::honor;
use crate::policy::spec_honor;
use crate::policy::AskForApproval;
use crate::policy::ExecApprovalRequirement;
use crate::sandboxing::CommandSpec;
use crate::sandboxing::SandboxPermissions;
use crate::state::ApprovalContext;
use crate::state::ApprovalType;
use crate::strmap::StrMap;
use crate::text::clone_words;
use crate::text::push_str;
use crate::text::words;
use vstd::prelude::*;

verus! {

/// The first argument that makes the host binary apply a patch.
pub const CODEX_CORE_APPLY_PATCH_ARG1: &'static str = "--codex-run-as-apply-patch";

/// A change to one file.
pub enum FileChange {
    Add { content: String },
    Delete { content: String },
    Update { unified_diff: String, move_path: Option<String> },
}

/// A patch and the directory it applies in.
pub struct ApplyPatchAction {
    pub patch: String,
    pub cwd: String,
}

pub struct ApplyPatchRequest {
    pub action: ApplyPatchAction,
    /// The absolute paths of the files that the patch touches.
    pub file_paths: Vec<String>,
    pub changes: StrMap<FileChange>,
    pub exec_approval_requirement: ExecApprovalRequirement,
    pub timeout_ms: Option<u64>,
    pub codex_exe: Option<String>,
}

/// Why a tool could not be run.
pub enum ToolError {
    Rejected(String),
}

#[derive(PartialEq, Eq, Structural, Clone, Copy, Debug)]
pub enum SandboxablePreference {
    Auto,
    Require,
    Forbid,
}

/// What identifies the call that a tool runs for.
pub struct ToolCtx {
    pub sub_id: String,
    pub call_id: String,
}

/// The tags under which the chunks of a call's output are delivered.
pub struct StdoutStream {
    pub sub_id: String,
    pub call_id: String,
}

pub struct ApplyPatchRuntime {}

/// A copy of a requirement.
pub fn duplicate_requirement(requirement: &ExecApprovalRequirement) -> (r: ExecApprovalRequirement)
    ensures
        r == *requirement,
{
    match requirement {
        ExecApprovalRequirement::Skip { bypass_sandbox } => ExecApprovalRequirement::Skip {
            bypass_sandbox: *bypass_sandbox,
        },
        ExecApprovalRequirement::NeedsApproval { reason } => {
            let reason = match reason {
                Some(text) => Some(text.clone()),
                None => None,
            };
            ExecApprovalRequirement::NeedsApproval { reason }
        },
        ExecApprovalRequirement::Forbidden { reason } => ExecApprovalRequirement::Forbidden {
            reason: reason.clone(),
        },
    }
}

/// What `wants_no_sandbox_approval` returns.
pub open spec fn spec_wants_no_sandbox_approval(policy: AskForApproval) -> bool {
    match policy {
        AskForApproval::Never => false,
        AskForApproval::Reject(config) => !config.sandbox_approval,
        AskForApproval::OnFailure => true,
        AskForApproval::OnRequest => true,
        AskForApproval::UnlessTrusted => true,
    }
}

impl ApplyPatchRuntime {
    pub fn new() -> (r: Self) {
        ApplyPatchRuntime {  }
    }

    pub fn sandbox_preference(&self) -> (r: SandboxablePreference)
        ensures
            r == SandboxablePreference::Auto,
    {
        SandboxablePreference::Auto
    }

    /// A patch that the sandbox stood in the way of is tried again without
    /// it, once the user agrees.
    pub fn escalate_on_failure(&self) -> (r: bool)
        ensures
            r,
    {
        true
    }

    /// What an approval of the request is about: the paths of its files.
    pub fn approval_keys(&self, req: &ApplyPatchRequest) -> (keys: Vec<String>)
        ensures
            keys@ == req.file_paths@,
    {
        clone_words(&req.file_paths)
    }

    /// Whether, under `policy`, the user may be asked to let the patch run
    /// without the sandbox after the sandbox stood in its way.
    pub fn wants_no_sandbox_approval(&self, policy: AskForApproval) -> (r: bool)
        ensures
            r == spec_wants_no_sandbox_approval(policy),
    {
        match policy {
            AskForApproval::Never => false,
            AskForApproval::Reject(reject_config) => !reject_config.rejects_sandbox_approval(),
            AskForApproval::OnFailure => true,
            AskForApproval::OnRequest => true,
            AskForApproval::UnlessTrusted => true,
        }
    }

    /// The requirement that was computed for the patch upstream; the policy
    /// engine honours it as it stands.
    pub fn exec_approval_requirement(&self, req: &ApplyPatchRequest) -> (r: Option<
        ExecApprovalRequirement,
    >)
        ensures
            r == Some(req.exec_approval_requirement),
    {
        Some(duplicate_requirement(&req.exec_approval_requirement))
    }

    /// The command that applies the patch of `req`.
    ///
    /// The program is `req.codex_exe` if the caller found it to exist, else
    /// the running program; if that is not known either, the request is
    /// rejected. The command line is the program, the flag and the patch; the
    /// working directory is the action's; the expiration is the request's
    /// timeout, or the default.
    pub fn build_command_spec(
        req: &ApplyPatchRequest,
        codex_exe_exists: bool,
        current_exe: Result<String, String>,
        env: StrMap<String>,
    ) -> (r: Result<CommandSpec, ToolError>)
        ensures
            match r {
                Ok(spec) => {
                    &&& chosen_program(*req, codex_exe_exists, current_exe) matches Some(program)
                    &&& spec.program@ == program
                    &&& words(spec.argv@) == seq![
                        program,
                        CODEX_CORE_APPLY_PATCH_ARG1@,
                        req.action.patch@,
                    ]
                    &&& spec.cwd@ == req.action.cwd@
                    &&& spec.expiration == match req.timeout_ms {
                        Some(ms) => ExecExpiration::Timeout { ms },
                        None => ExecExpiration::DefaultTimeout,
                    }
                    &&& spec.env == env
                    &&& spec.sandbox_permissions == SandboxPermissions::UseDefault
                    &&& spec.justification is None
                    &&& spec.arg0 is None
                },
                Err(ToolError::Rejected(message)) => {
                    &&& chosen_program(*req, codex_exe_exists, current_exe) is None
                    &&& current_exe matches Err(cause)
                    &&& message@ == "failed to determine codex exe: "@ + cause@
                },
            },
    {
        let from_request = match &req.codex_exe {
            Some(path) => if codex_exe_exists {
                Some(path.clone())
            } else {
                None
            },
            None => None,
        };
        let program = match from_request {
            Some(path) => path,
            None => match current_exe {
                Ok(path) => path,
                Err(cause) => {
                    let mut message = "failed to determine codex exe: ".to_string();
                    push_str(&mut message, cause.as_str());
                    return Err(ToolError::Rejected(message));
                },
            },
        };
        let mut argv: Vec<String> = Vec::new();
        argv.push(program.clone());
        argv.push(CODEX_CORE_APPLY_PATCH_ARG1.to_string());
        argv.push(req.action.patch.clone());
        assert(words(argv@) =~= seq![program@, CODEX_CORE_APPLY_PATCH_ARG1@, req.action.patch@]);
        Ok(
            CommandSpec {
                program,
                argv,
                cwd: req.action.cwd.clone(),
                expiration: ExecExpiration::from_timeout_ms(req.timeout_ms),
                env,
                sandbox_permissions: SandboxPermissions::UseDefault,
                justification: None,
                arg0: None,
            },
        )
    }

    /// The first step of applying the patch of `req` under the approval
    /// policy `policy`. The requirement that came with the request decides,
    /// as it stands; a denial by the sandbox may lead to a second run if the
    /// policy lets the user be asked.
    pub fn begin(&self, req: &ApplyPatchRequest, policy: AskForApproval) -> (r: (
        AttemptConfig,
        AttemptState,
        AttemptAction,
    ))
        ensures
            r.0 == (AttemptConfig {
                escalate_on_failure: true,
                may_prompt_on_failure: spec_wants_no_sandbox_approval(policy),
            }),
            (r.1, r.2) == spec_step(
                r.0,
                AttemptState::New,
                AttemptEvent::Policy { outcome: spec_honor(req.exec_approval_requirement) },
            ),
    {
        let config = AttemptConfig {
            escalate_on_failure: self.escalate_on_failure(),
            may_prompt_on_failure: self.wants_no_sandbox_approval(policy),
        };
        let (state, action) = start(config, honor(&req.exec_approval_requirement));
        (config, state, action)
    }

    /// The tags for the output of the call.
    pub fn stdout_stream(ctx: &ToolCtx) -> (r: Option<StdoutStream>)
        ensures
            r matches Some(stream) && stream.sub_id == ctx.sub_id && stream.call_id == ctx.call_id,
    {
        Some(StdoutStream { sub_id: ctx.sub_id.clone(), call_id: ctx.call_id.clone() })
    }

    /// Asks for the approval of the patch of `req`, under its file paths as
    /// the key. With a retry reason the user is asked in any case; without
    /// one a remembered answer or an approval that is already waiting takes
    /// the place of a new prompt.
    pub fn start_approval(
        &self,
        req: &ApplyPatchRequest,
        manager: &mut ApprovalManager,
        thread_id: String,
        call_id: String,
        retry_reason: Option<String>,
        response_channel: u64,
        now: u64,
    ) -> (outcome: GateOutcome)
        ensures
            exists|context: ApprovalContext|
                {
                    &&& context.cache_key matches Some(ck)
                    &&& ck.tool_name@ == PATCH_TOOL_NAME@
                    &&& ck.key@ == req.file_paths@
                    &&& context.response_channel == response_channel
                    &&& context.joined@ == Seq::<u64>::empty()
                    &&& context.created_at == now
                    &&& context.timeout == DEFAULT_APPROVAL_TIMEOUT_MS
                    &&& context.thread_id == thread_id
                    &&& context.item_id@ == call_id@
                    &&& context.approval_type matches ApprovalType::FileChange { reason: text }
                    &&& text@ == match retry_reason {
                        Some(r) => r@,
                        None => Seq::<char>::empty(),
                    }
                    &&& #[trigger] request_post(
                        old(manager).pending_ids(),
                        old(manager).pending_contexts(),
                        old(manager).cache(),
                        call_id@,
                        context,
                        retry_reason is Some,
                        final(manager).pending_ids(),
                        final(manager).pending_contexts(),
                        final(manager).cache(),
                        outcome,
                    )
                },
    {
        manager.request_patch_approval(
            thread_id,
            call_id,
            self.approval_keys(req),
            retry_reason,
            response_channel,
            now,
        )
    }
}

/// The program that applies the patch: the caller's, if it was given and
/// exists, else the running program, if that is known.
pub open spec fn chosen_program(
    req: ApplyPatchRequest,
    codex_exe_exists: bool,
    current_exe: Result<String, String>,
) -> Option<Seq<char>> {
    if req.codex_exe is Some && codex_exe_exists {
        Some(req.codex_exe->0@)
    } else {
        match current_exe {
            Ok(path) => Some(path@),
            Err(_) => None,
        }
    }
}

} // verus!
