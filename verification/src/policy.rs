//! The policy engine: what is to become of a command, decided from the
//! command, the sandbox policy and the approval policy, without side effects.

use crate::paths::is_absolute;
use crate::paths::spec_is_absolute;
use crate::text::string_eq;
use crate::text::words;
use vstd::prelude::*;

verus! {

/// Which kinds of prompt are rejected without asking.
#[derive(PartialEq, Eq, Structural, Clone, Copy, Debug)]
pub struct RejectConfig {
    pub sandbox_approval: bool,
    pub rules: bool,
    pub mcp_elicitations: bool,
}

impl RejectConfig {
    pub fn rejects_sandbox_approval(&self) -> (r: bool)
        ensures
            r == self.sandbox_approval,
    {
        self.sandbox_approval
    }
}

/// When the user is asked before a command runs.
#[derive(PartialEq, Eq, Structural, Clone, Copy, Debug)]
pub enum AskForApproval {
    Never,
    OnRequest,
    OnFailure,
    UnlessTrusted,
    Reject(RejectConfig),
}

/// What a command may touch. Fixed for the length of an attempt.
pub enum SandboxPolicy {
    ReadOnly,
    WorkspaceWrite { roots: Vec<String>, network_allowed: bool },
    DangerFullAccess,
    ExternalSandbox { network_allowed: bool },
}

impl SandboxPolicy {
    pub fn is_full_access(&self) -> (r: bool)
        ensures
            r == (*self is DangerFullAccess),
    {
        match self {
            SandboxPolicy::DangerFullAccess => true,
            _ => false,
        }
    }
}

/// A command that needs no approval: every command line that begins with
/// these words.
pub struct TrustedCommand {
    pub argv_prefix: Vec<String>,
}

#[derive(PartialEq, Eq, Structural, Clone, Copy, Debug)]
pub enum UnsandboxedReason {
    /// The sandbox policy grants full access.
    Policy,
    /// A requirement computed beforehand says so.
    Precomputed,
}

#[derive(PartialEq, Eq, Structural, Clone, Copy, Debug)]
pub enum AskReason {
    /// The command is not among the trusted ones.
    NotTrusted,
    /// The caller flagged the request.
    Requested,
    /// The sandboxed attempt failed; the question is whether to run without
    /// the sandbox.
    Retry,
    /// A requirement computed beforehand says so.
    Precomputed,
}

#[derive(PartialEq, Eq, Structural, Clone, Copy, Debug)]
pub enum RejectReason {
    /// Empty argv, or a working directory that is not absolute.
    InvalidInput,
    /// The approval policy rejects instead of asking; these are its settings.
    Configured(RejectConfig),
    /// A requirement computed beforehand forbids the command.
    Forbidden,
}

#[allow(inconsistent_fields)]
#[derive(PartialEq, Eq, Structural, Clone, Copy, Debug)]
pub enum PolicyOutcome {
    RunSandboxed,
    RunUnsandboxed { reason: UnsandboxedReason },
    AskUser { prompt: AskReason },
    Reject { reason: RejectReason },
}

impl UnsandboxedReason {
    /// The reason as it is shown.
    pub fn as_str(&self) -> (s: &'static str)
        ensures
            s@ == match *self {
                UnsandboxedReason::Policy => "policy"@,
                UnsandboxedReason::Precomputed => "precomputed"@,
            },
    {
        match self {
            UnsandboxedReason::Policy => "policy",
            UnsandboxedReason::Precomputed => "precomputed",
        }
    }
}

impl RejectReason {
    /// The reason as it is shown.
    pub open spec fn spec_as_str(self) -> Seq<char> {
        match self {
            RejectReason::InvalidInput => "invalid-input"@,
            RejectReason::Configured(_) => "rejected-by-policy"@,
            RejectReason::Forbidden => "forbidden"@,
        }
    }

    pub fn as_str(&self) -> (s: &'static str)
        ensures
            s@ == self.spec_as_str(),
    {
        match self {
            RejectReason::InvalidInput => "invalid-input",
            RejectReason::Configured(_) => "rejected-by-policy",
            RejectReason::Forbidden => "forbidden",
        }
    }
}

/// `argv` begins with the words of `prefix`, and `prefix` is not empty.
pub open spec fn has_prefix(argv: Seq<Seq<char>>, prefix: Seq<Seq<char>>) -> bool {
    0 < prefix.len() <= argv.len() && argv.subrange(0, prefix.len() as int) == prefix
}

/// `argv` matches one of the trusted commands.
pub open spec fn is_trusted(argv: Seq<Seq<char>>, trusted: Seq<TrustedCommand>) -> bool {
    exists|k: int|
        0 <= k < trusted.len() && has_prefix(argv, words((#[trigger] trusted[k]).argv_prefix@))
}

/// The engine's rules, in order; the first that applies decides.
pub open spec fn spec_decide(
    argv: Seq<Seq<char>>,
    cwd: Seq<char>,
    full_access: bool,
    ask: AskForApproval,
    trusted: bool,
    flagged: bool,
    retrying: bool,
) -> PolicyOutcome {
    if argv.len() == 0 || !spec_is_absolute(cwd) {
        PolicyOutcome::Reject { reason: RejectReason::InvalidInput }
    } else if full_access {
        PolicyOutcome::RunUnsandboxed { reason: UnsandboxedReason::Policy }
    } else if trusted {
        PolicyOutcome::RunSandboxed
    } else {
        match ask {
            AskForApproval::Never => PolicyOutcome::RunSandboxed,
            AskForApproval::Reject(config) => PolicyOutcome::Reject {
                reason: RejectReason::Configured(config),
            },
            AskForApproval::UnlessTrusted => PolicyOutcome::AskUser {
                prompt: AskReason::NotTrusted,
            },
            AskForApproval::OnRequest => if flagged {
                PolicyOutcome::AskUser { prompt: AskReason::Requested }
            } else {
                PolicyOutcome::RunSandboxed
            },
            AskForApproval::OnFailure => if retrying {
                PolicyOutcome::AskUser { prompt: AskReason::Retry }
            } else {
                PolicyOutcome::RunSandboxed
            },
        }
    }
}

/// Whether `argv` begins with the words of `prefix`.
pub fn matches_prefix(argv: &Vec<String>, prefix: &Vec<String>) -> (r: bool)
    ensures
        r == has_prefix(words(argv@), words(prefix@)),
{
    if prefix.len() == 0 || prefix.len() > argv.len() {
        return false;
    }
    let mut i: usize = 0;
    while i < prefix.len()
        invariant
            i <= prefix.len() <= argv.len(),
            forall|j: int| 0 <= j < i ==> argv@[j]@ == prefix@[j]@,
        decreases prefix.len() - i,
    {
        if !string_eq(&argv[i], &prefix[i]) {
            assert(words(argv@).subrange(0, prefix.len() as int)[i as int] != words(prefix@)[i as int]);
            return false;
        }
        i += 1;
    }
    assert(words(argv@).subrange(0, prefix.len() as int) =~= words(prefix@));
    true
}

/// Whether `argv` matches one of the trusted commands.
pub fn matches_trusted(argv: &Vec<String>, trusted: &Vec<TrustedCommand>) -> (r: bool)
    ensures
        r == is_trusted(words(argv@), trusted@),
{
    let mut k: usize = 0;
    while k < trusted.len()
        invariant
            k <= trusted.len(),
            forall|m: int|
                0 <= m < k ==> !has_prefix(words(argv@), words((#[trigger] trusted@[m]).argv_prefix@)),
        decreases trusted.len() - k,
    {
        if matches_prefix(argv, &trusted[k].argv_prefix) {
            return true;
        }
        k += 1;
    }
    false
}

/// Classifies a prospective execution. `argv` is the whole command line, the
/// program first. `flagged` says that the caller asked for approval of this
/// request; `retry_reason` is set on the second attempt, after the sandbox
/// stood in the way of the first.
///
/// The engine is total: every input gets one of the four outcomes, and an
/// input that cannot be run (no argv, a working directory that is not
/// absolute) is rejected as invalid before any other rule is looked at.
pub fn decide(
    argv: &Vec<String>,
    cwd: &str,
    sandbox_policy: &SandboxPolicy,
    ask: AskForApproval,
    trusted: &Vec<TrustedCommand>,
    flagged: bool,
    retry_reason: Option<&str>,
) -> (outcome: PolicyOutcome)
    ensures
        outcome == spec_decide(
            words(argv@),
            cwd@,
            *sandbox_policy is DangerFullAccess,
            ask,
            is_trusted(words(argv@), trusted@),
            flagged,
            retry_reason is Some,
        ),
{
    if argv.len() == 0 || !is_absolute(cwd) {
        return PolicyOutcome::Reject { reason: RejectReason::InvalidInput };
    }
    if sandbox_policy.is_full_access() {
        return PolicyOutcome::RunUnsandboxed { reason: UnsandboxedReason::Policy };
    }
    if matches_trusted(argv, trusted) {
        return PolicyOutcome::RunSandboxed;
    }
    match ask {
        AskForApproval::Never => PolicyOutcome::RunSandboxed,
        AskForApproval::Reject(config) => PolicyOutcome::Reject {
            reason: RejectReason::Configured(config),
        },
        AskForApproval::UnlessTrusted => PolicyOutcome::AskUser { prompt: AskReason::NotTrusted },
        AskForApproval::OnRequest => if flagged {
            PolicyOutcome::AskUser { prompt: AskReason::Requested }
        } else {
            PolicyOutcome::RunSandboxed
        },
        AskForApproval::OnFailure => if retry_reason.is_some() {
            PolicyOutcome::AskUser { prompt: AskReason::Retry }
        } else {
            PolicyOutcome::RunSandboxed
        },
    }
}

/// What was decided about a command before it reached the engine.
#[allow(inconsistent_fields)]
pub enum ExecApprovalRequirement {
    /// No approval is needed; `bypass_sandbox` says whether the command runs
    /// without the sandbox.
    Skip { bypass_sandbox: bool },
    /// The user is asked.
    NeedsApproval { reason: Option<String> },
    /// The command is not run.
    Forbidden { reason: String },
}

/// The outcome that honours a requirement computed beforehand, as it stands.
pub open spec fn spec_honor(requirement: ExecApprovalRequirement) -> PolicyOutcome {
    match requirement {
        ExecApprovalRequirement::Skip { bypass_sandbox } => if bypass_sandbox {
            PolicyOutcome::RunUnsandboxed { reason: UnsandboxedReason::Precomputed }
        } else {
            PolicyOutcome::RunSandboxed
        },
        ExecApprovalRequirement::NeedsApproval { .. } => PolicyOutcome::AskUser {
            prompt: AskReason::Precomputed,
        },
        ExecApprovalRequirement::Forbidden { .. } => PolicyOutcome::Reject {
            reason: RejectReason::Forbidden,
        },
    }
}

/// The engine's answer for a command that comes with its own requirement:
/// the requirement is honoured as it stands and no other rule is looked at.
pub fn honor(requirement: &ExecApprovalRequirement) -> (outcome: PolicyOutcome)
    ensures
        outcome == spec_honor(*requirement),
{
    match requirement {
        ExecApprovalRequirement::Skip { bypass_sandbox } => if *bypass_sandbox {
            PolicyOutcome::RunUnsandboxed { reason: UnsandboxedReason::Precomputed }
        } else {
            PolicyOutcome::RunSandboxed
        },
        ExecApprovalRequirement::NeedsApproval { .. } => PolicyOutcome::AskUser {
            prompt: AskReason::Precomputed,
        },
        ExecApprovalRequirement::Forbidden { .. } => PolicyOutcome::Reject {
            reason: RejectReason::Forbidden,
        },
    }
}

/// Under `Never` the user is not asked, whatever the input.
pub proof fn lemma_never_does_not_ask(
    argv: Seq<Seq<char>>,
    cwd: Seq<char>,
    full_access: bool,
    trusted: bool,
    flagged: bool,
    retrying: bool,
)
    ensures
        !(spec_decide(argv, cwd, full_access, AskForApproval::Never, trusted, flagged, retrying)
            is AskUser),
{
}

/// An input that cannot be run is rejected as invalid, whatever the policies;
/// any other input is not.
pub proof fn lemma_invalid_input_is_rejected(
    argv: Seq<Seq<char>>,
    cwd: Seq<char>,
    full_access: bool,
    ask: AskForApproval,
    trusted: bool,
    flagged: bool,
    retrying: bool,
)
    ensures
        (argv.len() == 0 || !spec_is_absolute(cwd)) <==> spec_decide(
            argv,
            cwd,
            full_access,
            ask,
            trusted,
            flagged,
            retrying,
        ) == (PolicyOutcome::Reject { reason: RejectReason::InvalidInput }),
{
}

} // verus!
