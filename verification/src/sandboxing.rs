//! The sandbox launcher: from the description of an invocation and the
//! backend in use to a plan that is ready to be spawned.

use crate::exec::ExecExpiration;
use crate::exec_env::apply_boxlite_runtime_env;
use crate::exec_env::env_get;
use crate::exec_env::env_set;
use crate::exec_env::env_view;
use crate::exec_env::spec_apply_runtime_env;
use crate::paths::is_absolute;
use crate::paths::spec_is_absolute;
use crate::strmap::StrMap;
use crate::text::to_chars;
use crate::text::words;
use vstd::prelude::*;

verus! {

#[derive(PartialEq, Eq, Structural, Clone, Copy, Debug)]
pub enum SandboxPermissions {
    /// What the sandbox policy grants.
    UseDefault,
    /// The caller asks to run without the sandbox.
    RequireEscalated,
}

/// One invocation, as the caller describes it. `argv` is the whole command
/// line, the program's name first.
pub struct CommandSpec {
    pub program: String,
    pub argv: Vec<String>,
    pub cwd: String,
    pub env: StrMap<String>,
    pub expiration: ExecExpiration,
    pub sandbox_permissions: SandboxPermissions,
    pub justification: Option<String>,
    pub arg0: Option<String>,
}

/// The backends that can confine a child.
#[derive(PartialEq, Eq, Structural, Clone, Copy, Debug)]
pub enum SandboxType {
    /// No confinement.
    Disabled,
    /// A profile handed to the system's sandbox helper.
    PlatformA,
    /// System-call and file-system filters set up by a helper binary.
    PlatformB,
    /// A lightweight virtual machine.
    LiteVm,
}

#[derive(PartialEq, Eq, Structural, Clone, Copy, Debug)]
pub enum HostOs {
    MacOs,
    Linux,
    Windows,
    Other,
}

/// The backend for a host: the lite VM where it is switched on and the host
/// can run it, else the host's own mechanism, else none.
pub open spec fn spec_select_sandbox(os: HostOs, lite_vm: bool) -> SandboxType {
    match os {
        HostOs::MacOs => if lite_vm {
            SandboxType::LiteVm
        } else {
            SandboxType::PlatformA
        },
        HostOs::Linux => if lite_vm {
            SandboxType::LiteVm
        } else {
            SandboxType::PlatformB
        },
        HostOs::Windows => SandboxType::Disabled,
        HostOs::Other => SandboxType::Disabled,
    }
}

pub fn select_sandbox(os: HostOs, lite_vm: bool) -> (r: SandboxType)
    ensures
        r == spec_select_sandbox(os, lite_vm),
{
    match os {
        HostOs::MacOs => if lite_vm {
            SandboxType::LiteVm
        } else {
            SandboxType::PlatformA
        },
        HostOs::Linux => if lite_vm {
            SandboxType::LiteVm
        } else {
            SandboxType::PlatformB
        },
        HostOs::Windows => SandboxType::Disabled,
        HostOs::Other => SandboxType::Disabled,
    }
}

/// What a backend declares of itself.
pub struct Backend {
    pub sandbox: SandboxType,
    /// The binary that the command is wrapped with, if any.
    pub helper: Option<String>,
    /// The arguments by which the policy reaches the helper; they stand
    /// between the helper and the command.
    pub policy_args: Vec<String>,
    /// The variables of the host that the child must have whatever the
    /// command's own environment says.
    pub preserved_env: Vec<String>,
    /// The texts by which the backend's refusals are known in the output of
    /// a child.
    pub denial_signatures: Vec<Vec<u8>>,
}

#[derive(PartialEq, Eq, Structural, Clone, Copy, Debug)]
pub enum StdinDisposition {
    /// The child reads the null device.
    Null,
    /// The child reads what the caller connects.
    Piped,
}

/// One attempt, ready to be spawned.
pub struct AttemptPlan {
    pub program: String,
    pub argv: Vec<String>,
    pub env: StrMap<String>,
    pub cwd: String,
    pub stdin_disposition: StdinDisposition,
}

#[derive(PartialEq, Eq, Structural, Clone, Copy, Debug)]
pub enum LaunchError {
    /// The description cannot be run: no program, no argv, a working
    /// directory that is not absolute, or an environment the system cannot
    /// take.
    InvalidInput,
    /// The backend needs a runtime directory and none was found.
    SandboxUnavailable,
}

/// A name that the system takes for a variable: not empty, without `=` and
/// without the null character.
pub open spec fn valid_env_name(name: Seq<char>) -> bool {
    name.len() > 0 && !name.contains('=') && !name.contains('\0')
}

/// A value that the system takes for a variable: without the null character.
pub open spec fn valid_env_value(value: Seq<char>) -> bool {
    !value.contains('\0')
}

/// Every variable has a name and a value that the system takes.
pub open spec fn valid_env(keys: Seq<Seq<char>>, values: Seq<String>) -> bool {
    &&& forall|i: int| 0 <= i < keys.len() ==> valid_env_name(#[trigger] keys[i])
    &&& forall|i: int| 0 <= i < values.len() ==> valid_env_value((#[trigger] values[i])@)
}

/// The description can be run.
pub open spec fn valid_spec(spec: CommandSpec) -> bool {
    &&& spec.program@.len() > 0
    &&& spec.argv@.len() > 0
    &&& spec_is_absolute(spec.cwd@)
    &&& valid_env(spec.env.keys(), spec.env.values())
}

fn name_is_valid(name: &str) -> (r: bool)
    ensures
        r == valid_env_name(name@),
{
    let chars = to_chars(name);
    if chars.len() == 0 {
        return false;
    }
    let mut i: usize = 0;
    while i < chars.len()
        invariant
            i <= chars.len(),
            chars@ == name@,
            forall|j: int| 0 <= j < i ==> chars@[j] != '=' && chars@[j] != '\0',
        decreases chars.len() - i,
    {
        if chars[i] == '=' || chars[i] == '\0' {
            return false;
        }
        i += 1;
    }
    true
}

fn value_is_valid(value: &str) -> (r: bool)
    ensures
        r == valid_env_value(value@),
{
    let chars = to_chars(value);
    let mut i: usize = 0;
    while i < chars.len()
        invariant
            i <= chars.len(),
            chars@ == value@,
            forall|j: int| 0 <= j < i ==> chars@[j] != '\0',
        decreases chars.len() - i,
    {
        if chars[i] == '\0' {
            return false;
        }
        i += 1;
    }
    true
}

fn env_is_valid(env: &StrMap<String>) -> (r: bool)
    ensures
        r == valid_env(env.keys(), env.values()),
{
    proof {
        env.lemma_shape();
    }
    let mut i: usize = 0;
    while i < env.len()
        invariant
            i <= env.spec_len(),
            env.keys().len() == env.values().len(),
            forall|j: int| 0 <= j < i ==> valid_env_name(#[trigger] env.keys()[j]),
            forall|j: int| 0 <= j < i ==> valid_env_value((#[trigger] env.values()[j])@),
        decreases env.spec_len() - i,
    {
        if !name_is_valid(env.key_at(i).as_str()) || !value_is_valid(env.value_at(i).as_str()) {
            return false;
        }
        i += 1;
    }
    true
}

/// Whether the description can be run.
pub fn is_valid_spec(spec: &CommandSpec) -> (r: bool)
    ensures
        r == valid_spec(*spec),
{
    spec.program.as_str().unicode_len() > 0 && spec.argv.len() > 0 && is_absolute(
        spec.cwd.as_str(),
    ) && env_is_valid(&spec.env)
}

/// The command line of the plan: the command itself, or the helper, its
/// policy arguments and then the command.
pub open spec fn planned_argv(argv: Seq<Seq<char>>, backend: Backend) -> Seq<Seq<char>> {
    match backend.helper {
        Some(helper) => seq![helper@] + words(backend.policy_args@) + argv,
        None => argv,
    }
}

/// The environment of the plan: the command's own, then the preserved
/// variables as the host has them, then, for the lite VM, the runtime
/// directory.
pub open spec fn planned_env(
    env: Map<Seq<char>, Seq<char>>,
    host: Map<Seq<char>, Seq<char>>,
    preserved: Seq<Seq<char>>,
    sandbox: SandboxType,
    runtime_dir: Option<Seq<char>>,
) -> Map<Seq<char>, Seq<char>> {
    let overlaid = overlay(env, host, preserved);
    if sandbox is LiteVm {
        spec_apply_runtime_env(overlaid, runtime_dir)
    } else {
        overlaid
    }
}

/// `env` with the variables named in `names` set as `host` has them; a name
/// that `host` lacks changes nothing.
pub open spec fn overlay(
    env: Map<Seq<char>, Seq<char>>,
    host: Map<Seq<char>, Seq<char>>,
    names: Seq<Seq<char>>,
) -> Map<Seq<char>, Seq<char>>
    decreases names.len(),
{
    if names.len() == 0 {
        env
    } else {
        let before = overlay(env, host, names.drop_last());
        if host.contains_key(names.last()) {
            before.insert(names.last(), host[names.last()])
        } else {
            before
        }
    }
}

/// Sets in `env` the variables named in `names` as `host` has them.
pub fn overlay_env(env: &mut StrMap<String>, host: &StrMap<String>, names: &Vec<String>)
    ensures
        env_view(*final(env)) == overlay(env_view(*old(env)), env_view(*host), words(names@)),
{
    let mut i: usize = 0;
    while i < names.len()
        invariant
            i <= names.len(),
            env_view(*env) == overlay(
                env_view(*old(env)),
                env_view(*host),
                words(names@).take(i as int),
            ),
        decreases names.len() - i,
    {
        proof {
            assert(words(names@).take(i + 1).drop_last() =~= words(names@).take(i as int));
        }
        match env_get(host, names[i].as_str()) {
            Some(value) => {
                env_set(env, names[i].clone(), value.clone());
            },
            None => {},
        }
        i += 1;
    }
    assert(words(names@).take(names.len() as int) =~= words(names@));
}

fn wrap_argv(helper: &String, policy_args: &Vec<String>, argv: Vec<String>) -> (r: Vec<String>)
    ensures
        words(r@) == seq![helper@] + words(policy_args@) + words(argv@),
{
    let mut r: Vec<String> = Vec::new();
    r.push(helper.clone());
    let mut copy = crate::text::clone_words(policy_args);
    r.append(&mut copy);
    let mut argv = argv;
    let ghost tail = argv@;
    r.append(&mut argv);
    assert(words(r@) =~= seq![helper@] + words(policy_args@) + words(tail));
    r
}

/// Builds the plan for one attempt.
///
/// A description that cannot be run is refused as `InvalidInput`. The lite
/// VM without a runtime directory is refused as `SandboxUnavailable`. In
/// every other case there is a plan: the command, wrapped if the backend has
/// a helper; the working directory of the description; standard input from
/// the null device; and the environment that `planned_env` describes.
pub fn build_plan(
    spec: CommandSpec,
    backend: &Backend,
    host_env: &StrMap<String>,
    runtime_dir: Option<&str>,
) -> (r: Result<AttemptPlan, LaunchError>)
    ensures
        !valid_spec(spec) ==> r == Err::<AttemptPlan, LaunchError>(LaunchError::InvalidInput),
        valid_spec(spec) && backend.sandbox is LiteVm && runtime_dir is None ==> r == Err::<
            AttemptPlan,
            LaunchError,
        >(LaunchError::SandboxUnavailable),
        valid_spec(spec) && !(backend.sandbox is LiteVm && runtime_dir is None) ==> {
            &&& r matches Ok(plan)
            &&& plan.program@ == match backend.helper {
                Some(helper) => helper@,
                None => spec.program@,
            }
            &&& words(plan.argv@) == planned_argv(words(spec.argv@), *backend)
            &&& plan.cwd == spec.cwd
            &&& plan.stdin_disposition == StdinDisposition::Null
            &&& env_view(plan.env) == planned_env(
                env_view(spec.env),
                env_view(*host_env),
                words(backend.preserved_env@),
                backend.sandbox,
                match runtime_dir {
                    Some(dir) => Some(dir@),
                    None => None,
                },
            )
        },
{
    if !is_valid_spec(&spec) {
        return Err(LaunchError::InvalidInput);
    }
    let lite_vm = match backend.sandbox {
        SandboxType::LiteVm => true,
        _ => false,
    };
    if lite_vm && runtime_dir.is_none() {
        return Err(LaunchError::SandboxUnavailable);
    }
    let CommandSpec { program, argv, cwd, env, .. } = spec;
    let mut env = env;
    overlay_env(&mut env, host_env, &backend.preserved_env);
    if lite_vm {
        apply_boxlite_runtime_env(&mut env, runtime_dir);
    }
    let (program, argv) = match &backend.helper {
        Some(helper) => (helper.clone(), wrap_argv(helper, &backend.policy_args, argv)),
        None => (program, argv),
    };
    Ok(AttemptPlan { program, argv, env, cwd, stdin_disposition: StdinDisposition::Null })
}

/// The plan for the second attempt, without the sandbox: the command as the
/// caller described it, in the environment and working directory of the
/// first attempt.
pub fn unsandboxed_plan(program: String, argv: Vec<String>, first: AttemptPlan) -> (plan:
    AttemptPlan)
    ensures
        plan.program == program,
        plan.argv == argv,
        plan.env == first.env,
        plan.cwd == first.cwd,
        plan.stdin_disposition == first.stdin_disposition,
{
    let AttemptPlan { env, cwd, stdin_disposition, .. } = first;
    AttemptPlan { program, argv, env, cwd, stdin_disposition }
}

} // verus!
