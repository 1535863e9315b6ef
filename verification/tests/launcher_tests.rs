use sandbox_exec::apply_patch::ApplyPatchAction;
use sandbox_exec::apply_patch::ApplyPatchRequest;
use sandbox_exec::apply_patch::ApplyPatchRuntime;
use sandbox_exec::apply_patch::SandboxablePreference;
use sandbox_exec::apply_patch::ToolCtx;
use sandbox_exec::apply_patch::ToolError;
use sandbox_exec::apply_patch::CODEX_CORE_APPLY_PATCH_ARG1;
use sandbox_exec::exec::ExecExpiration;
use sandbox_exec::policy::AskForApproval;
use sandbox_exec::policy::ExecApprovalRequirement;
use sandbox_exec::policy::RejectConfig;
use sandbox_exec::sandboxing::build_plan;
use sandbox_exec::sandboxing::is_valid_spec;
use sandbox_exec::sandboxing::overlay_env;
use sandbox_exec::sandboxing::select_sandbox;
use sandbox_exec::sandboxing::unsandboxed_plan;
use sandbox_exec::sandboxing::Backend;
use sandbox_exec::sandboxing::CommandSpec;
use sandbox_exec::sandboxing::HostOs;
use sandbox_exec::sandboxing::LaunchError;
use sandbox_exec::sandboxing::SandboxPermissions;
use sandbox_exec::sandboxing::SandboxType;
use sandbox_exec::sandboxing::StdinDisposition;
use sandbox_exec::strmap::StrMap;

fn env(pairs: &[(&str, &str)]) -> StrMap<String> {
    let mut env = StrMap::new();
    for (k, v) in pairs {
        env.insert(k.to_string(), v.to_string());
    }
    env
}

fn spec(argv: &[&str], cwd: &str, env: StrMap<String>) -> CommandSpec {
    CommandSpec {
        program: argv.first().map(|p| p.to_string()).unwrap_or_default(),
        argv: argv.iter().map(|a| a.to_string()).collect(),
        cwd: cwd.to_string(),
        env,
        expiration: ExecExpiration::Timeout { ms: 30_000 },
        sandbox_permissions: SandboxPermissions::UseDefault,
        justification: None,
        arg0: None,
    }
}

fn backend(sandbox: SandboxType, helper: Option<&str>, policy_args: &[&str], preserved: &[&str]) -> Backend {
    Backend {
        sandbox,
        helper: helper.map(|h| h.to_string()),
        policy_args: policy_args.iter().map(|a| a.to_string()).collect(),
        preserved_env: preserved.iter().map(|a| a.to_string()).collect(),
        denial_signatures: vec![b"Operation not permitted".to_vec()],
    }
}

fn patch_request(timeout_ms: Option<u64>, codex_exe: Option<&str>) -> ApplyPatchRequest {
    ApplyPatchRequest {
        action: ApplyPatchAction { patch: "*** Begin Patch\n*** End Patch".to_string(), cwd: "/w".to_string() },
        file_paths: vec!["/w/a.rs".to_string()],
        changes: StrMap::new(),
        exec_approval_requirement: ExecApprovalRequirement::Skip { bypass_sandbox: false },
        timeout_ms,
        codex_exe: codex_exe.map(|p| p.to_string()),
    }
}

#[test]
fn wants_no_sandbox_approval_reject_respects_sandbox_flag() {
    let runtime = ApplyPatchRuntime::new();
    assert!(runtime.wants_no_sandbox_approval(AskForApproval::OnRequest));
    assert!(
        !runtime.wants_no_sandbox_approval(AskForApproval::Reject(RejectConfig {
            sandbox_approval: true,
            rules: false,
            mcp_elicitations: false,
        }))
    );
    assert!(
        runtime.wants_no_sandbox_approval(AskForApproval::Reject(RejectConfig {
            sandbox_approval: false,
            rules: false,
            mcp_elicitations: false,
        }))
    );
}

#[test]
fn only_never_forbids_the_question_outright() {
    let runtime = ApplyPatchRuntime::new();
    assert!(!runtime.wants_no_sandbox_approval(AskForApproval::Never));
    assert!(runtime.wants_no_sandbox_approval(AskForApproval::OnFailure));
    assert!(runtime.wants_no_sandbox_approval(AskForApproval::UnlessTrusted));
    assert!(runtime.escalate_on_failure());
    assert_eq!(runtime.sandbox_preference(), SandboxablePreference::Auto);
}

#[test]
fn the_patch_is_applied_by_the_host_binary() {
    let spec = match ApplyPatchRuntime::build_command_spec(&patch_request(Some(5000), None), false, Ok("/usr/bin/codex".to_string()), env(&[("PATH", "/bin")])) {
        Ok(spec) => spec,
        Err(_) => panic!("expected a command"),
    };
    assert_eq!(CODEX_CORE_APPLY_PATCH_ARG1, "--codex-run-as-apply-patch");
    assert_eq!(spec.program, "/usr/bin/codex");
    assert_eq!(spec.argv, vec!["/usr/bin/codex".to_string(), "--codex-run-as-apply-patch".to_string(), "*** Begin Patch\n*** End Patch".to_string()]);
    assert_eq!(spec.cwd, "/w");
    assert_eq!(spec.expiration, ExecExpiration::Timeout { ms: 5000 });
    assert_eq!(spec.sandbox_permissions, SandboxPermissions::UseDefault);
    assert_eq!(spec.env.get("PATH"), Some(&"/bin".to_string()));
    assert!(spec.justification.is_none());
    assert!(spec.arg0.is_none());
}

#[test]
fn the_callers_binary_is_used_only_if_it_exists() {
    let with = ApplyPatchRuntime::build_command_spec(&patch_request(None, Some("/opt/codex")), true, Ok("/usr/bin/codex".to_string()), StrMap::new());
    match with {
        Ok(spec) => {
            assert_eq!(spec.program, "/opt/codex");
            assert_eq!(spec.argv[0], "/opt/codex");
            assert_eq!(spec.expiration, ExecExpiration::DefaultTimeout);
        }
        Err(_) => panic!("expected a command"),
    }
    let without = ApplyPatchRuntime::build_command_spec(&patch_request(None, Some("/opt/codex")), false, Ok("/usr/bin/codex".to_string()), StrMap::new());
    match without {
        Ok(spec) => assert_eq!(spec.program, "/usr/bin/codex"),
        Err(_) => panic!("expected a command"),
    }
    let kept = ApplyPatchRuntime::build_command_spec(&patch_request(None, Some("/opt/codex")), true, Err("gone".to_string()), StrMap::new());
    assert!(kept.is_ok());
}

#[test]
fn an_unknown_binary_rejects_the_patch() {
    match ApplyPatchRuntime::build_command_spec(&patch_request(None, None), true, Err("no such file".to_string()), StrMap::new()) {
        Err(ToolError::Rejected(message)) => assert_eq!(message, "failed to determine codex exe: no such file"),
        Ok(_) => panic!("expected a rejection"),
    }
}

#[test]
fn the_approval_is_about_the_files_of_the_patch() {
    let runtime = ApplyPatchRuntime::new();
    let req = patch_request(None, None);
    assert_eq!(runtime.approval_keys(&req), vec!["/w/a.rs".to_string()]);
    assert!(matches!(runtime.exec_approval_requirement(&req), Some(ExecApprovalRequirement::Skip { bypass_sandbox: false })));
    let stream = ApplyPatchRuntime::stdout_stream(&ToolCtx { sub_id: "turn-1".to_string(), call_id: "call-9".to_string() }).unwrap();
    assert_eq!(stream.sub_id, "turn-1");
    assert_eq!(stream.call_id, "call-9");
}

#[test]
fn the_backend_follows_the_host() {
    assert_eq!(select_sandbox(HostOs::MacOs, false), SandboxType::PlatformA);
    assert_eq!(select_sandbox(HostOs::Linux, false), SandboxType::PlatformB);
    assert_eq!(select_sandbox(HostOs::MacOs, true), SandboxType::LiteVm);
    assert_eq!(select_sandbox(HostOs::Linux, true), SandboxType::LiteVm);
    assert_eq!(select_sandbox(HostOs::Windows, true), SandboxType::Disabled);
    assert_eq!(select_sandbox(HostOs::Other, false), SandboxType::Disabled);
}

#[test]
fn a_description_that_cannot_run_is_invalid() {
    let none = backend(SandboxType::Disabled, None, &[], &[]);
    let host = StrMap::new();
    assert!(is_valid_spec(&spec(&["sh"], "/", StrMap::new())));
    assert!(matches!(build_plan(spec(&[], "/", StrMap::new()), &none, &host, None), Err(LaunchError::InvalidInput)));
    assert!(matches!(build_plan(spec(&["sh"], "tmp", StrMap::new()), &none, &host, None), Err(LaunchError::InvalidInput)));
    assert!(matches!(build_plan(spec(&[""], "/", StrMap::new()), &none, &host, None), Err(LaunchError::InvalidInput)));
    assert!(matches!(build_plan(spec(&["sh"], "/", env(&[("A=B", "1")])), &none, &host, None), Err(LaunchError::InvalidInput)));
    assert!(matches!(build_plan(spec(&["sh"], "/", env(&[("", "1")])), &none, &host, None), Err(LaunchError::InvalidInput)));
    assert!(matches!(build_plan(spec(&["sh"], "/", env(&[("A", "x\0y")])), &none, &host, None), Err(LaunchError::InvalidInput)));
    assert!(matches!(build_plan(spec(&["sh"], "/", env(&[("A\0", "x")])), &none, &host, None), Err(LaunchError::InvalidInput)));
}

#[test]
fn the_lite_vm_needs_its_runtime_directory() {
    let vm = backend(SandboxType::LiteVm, None, &[], &[]);
    assert!(matches!(build_plan(spec(&["sh"], "/", StrMap::new()), &vm, &StrMap::new(), None), Err(LaunchError::SandboxUnavailable)));
    assert!(matches!(build_plan(spec(&[], "/", StrMap::new()), &vm, &StrMap::new(), None), Err(LaunchError::InvalidInput)));
    let plan = build_plan(spec(&["sh", "-c", "pwd"], "/tmp", env(&[("A", "1")])), &vm, &env(&[("LD_LIBRARY_PATH", "/lib")]), Some("/rt")).ok().unwrap();
    assert_eq!(plan.program, "sh");
    assert_eq!(plan.argv, vec!["sh".to_string(), "-c".to_string(), "pwd".to_string()]);
    assert_eq!(plan.cwd, "/tmp");
    assert_eq!(plan.stdin_disposition, StdinDisposition::Null);
    assert_eq!(plan.env.get("A"), Some(&"1".to_string()));
    assert_eq!(plan.env.get("BOXLITE_RUNTIME_DIR"), Some(&"/rt".to_string()));
    assert_eq!(plan.env.get("LD_LIBRARY_PATH"), Some(&"/rt".to_string()));
}

#[test]
fn a_helper_wraps_the_command() {
    let wrapped = backend(SandboxType::PlatformB, Some("/opt/helper"), &["--policy", "{}", "--"], &["LD_LIBRARY_PATH", "MISSING"]);
    let host = env(&[("LD_LIBRARY_PATH", "/host/lib"), ("SECRET", "x")]);
    let plan = build_plan(spec(&["sh", "-c", "echo hello"], "/", env(&[("LD_LIBRARY_PATH", "/mine")])), &wrapped, &host, Some("/rt")).ok().unwrap();
    assert_eq!(plan.program, "/opt/helper");
    assert_eq!(plan.argv, vec!["/opt/helper", "--policy", "{}", "--", "sh", "-c", "echo hello"]);
    assert_eq!(plan.env.get("LD_LIBRARY_PATH"), Some(&"/host/lib".to_string()));
    assert_eq!(plan.env.get("SECRET"), None);
    assert_eq!(plan.env.get("BOXLITE_RUNTIME_DIR"), None);
    assert_eq!(plan.env.len(), 1);
}

#[test]
fn the_second_attempt_keeps_environment_and_directory() {
    let wrapped = backend(SandboxType::PlatformA, Some("/usr/bin/sandbox-exec"), &["-p", "(version 1)"], &[]);
    let first = build_plan(spec(&["touch", "/x"], "/w", env(&[("A", "1")])), &wrapped, &StrMap::new(), None).ok().unwrap();
    let second = unsandboxed_plan("touch".to_string(), vec!["touch".to_string(), "/x".to_string()], first);
    assert_eq!(second.program, "touch");
    assert_eq!(second.argv, vec!["touch".to_string(), "/x".to_string()]);
    assert_eq!(second.cwd, "/w");
    assert_eq!(second.env.get("A"), Some(&"1".to_string()));
    assert_eq!(second.stdin_disposition, StdinDisposition::Null);
}

#[test]
fn preserved_variables_come_from_the_host() {
    let mut e = env(&[("A", "mine"), ("B", "mine")]);
    overlay_env(&mut e, &env(&[("A", "host"), ("C", "host")]), &vec!["A".to_string(), "C".to_string(), "D".to_string()]);
    assert_eq!(e.get("A"), Some(&"host".to_string()));
    assert_eq!(e.get("B"), Some(&"mine".to_string()));
    assert_eq!(e.get("C"), Some(&"host".to_string()));
    assert_eq!(e.get("D"), None);
}
