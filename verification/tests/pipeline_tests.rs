use sandbox_exec::exec::process_exec;
use sandbox_exec::exec::OutputChunk;
use sandbox_exec::exec::OutputStream;
use sandbox_exec::exec::SandboxErr;
use sandbox_exec::exec::Termination;
use sandbox_exec::handlers::auth::get_account;
use sandbox_exec::handlers::auth::logout;
use sandbox_exec::handlers::auth::Account;
use sandbox_exec::handlers::auth::CodexAuth;
use sandbox_exec::handlers::auth::PlanType;
use sandbox_exec::error::ApiError;
use sandbox_exec::orchestrator::structure_result;
use sandbox_exec::orchestrator::AttemptState;
use sandbox_exec::orchestrator::ErrorKind;
use sandbox_exec::policy::RejectReason;
use sandbox_exec::rollout::postgres_enabled;
use sandbox_exec::rollout::rollout_postgres_url;
use sandbox_exec::rollout::CODEX_ROLLOUT_POSTGRES_URL_ENV;
use sandbox_exec::tools::openai_provider_for_tools;
use sandbox_exec::tools::resolve_openai_api_key;
use sandbox_exec::tools::ApiKeySources;
use sandbox_exec::tools::API_KEY_REQUIRED;

fn chunk(stream: OutputStream, bytes: &[u8]) -> OutputChunk {
    OutputChunk { stream, bytes: bytes.to_vec() }
}

fn sources(bearer: Option<&str>, provider: Result<Option<&str>, &str>, account: Option<Result<&str, &str>>, env: Option<&str>) -> ApiKeySources {
    ApiKeySources {
        bearer_token: bearer.map(|s| s.to_string()),
        provider_key: provider.map(|k| k.map(|s| s.to_string())).map_err(|e| e.to_string()),
        account_key: account.map(|a| a.map(|s| s.to_string()).map_err(|e| e.to_string())),
        env_key: env.map(|s| s.to_string()),
    }
}

#[test]
fn a_run_is_reported_from_its_chunks() {
    let chunks = vec![
        chunk(OutputStream::Stdout, b"hel"),
        chunk(OutputStream::Stderr, b"warn\n"),
        chunk(OutputStream::Stdout, b"lo\n"),
    ];
    let output = process_exec(&chunks, Termination::Exited { code: Some(0) }, 7, 1 << 20, &Vec::new()).ok().unwrap();
    assert_eq!(output.exit_code, 0);
    assert_eq!(output.stdout.text, b"hello\n".to_vec());
    assert_eq!(output.stderr.text, b"warn\n".to_vec());
    assert_eq!(output.aggregated_output.text, b"helwarn\nlo\n".to_vec());
    assert_eq!(output.duration_ms, 7);
    assert!(!output.timed_out);
}

#[test]
fn a_run_that_expired_is_a_timeout() {
    let chunks = vec![chunk(OutputStream::Stdout, b"partial")];
    match process_exec(&chunks, Termination::Expired, 50, 1 << 20, &vec![b"partial".to_vec()]) {
        Err(SandboxErr::Timeout { output }) => {
            assert_eq!(output.exit_code, 124);
            assert!(output.timed_out);
            assert_eq!(output.stderr.text_lossy(), "Execution timed out or was cancelled");
            assert_eq!(output.aggregated_output.text_lossy(), "Execution timed out or was cancelled");
            assert_eq!(output.stdout.text_lossy(), "");
        }
        _ => panic!("expected timeout"),
    }
}

#[test]
fn a_run_that_the_sandbox_blocked_is_denied() {
    let chunks = vec![chunk(OutputStream::Stderr, b"sh: /x: Read-only file system\n")];
    let signatures = vec![b"Read-only file system".to_vec()];
    match process_exec(&chunks, Termination::Exited { code: Some(1) }, 1, 64, &signatures) {
        Err(SandboxErr::Denied { output }) => assert_eq!(output.exit_code, 1),
        _ => panic!("expected a denial"),
    }
    let cut = process_exec(&chunks, Termination::Exited { code: Some(1) }, 1, 8, &signatures).ok().unwrap();
    assert_eq!(cut.stderr.text, b"sh: /x: ".to_vec());
    assert!(cut.stderr.truncated);
    assert!(cut.aggregated_output.truncated);
}

#[test]
fn results_are_structured_for_the_caller() {
    let output = process_exec(&vec![chunk(OutputStream::Stdout, b"done\n")], Termination::Exited { code: Some(0) }, 1, 64, &Vec::new()).ok().unwrap();
    let ok = structure_result(AttemptState::Completed { success: true }, Some(&output));
    assert!(ok.success);
    assert_eq!(ok.content, "done\n");
    assert_eq!(ok.exit_code, Some(0));
    assert_eq!(ok.aggregated_output, Some("done\n".to_string()));

    let failed = process_exec(&vec![chunk(OutputStream::Stderr, b"oops")], Termination::Exited { code: Some(3) }, 1, 64, &Vec::new()).ok().unwrap();
    let nonzero = structure_result(AttemptState::Completed { success: false }, Some(&failed));
    assert!(!nonzero.success);
    assert_eq!(nonzero.content, "oops");
    assert_eq!(nonzero.exit_code, Some(3));

    let denied = structure_result(AttemptState::Fatal { error: ErrorKind::SandboxDenied }, Some(&failed));
    assert!(!denied.success);
    assert_eq!(denied.content, "SandboxDenied");
    assert_eq!(denied.exit_code, Some(3));
    assert_eq!(denied.aggregated_output, Some("oops".to_string()));

    let rejected = structure_result(AttemptState::Fatal { error: ErrorKind::PolicyRejected { reason: RejectReason::Forbidden } }, None);
    assert!(!rejected.success);
    assert_eq!(rejected.content, "PolicyRejected");
    assert_eq!(rejected.exit_code, None);
    assert_eq!(rejected.aggregated_output, None);
    let names: Vec<&str> = [
        ErrorKind::InvalidInput, ErrorKind::ApprovalDenied, ErrorKind::ApprovalTimedOut, ErrorKind::ApprovalCancelled,
        ErrorKind::SandboxUnavailable, ErrorKind::Timeout, ErrorKind::Io, ErrorKind::Protocol, ErrorKind::Internal,
    ].iter().map(|k| k.name()).collect();
    assert_eq!(names, vec!["InvalidInput", "ApprovalDenied", "ApprovalTimedOut", "ApprovalCancelled", "SandboxUnavailable", "Timeout", "Io", "Protocol", "Internal"]);
}

#[test]
fn the_database_address_is_trimmed() {
    assert_eq!(CODEX_ROLLOUT_POSTGRES_URL_ENV, "CODEX_ROLLOUT_POSTGRES_URL");
    assert_eq!(rollout_postgres_url(Some("  postgres://db \n")), Some("postgres://db".to_string()));
    assert_eq!(rollout_postgres_url(Some("postgres://db")), Some("postgres://db".to_string()));
    assert_eq!(rollout_postgres_url(Some(" \t ")), None);
    assert_eq!(rollout_postgres_url(Some("")), None);
    assert_eq!(rollout_postgres_url(None), None);
    assert!(postgres_enabled(Some(" x ")));
    assert!(!postgres_enabled(Some("   ")));
    assert!(!postgres_enabled(None));
}

#[test]
fn accounts_are_reported() {
    let none = get_account(None);
    assert!(none.account.is_none() && none.requires_openai_auth);
    let key = get_account(Some(CodexAuth::ApiKey));
    assert!(matches!(key.account, Some(Account::ApiKey)) && !key.requires_openai_auth);
    let chat = get_account(Some(CodexAuth::Chatgpt { email: Some("a@b.c".to_string()), plan_type: None }));
    assert!(matches!(chat.account, Some(Account::Chatgpt { email, plan_type: PlanType::Free }) if email == "a@b.c"));
    let pro = get_account(Some(CodexAuth::Chatgpt { email: Some("a@b.c".to_string()), plan_type: Some(PlanType::Pro) }));
    assert!(matches!(pro.account, Some(Account::Chatgpt { plan_type: PlanType::Pro, .. })));
    let anonymous = get_account(Some(CodexAuth::Chatgpt { email: None, plan_type: Some(PlanType::Pro) }));
    assert!(anonymous.account.is_none() && anonymous.requires_openai_auth);
    assert!(logout(false).is_ok());
    assert!(matches!(logout(true), Err(ApiError::InternalError(m)) if m == "Logout endpoint not yet implemented"));
}

#[test]
fn api_keys_are_tried_in_order() {
    assert_eq!(resolve_openai_api_key(sources(Some("t"), Err("bad"), Some(Err("x")), Some("e"))), Ok("t".to_string()));
    assert_eq!(resolve_openai_api_key(sources(None, Err("bad"), Some(Ok("a")), Some("e"))), Err("bad".to_string()));
    assert_eq!(resolve_openai_api_key(sources(None, Ok(Some("p")), Some(Ok("a")), Some("e"))), Ok("p".to_string()));
    assert_eq!(resolve_openai_api_key(sources(None, Ok(None), Some(Ok("a")), Some("e"))), Ok("a".to_string()));
    assert_eq!(resolve_openai_api_key(sources(None, Ok(None), Some(Err("locked")), Some("e"))), Err("locked".to_string()));
    assert_eq!(resolve_openai_api_key(sources(None, Ok(None), None, Some("e"))), Ok("e".to_string()));
    assert_eq!(resolve_openai_api_key(sources(None, Ok(None), None, None)), Err(API_KEY_REQUIRED.to_string()));
    assert_eq!(openai_provider_for_tools(Some(5)), Ok(5));
    assert_eq!(openai_provider_for_tools::<u8>(None), Err("OpenAI provider is not configured".to_string()));
}
