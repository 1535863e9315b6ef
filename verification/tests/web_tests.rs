use sandbox_exec::approval_manager::ApprovalManager;
use sandbox_exec::approval_manager::RespondError;
use sandbox_exec::attachments::accept_chunk;
use sandbox_exec::attachments::content_disposition;
use sandbox_exec::attachments::download_attachment;
use sandbox_exec::attachments::no_file_error;
use sandbox_exec::attachments::sanitize_filename;
use sandbox_exec::attachments::upload_attachment;
use sandbox_exec::attachments::MAX_FILE_SIZE;
use sandbox_exec::error::ApiError;
use sandbox_exec::exec::OutputCollector;
use sandbox_exec::exec::OutputStream;
use sandbox_exec::exec::Termination;
use sandbox_exec::handlers::approvals::respond_error;
use sandbox_exec::handlers::approvals::respond_to_approval;
use sandbox_exec::handlers::approvals::ApprovalRequest;
use sandbox_exec::handlers::commands::check_execution_allowed;
use sandbox_exec::handlers::commands::command_response;
use sandbox_exec::handlers::commands::exec_error;
use sandbox_exec::handlers::commands::execute_command;
use sandbox_exec::handlers::commands::resolve_cwd;
use sandbox_exec::handlers::commands::CanonicalCwd;
use sandbox_exec::handlers::commands::ExecFailure;
use sandbox_exec::handlers::commands::ExecuteCommandRequest;
use sandbox_exec::handlers::feedback::feedback_thread;
use sandbox_exec::handlers::feedback::upload_feedback;
use sandbox_exec::handlers::feedback::UploadFeedbackRequest;
use sandbox_exec::handlers::mcp::cursor_offset;
use sandbox_exec::handlers::mcp::effective_limit;
use sandbox_exec::handlers::mcp::page_window;
use sandbox_exec::handlers::mcp::ListMcpServerStatusParams;
use sandbox_exec::handlers::models::models_window;
use sandbox_exec::handlers::models::ListModelsParams;
use sandbox_exec::handlers::review::build_review_request;
use sandbox_exec::handlers::review::CoreReviewTarget;
use sandbox_exec::handlers::review::ReviewTarget;
use sandbox_exec::handlers::skills::skill_cwds;
use sandbox_exec::handlers::skills::skill_enabled;
use sandbox_exec::handlers::skills::update_skill_config;
use sandbox_exec::handlers::skills::ListSkillsParams;
use sandbox_exec::handlers::skills::UpdateSkillConfigRequest;
use sandbox_exec::handlers::threads::archive_thread;
use sandbox_exec::handlers::threads::check_thread_id;
use sandbox_exec::handlers::threads::create_thread;
use sandbox_exec::handlers::threads::fork_error;
use sandbox_exec::handlers::threads::resume_error;
use sandbox_exec::handlers::threads::HistoryError;
use sandbox_exec::handlers::turns::interrupt_turn;
use sandbox_exec::handlers::turns::send_turn;
use sandbox_exec::handlers::turns::AttachmentProbe;
use sandbox_exec::handlers::turns::InterruptTurnRequest;
use sandbox_exec::handlers::turns::TurnInput;
use sandbox_exec::handlers::turns::UserInput;
use sandbox_exec::ids::is_valid_attachment_id;
use sandbox_exec::ids::is_valid_thread_id;
use sandbox_exec::middleware::auth_middleware;
use sandbox_exec::middleware::bearer_token;
use sandbox_exec::policy::SandboxPolicy;
use sandbox_exec::sandboxing::SandboxType;
use sandbox_exec::state::ApprovalDecision;
use sandbox_exec::state::ApprovalType;
use sandbox_exec::strmap::StrMap;
use sandbox_exec::exec::ExecExpiration;

const THREAD: &str = "019bcfb9-4ea6-72e0-b43d-6b7e26ff0daf";

fn message_of(e: &ApiError) -> String {
    e.message()
}

fn probe(exists: bool, path: Option<&str>, dir: Result<&str, &str>) -> AttachmentProbe {
    AttachmentProbe {
        exists,
        canonical_path: path.map(|p| p.to_string()),
        canonical_dir: dir.map(|d| d.to_string()).map_err(|e| e.to_string()),
    }
}

#[test]
fn errors_have_their_status_and_message() {
    let cases = vec![
        (ApiError::Unauthorized, 401, "Unauthorized"),
        (ApiError::NotFound("nf".to_string()), 404, "nf"),
        (ApiError::InvalidRequest("bad".to_string()), 400, "bad"),
        (ApiError::InternalError("boom".to_string()), 500, "boom"),
        (ApiError::ThreadNotFound, 404, "Thread not found"),
        (ApiError::AttachmentNotFound, 404, "Attachment not found"),
        (ApiError::Timeout("slow".to_string()), 504, "slow"),
    ];
    for (error, status, message) in cases {
        assert_eq!(error.status(), status);
        assert_eq!(error.message(), message);
        assert_eq!(error.into_response(), (status, message.to_string()));
    }
    assert!(matches!(ApiError::from_error_text("x".to_string()), ApiError::InternalError(m) if m == "x"));
    assert_eq!(message_of(&ApiError::internal("Failed to load config", "missing")), "Failed to load config: missing");
}

#[test]
fn only_the_servers_token_passes() {
    assert!(auth_middleware(Some("Bearer test-token"), "test-token").is_ok());
    assert!(matches!(auth_middleware(Some("Bearer other"), "test-token"), Err(ApiError::Unauthorized)));
    assert!(matches!(auth_middleware(Some("Bearer test-token "), "test-token"), Err(ApiError::Unauthorized)));
    assert!(matches!(auth_middleware(Some("bearer test-token"), "test-token"), Err(ApiError::Unauthorized)));
    assert!(matches!(auth_middleware(Some("test-token"), "test-token"), Err(ApiError::Unauthorized)));
    assert!(matches!(auth_middleware(Some("Bearer"), ""), Err(ApiError::Unauthorized)));
    assert!(matches!(auth_middleware(None, "test-token"), Err(ApiError::Unauthorized)));
    assert!(auth_middleware(Some("Bearer "), "").is_ok());
    assert_eq!(bearer_token(Some("Bearer a b")), Some("a b".to_string()));
    assert_eq!(bearer_token(Some("Bearer ")), Some(String::new()));
    assert_eq!(bearer_token(Some("Basic abc")), None);
    assert_eq!(bearer_token(None), None);
}

#[test]
fn ids_are_uuids() {
    assert!(is_valid_thread_id(THREAD));
    assert!(is_valid_attachment_id("550e8400-e29b-41d4-a716-446655440000"));
    assert!(is_valid_thread_id("550e8400e29b41d4a716446655440000"));
    assert!(!is_valid_thread_id("invalid-uuid"));
    assert!(!is_valid_attachment_id("../../etc/passwd"));
    assert!(!is_valid_thread_id(""));
    assert!(check_thread_id(THREAD).is_ok());
    match check_thread_id("test-thread-id") {
        Err(ApiError::InvalidRequest(msg)) => assert_eq!(msg, "Invalid thread ID"),
        _ => panic!("expected an invalid request"),
    }
    assert!(archive_thread(THREAD).ok().unwrap().success);
    assert!(archive_thread("x").is_err());
}

#[test]
fn test_mcp_server_status_pagination_cursor() {
    let cursor = "10";
    let limit = 20;
    assert_eq!(cursor_offset(Some(cursor)), 10);
    assert_eq!(effective_limit(Some(limit)), 20);
}

#[test]
fn test_mcp_server_status_cursor_boundary() {
    let test_cases = vec![("0", 0), ("99", 99), ("abc", 0), ("", 0)];
    for (cursor, expected_offset) in test_cases {
        assert_eq!(cursor_offset(Some(cursor)), expected_offset, "Failed for cursor: {cursor}");
    }
    assert_eq!(cursor_offset(None), 0);
    assert_eq!(cursor_offset(Some("+7")), 7);
    assert_eq!(cursor_offset(Some("-7")), 0);
    assert_eq!(cursor_offset(Some("7 ")), 0);
    assert_eq!(cursor_offset(Some("99999999999999999999999999")), 0);
}

#[test]
fn test_mcp_server_status_limit_clamping() {
    let test_cases = vec![(0, 1), (1, 1), (50, 50), (100, 100), (200, 100)];
    for (input_limit, expected) in test_cases {
        assert_eq!(effective_limit(Some(input_limit)), expected, "Failed for limit: {input_limit}");
    }
    assert_eq!(effective_limit(None), 100);
}

#[test]
fn pages_follow_each_other() {
    let params = |limit: Option<usize>, cursor: Option<&str>| ListMcpServerStatusParams { limit, cursor: cursor.map(|c| c.to_string()) };
    let first = page_window(&params(Some(2), None), 5);
    assert_eq!((first.start, first.end, first.next_cursor.clone()), (0, 2, Some("2".to_string())));
    let second = page_window(&params(Some(2), first.next_cursor.as_deref()), 5);
    assert_eq!((second.start, second.end, second.next_cursor.clone()), (2, 4, Some("4".to_string())));
    let third = page_window(&params(Some(2), second.next_cursor.as_deref()), 5);
    assert_eq!((third.start, third.end, third.next_cursor), (4, 5, None));
    let behind = page_window(&params(Some(2), Some("5")), 5);
    assert_eq!((behind.start, behind.end, behind.next_cursor), (5, 5, None));
    let all = page_window(&params(None, None), 150);
    assert_eq!((all.start, all.end, all.next_cursor), (0, 100, Some("100".to_string())));
    let huge = page_window(&params(Some(usize::MAX), Some("18446744073709551614")), usize::MAX);
    assert_eq!((huge.start, huge.end, huge.next_cursor), (usize::MAX - 1, usize::MAX, None));
    let empty = page_window(&params(None, None), 0);
    assert_eq!((empty.start, empty.end, empty.next_cursor), (0, 0, None));
}

#[test]
fn model_pages_are_capped() {
    let params = |limit: Option<usize>, offset: Option<usize>| ListModelsParams { limit, offset, capability: None, provider: None };
    let w = models_window(&params(None, None), 120);
    assert_eq!((w.start, w.end, w.total, w.limit, w.offset), (0, 50, 120, 50, 0));
    let w = models_window(&params(Some(500), Some(30)), 120);
    assert_eq!((w.start, w.end, w.limit, w.offset), (30, 120, 100, 30));
    let w = models_window(&params(Some(10), Some(115)), 120);
    assert_eq!((w.start, w.end), (115, 120));
    let w = models_window(&params(Some(10), Some(120)), 120);
    assert_eq!((w.start, w.end, w.offset), (120, 120, 120));
    let w = models_window(&params(Some(0), Some(3)), 120);
    assert_eq!((w.start, w.end, w.limit), (3, 3, 0));
    let w = models_window(&params(Some(100), Some(usize::MAX)), 5);
    assert_eq!((w.start, w.end), (5, 5));
}

#[test]
fn uploads_stop_at_the_size_limit() {
    assert_eq!(MAX_FILE_SIZE, 100 * 1024 * 1024);
    assert_eq!(accept_chunk(0, 10).ok(), Some(10));
    assert_eq!(accept_chunk(MAX_FILE_SIZE - 10, 10).ok(), Some(MAX_FILE_SIZE));
    match accept_chunk(MAX_FILE_SIZE - 10, 11) {
        Err(ApiError::InvalidRequest(msg)) => assert_eq!(msg, "File size exceeds maximum allowed size of 104857600 bytes"),
        _ => panic!("expected the upload to be refused"),
    }
    assert!(accept_chunk(MAX_FILE_SIZE, 0).is_ok());
    assert!(accept_chunk(MAX_FILE_SIZE + 1, 0).is_err());
    assert!(accept_chunk(1, usize::MAX).is_err());
    assert_eq!(message_of(&no_file_error()), "No file provided in multipart request");
}

#[test]
fn uploads_fall_back_to_default_name_and_type() {
    let (meta, response) = upload_attachment("id".to_string(), None, None, 7);
    assert_eq!(meta.id, "id");
    assert_eq!(meta.filename, "unnamed");
    assert_eq!(meta.mime_type, "application/octet-stream");
    assert_eq!(meta.size, 7);
    assert_eq!(response.attachment_id, "id");
    assert_eq!(response.filename, "unnamed");
    assert_eq!(response.size, 7);
    let (meta, response) = upload_attachment("id".to_string(), Some("a.png".to_string()), Some("image/png".to_string()), 0);
    assert_eq!(meta.filename, "a.png");
    assert_eq!(meta.mime_type, "image/png");
    assert_eq!(response.filename, "a.png");
}

#[test]
fn file_names_are_made_safe_for_headers() {
    assert_eq!(sanitize_filename("report-2024_v1.pdf"), "report-2024_v1.pdf");
    assert_eq!(sanitize_filename("a b\"c\r\nd;e/f"), "abcdef");
    assert_eq!(sanitize_filename("\u{e9}t\u{e9}.txt"), "\u{e9}t\u{e9}.txt");
    assert_eq!(sanitize_filename("\"\r\n"), "attachment");
    assert_eq!(sanitize_filename(""), "attachment");
    assert_eq!(content_disposition("my file.txt"), "attachment; filename=\"myfile.txt\"");
    assert_eq!(content_disposition("\""), "attachment; filename=\"attachment\"");
}

#[test]
fn attachments_cannot_lead_out_of_their_directory() {
    let id = "550e8400-e29b-41d4-a716-446655440000";
    let inside = probe(true, Some("/data/attachments/550e8400-e29b-41d4-a716-446655440000"), Ok("/data/attachments"));
    assert_eq!(download_attachment(id, inside).ok(), Some("/data/attachments/550e8400-e29b-41d4-a716-446655440000".to_string()));
    let outside = probe(true, Some("/etc/passwd"), Ok("/data/attachments"));
    match download_attachment(id, outside) {
        Err(ApiError::InvalidRequest(msg)) => assert_eq!(msg, "Invalid attachment path"),
        _ => panic!("expected the path to be refused"),
    }
    let sibling = probe(true, Some("/data/attachments-old/x"), Ok("/data/attachments"));
    assert!(download_attachment(id, sibling).is_err());
    assert!(matches!(download_attachment("../x", probe(true, Some("/data/attachments/x"), Ok("/data/attachments"))), Err(ApiError::AttachmentNotFound)));
    assert!(matches!(download_attachment(id, probe(false, None, Ok("/data/attachments"))), Err(ApiError::AttachmentNotFound)));
    assert!(matches!(download_attachment(id, probe(true, None, Ok("/data/attachments"))), Err(ApiError::AttachmentNotFound)));
    match download_attachment(id, probe(true, Some("/data/attachments/x"), Err("denied"))) {
        Err(ApiError::InternalError(msg)) => assert_eq!(msg, "Failed to resolve attachments directory: denied"),
        _ => panic!("expected an internal error"),
    }
}

#[test]
fn a_turn_sends_texts_and_images_in_order() {
    let id = "550e8400-e29b-41d4-a716-446655440000";
    let good = || TurnInput::Attachment { attachment_id: id.to_string(), probe: probe(true, Some("/att/550e"), Ok("/att")) };
    let items = send_turn(vec![TurnInput::Text { text: "Hello".to_string() }, good(), TurnInput::Text { text: "!".to_string() }]).ok().unwrap();
    assert_eq!(items.len(), 3);
    assert!(matches!(&items[0], UserInput::Text { text } if text == "Hello"));
    assert!(matches!(&items[1], UserInput::LocalImage { path } if path == "/att/550e"));
    assert!(matches!(&items[2], UserInput::Text { text } if text == "!"));
    assert!(send_turn(Vec::new()).ok().unwrap().is_empty());

    let bad_id = TurnInput::Attachment { attachment_id: "nope".to_string(), probe: probe(true, Some("/att/x"), Ok("/att")) };
    match send_turn(vec![good(), bad_id, TurnInput::Attachment { attachment_id: id.to_string(), probe: probe(false, None, Ok("/att")) }]) {
        Err(ApiError::InvalidRequest(msg)) => assert_eq!(msg, "Invalid attachment ID format"),
        _ => panic!("expected the first refusal"),
    }
    let missing = TurnInput::Attachment { attachment_id: id.to_string(), probe: probe(false, None, Ok("/att")) };
    assert!(matches!(send_turn(vec![missing]), Err(ApiError::AttachmentNotFound)));
    assert!(interrupt_turn(InterruptTurnRequest {}).success);
}

#[test]
fn review_requests_name_branch_or_files() {
    let git = build_review_request(ReviewTarget::Git { branch: Some("feature".to_string()), base: Some("develop".to_string()) }).ok().unwrap();
    assert!(matches!(git.target, CoreReviewTarget::BaseBranch { branch } if branch == "develop"));
    assert!(git.user_facing_hint.is_none());
    let default = build_review_request(ReviewTarget::Git { branch: None, base: None }).ok().unwrap();
    assert!(matches!(default.target, CoreReviewTarget::BaseBranch { branch } if branch == "main"));
    let files = build_review_request(ReviewTarget::Files { paths: vec!["a.rs".to_string(), "b/c.rs".to_string()] }).ok().unwrap();
    assert!(matches!(files.target, CoreReviewTarget::Custom { instructions } if instructions == "Review the following files: a.rs, b/c.rs"));
    let none = build_review_request(ReviewTarget::Files { paths: Vec::new() }).ok().unwrap();
    assert!(matches!(none.target, CoreReviewTarget::Custom { instructions } if instructions == "Review the following files: "));
}

#[test]
fn commands_run_only_where_they_are_confined() {
    assert!(check_execution_allowed(&SandboxPolicy::ReadOnly, SandboxType::LiteVm).is_ok());
    assert!(check_execution_allowed(&SandboxPolicy::WorkspaceWrite { roots: Vec::new(), network_allowed: true }, SandboxType::LiteVm).is_ok());
    assert!(matches!(check_execution_allowed(&SandboxPolicy::DangerFullAccess, SandboxType::LiteVm), Err(ApiError::InternalError(_))));
    assert!(matches!(check_execution_allowed(&SandboxPolicy::ExternalSandbox { network_allowed: false }, SandboxType::LiteVm), Err(ApiError::InternalError(_))));
    for sandbox in [SandboxType::Disabled, SandboxType::PlatformA, SandboxType::PlatformB] {
        assert!(matches!(check_execution_allowed(&SandboxPolicy::ReadOnly, sandbox), Err(ApiError::InternalError(_))));
    }
}

#[test]
fn a_command_request_becomes_an_invocation() {
    let request = |command: &[&str]| ExecuteCommandRequest { command: command.iter().map(|c| c.to_string()).collect(), cwd: None };
    let policy = SandboxPolicy::ReadOnly;
    match execute_command(request(&[]), Some(CanonicalCwd::Failed("gone".to_string())), "/home", &SandboxPolicy::DangerFullAccess, SandboxType::Disabled, StrMap::new()) {
        Err(ApiError::InvalidRequest(msg)) => assert_eq!(msg, "Command cannot be empty"),
        _ => panic!("expected the request to be refused"),
    }
    match execute_command(request(&["ls"]), Some(CanonicalCwd::Failed("gone".to_string())), "/home", &SandboxPolicy::DangerFullAccess, SandboxType::Disabled, StrMap::new()) {
        Err(ApiError::InvalidRequest(msg)) => assert_eq!(msg, "Invalid cwd: gone"),
        _ => panic!("expected the directory to be refused"),
    }
    match execute_command(request(&["ls"]), Some(CanonicalCwd::Resolved("rel".to_string())), "/home", &policy, SandboxType::LiteVm, StrMap::new()) {
        Err(ApiError::InvalidRequest(msg)) => assert_eq!(msg, "CWD must be an absolute path"),
        _ => panic!("expected the directory to be refused"),
    }
    assert!(matches!(execute_command(request(&["ls"]), None, "/home", &SandboxPolicy::DangerFullAccess, SandboxType::LiteVm, StrMap::new()), Err(ApiError::InternalError(_))));
    assert!(matches!(execute_command(request(&["ls"]), None, "/home", &policy, SandboxType::PlatformB, StrMap::new()), Err(ApiError::InternalError(_))));

    let spec = execute_command(request(&["sh", "-c", "pwd"]), Some(CanonicalCwd::Resolved("/tmp".to_string())), "/home", &policy, SandboxType::LiteVm, StrMap::new()).ok().unwrap();
    assert_eq!(spec.program, "sh");
    assert_eq!(spec.argv, vec!["sh".to_string(), "-c".to_string(), "pwd".to_string()]);
    assert_eq!(spec.cwd, "/tmp");
    assert_eq!(spec.expiration, ExecExpiration::Timeout { ms: 10_000 });
    let home = execute_command(request(&["ls"]), None, "/home/.codex", &policy, SandboxType::LiteVm, StrMap::new()).ok().unwrap();
    assert_eq!(home.cwd, "/home/.codex");

    assert_eq!(resolve_cwd(None, "/home/.codex").ok(), Some("/home/.codex".to_string()));
    assert_eq!(resolve_cwd(Some(CanonicalCwd::Resolved("/tmp".to_string())), "/home").ok(), Some("/tmp".to_string()));
    match resolve_cwd(Some(CanonicalCwd::Resolved("tmp".to_string())), "/home") {
        Err(ApiError::InvalidRequest(msg)) => assert_eq!(msg, "CWD must be an absolute path"),
        _ => panic!("expected the directory to be refused"),
    }
    match resolve_cwd(Some(CanonicalCwd::Failed("No such file or directory".to_string())), "/home") {
        Err(ApiError::InvalidRequest(msg)) => assert_eq!(msg, "Invalid cwd: No such file or directory"),
        _ => panic!("expected the directory to be refused"),
    }
}

#[test]
fn command_failures_are_mapped() {
    assert!(matches!(exec_error(ExecFailure::Timeout), ApiError::Timeout(m) if m == "Command exceeded 10s timeout"));
    assert!(matches!(exec_error(ExecFailure::InvalidRequest("a".to_string())), ApiError::InvalidRequest(m) if m == "a"));
    assert!(matches!(exec_error(ExecFailure::UnsupportedOperation("b".to_string())), ApiError::InvalidRequest(m) if m == "b"));
    assert!(matches!(exec_error(ExecFailure::Other("c".to_string())), ApiError::InternalError(m) if m == "c"));
    let output = OutputCollector::new(64)
        .push(OutputStream::Stdout, b"out")
        .push(OutputStream::Stderr, b"err")
        .finish(Termination::Exited { code: Some(2) }, 0);
    let response = command_response(&output);
    assert_eq!(response.stdout, "out");
    assert_eq!(response.stderr, "err");
    assert_eq!(response.exit_code, 2);
}

#[test]
fn feedback_needs_a_classification() {
    let req = |classification: &str, thread_id: Option<&str>| UploadFeedbackRequest {
        classification: classification.to_string(),
        reason: Some("Something went wrong".to_string()),
        thread_id: thread_id.map(|t| t.to_string()),
        include_logs: true,
    };
    match feedback_thread(&req("", Some(THREAD)), "fresh".to_string()) {
        Err(ApiError::InvalidRequest(msg)) => assert_eq!(msg, "Classification cannot be empty"),
        _ => panic!("expected the feedback to be refused"),
    }
    assert_eq!(feedback_thread(&req("bug", Some(THREAD)), "fresh".to_string()).ok(), Some(THREAD.to_string()));
    assert_eq!(feedback_thread(&req("good_result", None), "fresh".to_string()).ok(), Some("fresh".to_string()));
    match feedback_thread(&req("bug", Some("test")), "fresh".to_string()) {
        Err(ApiError::InvalidRequest(msg)) => assert_eq!(msg, "Invalid thread ID"),
        _ => panic!("expected the thread id to be refused"),
    }
    let ok = upload_feedback(Ok(()), "t".to_string()).ok().unwrap();
    assert!(ok.success);
    assert_eq!(ok.thread_id, "t");
    match upload_feedback(Err("offline".to_string()), "t".to_string()) {
        Err(ApiError::InternalError(msg)) => assert_eq!(msg, "Failed to upload feedback: offline"),
        _ => panic!("expected an internal error"),
    }
}

#[test]
fn threads_and_skills_answer_plainly() {
    let created = create_thread("id".to_string(), None);
    assert_eq!((created.thread_id.as_str(), created.model.as_str()), ("id", "default"));
    let created = create_thread("id".to_string(), Some("test-model".to_string()));
    assert_eq!(created.model, "test-model");
    let v1 = sandbox_exec::handlers::create_thread("id".to_string(), None);
    assert_eq!(v1.model, "default");
    assert!(matches!(resume_error(THREAD, HistoryError::NotFound), ApiError::NotFound(m) if m == format!("Rollout history not found for thread: {THREAD}")));
    assert!(matches!(resume_error(THREAD, HistoryError::Other("io".to_string())), ApiError::InternalError(m) if m == "Failed to resume thread: io"));
    assert!(matches!(fork_error(HistoryError::NotFound), ApiError::ThreadNotFound));
    assert!(matches!(fork_error(HistoryError::Other("io".to_string())), ApiError::InternalError(m) if m == "Failed to fork thread: io"));

    assert_eq!(skill_cwds(ListSkillsParams { cwds: Vec::new(), force_reload: false }, "/w".to_string()), vec!["/w".to_string()]);
    assert_eq!(skill_cwds(ListSkillsParams { cwds: vec!["/a".to_string(), "/b".to_string()], force_reload: true }, "/w".to_string()), vec!["/a".to_string(), "/b".to_string()]);
    assert!(skill_enabled(&"/s/a".to_string(), &vec!["/s/b".to_string()]));
    assert!(!skill_enabled(&"/s/b".to_string(), &vec!["/s/a".to_string(), "/s/b".to_string()]));
    assert!(skill_enabled(&"/s/a".to_string(), &Vec::new()));
    assert!(update_skill_config(&UpdateSkillConfigRequest { enabled: true }).effective_enabled);
    assert!(!update_skill_config(&UpdateSkillConfigRequest { enabled: false }).effective_enabled);
}

#[test]
fn the_approval_endpoint_maps_its_errors() {
    let mut manager = ApprovalManager::new(StrMap::new());
    manager.register_approval("item".to_string(), THREAD.to_string(), "item".to_string(), ApprovalType::FileChange { reason: "r".to_string() }, 4, 100, 0);
    let approve = ApprovalRequest { decision: ApprovalDecision::Approved };
    match respond_to_approval(&mut manager, "test-thread-id", "item", approve, 1) {
        Err(ApiError::InvalidRequest(msg)) => assert_eq!(msg, "Invalid thread ID"),
        _ => panic!("expected the thread id to be refused"),
    }
    assert!(manager.is_pending("item"));
    match respond_to_approval(&mut manager, THREAD, "other", approve, 1) {
        Err(ApiError::InvalidRequest(msg)) => assert_eq!(msg, "Approval request not found"),
        _ => panic!("expected not found"),
    }
    let (response, delivery) = respond_to_approval(&mut manager, THREAD, "item", approve, 1).ok().unwrap();
    assert!(response.success);
    assert_eq!(delivery.channels, vec![4]);
    assert_eq!(delivery.response.decision, ApprovalDecision::Approved);
    manager.register_approval("late".to_string(), THREAD.to_string(), "late".to_string(), ApprovalType::FileChange { reason: "r".to_string() }, 5, 100, 0);
    match respond_to_approval(&mut manager, THREAD, "late", approve, 100) {
        Err(ApiError::InvalidRequest(msg)) => assert_eq!(msg, "Approval request has timed out"),
        _ => panic!("expected a timeout"),
    }
    assert!(matches!(respond_error(RespondError::Disconnected), ApiError::InternalError(m) if m == "Failed to send approval response"));
}
