use sandbox_exec::apply_patch::FileChange;
use sandbox_exec::apply_patch::StdoutStream;
use sandbox_exec::event_stream::exec_events;
use sandbox_exec::exec::process_exec;
use sandbox_exec::exec::OutputChunk;
use sandbox_exec::exec::OutputStream;
use sandbox_exec::exec::Termination;
use sandbox_exec::event_stream::client_duration_ms;
use sandbox_exec::event_stream::CommandExecutionStatus;
use sandbox_exec::event_stream::Event;
use sandbox_exec::event_stream::EventMsg;
use sandbox_exec::event_stream::EventStreamProcessor;
use sandbox_exec::event_stream::PatchApplyStatus;
use sandbox_exec::event_stream::PatchChangeKind;
use sandbox_exec::event_stream::ServerNotification;
use sandbox_exec::event_stream::ThreadItem;
use sandbox_exec::event_stream::EXEC_APPROVAL_EVENT;
use sandbox_exec::event_stream::PATCH_APPROVAL_EVENT;

fn processor() -> EventStreamProcessor {
    EventStreamProcessor::new("thread-1".to_string())
}

fn one(msg: EventMsg) -> ServerNotification {
    let mut out = processor().process_event(Event { id: "turn-1".to_string(), msg });
    assert_eq!(out.len(), 1);
    out.remove(0)
}

fn command() -> Vec<String> {
    vec!["sh".to_string(), "-c".to_string(), "echo hello".to_string()]
}

#[test]
fn test_sse_event_type_names() {
    let started = one(EventMsg::ExecCommandBegin { call_id: "c".to_string(), command: command(), cwd: "/".to_string(), process_id: None });
    let delta = one(EventMsg::ExecCommandOutputDelta { call_id: "c".to_string(), chunk: b"x".to_vec() });
    let completed = one(EventMsg::PatchApplyEnd { call_id: "c".to_string(), changes: Vec::new(), success: true });
    let event_types = vec![
        EventStreamProcessor::event_type_name(&started),
        EventStreamProcessor::event_type_name(&completed),
        EventStreamProcessor::event_type_name(&delta),
        EXEC_APPROVAL_EVENT,
        PATCH_APPROVAL_EVENT,
    ];
    assert_eq!(event_types, vec![
        "item/started",
        "item/completed",
        "item/commandExecution/outputDelta",
        "item/commandExecution/requestApproval",
        "item/fileChange/requestApproval",
    ]);
    for event_type in event_types {
        assert!(event_type.contains('/'), "Event type should contain '/': {event_type}");
        assert!(!event_type.contains(' '), "Event type should not contain spaces: {event_type}");
    }
}

#[test]
fn a_command_is_shown_from_start_to_end() {
    match one(EventMsg::ExecCommandBegin { call_id: "call-1".to_string(), command: command(), cwd: "/w".to_string(), process_id: Some("42".to_string()) }) {
        ServerNotification::ItemStarted { thread_id, turn_id, item } => {
            assert_eq!(thread_id, "thread-1");
            assert_eq!(turn_id, "turn-1");
            match item {
                ThreadItem::CommandExecution { id, command, cwd, process_id, status, aggregated_output, exit_code, duration_ms } => {
                    assert_eq!(id, "call-1");
                    assert_eq!(command, "sh -c echo hello");
                    assert_eq!(cwd, "/w");
                    assert_eq!(process_id, Some("42".to_string()));
                    assert_eq!(status, CommandExecutionStatus::InProgress);
                    assert_eq!(aggregated_output, None);
                    assert_eq!(exit_code, None);
                    assert_eq!(duration_ms, None);
                }
                _ => panic!("expected a command"),
            }
        }
        _ => panic!("expected a start"),
    }
    match one(EventMsg::ExecCommandOutputDelta { call_id: "call-1".to_string(), chunk: vec![b'h', b'i', 0xff] }) {
        ServerNotification::CommandExecutionOutputDelta { thread_id, turn_id, item_id, delta } => {
            assert_eq!((thread_id.as_str(), turn_id.as_str(), item_id.as_str()), ("thread-1", "turn-1", "call-1"));
            assert_eq!(delta, "hi\u{fffd}");
        }
        _ => panic!("expected a delta"),
    }
    let end = |exit_code: i32, output: &str, duration_ms: u64| {
        one(EventMsg::ExecCommandEnd {
            call_id: "call-1".to_string(),
            command: command(),
            cwd: "/w".to_string(),
            process_id: None,
            exit_code,
            duration_ms,
            aggregated_output: output.to_string(),
        })
    };
    match end(0, "hello\n", 12) {
        ServerNotification::ItemCompleted { item: ThreadItem::CommandExecution { status, aggregated_output, exit_code, duration_ms, command, .. }, .. } => {
            assert_eq!(status, CommandExecutionStatus::Completed);
            assert_eq!(aggregated_output, Some("hello\n".to_string()));
            assert_eq!(exit_code, Some(0));
            assert_eq!(duration_ms, Some(12));
            assert_eq!(command, "sh -c echo hello");
        }
        _ => panic!("expected an end"),
    }
    match end(2, "", u64::MAX) {
        ServerNotification::ItemCompleted { item: ThreadItem::CommandExecution { status, aggregated_output, exit_code, duration_ms, .. }, .. } => {
            assert_eq!(status, CommandExecutionStatus::Failed);
            assert_eq!(aggregated_output, None);
            assert_eq!(exit_code, Some(2));
            assert_eq!(duration_ms, Some(i64::MAX));
        }
        _ => panic!("expected an end"),
    }
    assert_eq!(client_duration_ms(i64::MAX as u64), i64::MAX);
    assert_eq!(client_duration_ms(i64::MAX as u64 + 1), i64::MAX);
    assert_eq!(client_duration_ms(0), 0);
}

#[test]
fn a_patch_is_shown_with_its_changes() {
    let changes = || vec![
        ("a.rs".to_string(), FileChange::Add { content: "new".to_string() }),
        ("b.rs".to_string(), FileChange::Delete { content: "old".to_string() }),
        ("c.rs".to_string(), FileChange::Update { unified_diff: "@@".to_string(), move_path: Some("d.rs".to_string()) }),
    ];
    match one(EventMsg::PatchApplyBegin { call_id: "p".to_string(), changes: changes() }) {
        ServerNotification::ItemStarted { item: ThreadItem::FileChange { id, changes, status }, .. } => {
            assert_eq!(id, "p");
            assert_eq!(status, PatchApplyStatus::InProgress);
            assert_eq!(changes.len(), 3);
            assert_eq!((changes[0].path.as_str(), changes[0].diff.as_str()), ("a.rs", "new"));
            assert!(matches!(changes[0].kind, PatchChangeKind::Add));
            assert_eq!((changes[1].path.as_str(), changes[1].diff.as_str()), ("b.rs", "old"));
            assert!(matches!(changes[1].kind, PatchChangeKind::Delete));
            assert_eq!((changes[2].path.as_str(), changes[2].diff.as_str()), ("c.rs", "@@"));
            assert!(matches!(&changes[2].kind, PatchChangeKind::Update { move_path: Some(p) } if p == "d.rs"));
        }
        _ => panic!("expected a start"),
    }
    match one(EventMsg::PatchApplyEnd { call_id: "p".to_string(), changes: changes(), success: false }) {
        ServerNotification::ItemCompleted { item: ThreadItem::FileChange { status, changes, .. }, .. } => {
            assert_eq!(status, PatchApplyStatus::Failed);
            assert_eq!(changes.len(), 3);
        }
        _ => panic!("expected an end"),
    }
    match one(EventMsg::PatchApplyEnd { call_id: "p".to_string(), changes: Vec::new(), success: true }) {
        ServerNotification::ItemCompleted { item: ThreadItem::FileChange { status, .. }, .. } => assert_eq!(status, PatchApplyStatus::Completed),
        _ => panic!("expected an end"),
    }
    assert!(processor().process_event(Event { id: "t".to_string(), msg: EventMsg::Other }).is_empty());
}

#[test]
fn the_observer_sees_start_chunks_and_end_in_order() {
    let chunks = vec![
        OutputChunk { stream: OutputStream::Stdout, bytes: b"a".to_vec() },
        OutputChunk { stream: OutputStream::Stderr, bytes: b"b".to_vec() },
        OutputChunk { stream: OutputStream::Stdout, bytes: b"c".to_vec() },
    ];
    let output = process_exec(&chunks, Termination::Exited { code: Some(2) }, 9, 64, &Vec::new()).ok().unwrap();
    let tags = StdoutStream { sub_id: "turn-1".to_string(), call_id: "call-1".to_string() };
    let events = exec_events(&tags, &command(), "/w", &chunks, &output);
    assert_eq!(events.len(), 5);
    assert!(events.iter().all(|e| e.id == "turn-1"));
    assert!(matches!(&events[0].msg, EventMsg::ExecCommandBegin { call_id, command: line, cwd, process_id: None } if call_id == "call-1" && *line == command() && cwd == "/w"));
    for (i, expected) in [b"a", b"b", b"c"].iter().enumerate() {
        assert!(matches!(&events[i + 1].msg, EventMsg::ExecCommandOutputDelta { call_id, chunk } if call_id == "call-1" && chunk == &expected.to_vec()));
    }
    assert!(matches!(&events[4].msg, EventMsg::ExecCommandEnd { call_id, exit_code: 2, duration_ms: 9, aggregated_output, .. } if call_id == "call-1" && aggregated_output == "abc"));
    let quiet = exec_events(&tags, &command(), "/w", &Vec::new(), &output);
    assert_eq!(quiet.len(), 2);
}
