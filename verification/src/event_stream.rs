//! From the events of an attempt to the notifications that clients see.

use crate::apply_patch::FileChange;
use crate::apply_patch::StdoutStream;
use crate::exec::decode_lossy;
use crate::exec::ExecToolCallOutput;
use crate::exec::OutputChunk;
use crate::exec::utf8_lossy;
use crate::text::join_with;
use crate::text::spec_join;
use crate::text::words;
use vstd::prelude::*;

verus! {

/// What happened in an attempt.
pub enum EventMsg {
    ExecCommandBegin { call_id: String, command: Vec<String>, cwd: String, process_id: Option<String> },
    ExecCommandOutputDelta { call_id: String, chunk: Vec<u8> },
    ExecCommandEnd {
        call_id: String,
        command: Vec<String>,
        cwd: String,
        process_id: Option<String>,
        exit_code: i32,
        /// How long the command ran, in milliseconds.
        duration_ms: u64,
        aggregated_output: String,
    },
    PatchApplyBegin { call_id: String, changes: Vec<(String, FileChange)> },
    PatchApplyEnd { call_id: String, changes: Vec<(String, FileChange)>, success: bool },
    /// An event that clients are not told of here.
    Other,
}

pub struct Event {
    /// The turn that the event belongs to.
    pub id: String,
    pub msg: EventMsg,
}

#[derive(PartialEq, Eq, Structural, Clone, Copy, Debug)]
pub enum CommandExecutionStatus {
    InProgress,
    Completed,
    Failed,
}

#[derive(PartialEq, Eq, Structural, Clone, Copy, Debug)]
pub enum PatchApplyStatus {
    InProgress,
    Completed,
    Failed,
}

pub enum PatchChangeKind {
    Add,
    Delete,
    Update { move_path: Option<String> },
}

pub struct FileUpdateChange {
    pub path: String,
    pub kind: PatchChangeKind,
    pub diff: String,
}

#[allow(inconsistent_fields)]
pub enum ThreadItem {
    CommandExecution {
        id: String,
        command: String,
        cwd: String,
        process_id: Option<String>,
        status: CommandExecutionStatus,
        aggregated_output: Option<String>,
        exit_code: Option<i32>,
        duration_ms: Option<i64>,
    },
    FileChange { id: String, changes: Vec<FileUpdateChange>, status: PatchApplyStatus },
}

pub enum ServerNotification {
    ItemStarted { thread_id: String, turn_id: String, item: ThreadItem },
    ItemCompleted { thread_id: String, turn_id: String, item: ThreadItem },
    CommandExecutionOutputDelta { thread_id: String, turn_id: String, item_id: String, delta: String },
}

/// The name under which clients are asked to approve a command.
pub const EXEC_APPROVAL_EVENT: &'static str = "item/commandExecution/requestApproval";

/// The name under which clients are asked to approve a patch.
pub const PATCH_APPROVAL_EVENT: &'static str = "item/fileChange/requestApproval";

/// The change to the file at `path` as clients see it.
pub fn convert_file_change(path: String, change: FileChange) -> (r: FileUpdateChange)
    ensures
        r.path == path,
        match change {
            FileChange::Add { content } => r.kind is Add && r.diff == content,
            FileChange::Delete { content } => r.kind is Delete && r.diff == content,
            FileChange::Update { unified_diff, move_path } => r.kind == (PatchChangeKind::Update {
                move_path,
            }) && r.diff == unified_diff,
        },
{
    match change {
        FileChange::Add { content } => FileUpdateChange {
            path,
            kind: PatchChangeKind::Add,
            diff: content,
        },
        FileChange::Delete { content } => FileUpdateChange {
            path,
            kind: PatchChangeKind::Delete,
            diff: content,
        },
        FileChange::Update { unified_diff, move_path } => FileUpdateChange {
            path,
            kind: PatchChangeKind::Update { move_path },
            diff: unified_diff,
        },
    }
}

/// `out` is `change` at `path` as clients see it.
pub open spec fn change_matches(entry: (String, FileChange), out: FileUpdateChange) -> bool {
    &&& out.path == entry.0
    &&& match entry.1 {
        FileChange::Add { content } => out.kind is Add && out.diff == content,
        FileChange::Delete { content } => out.kind is Delete && out.diff == content,
        FileChange::Update { unified_diff, move_path } => out.kind == (PatchChangeKind::Update {
            move_path,
        }) && out.diff == unified_diff,
    }
}

/// The changes of a patch as clients see them, in their order.
pub fn convert_changes(changes: Vec<(String, FileChange)>) -> (r: Vec<FileUpdateChange>)
    ensures
        r@.len() == changes@.len(),
        forall|i: int| 0 <= i < changes@.len() ==> change_matches(changes@[i], #[trigger] r@[i]),
{
    let mut r: Vec<FileUpdateChange> = Vec::new();
    let count = changes.len();
    let mut rest = changes;
    let ghost all = changes@;
    while rest.len() > 0
        invariant
            all == changes@,
            all.len() == count,
            r@.len() + rest@.len() == all.len(),
            rest@ == all.subrange(r@.len() as int, all.len() as int),
            forall|i: int| 0 <= i < r@.len() ==> change_matches(all[i], #[trigger] r@[i]),
        decreases rest@.len(),
    {
        let ghost done = r@.len() as int;
        let (path, change) = rest.remove(0);
        assert((path, change) == all[done]);
        assert(rest@ =~= all.subrange(done + 1, all.len() as int));
        r.push(convert_file_change(path, change));
    }
    r
}

/// The event for a chunk that the child of the call `stream` wrote.
pub fn output_delta(stream: &StdoutStream, chunk: Vec<u8>) -> (event: Event)
    ensures
        event.id == stream.sub_id,
        event.msg == (EventMsg::ExecCommandOutputDelta { call_id: stream.call_id, chunk }),
{
    Event {
        id: stream.sub_id.clone(),
        msg: EventMsg::ExecCommandOutputDelta { call_id: stream.call_id.clone(), chunk },
    }
}

/// The events of one call, in the order in which its observer receives
/// them: the start, one piece of output for every chunk in arrival order,
/// and the end with the exit code, the duration and the aggregate as text.
pub fn exec_events(
    stream: &StdoutStream,
    command: &Vec<String>,
    cwd: &str,
    chunks: &Vec<OutputChunk>,
    output: &ExecToolCallOutput,
) -> (events: Vec<Event>)
    ensures
        events@.len() == chunks@.len() + 2,
        forall|i: int| 0 <= i < events@.len() ==> (#[trigger] events@[i]).id == stream.sub_id,
        events@[0].msg matches EventMsg::ExecCommandBegin {
            call_id,
            command: line,
            cwd: dir,
            process_id,
        } && call_id == stream.call_id && line@ == command@ && dir@ == cwd@ && process_id is None,
        forall|i: int|
            0 <= i < chunks@.len() ==> ((#[trigger] events@[i + 1]).msg
                matches EventMsg::ExecCommandOutputDelta { call_id, chunk } && call_id
                == stream.call_id && chunk@ == chunks@[i].bytes@),
        events@[chunks@.len() as int + 1].msg matches EventMsg::ExecCommandEnd {
            call_id,
            command: line,
            cwd: dir,
            process_id,
            exit_code,
            duration_ms,
            aggregated_output,
        } && call_id == stream.call_id && line@ == command@ && dir@ == cwd@ && process_id is None
            && exit_code == output.exit_code && duration_ms == output.duration_ms
            && aggregated_output@ == utf8_lossy(output.aggregated_output.text@),
{
    let mut events: Vec<Event> = Vec::new();
    events.push(
        Event {
            id: stream.sub_id.clone(),
            msg: EventMsg::ExecCommandBegin {
                call_id: stream.call_id.clone(),
                command: crate::text::clone_words(command),
                cwd: cwd.to_string(),
                process_id: None,
            },
        },
    );
    let mut i: usize = 0;
    while i < chunks.len()
        invariant
            i <= chunks.len(),
            events@.len() == i + 1,
            forall|j: int| 0 <= j < events@.len() ==> (#[trigger] events@[j]).id == stream.sub_id,
            events@[0].msg matches EventMsg::ExecCommandBegin {
                call_id,
                command: line,
                cwd: dir,
                process_id,
            } && call_id == stream.call_id && line@ == command@ && dir@ == cwd@ && process_id
                is None,
            forall|j: int|
                0 <= j < i ==> ((#[trigger] events@[j + 1]).msg
                    matches EventMsg::ExecCommandOutputDelta { call_id, chunk } && call_id
                    == stream.call_id && chunk@ == chunks@[j].bytes@),
        decreases chunks.len() - i,
    {
        let chunk = vstd::slice::slice_to_vec(chunks[i].bytes.as_slice());
        events.push(output_delta(stream, chunk));
        i += 1;
    }
    events.push(
        Event {
            id: stream.sub_id.clone(),
            msg: EventMsg::ExecCommandEnd {
                call_id: stream.call_id.clone(),
                command: crate::text::clone_words(command),
                cwd: cwd.to_string(),
                process_id: None,
                exit_code: output.exit_code,
                duration_ms: output.duration_ms,
                aggregated_output: output.aggregated_output.text_lossy(),
            },
        },
    );
    events
}

/// The status of a command that ended with `exit_code`.
pub open spec fn spec_command_status(exit_code: i32) -> CommandExecutionStatus {
    if exit_code == 0 {
        CommandExecutionStatus::Completed
    } else {
        CommandExecutionStatus::Failed
    }
}

/// A duration in milliseconds as clients see it: the largest number they
/// can take if it is larger.
pub open spec fn spec_duration_ms(duration_ms: u64) -> i64 {
    if duration_ms > i64::MAX {
        i64::MAX
    } else {
        duration_ms as i64
    }
}

pub fn client_duration_ms(duration_ms: u64) -> (r: i64)
    ensures
        r == spec_duration_ms(duration_ms),
{
    if duration_ms > i64::MAX as u64 {
        i64::MAX
    } else {
        duration_ms as i64
    }
}

/// What `process_event` makes of an event, as far as its texts go.
pub open spec fn notification_matches(thread_id: Seq<char>, event: Event, out: Seq<ServerNotification>) -> bool {
    match event.msg {
        EventMsg::ExecCommandBegin { call_id, command, cwd, process_id } => {
            &&& out.len() == 1
            &&& out[0] matches ServerNotification::ItemStarted { thread_id: t, turn_id, item }
            &&& t@ == thread_id
            &&& turn_id == event.id
            &&& item matches ThreadItem::CommandExecution {
                id,
                command: line,
                cwd: dir,
                process_id: pid,
                status,
                aggregated_output,
                exit_code,
                duration_ms,
            }
            &&& id == call_id
            &&& line@ == spec_join(words(command@), " "@)
            &&& dir == cwd
            &&& pid == process_id
            &&& status == CommandExecutionStatus::InProgress
            &&& aggregated_output is None
            &&& exit_code is None
            &&& duration_ms is None
        },
        EventMsg::ExecCommandOutputDelta { call_id, chunk } => {
            &&& out.len() == 1
            &&& out[0] matches ServerNotification::CommandExecutionOutputDelta {
                thread_id: t,
                turn_id,
                item_id,
                delta,
            }
            &&& t@ == thread_id
            &&& turn_id == event.id
            &&& item_id == call_id
            &&& delta@ == utf8_lossy(chunk@)
        },
        EventMsg::ExecCommandEnd {
            call_id,
            command,
            cwd,
            process_id,
            exit_code: code,
            duration_ms: took,
            aggregated_output: text,
        } => {
            &&& out.len() == 1
            &&& out[0] matches ServerNotification::ItemCompleted { thread_id: t, turn_id, item }
            &&& t@ == thread_id
            &&& turn_id == event.id
            &&& item matches ThreadItem::CommandExecution {
                id,
                command: line,
                cwd: dir,
                process_id: pid,
                status,
                aggregated_output,
                exit_code,
                duration_ms,
            }
            &&& id == call_id
            &&& line@ == spec_join(words(command@), " "@)
            &&& dir == cwd
            &&& pid == process_id
            &&& status == spec_command_status(code)
            &&& aggregated_output == if text@.len() == 0 {
                None
            } else {
                Some(text)
            }
            &&& exit_code == Some(code)
            &&& duration_ms == Some(spec_duration_ms(took))
        },
        EventMsg::PatchApplyBegin { call_id, changes } => {
            &&& out.len() == 1
            &&& out[0] matches ServerNotification::ItemStarted { thread_id: t, turn_id, item }
            &&& t@ == thread_id
            &&& turn_id == event.id
            &&& item matches ThreadItem::FileChange { id, changes: shown, status }
            &&& id == call_id
            &&& status == PatchApplyStatus::InProgress
            &&& shown@.len() == changes@.len()
            &&& forall|i: int|
                0 <= i < changes@.len() ==> change_matches(changes@[i], #[trigger] shown@[i])
        },
        EventMsg::PatchApplyEnd { call_id, changes, success } => {
            &&& out.len() == 1
            &&& out[0] matches ServerNotification::ItemCompleted { thread_id: t, turn_id, item }
            &&& t@ == thread_id
            &&& turn_id == event.id
            &&& item matches ThreadItem::FileChange { id, changes: shown, status }
            &&& id == call_id
            &&& status == if success {
                PatchApplyStatus::Completed
            } else {
                PatchApplyStatus::Failed
            }
            &&& shown@.len() == changes@.len()
            &&& forall|i: int|
                0 <= i < changes@.len() ==> change_matches(changes@[i], #[trigger] shown@[i])
        },
        EventMsg::Other => out.len() == 0,
    }
}

pub struct EventStreamProcessor {
    pub thread_id: String,
}

impl EventStreamProcessor {
    pub fn new(thread_id: String) -> (p: Self)
        ensures
            p.thread_id == thread_id,
    {
        EventStreamProcessor { thread_id }
    }

    /// The notifications for one event: the start of a command or a patch,
    /// a piece of output, or the end with its status.
    pub fn process_event(&self, event: Event) -> (out: Vec<ServerNotification>)
        ensures
            notification_matches(self.thread_id@, event, out@),
    {
        let Event { id: turn_id, msg } = event;
        let thread_id = self.thread_id.clone();
        let mut out: Vec<ServerNotification> = Vec::new();
        match msg {
            EventMsg::ExecCommandBegin { call_id, command, cwd, process_id } => {
                let item = ThreadItem::CommandExecution {
                    id: call_id,
                    command: join_with(&command, " "),
                    cwd,
                    process_id,
                    status: CommandExecutionStatus::InProgress,
                    aggregated_output: None,
                    exit_code: None,
                    duration_ms: None,
                };
                out.push(ServerNotification::ItemStarted { thread_id, turn_id, item });
            },
            EventMsg::ExecCommandOutputDelta { call_id, chunk } => {
                let delta = decode_lossy(chunk.as_slice());
                out.push(
                    ServerNotification::CommandExecutionOutputDelta {
                        thread_id,
                        turn_id,
                        item_id: call_id,
                        delta,
                    },
                );
            },
            EventMsg::ExecCommandEnd {
                call_id,
                command,
                cwd,
                process_id,
                exit_code,
                duration_ms,
                aggregated_output,
            } => {
                let status = if exit_code == 0 {
                    CommandExecutionStatus::Completed
                } else {
                    CommandExecutionStatus::Failed
                };
                let aggregated_output = if aggregated_output.as_str().unicode_len() == 0 {
                    None
                } else {
                    Some(aggregated_output)
                };
                let item = ThreadItem::CommandExecution {
                    id: call_id,
                    command: join_with(&command, " "),
                    cwd,
                    process_id,
                    status,
                    aggregated_output,
                    exit_code: Some(exit_code),
                    duration_ms: Some(client_duration_ms(duration_ms)),
                };
                out.push(ServerNotification::ItemCompleted { thread_id, turn_id, item });
            },
            EventMsg::PatchApplyBegin { call_id, changes } => {
                let item = ThreadItem::FileChange {
                    id: call_id,
                    changes: convert_changes(changes),
                    status: PatchApplyStatus::InProgress,
                };
                out.push(ServerNotification::ItemStarted { thread_id, turn_id, item });
            },
            EventMsg::PatchApplyEnd { call_id, changes, success } => {
                let status = if success {
                    PatchApplyStatus::Completed
                } else {
                    PatchApplyStatus::Failed
                };
                let item = ThreadItem::FileChange {
                    id: call_id,
                    changes: convert_changes(changes),
                    status,
                };
                out.push(ServerNotification::ItemCompleted { thread_id, turn_id, item });
            },
            EventMsg::Other => {},
        }
        out
    }

    /// The name under which clients receive a notification.
    pub fn event_type_name(notification: &ServerNotification) -> (name: &'static str)
        ensures
            name@ == match *notification {
                ServerNotification::ItemStarted { .. } => "item/started"@,
                ServerNotification::ItemCompleted { .. } => "item/completed"@,
                ServerNotification::CommandExecutionOutputDelta {
                    ..
                } => "item/commandExecution/outputDelta"@,
            },
    {
        match notification {
            ServerNotification::ItemStarted { .. } => "item/started",
            ServerNotification::ItemCompleted { .. } => "item/completed",
            ServerNotification::CommandExecutionOutputDelta {
                ..
            } => "item/commandExecution/outputDelta",
        }
    }
}

} // verus!
