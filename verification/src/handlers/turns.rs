//! Turns: what the user sends, and what becomes of it.

use crate::error::ApiError;
use crate::ids::is_valid_attachment_id;
use crate::ids::parses_as_uuid;
use crate::paths::path_starts_with;
use crate::paths::path_within;
use crate::text::concat;
use vstd::prelude::*;

verus! {

pub struct SendTurnRequest {
    pub input: Vec<UserInputItem>,
}

pub enum UserInputItem {
    Text { text: String },
    Attachment { attachment_id: String },
}

pub struct SendTurnResponse {
    pub turn_id: String,
}

pub struct InterruptTurnRequest {}

pub struct InterruptTurnResponse {
    pub success: bool,
}

/// What reaches the model of one item.
pub enum UserInput {
    Text { text: String },
    LocalImage { path: String },
}

/// What the caller found on disk for an attachment.
pub struct AttachmentProbe {
    /// Whether a file stands under the attachment's id.
    pub exists: bool,
    /// The canonical path of that file, if it has one.
    pub canonical_path: Option<String>,
    /// The canonical path of the attachments directory, or why it has none.
    pub canonical_dir: Result<String, String>,
}

/// Why an attachment is refused, if it is; `invalid_id` is the error for an
/// id that is not one.
pub open spec fn attachment_error(attachment_id: Seq<char>, probe: AttachmentProbe) -> Option<int> {
    if !parses_as_uuid(attachment_id) {
        Some(0)
    } else if !probe.exists || probe.canonical_path is None {
        Some(1)
    } else if probe.canonical_dir is Err {
        Some(2)
    } else if !path_within(probe.canonical_path->0@, probe.canonical_dir->Ok_0@) {
        Some(3)
    } else {
        None
    }
}

/// The file behind an attachment. The id must be one, the file must exist
/// and have a canonical path, and that path must lie in the attachments
/// directory: an id cannot lead out of it.
pub fn resolve_attachment(attachment_id: &str, probe: AttachmentProbe, invalid_id: ApiError) -> (r:
    Result<String, ApiError>)
    ensures
        match attachment_error(attachment_id@, probe) {
            None => r == Ok::<String, ApiError>(probe.canonical_path->0),
            Some(kind) => if kind == 0 {
                r == Err::<String, ApiError>(invalid_id)
            } else if kind == 1 {
                r == Err::<String, ApiError>(ApiError::AttachmentNotFound)
            } else if kind == 2 {
                r matches Err(ApiError::InternalError(msg)) && msg@
                    == "Failed to resolve attachments directory: "@ + probe.canonical_dir->Err_0@
            } else {
                r matches Err(ApiError::InvalidRequest(msg)) && msg@ == "Invalid attachment path"@
            },
        },
{
    if !is_valid_attachment_id(attachment_id) {
        return Err(invalid_id);
    }
    let AttachmentProbe { exists, canonical_path, canonical_dir } = probe;
    if !exists {
        return Err(ApiError::AttachmentNotFound);
    }
    let path = match canonical_path {
        Some(path) => path,
        None => {
            return Err(ApiError::AttachmentNotFound);
        },
    };
    let dir = match canonical_dir {
        Ok(dir) => dir,
        Err(cause) => {
            return Err(
                ApiError::InternalError(
                    concat("Failed to resolve attachments directory: ", cause.as_str()),
                ),
            );
        },
    };
    if !path_starts_with(path.as_str(), dir.as_str()) {
        return Err(ApiError::InvalidRequest("Invalid attachment path".to_string()));
    }
    Ok(path)
}

/// One item of a turn, with what the caller found for it.
pub enum TurnInput {
    Text { text: String },
    Attachment { attachment_id: String, probe: AttachmentProbe },
}

/// The item can be sent on.
pub open spec fn input_is_acceptable(input: TurnInput) -> bool {
    match input {
        TurnInput::Text { .. } => true,
        TurnInput::Attachment { attachment_id, probe } => attachment_error(attachment_id@, probe)
            is None,
    }
}

/// What reaches the model of an item that can be sent on.
pub open spec fn input_matches(input: TurnInput, out: UserInput) -> bool {
    match input {
        TurnInput::Text { text } => out == (UserInput::Text { text }),
        TurnInput::Attachment { probe, .. } => out == (UserInput::LocalImage {
            path: probe.canonical_path->0,
        }),
    }
}

/// What a turn sends to the model: its texts as they are and its
/// attachments as images on disk, in the order of the request. The first
/// attachment that is refused ends the turn with its error, and nothing is
/// sent.
pub fn send_turn(inputs: Vec<TurnInput>) -> (r: Result<Vec<UserInput>, ApiError>)
    ensures
        r is Ok <==> forall|i: int| 0 <= i < inputs@.len() ==> input_is_acceptable(#[trigger] inputs@[i]),
        r matches Ok(items) ==> items@.len() == inputs@.len() && forall|i: int|
            0 <= i < inputs@.len() ==> input_matches(inputs@[i], #[trigger] items@[i]),
{
    let mut items: Vec<UserInput> = Vec::new();
    let count = inputs.len();
    let mut rest = inputs;
    let ghost all = inputs@;
    let mut done: usize = 0;
    while rest.len() > 0
        invariant
            all == inputs@,
            all.len() == count,
            done + rest@.len() == all.len(),
            rest@ == all.subrange(done as int, all.len() as int),
            items@.len() == done,
            forall|i: int| 0 <= i < done ==> input_is_acceptable(#[trigger] all[i]),
            forall|i: int| 0 <= i < done ==> input_matches(all[i], #[trigger] items@[i]),
        decreases rest@.len(),
    {
        let input = rest.remove(0);
        assert(input == all[done as int]);
        assert(rest@ =~= all.subrange(done + 1, all.len() as int));
        match input {
            TurnInput::Text { text } => {
                items.push(UserInput::Text { text });
            },
            TurnInput::Attachment { attachment_id, probe } => {
                let invalid = ApiError::InvalidRequest("Invalid attachment ID format".to_string());
                match resolve_attachment(attachment_id.as_str(), probe, invalid) {
                    Ok(path) => {
                        items.push(UserInput::LocalImage { path });
                    },
                    Err(e) => {
                        assert(!input_is_acceptable(all[done as int]));
                        return Err(e);
                    },
                }
            },
        }
        done += 1;
    }
    Ok(items)
}

/// The answer to a turn that was interrupted.
pub fn interrupt_turn(req: InterruptTurnRequest) -> (r: InterruptTurnResponse)
    ensures
        r.success,
{
    InterruptTurnResponse { success: true }
}

} // verus!
