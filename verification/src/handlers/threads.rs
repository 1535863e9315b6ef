//! Threads: creating, listing, archiving, resuming and forking them.

use crate::error::ApiError;
use crate::ids::is_valid_thread_id;
use crate::ids::parses_as_uuid;
use crate::text::push_str;
use vstd::prelude::*;

verus! {

pub struct CreateThreadRequest {
    pub cwd: Option<String>,
    pub model: Option<String>,
}

pub struct CreateThreadResponse {
    pub thread_id: String,
    pub model: String,
}

pub struct ListThreadsResponse {
    pub thread_ids: Vec<String>,
}

pub struct ArchiveThreadResponse {
    pub success: bool,
}

pub struct ResumeThreadResponse {
    pub success: bool,
    pub thread_id: String,
}

pub struct ForkThreadRequest {
    pub turn_id: Option<String>,
}

pub struct ForkThreadResponse {
    pub new_thread_id: String,
    pub source_thread_id: String,
}

impl CreateThreadResponse {
    /// The same answer in the shape of the first version of the interface.
    pub fn into_v1(self) -> (r: crate::handlers::CreateThreadResponse)
        ensures
            r.thread_id == self.thread_id,
            r.model == self.model,
    {
        crate::handlers::CreateThreadResponse { thread_id: self.thread_id, model: self.model }
    }
}

/// The answer to a request that created a thread: the thread's id and the
/// model it runs, `default` if the configuration names none.
pub fn create_thread(thread_id: String, model: Option<String>) -> (r: CreateThreadResponse)
    ensures
        r.thread_id == thread_id,
        r.model@ == match model {
            Some(name) => name@,
            None => "default"@,
        },
{
    let model = match model {
        Some(name) => name,
        None => "default".to_string(),
    };
    CreateThreadResponse { thread_id, model }
}

/// The error for a thread id that is not one.
pub fn invalid_thread_id() -> (e: ApiError)
    ensures
        e matches ApiError::InvalidRequest(msg) && msg@ == "Invalid thread ID"@,
{
    ApiError::InvalidRequest("Invalid thread ID".to_string())
}

/// Checks the thread id of a request.
pub fn check_thread_id(thread_id: &str) -> (r: Result<(), ApiError>)
    ensures
        r is Ok == parses_as_uuid(thread_id@),
        r matches Err(e) ==> e matches ApiError::InvalidRequest(msg) && msg@
            == "Invalid thread ID"@,
{
    if is_valid_thread_id(thread_id) {
        Ok(())
    } else {
        Err(invalid_thread_id())
    }
}

/// Archiving is acknowledged for every id that is one.
pub fn archive_thread(thread_id: &str) -> (r: Result<ArchiveThreadResponse, ApiError>)
    ensures
        r is Ok == parses_as_uuid(thread_id@),
        r matches Ok(response) ==> response.success,
        r matches Err(e) ==> e matches ApiError::InvalidRequest(msg) && msg@
            == "Invalid thread ID"@,
{
    match check_thread_id(thread_id) {
        Ok(_) => Ok(ArchiveThreadResponse { success: true }),
        Err(e) => Err(e),
    }
}

/// How an attempt to bring a thread back from its stored history ended.
pub enum HistoryError {
    /// No history is stored for the thread.
    NotFound,
    /// Anything else, with its text.
    Other(String),
}

/// The error that a failed resume is answered with.
pub fn resume_error(thread_id: &str, error: HistoryError) -> (e: ApiError)
    ensures
        match error {
            HistoryError::NotFound => e matches ApiError::NotFound(msg) && msg@
                == "Rollout history not found for thread: "@ + thread_id@,
            HistoryError::Other(cause) => e matches ApiError::InternalError(msg) && msg@
                == "Failed to resume thread: "@ + cause@,
        },
{
    match error {
        HistoryError::NotFound => {
            let mut msg = "Rollout history not found for thread: ".to_string();
            push_str(&mut msg, thread_id);
            ApiError::NotFound(msg)
        },
        HistoryError::Other(cause) => {
            let mut msg = "Failed to resume thread: ".to_string();
            push_str(&mut msg, cause.as_str());
            ApiError::InternalError(msg)
        },
    }
}

/// The error that a failed fork is answered with.
pub fn fork_error(error: HistoryError) -> (e: ApiError)
    ensures
        match error {
            HistoryError::NotFound => e == ApiError::ThreadNotFound,
            HistoryError::Other(cause) => e matches ApiError::InternalError(msg) && msg@
                == "Failed to fork thread: "@ + cause@,
        },
{
    match error {
        HistoryError::NotFound => ApiError::ThreadNotFound,
        HistoryError::Other(cause) => {
            let mut msg = "Failed to fork thread: ".to_string();
            push_str(&mut msg, cause.as_str());
            ApiError::InternalError(msg)
        },
    }
}

} // verus!
