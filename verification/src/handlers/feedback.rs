//! The endpoint that takes the user's feedback.

use crate::error::ApiError;
use crate::ids::is_valid_thread_id;
use crate::ids::parses_as_uuid;
use crate::text::concat;
use vstd::prelude::*;

verus! {

pub struct UploadFeedbackRequest {
    pub classification: String,
    pub reason: Option<String>,
    pub thread_id: Option<String>,
    pub include_logs: bool,
}

pub struct UploadFeedbackResponse {
    pub success: bool,
    pub thread_id: String,
}

/// The thread that the feedback is filed under: the one that the request
/// names, or `fresh_thread_id` if it names none. Feedback without a
/// classification, or for a thread id that is not one, is refused.
pub fn feedback_thread(req: &UploadFeedbackRequest, fresh_thread_id: String) -> (r: Result<
    String,
    ApiError,
>)
    ensures
        req.classification@.len() == 0 ==> (r matches Err(ApiError::InvalidRequest(msg))
            && msg@ == "Classification cannot be empty"@),
        req.classification@.len() > 0 ==> match req.thread_id {
            Some(id) => if parses_as_uuid(id@) {
                r == Ok::<String, ApiError>(id)
            } else {
                r matches Err(ApiError::InvalidRequest(msg)) && msg@ == "Invalid thread ID"@
            },
            None => r == Ok::<String, ApiError>(fresh_thread_id),
        },
{
    if req.classification.as_str().unicode_len() == 0 {
        return Err(ApiError::InvalidRequest("Classification cannot be empty".to_string()));
    }
    match &req.thread_id {
        Some(id) => if is_valid_thread_id(id.as_str()) {
            Ok(id.clone())
        } else {
            Err(ApiError::InvalidRequest("Invalid thread ID".to_string()))
        },
        None => Ok(fresh_thread_id),
    }
}

/// The answer to an upload: success under the thread's id, or the cause of
/// the failure.
pub fn upload_feedback(upload: Result<(), String>, thread_id: String) -> (r: Result<
    UploadFeedbackResponse,
    ApiError,
>)
    ensures
        match upload {
            Ok(_) => r matches Ok(response) && response.success && response.thread_id
                == thread_id,
            Err(cause) => r matches Err(ApiError::InternalError(msg)) && msg@
                == "Failed to upload feedback: "@ + cause@,
        },
{
    match upload {
        Ok(_) => Ok(UploadFeedbackResponse { success: true, thread_id }),
        Err(cause) => Err(
            ApiError::InternalError(concat("Failed to upload feedback: ", cause.as_str())),
        ),
    }
}

} // verus!
