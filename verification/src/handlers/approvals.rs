//! The endpoint through which the user answers a request for approval.

use crate::approval_manager::ApprovalManager;
use crate::approval_manager::Delivery;
use crate::approval_manager::RespondError;
use crate::approval_manager::respond_post;
use crate::error::ApiError;
use crate::ids::is_valid_thread_id;
use crate::ids::parses_as_uuid;
use crate::state::ApprovalDecision;
use vstd::prelude::*;

verus! {

#[derive(PartialEq, Eq, Structural, Clone, Copy, Debug)]
pub struct ApprovalRequest {
    pub decision: ApprovalDecision,
}

#[derive(PartialEq, Eq, Structural, Clone, Copy, Debug)]
pub struct ApprovalResponse {
    pub success: bool,
}

/// The error that a refused answer is reported as.
pub open spec fn spec_respond_error(error: RespondError) -> (bool, Seq<char>) {
    match error {
        RespondError::NotFound => (true, "Approval request not found"@),
        RespondError::TimedOut => (true, "Approval request has timed out"@),
        RespondError::Disconnected => (false, "Failed to send approval response"@),
    }
}

/// An answer that finds no approval, or one that has timed out, is the
/// requester's mistake; a waiter that is gone is the server's.
pub fn respond_error(error: RespondError) -> (e: ApiError)
    ensures
        spec_respond_error(error).0 ==> (e matches ApiError::InvalidRequest(msg) && msg@
            == spec_respond_error(error).1),
        !spec_respond_error(error).0 ==> (e matches ApiError::InternalError(msg) && msg@
            == spec_respond_error(error).1),
{
    match error {
        RespondError::NotFound => ApiError::InvalidRequest(error.message().to_string()),
        RespondError::TimedOut => ApiError::InvalidRequest(error.message().to_string()),
        RespondError::Disconnected => ApiError::InternalError(error.message().to_string()),
    }
}

/// Hands the user's answer to the approval that waits under `approval_id`.
/// A thread id that is not one is refused before anything is touched. On
/// success the caller is told what to send on which channels.
pub fn respond_to_approval(
    manager: &mut ApprovalManager,
    thread_id: &str,
    approval_id: &str,
    req: ApprovalRequest,
    now: u64,
) -> (r: Result<(ApprovalResponse, Delivery), ApiError>)
    ensures
        !parses_as_uuid(thread_id@) ==> {
            &&& r matches Err(ApiError::InvalidRequest(msg)) && msg@ == "Invalid thread ID"@
            &&& final(manager).pending() == old(manager).pending()
            &&& final(manager).cache() == old(manager).cache()
        },
        parses_as_uuid(thread_id@) ==> exists|inner: Result<Delivery, RespondError>|
            {
                &&& #[trigger] respond_post(
                    old(manager).pending(),
                    old(manager).cache(),
                    approval_id@,
                    req.decision,
                    now,
                    final(manager).pending(),
                    final(manager).cache(),
                    inner,
                )
                &&& match inner {
                    Ok(delivery) => r == Ok::<(ApprovalResponse, Delivery), ApiError>(
                        (ApprovalResponse { success: true }, delivery),
                    ),
                    Err(error) => r matches Err(ApiError::InvalidRequest(msg)) && msg@
                        == spec_respond_error(error).1,
                }
            },
{
    if !is_valid_thread_id(thread_id) {
        return Err(ApiError::InvalidRequest("Invalid thread ID".to_string()));
    }
    let inner = manager.respond_to_approval(approval_id, req.decision, now);
    match inner {
        Ok(delivery) => Ok((ApprovalResponse { success: true }, delivery)),
        Err(error) => Err(respond_error(error)),
    }
}

} // verus!
