//! What the server's endpoints decide. Reading requests and writing answers
//! is the caller's part.

pub mod approvals;
pub mod auth;
pub mod commands;
pub mod feedback;
pub mod mcp;
pub mod models;
pub mod review;
pub mod skills;
pub mod threads;
pub mod turns;

use vstd::prelude::*;

verus! {

pub struct CreateThreadRequest {
    pub cwd: Option<String>,
    pub model: Option<String>,
}

pub struct CreateThreadResponse {
    pub thread_id: String,
    pub model: String,
}

pub struct SendTurnRequest {
    pub input: Vec<UserInputItem>,
}

pub enum UserInputItem {
    Text { text: String },
    Attachment { attachment_id: String },
}

pub struct SendTurnResponse {
    pub turn_id: String,
}

/// The answer to a request that created a thread: the thread's id and the
/// model it runs, `default` if the configuration names none.
pub fn create_thread(thread_id: String, model: Option<String>) -> (r: CreateThreadResponse)
    ensures
        r.thread_id == thread_id,
        r.model@ == match model {
            Some(name) => name@,
            None => "default"@,
        },
{
    crate::handlers::threads::create_thread(thread_id, model).into_v1()
}

} // verus!
