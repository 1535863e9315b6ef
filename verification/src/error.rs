//! The errors that the server answers with.

use crate::text::push_str;
use vstd::prelude::*;

verus! {

pub enum ApiError {
    Unauthorized,
    NotFound(String),
    InvalidRequest(String),
    InternalError(String),
    ThreadNotFound,
    AttachmentNotFound,
    Timeout(String),
}

impl ApiError {
    /// The status code of the answer.
    pub open spec fn spec_status(self) -> u16 {
        match self {
            ApiError::Unauthorized => 401,
            ApiError::NotFound(_) => 404,
            ApiError::InvalidRequest(_) => 400,
            ApiError::InternalError(_) => 500,
            ApiError::ThreadNotFound => 404,
            ApiError::AttachmentNotFound => 404,
            ApiError::Timeout(_) => 504,
        }
    }

    /// The message of the answer.
    pub open spec fn spec_message(self) -> Seq<char> {
        match self {
            ApiError::Unauthorized => "Unauthorized"@,
            ApiError::NotFound(msg) => msg@,
            ApiError::InvalidRequest(msg) => msg@,
            ApiError::InternalError(msg) => msg@,
            ApiError::ThreadNotFound => "Thread not found"@,
            ApiError::AttachmentNotFound => "Attachment not found"@,
            ApiError::Timeout(msg) => msg@,
        }
    }

    pub fn status(&self) -> (code: u16)
        ensures
            code == self.spec_status(),
    {
        match self {
            ApiError::Unauthorized => 401,
            ApiError::NotFound(_) => 404,
            ApiError::InvalidRequest(_) => 400,
            ApiError::InternalError(_) => 500,
            ApiError::ThreadNotFound => 404,
            ApiError::AttachmentNotFound => 404,
            ApiError::Timeout(_) => 504,
        }
    }

    pub fn message(&self) -> (text: String)
        ensures
            text@ == self.spec_message(),
    {
        match self {
            ApiError::Unauthorized => "Unauthorized".to_string(),
            ApiError::NotFound(msg) => msg.clone(),
            ApiError::InvalidRequest(msg) => msg.clone(),
            ApiError::InternalError(msg) => msg.clone(),
            ApiError::ThreadNotFound => "Thread not found".to_string(),
            ApiError::AttachmentNotFound => "Attachment not found".to_string(),
            ApiError::Timeout(msg) => msg.clone(),
        }
    }

    /// The status and the message that make up the body of the answer.
    pub fn into_response(self) -> (r: (u16, String))
        ensures
            r.0 == self.spec_status(),
            r.1@ == self.spec_message(),
    {
        let status = self.status();
        let message = match self {
            ApiError::Unauthorized => "Unauthorized".to_string(),
            ApiError::NotFound(msg) => msg,
            ApiError::InvalidRequest(msg) => msg,
            ApiError::InternalError(msg) => msg,
            ApiError::ThreadNotFound => "Thread not found".to_string(),
            ApiError::AttachmentNotFound => "Attachment not found".to_string(),
            ApiError::Timeout(msg) => msg,
        };
        (status, message)
    }

    /// The error for a failure of which only the text is known.
    pub fn from_error_text(text: String) -> (e: Self)
        ensures
            e == ApiError::InternalError(text),
    {
        ApiError::InternalError(text)
    }

    /// An internal error whose message is `context`, a colon and `cause`.
    pub fn internal(context: &str, cause: &str) -> (e: Self)
        ensures
            e matches ApiError::InternalError(msg) && msg@ == context@ + ": "@ + cause@,
    {
        let mut msg = context.to_string();
        push_str(&mut msg, ": ");
        push_str(&mut msg, cause);
        ApiError::InternalError(msg)
    }
}

} // verus!
