//! The check that every protected request passes first.

use crate::error::ApiError;
use crate::text::from_chars_range;
use crate::text::starts_with;
use crate::text::to_chars;
use vstd::prelude::*;

verus! {

/// How the value of an authorization header begins.
pub const BEARER_PREFIX: &'static str = "Bearer ";

/// The token that a header carries: what follows the prefix.
pub open spec fn spec_bearer_token(header: Option<Seq<char>>) -> Option<Seq<char>> {
    match header {
        Some(value) => if BEARER_PREFIX@.is_prefix_of(value) {
            Some(value.subrange(BEARER_PREFIX@.len() as int, value.len() as int))
        } else {
            None
        },
        None => None,
    }
}

pub fn bearer_token(header: Option<&str>) -> (token: Option<String>)
    ensures
        token is Some == spec_bearer_token(
            match header {
                Some(value) => Some(value@),
                None => None,
            },
        ) is Some,
        token matches Some(t) ==> Some(t@) == spec_bearer_token(
            match header {
                Some(value) => Some(value@),
                None => None,
            },
        ),
{
    let value = match header {
        Some(value) => value,
        None => {
            return None;
        },
    };
    if !starts_with(value, BEARER_PREFIX) {
        return None;
    }
    let chars = to_chars(value);
    let prefix = to_chars(BEARER_PREFIX);
    Some(from_chars_range(&chars, prefix.len(), chars.len()))
}

/// A request is let through exactly when its header carries the server's
/// token.
pub fn auth_middleware(header: Option<&str>, auth_token: &str) -> (r: Result<(), ApiError>)
    ensures
        r is Ok <==> spec_bearer_token(
            match header {
                Some(value) => Some(value@),
                None => None,
            },
        ) == Some(auth_token@),
        r matches Err(e) ==> e == ApiError::Unauthorized,
{
    match bearer_token(header) {
        Some(token) => if *token.as_str() == *auth_token {
            Ok(())
        } else {
            Err(ApiError::Unauthorized)
        },
        None => Err(ApiError::Unauthorized),
    }
}

} // verus!
