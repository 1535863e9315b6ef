//! Identifiers of threads and attachments: texts in the form of a UUID.

use vstd::prelude::*;

verus! {

/// Whether the `uuid` crate can parse `text`.
pub uninterp spec fn parses_as_uuid(text: Seq<char>) -> bool;

/// `Uuid::parse_str` of the `uuid` crate, of which only success is kept: the
/// answer is a function of the text alone, named `parses_as_uuid`.
#[verifier::external_body]
fn uuid_parses(text: &str) -> (r: bool)
    ensures
        r == parses_as_uuid(text@),
{
    uuid::Uuid::parse_str(text).is_ok()
}

/// Whether `text` can be the id of a thread.
pub fn is_valid_thread_id(text: &str) -> (r: bool)
    ensures
        r == parses_as_uuid(text@),
{
    uuid_parses(text)
}

/// Whether `text` can be the id of an attachment. Since the id becomes a
/// file name, nothing else is accepted.
pub fn is_valid_attachment_id(text: &str) -> (r: bool)
    ensures
        r == parses_as_uuid(text@),
{
    uuid_parses(text)
}

} // verus!
