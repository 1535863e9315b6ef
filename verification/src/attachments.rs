//! Attachments: files that the user uploads and refers to by id.

use crate::error::ApiError;
use crate::handlers::turns::AttachmentProbe;
use crate::handlers::turns::attachment_error;
use crate::handlers::turns::resolve_attachment;
use crate::text::decimal;
use crate::text::push_decimal;
use crate::text::push_str;
use crate::text::to_chars;
use vstd::prelude::*;

verus! {

/// The most bytes that one attachment may have.
pub const MAX_FILE_SIZE: u64 = 104857600;

/// The name of an upload that brings none.
pub const DEFAULT_FILENAME: &'static str = "unnamed";

/// The type of an upload that names none.
pub const DEFAULT_MIME_TYPE: &'static str = "application/octet-stream";

/// The name under which a file is handed out when nothing of its own name
/// can be used.
pub const FALLBACK_FILENAME: &'static str = "attachment";

pub struct AttachmentMetadata {
    pub id: String,
    pub filename: String,
    pub mime_type: String,
    pub size: u64,
}

pub struct UploadResponse {
    pub attachment_id: String,
    pub filename: String,
    pub size: u64,
}

/// Takes one more chunk of an upload of which `total` bytes have arrived:
/// the new total, unless it would pass `MAX_FILE_SIZE`.
pub fn accept_chunk(total: u64, chunk_len: usize) -> (r: Result<u64, ApiError>)
    ensures
        total + chunk_len <= MAX_FILE_SIZE ==> r == Ok::<u64, ApiError>((total + chunk_len) as u64),
        total + chunk_len > MAX_FILE_SIZE ==> (r matches Err(ApiError::InvalidRequest(msg))
            && msg@ == "File size exceeds maximum allowed size of "@ + decimal(
            MAX_FILE_SIZE as nat,
        ) + " bytes"@),
{
    if total > MAX_FILE_SIZE || chunk_len as u64 > MAX_FILE_SIZE - total {
        let mut msg = "File size exceeds maximum allowed size of ".to_string();
        push_decimal(&mut msg, MAX_FILE_SIZE);
        push_str(&mut msg, " bytes");
        return Err(ApiError::InvalidRequest(msg));
    }
    Ok(total + chunk_len as u64)
}

/// What is stored and answered for an upload that is complete. The name and
/// the type fall back to `DEFAULT_FILENAME` and `DEFAULT_MIME_TYPE`.
pub fn upload_attachment(
    attachment_id: String,
    filename: Option<String>,
    mime_type: Option<String>,
    size: u64,
) -> (r: (AttachmentMetadata, UploadResponse))
    ensures
        r.0.id == attachment_id,
        r.1.attachment_id@ == attachment_id@,
        r.0.filename@ == match filename {
            Some(name) => name@,
            None => DEFAULT_FILENAME@,
        },
        r.1.filename@ == r.0.filename@,
        r.0.mime_type@ == match mime_type {
            Some(mime) => mime@,
            None => DEFAULT_MIME_TYPE@,
        },
        r.0.size == size,
        r.1.size == size,
{
    let filename = match filename {
        Some(name) => name,
        None => DEFAULT_FILENAME.to_string(),
    };
    let mime_type = match mime_type {
        Some(mime) => mime,
        None => DEFAULT_MIME_TYPE.to_string(),
    };
    let response = UploadResponse {
        attachment_id: attachment_id.clone(),
        filename: filename.clone(),
        size,
    };
    (AttachmentMetadata { id: attachment_id, filename, mime_type, size }, response)
}

/// The error for a request that brought no file.
pub fn no_file_error() -> (e: ApiError)
    ensures
        e matches ApiError::InvalidRequest(msg) && msg@ == "No file provided in multipart request"@,
{
    ApiError::InvalidRequest("No file provided in multipart request".to_string())
}

/// Whether the standard library takes `c` for a letter or a digit.
pub uninterp spec fn alphanumeric(c: char) -> bool;

/// `char::is_alphanumeric` of the standard library: the answer is a function
/// of the character alone, named `alphanumeric`.
#[verifier::external_body]
fn char_is_alphanumeric(c: char) -> (r: bool)
    ensures
        r == alphanumeric(c),
{
    c.is_alphanumeric()
}

/// A character that may stand in a file name that is sent in a header.
pub open spec fn safe_filename_char(c: char) -> bool {
    alphanumeric(c) || c == '.' || c == '-' || c == '_'
}

/// The characters of `name` that may stand in a header, in their order.
pub open spec fn safe_chars(name: Seq<char>) -> Seq<char>
    decreases name.len(),
{
    if name.len() == 0 {
        name
    } else if safe_filename_char(name.last()) {
        safe_chars(name.drop_last()).push(name.last())
    } else {
        safe_chars(name.drop_last())
    }
}

/// The file name under which an attachment is handed out: what is safe of
/// its own name, or `FALLBACK_FILENAME` if nothing is.
pub open spec fn spec_sanitize_filename(name: Seq<char>) -> Seq<char> {
    if safe_chars(name).len() == 0 {
        FALLBACK_FILENAME@
    } else {
        safe_chars(name)
    }
}

/// What is kept of a name holds safe characters only: no quote, no line
/// break, nothing that could end the header or begin another.
pub proof fn lemma_safe_chars_are_safe(name: Seq<char>)
    ensures
        forall|i: int|
            0 <= i < safe_chars(name).len() ==> safe_filename_char(#[trigger] safe_chars(name)[i]),
    decreases name.len(),
{
    if name.len() > 0 {
        lemma_safe_chars_are_safe(name.drop_last());
        let before = safe_chars(name.drop_last());
        assert forall|i: int| 0 <= i < safe_chars(name).len() implies safe_filename_char(
            #[trigger] safe_chars(name)[i],
        ) by {
            if i < before.len() {
                assert(safe_chars(name)[i] == before[i]);
            }
        }
    }
}

pub fn sanitize_filename(name: &str) -> (safe: String)
    ensures
        safe@ == spec_sanitize_filename(name@),
{
    let chars = to_chars(name);
    let mut safe = String::new();
    let mut i: usize = 0;
    assert(chars@.take(0) =~= Seq::<char>::empty());
    while i < chars.len()
        invariant
            i <= chars.len(),
            chars@ == name@,
            safe@ == safe_chars(chars@.take(i as int)),
        decreases chars.len() - i,
    {
        proof {
            assert(chars@.take(i + 1).drop_last() =~= chars@.take(i as int));
        }
        let c = chars[i];
        if char_is_alphanumeric(c) || c == '.' || c == '-' || c == '_' {
            safe.push(c);
        }
        i += 1;
    }
    assert(chars@.take(chars.len() as int) =~= chars@);
    if safe.as_str().unicode_len() == 0 {
        FALLBACK_FILENAME.to_string()
    } else {
        safe
    }
}

/// The header that makes a client store the file under a safe name.
pub fn content_disposition(filename: &str) -> (header: String)
    ensures
        header@ == "attachment; filename=\""@ + spec_sanitize_filename(filename@) + "\""@,
{
    let safe = sanitize_filename(filename);
    let mut header = "attachment; filename=\"".to_string();
    push_str(&mut header, safe.as_str());
    push_str(&mut header, "\"");
    header
}

/// The file to hand out for `id`. Every id that is not one, and every id
/// without a file, is answered as not found; a file outside of the
/// attachments directory is refused.
pub fn download_attachment(id: &str, probe: AttachmentProbe) -> (r: Result<String, ApiError>)
    ensures
        match attachment_error(id@, probe) {
            None => r == Ok::<String, ApiError>(probe.canonical_path->0),
            Some(kind) => if kind == 0 || kind == 1 {
                r == Err::<String, ApiError>(ApiError::AttachmentNotFound)
            } else if kind == 2 {
                r matches Err(ApiError::InternalError(msg)) && msg@
                    == "Failed to resolve attachments directory: "@ + probe.canonical_dir->Err_0@
            } else {
                r matches Err(ApiError::InvalidRequest(msg)) && msg@ == "Invalid attachment path"@
            },
        },
{
    resolve_attachment(id, probe, ApiError::AttachmentNotFound)
}

} // verus!
