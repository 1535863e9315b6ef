//! Where the history of threads is kept.

use vstd::prelude::*;

verus! {

/// The variable that names the database of thread histories.
pub const CODEX_ROLLOUT_POSTGRES_URL_ENV: &'static str = "CODEX_ROLLOUT_POSTGRES_URL";

/// The text without the white space at its ends, as the standard library
/// trims it.
pub uninterp spec fn trimmed(text: Seq<char>) -> Seq<char>;

/// `str::trim` of the standard library: the result is a function of the
/// text alone, named `trimmed`.
#[verifier::external_body]
fn trim(text: &str) -> (r: String)
    ensures
        r@ == trimmed(text@),
{
    text.trim().to_string()
}

/// The address of the database: the variable's value without the white
/// space at its ends, if that leaves anything.
pub fn rollout_postgres_url(value: Option<&str>) -> (url: Option<String>)
    ensures
        match value {
            Some(text) => if trimmed(text@).len() > 0 {
                url matches Some(u) && u@ == trimmed(text@)
            } else {
                url is None
            },
            None => url is None,
        },
{
    match value {
        Some(text) => {
            let url = trim(text);
            if url.as_str().unicode_len() > 0 {
                Some(url)
            } else {
                None
            }
        },
        None => None,
    }
}

/// Whether histories are kept in the database.
pub fn postgres_enabled(value: Option<&str>) -> (r: bool)
    ensures
        r == match value {
            Some(text) => trimmed(text@).len() > 0,
            None => false,
        },
{
    rollout_postgres_url(value).is_some()
}

} // verus!
