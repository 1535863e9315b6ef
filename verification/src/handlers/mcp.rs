//! The status of the tool servers, page by page.

use crate::error::ApiError;
use crate::text::ascending;
use crate::text::decimal;
use crate::text::sorted_unique;
use crate::text::words;
use crate::text::parse_usize;
use crate::text::spec_parse_usize;
use crate::text::u64_to_string;
use vstd::prelude::*;

verus! {

/// The most servers that one page holds.
pub const MAX_PAGE_SIZE: usize = 100;

pub struct ListMcpServerStatusParams {
    pub limit: Option<usize>,
    pub cursor: Option<String>,
}

pub struct McpServerRefreshResponse {}

pub struct McpOAuthLoginResponse {
    pub auth_url: Option<String>,
}

/// One page of a list: the items `start..end`, and the cursor of the page
/// after it.
pub struct PageWindow {
    pub start: usize,
    pub end: usize,
    pub next_cursor: Option<String>,
}

/// The size of a page: the limit that was asked for, at least one and at
/// most `MAX_PAGE_SIZE`; the most if none was asked for.
pub open spec fn spec_effective_limit(limit: Option<usize>) -> usize {
    match limit {
        Some(n) => if n < 1 {
            1
        } else if n > MAX_PAGE_SIZE {
            MAX_PAGE_SIZE
        } else {
            n
        },
        None => MAX_PAGE_SIZE,
    }
}

pub fn effective_limit(limit: Option<usize>) -> (r: usize)
    ensures
        r == spec_effective_limit(limit),
{
    match limit {
        Some(n) => if n < 1 {
            1
        } else if n > MAX_PAGE_SIZE {
            MAX_PAGE_SIZE
        } else {
            n
        },
        None => MAX_PAGE_SIZE,
    }
}

/// Where a page begins: at the number that the cursor writes, at the start
/// if there is no cursor or it writes none.
pub open spec fn spec_cursor_offset(cursor: Option<Seq<char>>) -> usize {
    match cursor {
        Some(text) => match spec_parse_usize(text) {
            Some(n) => n,
            None => 0,
        },
        None => 0,
    }
}

pub fn cursor_offset(cursor: Option<&str>) -> (r: usize)
    ensures
        r == spec_cursor_offset(
            match cursor {
                Some(text) => Some(text@),
                None => None,
            },
        ),
{
    match cursor {
        Some(text) => match parse_usize(text) {
            Some(n) => n,
            None => 0,
        },
        None => 0,
    }
}

/// Where the page that begins at `start` ends.
pub open spec fn spec_page_end(start: usize, limit: usize, total: usize) -> usize {
    if start >= total {
        start
    } else if start + limit > total {
        total
    } else {
        (start + limit) as usize
    }
}

/// The page of a list of `total` items that `params` asks for. A page that
/// would begin behind the list is empty and has no successor; any other page
/// holds as many items as its size allows and the list has, and its cursor
/// is where the next page begins, if items are left.
pub fn page_window(params: &ListMcpServerStatusParams, total: usize) -> (page: PageWindow)
    ensures
        page.start == spec_cursor_offset(
            match params.cursor {
                Some(text) => Some(text@),
                None => None,
            },
        ),
        page.end == spec_page_end(page.start, spec_effective_limit(params.limit), total),
        page.start <= page.end,
        page.start < total ==> page.end <= total && page.end > page.start,
        page.next_cursor is Some <==> page.end < total && page.start < total,
        page.next_cursor matches Some(text) ==> text@ == decimal(page.end as nat),
{
    let limit = effective_limit(params.limit);
    let start = match &params.cursor {
        Some(text) => cursor_offset(Some(text.as_str())),
        None => cursor_offset(None),
    };
    if start >= total {
        return PageWindow { start, end: start, next_cursor: None };
    }
    let end = if limit > total - start {
        total
    } else {
        start + limit
    };
    let next_cursor = if end < total {
        Some(u64_to_string(end as u64))
    } else {
        None
    };
    PageWindow { start, end, next_cursor }
}

/// The names of all servers that anything is known of: those that are
/// configured and those that have an authentication status, resources or
/// resource templates; sorted, each once.
pub fn server_names(
    configured: Vec<String>,
    with_auth_status: Vec<String>,
    with_resources: Vec<String>,
    with_templates: Vec<String>,
) -> (names: Vec<String>)
    ensures
        ascending(words(names@)),
        forall|s: Seq<char>|
            words(names@).contains(s) <==> words(configured@).contains(s) || words(
                with_auth_status@,
            ).contains(s) || words(with_resources@).contains(s) || words(with_templates@).contains(
                s,
            ),
{
    let mut all = configured;
    let mut b = with_auth_status;
    let mut c = with_resources;
    let mut d = with_templates;
    all.append(&mut b);
    all.append(&mut c);
    all.append(&mut d);
    let ghost joined = words(configured@) + words(with_auth_status@) + words(with_resources@)
        + words(with_templates@);
    assert(words(all@) =~= joined);
    assert forall|s: Seq<char>|
        joined.contains(s) <==> words(configured@).contains(s) || words(
            with_auth_status@,
        ).contains(s) || words(with_resources@).contains(s) || words(with_templates@).contains(
            s,
        ) by {
        let n1 = words(configured@).len() as int;
        let n2 = words(with_auth_status@).len() as int;
        let n3 = words(with_resources@).len() as int;
        if joined.contains(s) {
            let k = joined.index_of(s);
            if k < n1 {
                assert(words(configured@)[k] == s);
            } else if k < n1 + n2 {
                assert(words(with_auth_status@)[k - n1] == s);
            } else if k < n1 + n2 + n3 {
                assert(words(with_resources@)[k - n1 - n2] == s);
            } else {
                assert(words(with_templates@)[k - n1 - n2 - n3] == s);
            }
        }
        if words(configured@).contains(s) {
            let k = words(configured@).index_of(s);
            assert(joined[k] == s);
        }
        if words(with_auth_status@).contains(s) {
            let k = words(with_auth_status@).index_of(s);
            assert(joined[n1 + k] == s);
        }
        if words(with_resources@).contains(s) {
            let k = words(with_resources@).index_of(s);
            assert(joined[n1 + n2 + k] == s);
        }
        if words(with_templates@).contains(s) {
            let k = words(with_templates@).index_of(s);
            assert(joined[n1 + n2 + n3 + k] == s);
        }
    }
    sorted_unique(all)
}

/// The names of one page: those that the window of `params` shows of
/// `names`, and the cursor of the page after it.
pub fn list_page(names: &Vec<String>, params: &ListMcpServerStatusParams) -> (r: (
    Vec<String>,
    Option<String>,
))
    ensures
        ({
            let start = spec_cursor_offset(
                match params.cursor {
                    Some(text) => Some(text@),
                    None => None,
                },
            );
            let end = spec_page_end(start, spec_effective_limit(params.limit), names@.len() as usize);
            &&& r.0@ == if start < names@.len() {
                names@.subrange(start as int, end as int)
            } else {
                Seq::<String>::empty()
            }
            &&& r.1 is Some <==> start < names@.len() && end < names@.len()
            &&& r.1 matches Some(text) ==> text@ == decimal(end as nat)
        }),
{
    let page = page_window(params, names.len());
    let mut data: Vec<String> = Vec::new();
    if page.start < names.len() {
        let mut i: usize = page.start;
        while i < page.end
            invariant
                page.start <= i <= page.end <= names.len(),
                data@ == names@.subrange(page.start as int, i as int),
            decreases page.end - i,
        {
            data.push(names[i].clone());
            i += 1;
            assert(names@.subrange(page.start as int, i as int) =~= names@.subrange(
                page.start as int,
                i - 1,
            ).push(names@[i - 1]));
        }
    }
    (data, page.next_cursor)
}

/// The error for a login at a server that does not talk over HTTP.
pub fn oauth_unsupported() -> (e: ApiError)
    ensures
        e matches ApiError::InvalidRequest(msg) && msg@
            == "OAuth login is only supported for streamable HTTP servers"@,
{
    ApiError::InvalidRequest("OAuth login is only supported for streamable HTTP servers".to_string())
}

/// The error for a login at a server that is not configured.
pub fn server_not_found(name: &str) -> (e: ApiError)
    ensures
        e matches ApiError::NotFound(msg) && msg@ == "MCP server not found: "@ + name@,
{
    ApiError::NotFound(crate::text::concat("MCP server not found: ", name))
}

/// The cursor of a page leads to the page after it: it writes the number at
/// which the page ends.
pub proof fn lemma_next_cursor_continues(end: usize)
    ensures
        spec_cursor_offset(Some(decimal(end as nat))) == end,
{
    crate::text::lemma_decimal_parses_back(end as nat);
}

} // verus!
