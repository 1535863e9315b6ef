//! The list of models, page by page.

use vstd::prelude::*;

verus! {

/// The size of a page when none is asked for.
pub const DEFAULT_MODELS_LIMIT: usize = 50;

/// The most models that one page holds.
pub const MAX_MODELS_LIMIT: usize = 100;

pub struct ListModelsParams {
    pub limit: Option<usize>,
    pub offset: Option<usize>,
    pub capability: Option<String>,
    pub provider: Option<String>,
}

/// The part of the list that a page shows: the items `start..end`, with the
/// limit and the offset that the answer repeats.
#[derive(PartialEq, Eq, Structural, Clone, Copy, Debug)]
pub struct ModelsWindow {
    pub start: usize,
    pub end: usize,
    pub total: usize,
    pub limit: usize,
    pub offset: usize,
}

pub open spec fn spec_models_window(limit: Option<usize>, offset: Option<usize>, total: usize) -> ModelsWindow {
    let limit = match limit {
        Some(n) => if n > MAX_MODELS_LIMIT {
            MAX_MODELS_LIMIT
        } else {
            n
        },
        None => DEFAULT_MODELS_LIMIT,
    };
    let offset = match offset {
        Some(n) => n,
        None => 0,
    };
    if offset >= total {
        ModelsWindow { start: total, end: total, total, limit, offset }
    } else if offset + limit > total {
        ModelsWindow { start: offset, end: total, total, limit, offset }
    } else {
        ModelsWindow { start: offset, end: (offset + limit) as usize, total, limit, offset }
    }
}

/// The page of a list of `total` models that `params` asks for: at most
/// `MAX_MODELS_LIMIT` models from the offset on, none if the offset lies
/// behind the list.
pub fn models_window(params: &ListModelsParams, total: usize) -> (w: ModelsWindow)
    ensures
        w == spec_models_window(params.limit, params.offset, total),
        w.start <= w.end <= total,
        w.end - w.start <= w.limit,
{
    let limit = match params.limit {
        Some(n) => if n > MAX_MODELS_LIMIT {
            MAX_MODELS_LIMIT
        } else {
            n
        },
        None => DEFAULT_MODELS_LIMIT,
    };
    let offset = match params.offset {
        Some(n) => n,
        None => 0,
    };
    if offset >= total {
        ModelsWindow { start: total, end: total, total, limit, offset }
    } else if limit > total - offset {
        ModelsWindow { start: offset, end: total, total, limit, offset }
    } else {
        ModelsWindow { start: offset, end: offset + limit, total, limit, offset }
    }
}

} // verus!
