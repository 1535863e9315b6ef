//! Reviews: what is reviewed, and the request that starts the review.

use crate::error::ApiError;
use crate::text::concat;
use crate::text::join_with;
use crate::text::spec_join;
use crate::text::words;
use vstd::prelude::*;

verus! {

pub enum ReviewTarget {
    Git { branch: Option<String>, base: Option<String> },
    Files { paths: Vec<String> },
}

#[derive(PartialEq, Eq, Structural, Clone, Copy, Debug)]
pub enum ReviewDelivery {
    Inline,
    Detached,
}

pub struct StartReviewRequest {
    pub target: ReviewTarget,
    pub delivery: Option<ReviewDelivery>,
}

pub struct StartReviewResponse {
    pub review_id: String,
    pub thread_id: String,
}

/// What a review looks at.
pub enum CoreReviewTarget {
    BaseBranch { branch: String },
    Custom { instructions: String },
}

pub struct CoreReviewRequest {
    pub target: CoreReviewTarget,
    pub user_facing_hint: Option<String>,
}

/// The branch that changes are compared with when the request names none.
pub const DEFAULT_BASE_BRANCH: &'static str = "main";

/// The request that starts the review of `target`: a comparison with the
/// base branch, `main` if none is named, or the instruction to review the
/// listed files.
pub fn build_review_request(target: ReviewTarget) -> (r: Result<CoreReviewRequest, ApiError>)
    ensures
        r matches Ok(request) && request.user_facing_hint is None && match target {
            ReviewTarget::Git { base, .. } => request.target matches CoreReviewTarget::BaseBranch {
                branch,
            } && branch@ == match base {
                Some(name) => name@,
                None => DEFAULT_BASE_BRANCH@,
            },
            ReviewTarget::Files { paths } => request.target matches CoreReviewTarget::Custom {
                instructions,
            } && instructions@ == "Review the following files: "@ + spec_join(
                words(paths@),
                ", "@,
            ),
        },
{
    let core_target = match target {
        ReviewTarget::Git { base, .. } => CoreReviewTarget::BaseBranch {
            branch: match base {
                Some(name) => name,
                None => DEFAULT_BASE_BRANCH.to_string(),
            },
        },
        ReviewTarget::Files { paths } => {
            let list = join_with(&paths, ", ");
            CoreReviewTarget::Custom {
                instructions: concat("Review the following files: ", list.as_str()),
            }
        },
    };
    Ok(CoreReviewRequest { target: core_target, user_facing_hint: None })
}

} // verus!
