use vstd::prelude::*;

use crate::error::api_error::{ApiError, ApiErrorView};

verus! {

/// The answer to a request that no route is defined for.
pub fn not_found_handler() -> (err: ApiError)
    ensures
        err@ == ApiErrorView::ApiNotFound,
{
    ApiError::ApiNotFound
}

} // verus!
