//! Decisions of the HTTP handlers: which query is asked for, and with what.

pub mod episode_handlers;
pub mod kirinuki_handlers;
pub mod movie_clip_handlers;
pub mod original_handlers;
pub mod video_handlers;

use vstd::prelude::*;
use vstd::string::*;
use axum::extract::rejection::{JsonRejection, QueryRejection};
use crate::common_error::{AppCommonError, json_rejection_display, json_rejection_is_missing, json_rejection_is_missing_content_type, query_rejection_display};
use crate::query_info::QueryInfo;

verus! {

/// The query string of a listing by count: the number of items asked for.
pub struct Limit {
    pub length: usize,
}

/// The query string of a listing between two dates.
pub struct DateRange<D> {
    pub start: D,
    pub end: D,
}

/// A `sort_type` that names no sorting.
#[derive(Debug, Clone, Copy, PartialEq, Eq)]
pub enum SortTypeParseError {
    VariantNotFound,
}

/// The text with which a query is refused when its parameters do not form
/// one of the supported combinations.
pub open spec fn invalid_combination_text() -> Seq<char> {
    "Invalid query parameter combination."@
}

/// `e` is the refusal of an unsupported combination of query parameters.
pub open spec fn is_invalid_combination(e: AppCommonError) -> bool {
    e matches AppCommonError::QueryStringRejectionError(s) && s@ == invalid_combination_text()
}

/// The refusal of an unsupported combination of query parameters.
pub fn invalid_combination() -> (e: AppCommonError)
    ensures
        is_invalid_combination(e),
{
    AppCommonError::QueryStringRejectionError(String::from_str("Invalid query parameter combination."))
}

/// What a JSON body rejection leaves of a query's reference: a request that
/// carried no JSON at all asks for no reference; any other rejection is
/// answered with `rejection`.
pub fn reference_after_rejection<R>(missing_content_type: bool, rejection: AppCommonError) -> (r: Result<Option<R>, AppCommonError>)
    ensures
        missing_content_type ==> r == Ok::<Option<R>, AppCommonError>(None),
        !missing_content_type ==> r == Err::<Option<R>, AppCommonError>(rejection),
{
    if missing_content_type {
        Ok(None)
    } else {
        Err(rejection)
    }
}

/// `r` refuses a request whose JSON body was rejected with `e`, with the
/// rejection's text.
pub open spec fn refused_json<T>(r: Result<T, AppCommonError>, e: JsonRejection) -> bool {
    r matches Err(AppCommonError::JsonRejectionError(s)) && s@ == json_rejection_display(e)
}

/// `r` refuses a request whose query string was rejected with `e`, with the
/// rejection's text.
pub open spec fn refused_query<T>(r: Result<T, AppCommonError>, e: QueryRejection) -> bool {
    r matches Err(AppCommonError::QueryStringRejectionError(s)) && s@ == query_rejection_display(e)
}

/// The reference item of a query, taken from the request's JSON body: the
/// body's reference when it was read, none when the request carried no JSON
/// body, and the refusal of any other unreadable body.
pub fn query_reference<R>(query_info_res: Result<QueryInfo<R>, JsonRejection>) -> (r: Result<Option<R>, AppCommonError>)
    ensures
        match query_info_res {
            Ok(info) => r == Ok::<Option<R>, AppCommonError>(info.reference),
            Err(e) => if json_rejection_is_missing(e) {
                r == Ok::<Option<R>, AppCommonError>(None)
            } else {
                refused_json(r, e)
            },
        },
{
    match query_info_res {
        Ok(info) => Ok(info.reference),
        Err(e) => {
            let missing = json_rejection_is_missing_content_type(&e);
            reference_after_rejection(missing, AppCommonError::from_json_rejection(&e))
        },
    }
}

} // verus!
