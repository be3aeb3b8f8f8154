use vstd::prelude::*;
use axum::extract::rejection::{JsonRejection, QueryRejection};
use crate::common_error::AppCommonError;
use crate::handlers::video_handlers::{answers_video_query, video_query_decision};
use crate::query_info::QueryInfo;
use crate::handlers::{refused_json, refused_query};
use crate::common_error::json_rejection_is_missing;

pub use crate::handlers::video_handlers::{SortType, VideoQueryCommand};

verus! {

/// The query string of a original video listing.
pub struct OriginalQuery {
    pub sort_type: SortType,
    pub length: Option<usize>,
}

/// The decision of the original video query handler.
pub fn get_originals_with_query<V>(
    path_query_res: Result<OriginalQuery, QueryRejection>,
    query_info_res: Result<QueryInfo<V>, JsonRejection>,
) -> (r: Result<VideoQueryCommand<V>, AppCommonError>)
    ensures
        match path_query_res {
            Err(e) => refused_query(r, e),
            Ok(q) => match query_info_res {
                Ok(info) => answers_video_query(q.sort_type, q.length, info.reference, r),
                Err(e) => if json_rejection_is_missing(e) {
                    answers_video_query(q.sort_type, q.length, None::<V>, r)
                } else {
                    refused_json(r, e)
                },
            },
        },
{
    let q = match path_query_res {
        Ok(q) => Ok((q.sort_type, q.length)),
        Err(e) => Err(e),
    };
    video_query_decision(q, query_info_res)
}

} // verus!
