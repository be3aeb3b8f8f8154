use vstd::prelude::*;
use vstd::string::*;
use axum::extract::rejection::{JsonRejection, QueryRejection};
use crate::common_error::AppCommonError;
use crate::handlers::{SortTypeParseError, invalid_combination, is_invalid_combination, query_reference, refused_json, refused_query};
use crate::common_error::json_rejection_is_missing;
use crate::query_info::QueryInfo;

verus! {

/// How videos are listed.
#[derive(Debug, Clone, Copy, PartialEq, Eq)]
pub enum SortType {
    Date,
    Like,
}

/// The sort type that a query string value names, in snake case.
pub open spec fn parse_sort_type(s: Seq<char>) -> Result<SortType, SortTypeParseError> {
    if s == "date"@ {
        Ok(SortType::Date)
    } else if s == "like"@ {
        Ok(SortType::Like)
    } else {
        Err(SortTypeParseError::VariantNotFound)
    }
}

/// The snake-case name of a sort type.
pub open spec fn sort_type_name(t: SortType) -> Seq<char> {
    match t {
        SortType::Date => "date"@,
        SortType::Like => "like"@,
    }
}

impl TryFrom<String> for SortType {
    type Error = SortTypeParseError;

    fn try_from(value: String) -> (r: Result<SortType, SortTypeParseError>) {
        if value == String::from_str("date") {
            Ok(SortType::Date)
        } else if value == String::from_str("like") {
            Ok(SortType::Like)
        } else {
            Err(SortTypeParseError::VariantNotFound)
        }
    }
}

impl vstd::std_specs::convert::TryFromSpecImpl<String> for SortType {
    open spec fn obeys_try_from_spec() -> bool {
        true
    }

    open spec fn try_from_spec(value: String) -> Result<SortType, SortTypeParseError> {
        parse_sort_type(value@)
    }
}

/// Law: each sort type is read back from its own name.
pub proof fn lemma_sort_type_name_round_trip(t: SortType)
    ensures
        parse_sort_type(sort_type_name(t)) == Ok::<SortType, SortTypeParseError>(t),
{
    reveal_strlit("date");
    reveal_strlit("like");
    assert("like"@[0] != "date"@[0]);
}

/// The query string of a video listing.
pub struct VideoQuery {
    pub sort_type: SortType,
    pub length: Option<usize>,
}

/// The listing that a video query asks the store for.
#[derive(Debug, Clone, PartialEq, Eq)]
pub enum VideoQueryCommand<V> {
    /// The `length` videos with the most likes.
    OrderByLike { length: usize },
    /// The `length` videos that follow `reference` in order of likes.
    OrderByLikeLater { reference: V, length: usize },
    /// The `length` newest videos.
    OrderByDate { length: usize },
    /// The `length` videos that follow `reference` in order of date.
    OrderByDateLater { reference: V, length: usize },
}

/// The listing that a query asks for, or `None` when its parameters form no
/// supported combination.
pub open spec fn video_command_spec<V>(sort_type: SortType, length: Option<usize>, reference: Option<V>) -> Option<VideoQueryCommand<V>> {
    match (sort_type, length) {
        (SortType::Like, Some(length)) => match reference {
            Some(reference) => Some(VideoQueryCommand::OrderByLikeLater { reference, length }),
            None => Some(VideoQueryCommand::OrderByLike { length }),
        },
        (SortType::Date, Some(length)) => match reference {
            Some(reference) => Some(VideoQueryCommand::OrderByDateLater { reference, length }),
            None => Some(VideoQueryCommand::OrderByDate { length }),
        },
        _ => None,
    }
}

/// Law: a video query is answered with a listing exactly when it gives a
/// length (without one it is refused, whatever its sort type and whether or
/// not a reference was sent), and the listing is the one that its sort type,
/// length and reference name: likes only for `like`, dates only for `date`,
/// the length as given, continuing after the reference exactly when one was
/// sent.
pub proof fn lemma_video_listing_matches_query<V>(sort_type: SortType, length: Option<usize>, reference: Option<V>)
    ensures
        video_command_spec(sort_type, length, reference) is Some <==> length is Some,
        video_command_spec(sort_type, length, reference) matches Some(c) ==> match c {
            VideoQueryCommand::OrderByLike { length: n } =>
                sort_type == SortType::Like && length == Some(n) && reference is None,
            VideoQueryCommand::OrderByLikeLater { reference: r, length: n } =>
                sort_type == SortType::Like && length == Some(n) && reference == Some(r),
            VideoQueryCommand::OrderByDate { length: n } =>
                sort_type == SortType::Date && length == Some(n) && reference is None,
            VideoQueryCommand::OrderByDateLater { reference: r, length: n } =>
                sort_type == SortType::Date && length == Some(n) && reference == Some(r),
        },
{
}

/// `r` answers the query with `reference`: the listing it asks for, or the
/// refusal of an unsupported combination.
pub open spec fn answers_video_query<V>(sort_type: SortType, length: Option<usize>, reference: Option<V>, r: Result<VideoQueryCommand<V>, AppCommonError>) -> bool {
    match video_command_spec(sort_type, length, reference) {
        Some(c) => r == Ok::<VideoQueryCommand<V>, AppCommonError>(c),
        None => r is Err && is_invalid_combination(r->Err_0),
    }
}

/// The listing that a video query asks for.
pub fn video_query_command<V>(sort_type: SortType, length: Option<usize>, reference: Option<V>) -> (r: Result<VideoQueryCommand<V>, AppCommonError>)
    ensures
        answers_video_query(sort_type, length, reference, r),
{
    match (sort_type, length) {
        (SortType::Like, Some(length)) => match reference {
            Some(reference) => Ok(VideoQueryCommand::OrderByLikeLater { reference, length }),
            None => Ok(VideoQueryCommand::OrderByLike { length }),
        },
        (SortType::Date, Some(length)) => match reference {
            Some(reference) => Ok(VideoQueryCommand::OrderByDateLater { reference, length }),
            None => Ok(VideoQueryCommand::OrderByDate { length }),
        },
        _ => Err(invalid_combination()),
    }
}

/// The decision of a video query handler, from the query string's sort type
/// and length and the JSON body: a query string that could not be read is
/// refused first, then a JSON body that was sent but could not be read;
/// otherwise the query is answered with the body's reference.
pub fn video_query_decision<V>(
    query_res: Result<(SortType, Option<usize>), QueryRejection>,
    query_info_res: Result<QueryInfo<V>, JsonRejection>,
) -> (r: Result<VideoQueryCommand<V>, AppCommonError>)
    ensures
        match query_res {
            Err(e) => refused_query(r, e),
            Ok(q) => match query_info_res {
                Ok(info) => answers_video_query(q.0, q.1, info.reference, r),
                Err(e) => if json_rejection_is_missing(e) {
                    answers_video_query(q.0, q.1, None::<V>, r)
                } else {
                    refused_json(r, e)
                },
            },
        },
{
    let (sort_type, length) = match query_res {
        Ok(q) => q,
        Err(e) => return Err(AppCommonError::from_query_rejection(&e)),
    };
    let reference = match query_reference(query_info_res) {
        Ok(reference) => reference,
        Err(e) => return Err(e),
    };
    video_query_command(sort_type, length, reference)
}

/// The decision of the video query handler.
pub fn get_videos_with_query<V>(
    path_query_res: Result<VideoQuery, QueryRejection>,
    query_info_res: Result<QueryInfo<V>, JsonRejection>,
) -> (r: Result<VideoQueryCommand<V>, AppCommonError>)
    ensures
        match path_query_res {
            Err(e) => refused_query(r, e),
            Ok(q) => match query_info_res {
                Ok(info) => answers_video_query(q.sort_type, q.length, info.reference, r),
                Err(e) => if json_rejection_is_missing(e) {
                    answers_video_query(q.sort_type, q.length, None::<V>, r)
                } else {
                    refused_json(r, e)
                },
            },
        },
{
    let q = match path_query_res {
        Ok(q) => Ok((q.sort_type, q.length)),
        Err(e) => Err(e),
    };
    video_query_decision(q, query_info_res)
}

} // verus!
