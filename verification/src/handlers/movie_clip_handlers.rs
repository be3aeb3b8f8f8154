use vstd::prelude::*;
use vstd::string::*;
use axum::extract::rejection::{JsonRejection, QueryRejection};
use crate::common_error::AppCommonError;
use crate::handlers::{SortTypeParseError, invalid_combination, is_invalid_combination, query_reference, refused_json, refused_query};
use crate::common_error::json_rejection_is_missing;
use crate::query_info::QueryInfo;

verus! {

/// How movie clips are listed.
#[derive(Debug, Clone, Copy, PartialEq, Eq)]
pub enum SortType {
    CreateDate,
    Like,
}

/// The sort type that a query string value names, in snake case.
pub open spec fn parse_sort_type(s: Seq<char>) -> Result<SortType, SortTypeParseError> {
    if s == "create_date"@ {
        Ok(SortType::CreateDate)
    } else if s == "like"@ {
        Ok(SortType::Like)
    } else {
        Err(SortTypeParseError::VariantNotFound)
    }
}

/// The snake-case name of a sort type.
pub open spec fn sort_type_name(t: SortType) -> Seq<char> {
    match t {
        SortType::CreateDate => "create_date"@,
        SortType::Like => "like"@,
    }
}

impl TryFrom<String> for SortType {
    type Error = SortTypeParseError;

    fn try_from(value: String) -> (r: Result<SortType, SortTypeParseError>) {
        if value == String::from_str("create_date") {
            Ok(SortType::CreateDate)
        } else if value == String::from_str("like") {
            Ok(SortType::Like)
        } else {
            Err(SortTypeParseError::VariantNotFound)
        }
    }
}

impl vstd::std_specs::convert::TryFromSpecImpl<String> for SortType {
    open spec fn obeys_try_from_spec() -> bool {
        true
    }

    open spec fn try_from_spec(value: String) -> Result<SortType, SortTypeParseError> {
        parse_sort_type(value@)
    }
}

/// Law: each sort type is read back from its own name.
pub proof fn lemma_sort_type_name_round_trip(t: SortType)
    ensures
        parse_sort_type(sort_type_name(t)) == Ok::<SortType, SortTypeParseError>(t),
{
    reveal_strlit("create_date");
    reveal_strlit("like");
    assert("like"@.len() != "create_date"@.len());
}

/// The query string of a movie clip listing.
pub struct MovieClipQuery<D> {
    pub sort_type: SortType,
    pub length: Option<usize>,
    pub start: Option<D>,
    pub end: Option<D>,
}

/// The listing that a movie clip query asks the store for.
#[derive(Debug, Clone, PartialEq, Eq)]
pub enum MovieClipQueryCommand<R, D> {
    /// The `length` clips with the most likes.
    OrderByLike { length: usize },
    /// The `length` clips that follow `reference` in order of likes.
    OrderByLikeLater { reference: R, length: usize },
    /// The `length` newest clips.
    OrderByCreateDate { length: usize },
    /// The `length` clips that follow `reference` in order of creation date.
    OrderByCreateDateLater { reference: R, length: usize },
    /// The clips created between `start` and `end`, newest first.
    OrderByCreateDateRange { start: D, end: D },
}

/// The listing that a query asks for, or `None` when its parameters form no
/// supported combination.
pub open spec fn movie_clip_command_spec<R, D>(query: MovieClipQuery<D>, reference: Option<R>) -> Option<MovieClipQueryCommand<R, D>> {
    match (query.sort_type, query.length, query.start, query.end) {
        (SortType::Like, Some(length), None, None) => match reference {
            Some(reference) => Some(MovieClipQueryCommand::OrderByLikeLater { reference, length }),
            None => Some(MovieClipQueryCommand::OrderByLike { length }),
        },
        (SortType::CreateDate, Some(length), None, None) => match reference {
            Some(reference) => Some(MovieClipQueryCommand::OrderByCreateDateLater { reference, length }),
            None => Some(MovieClipQueryCommand::OrderByCreateDate { length }),
        },
        (SortType::CreateDate, None, Some(start), Some(end)) => Some(MovieClipQueryCommand::OrderByCreateDateRange { start, end }),
        _ => None,
    }
}

/// The combinations of query parameters that the server answers: a length
/// without dates (liked or newest clips), or, for creation-date order, a start
/// and an end without a length.
pub open spec fn is_supported_movie_clip_query<D>(query: MovieClipQuery<D>) -> bool {
    ||| (query.length is Some && query.start is None && query.end is None)
    ||| (query.sort_type == SortType::CreateDate && query.length is None && query.start is Some && query.end is Some)
}

/// Law: a movie clip query is answered with a listing exactly when its
/// parameters form a supported combination (any other, such as a length
/// together with an end date alone, is refused), and the listing is the one
/// that its sort type, length, dates and reference name: a like listing only
/// for `like`, a date listing only for `create_date`, the length and dates as
/// given, continuing after the reference exactly when one was sent (a date
/// range ignores any reference).
pub proof fn lemma_movie_clip_listing_matches_query<R, D>(query: MovieClipQuery<D>, reference: Option<R>)
    ensures
        movie_clip_command_spec(query, reference) is Some <==> is_supported_movie_clip_query(query),
        movie_clip_command_spec(query, reference) matches Some(c) ==> match c {
            MovieClipQueryCommand::OrderByLike { length } =>
                query.sort_type == SortType::Like && query.length == Some(length) && reference is None,
            MovieClipQueryCommand::OrderByLikeLater { reference: r, length } =>
                query.sort_type == SortType::Like && query.length == Some(length) && reference == Some(r),
            MovieClipQueryCommand::OrderByCreateDate { length } =>
                query.sort_type == SortType::CreateDate && query.length == Some(length) && reference is None,
            MovieClipQueryCommand::OrderByCreateDateLater { reference: r, length } =>
                query.sort_type == SortType::CreateDate && query.length == Some(length) && reference == Some(r),
            MovieClipQueryCommand::OrderByCreateDateRange { start, end } =>
                query.sort_type == SortType::CreateDate && query.length is None
                    && query.start == Some(start) && query.end == Some(end),
        },
{
}

/// `r` answers `query` with `reference`: the listing it asks for, or the
/// refusal of an unsupported combination.
pub open spec fn answers_movie_clip_query<R, D>(query: MovieClipQuery<D>, reference: Option<R>, r: Result<MovieClipQueryCommand<R, D>, AppCommonError>) -> bool {
    match movie_clip_command_spec(query, reference) {
        Some(c) => r == Ok::<MovieClipQueryCommand<R, D>, AppCommonError>(c),
        None => r is Err && is_invalid_combination(r->Err_0),
    }
}

/// The listing that a movie clip query asks for.
pub fn movie_clip_query_command<R, D>(query: MovieClipQuery<D>, reference: Option<R>) -> (r: Result<MovieClipQueryCommand<R, D>, AppCommonError>)
    ensures
        answers_movie_clip_query(query, reference, r),
{
    match (query.sort_type, query.length, query.start, query.end) {
        (SortType::Like, Some(length), None, None) => match reference {
            Some(reference) => Ok(MovieClipQueryCommand::OrderByLikeLater { reference, length }),
            None => Ok(MovieClipQueryCommand::OrderByLike { length }),
        },
        (SortType::CreateDate, Some(length), None, None) => match reference {
            Some(reference) => Ok(MovieClipQueryCommand::OrderByCreateDateLater { reference, length }),
            None => Ok(MovieClipQueryCommand::OrderByCreateDate { length }),
        },
        (SortType::CreateDate, None, Some(start), Some(end)) => Ok(MovieClipQueryCommand::OrderByCreateDateRange { start, end }),
        _ => Err(invalid_combination()),
    }
}

/// The decision of the movie clip query handler: a query string that could not
/// be read is refused first, then a JSON body that was sent but could not be
/// read; otherwise the query is answered with the body's reference.
pub fn get_movie_clips_with_query<R, D>(
    query_res: Result<MovieClipQuery<D>, QueryRejection>,
    query_info_res: Result<QueryInfo<R>, JsonRejection>,
) -> (r: Result<MovieClipQueryCommand<R, D>, AppCommonError>)
    ensures
        match query_res {
            Err(e) => refused_query(r, e),
            Ok(query) => match query_info_res {
                Ok(info) => answers_movie_clip_query(query, info.reference, r),
                Err(e) => if json_rejection_is_missing(e) {
                    answers_movie_clip_query(query, None::<R>, r)
                } else {
                    refused_json(r, e)
                },
            },
        },
{
    let query = match query_res {
        Ok(query) => query,
        Err(e) => return Err(AppCommonError::from_query_rejection(&e)),
    };
    let reference = match query_reference(query_info_res) {
        Ok(reference) => reference,
        Err(e) => return Err(e),
    };
    movie_clip_query_command(query, reference)
}

} // verus!
