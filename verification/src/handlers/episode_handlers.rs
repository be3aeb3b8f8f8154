use vstd::prelude::*;
use vstd::string::*;
use axum::extract::rejection::QueryRejection;
use crate::common_error::AppCommonError;
use crate::handlers::{SortTypeParseError, invalid_combination, is_invalid_combination, refused_query};

verus! {

/// How episodes are listed.
#[derive(Debug, Clone, Copy, PartialEq, Eq)]
pub enum SortType {
    Date,
}

/// The sort type that a query string value names, in snake case.
pub open spec fn parse_sort_type(s: Seq<char>) -> Result<SortType, SortTypeParseError> {
    if s == "date"@ {
        Ok(SortType::Date)
    } else {
        Err(SortTypeParseError::VariantNotFound)
    }
}

/// The snake-case name of a sort type.
pub open spec fn sort_type_name(t: SortType) -> Seq<char> {
    match t {
        SortType::Date => "date"@,
    }
}

impl TryFrom<String> for SortType {
    type Error = SortTypeParseError;

    fn try_from(value: String) -> (r: Result<SortType, SortTypeParseError>) {
        if value == String::from_str("date") {
            Ok(SortType::Date)
        } else {
            Err(SortTypeParseError::VariantNotFound)
        }
    }
}

impl vstd::std_specs::convert::TryFromSpecImpl<String> for SortType {
    open spec fn obeys_try_from_spec() -> bool {
        true
    }

    open spec fn try_from_spec(value: String) -> Result<SortType, SortTypeParseError> {
        parse_sort_type(value@)
    }
}

/// Law: each sort type is read back from its own name.
pub proof fn lemma_sort_type_name_round_trip(t: SortType)
    ensures
        parse_sort_type(sort_type_name(t)) == Ok::<SortType, SortTypeParseError>(t),
{
}

/// Ask for every episode (the server's command of the full listing).
pub struct AllEpisodeCommand;

/// The query string of an episode listing.
pub struct EpisodeQuery<D> {
    pub start: Option<D>,
    pub end: Option<D>,
    pub sort_type: SortType,
}

/// The listing that an episode query asks the store for: the episodes dated
/// between `start` and `end`.
#[derive(Debug, Clone, PartialEq, Eq)]
pub struct OrderByDateRangeEpisodeCommand<D> {
    pub start: D,
    pub end: D,
}

/// The listing that a query asks for, or `None` when its parameters form no
/// supported combination.
pub open spec fn episode_command_spec<D>(query: EpisodeQuery<D>) -> Option<OrderByDateRangeEpisodeCommand<D>> {
    match (query.sort_type, query.start, query.end) {
        (SortType::Date, Some(start), Some(end)) => Some(OrderByDateRangeEpisodeCommand { start, end }),
        _ => None,
    }
}

/// `r` answers `query`: the listing it asks for, or the refusal of an
/// unsupported combination.
pub open spec fn answers_episode_query<D>(query: EpisodeQuery<D>, r: Result<OrderByDateRangeEpisodeCommand<D>, AppCommonError>) -> bool {
    match episode_command_spec(query) {
        Some(c) => r == Ok::<OrderByDateRangeEpisodeCommand<D>, AppCommonError>(c),
        None => r is Err && is_invalid_combination(r->Err_0),
    }
}

/// The listing that an episode query asks for.
pub fn episode_query_command<D>(query: EpisodeQuery<D>) -> (r: Result<OrderByDateRangeEpisodeCommand<D>, AppCommonError>)
    ensures
        answers_episode_query(query, r),
{
    match (query.sort_type, query.start, query.end) {
        (SortType::Date, Some(start), Some(end)) => Ok(OrderByDateRangeEpisodeCommand { start, end }),
        _ => Err(invalid_combination()),
    }
}

/// The decision of the episode query handler: a query string that could not
/// be read is refused, otherwise the query is answered.
pub fn get_episodes_with_query<D>(query_res: Result<EpisodeQuery<D>, QueryRejection>) -> (r: Result<OrderByDateRangeEpisodeCommand<D>, AppCommonError>)
    ensures
        match query_res {
            Err(e) => refused_query(r, e),
            Ok(query) => answers_episode_query(query, r),
        },
{
    match query_res {
        Ok(query) => episode_query_command(query),
        Err(e) => Err(AppCommonError::from_query_rejection(&e)),
    }
}

} // verus!
