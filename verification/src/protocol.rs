//! Properties of the API as a whole: what the client asks for is what the
//! server answers, and how errors travel.

use vstd::prelude::*;
use crate::common_error::{AppCommonError, status_of};
use crate::handlers::is_invalid_combination;
use crate::handlers::episode_handlers;
use crate::handlers::movie_clip_handlers;
use crate::handlers::video_handlers;

verus! {

/// Law: every movie clip listing that the client asks for is answered by the
/// server with the listing meant. The sort names that the client writes
/// ("like", "create_date") are read back as the sort types meant; a listing
/// of `length` clips, with or without a reference, and a listing between two
/// dates are supported combinations, answered with the matching command.
pub proof fn lemma_client_movie_clip_queries_are_answered<R, D>(length: usize, reference: Option<R>, start: D, end: D)
    ensures
        movie_clip_handlers::parse_sort_type("like"@) == Ok::<movie_clip_handlers::SortType, crate::handlers::SortTypeParseError>(movie_clip_handlers::SortType::Like),
        movie_clip_handlers::parse_sort_type("create_date"@) == Ok::<movie_clip_handlers::SortType, crate::handlers::SortTypeParseError>(movie_clip_handlers::SortType::CreateDate),
        movie_clip_handlers::movie_clip_command_spec(
            movie_clip_handlers::MovieClipQuery::<D> { sort_type: movie_clip_handlers::SortType::Like, length: Some(length), start: None, end: None },
            reference,
        ) == Some(match reference {
            Some(r) => movie_clip_handlers::MovieClipQueryCommand::<R, D>::OrderByLikeLater { reference: r, length },
            None => movie_clip_handlers::MovieClipQueryCommand::<R, D>::OrderByLike { length },
        }),
        movie_clip_handlers::movie_clip_command_spec(
            movie_clip_handlers::MovieClipQuery::<D> { sort_type: movie_clip_handlers::SortType::CreateDate, length: Some(length), start: None, end: None },
            reference,
        ) == Some(match reference {
            Some(r) => movie_clip_handlers::MovieClipQueryCommand::<R, D>::OrderByCreateDateLater { reference: r, length },
            None => movie_clip_handlers::MovieClipQueryCommand::<R, D>::OrderByCreateDate { length },
        }),
        movie_clip_handlers::movie_clip_command_spec(
            movie_clip_handlers::MovieClipQuery::<D> { sort_type: movie_clip_handlers::SortType::CreateDate, length: None, start: Some(start), end: Some(end) },
            None::<R>,
        ) == Some(movie_clip_handlers::MovieClipQueryCommand::<R, D>::OrderByCreateDateRange { start, end }),
{
    reveal_strlit("like");
    reveal_strlit("create_date");
    assert("like"@.len() != "create_date"@.len());
}

/// Law: every video listing that the client asks for is answered by the
/// server with the listing meant: the sort names "like" and "date" are read
/// back as the sort types meant, and a listing of `length` videos, with or
/// without a reference, is a supported combination.
pub proof fn lemma_client_video_queries_are_answered<V>(length: usize, reference: Option<V>)
    ensures
        video_handlers::parse_sort_type("like"@) == Ok::<video_handlers::SortType, crate::handlers::SortTypeParseError>(video_handlers::SortType::Like),
        video_handlers::parse_sort_type("date"@) == Ok::<video_handlers::SortType, crate::handlers::SortTypeParseError>(video_handlers::SortType::Date),
        video_handlers::video_command_spec(video_handlers::SortType::Like, Some(length), reference) == Some(match reference {
            Some(r) => video_handlers::VideoQueryCommand::<V>::OrderByLikeLater { reference: r, length },
            None => video_handlers::VideoQueryCommand::<V>::OrderByLike { length },
        }),
        video_handlers::video_command_spec(video_handlers::SortType::Date, Some(length), reference) == Some(match reference {
            Some(r) => video_handlers::VideoQueryCommand::<V>::OrderByDateLater { reference: r, length },
            None => video_handlers::VideoQueryCommand::<V>::OrderByDate { length },
        }),
{
    reveal_strlit("like");
    reveal_strlit("date");
    assert("like"@[0] != "date"@[0]);
}

/// Law: the episode listing that the client asks for ("date" between two
/// dates) is answered by the server with that range.
pub proof fn lemma_client_episode_queries_are_answered<D>(start: D, end: D)
    ensures
        episode_handlers::parse_sort_type("date"@) == Ok::<episode_handlers::SortType, crate::handlers::SortTypeParseError>(episode_handlers::SortType::Date),
        episode_handlers::episode_command_spec(
            episode_handlers::EpisodeQuery::<D> { start: Some(start), end: Some(end), sort_type: episode_handlers::SortType::Date },
        ) == Some(episode_handlers::OrderByDateRangeEpisodeCommand { start, end }),
{
}

/// Law: an error is answered with a client-error status (4xx) exactly when
/// the request itself could not be read (its JSON body, query string or
/// path); every other error is answered with 500. In particular a query
/// refused as an unsupported combination is a bad request (400).
pub proof fn lemma_error_status_classes(e: AppCommonError)
    ensures
        (400 <= status_of(e) < 500) <==> (e is JsonRejectionError || e is QueryStringRejectionError || e is PathRejectionError),
        !(400 <= status_of(e) < 500) ==> status_of(e) == 500,
        is_invalid_combination(e) ==> status_of(e) == 400,
{
}

} // verus!
