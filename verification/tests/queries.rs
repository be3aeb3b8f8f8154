use orikou_app::common_error::AppCommonError;
use orikou_app::handlers::episode_handlers::{
    self, get_episodes_with_query, EpisodeQuery, OrderByDateRangeEpisodeCommand,
};
use orikou_app::handlers::kirinuki_handlers::{get_kirinukis_with_query, KirinukiQuery};
use orikou_app::handlers::movie_clip_handlers::{
    self, get_movie_clips_with_query, MovieClipQuery, MovieClipQueryCommand,
};
use orikou_app::handlers::original_handlers::{get_originals_with_query, OriginalQuery};
use orikou_app::handlers::video_handlers::{self, get_videos_with_query, VideoQuery, VideoQueryCommand};
use orikou_app::handlers::{query_reference, reference_after_rejection, SortTypeParseError};
use orikou_app::query_info::QueryInfo;

use axum::extract::rejection::{JsonRejection, MissingJsonContentType, QueryRejection};
use axum::extract::{FromRequest, Json, Query};
use std::collections::HashMap;
use orikou_app::frontend::commands::OrderByLikeMovieClipsCommand;
use orikou_app::frontend::requests::order_by_like_movie_clips_request;
use episode_handlers::SortType as EpisodeSort;
use movie_clip_handlers::SortType as ClipSort;
use video_handlers::SortType as VideoSort;

fn invalid() -> AppCommonError {
    AppCommonError::QueryStringRejectionError("Invalid query parameter combination.".to_string())
}

fn missing_json() -> Result<QueryInfo<String>, JsonRejection> {
    Err(JsonRejection::from(MissingJsonContentType::default()))
}

fn broken_json<T>() -> Result<QueryInfo<T>, JsonRejection> {
    let runtime = tokio::runtime::Builder::new_current_thread().build().unwrap();
    let rejection = runtime.block_on(async {
        let request = axum::http::Request::builder()
            .header("content-type", "application/json")
            .body(axum::body::Body::from("{\"reference\":"))
            .unwrap();
        match Json::<HashMap<String, String>>::from_request(request, &()).await {
            Ok(_) => panic!("a broken body was accepted"),
            Err(e) => e,
        }
    });
    Err(rejection)
}

fn query_rejection() -> QueryRejection {
    let uri: axum::http::Uri = "http://localhost/q?length=-1".parse().unwrap();
    match Query::<HashMap<String, usize>>::try_from_uri(&uri) {
        Ok(_) => panic!("a negative length was accepted"),
        Err(e) => e,
    }
}

fn clip_query(
    sort_type: movie_clip_handlers::SortType,
    length: Option<usize>,
    start: Option<u32>,
    end: Option<u32>,
) -> Result<MovieClipQuery<u32>, QueryRejection> {
    Ok(MovieClipQuery { sort_type, length, start, end })
}

fn with_reference(r: &str) -> Result<QueryInfo<String>, JsonRejection> {
    Ok(QueryInfo { reference: Some(r.to_string()) })
}

fn without_reference() -> Result<QueryInfo<String>, JsonRejection> {
    Ok(QueryInfo { reference: None })
}

#[test]
fn sort_types_parse_from_snake_case() {
    assert_eq!(ClipSort::try_from("like".to_string()), Ok(ClipSort::Like));
    assert_eq!(ClipSort::try_from("create_date".to_string()), Ok(ClipSort::CreateDate));
    assert_eq!(ClipSort::try_from("CreateDate".to_string()), Err(SortTypeParseError::VariantNotFound));
    assert_eq!(ClipSort::try_from("date".to_string()), Err(SortTypeParseError::VariantNotFound));
    assert_eq!(VideoSort::try_from("like".to_string()), Ok(VideoSort::Like));
    assert_eq!(VideoSort::try_from("date".to_string()), Ok(VideoSort::Date));
    assert_eq!(VideoSort::try_from("create_date".to_string()), Err(SortTypeParseError::VariantNotFound));
    assert_eq!(VideoSort::try_from("".to_string()), Err(SortTypeParseError::VariantNotFound));
    assert_eq!(
        episode_handlers::SortType::try_from("date".to_string()),
        Ok(episode_handlers::SortType::Date)
    );
    assert_eq!(
        episode_handlers::SortType::try_from("like".to_string()),
        Err(SortTypeParseError::VariantNotFound)
    );
}

#[test]
fn movie_clip_like_queries() {
    assert_eq!(
        get_movie_clips_with_query::<String, u32>(clip_query(ClipSort::Like, Some(100), None, None), without_reference()),
        Ok(MovieClipQueryCommand::OrderByLike { length: 100 })
    );
    assert_eq!(
        get_movie_clips_with_query(clip_query(ClipSort::Like, Some(100), None, None), missing_json()),
        Ok(MovieClipQueryCommand::OrderByLike { length: 100 })
    );
    assert_eq!(
        get_movie_clips_with_query(clip_query(ClipSort::Like, Some(100), None, None), with_reference("clip-7")),
        Ok(MovieClipQueryCommand::OrderByLikeLater { reference: "clip-7".to_string(), length: 100 })
    );
}

#[test]
fn movie_clip_create_date_queries() {
    assert_eq!(
        get_movie_clips_with_query(clip_query(ClipSort::CreateDate, Some(100), None, None), missing_json()),
        Ok(MovieClipQueryCommand::OrderByCreateDate { length: 100 })
    );
    assert_eq!(
        get_movie_clips_with_query(clip_query(ClipSort::CreateDate, Some(100), None, None), with_reference("c")),
        Ok(MovieClipQueryCommand::OrderByCreateDateLater { reference: "c".to_string(), length: 100 })
    );
    assert_eq!(
        get_movie_clips_with_query(clip_query(ClipSort::CreateDate, None, Some(20221119), Some(20221122)), missing_json()),
        Ok(MovieClipQueryCommand::OrderByCreateDateRange { start: 20221119, end: 20221122 })
    );
    // a date range ignores any reference
    assert_eq!(
        get_movie_clips_with_query(clip_query(ClipSort::CreateDate, None, Some(1), Some(2)), with_reference("c")),
        Ok(MovieClipQueryCommand::OrderByCreateDateRange { start: 1, end: 2 })
    );
}

#[test]
fn movie_clip_invalid_combinations() {
    let cases = vec![
        clip_query(ClipSort::Like, None, None, None),
        clip_query(ClipSort::Like, None, Some(1), Some(2)),
        clip_query(ClipSort::Like, Some(3), Some(1), None),
        clip_query(ClipSort::CreateDate, Some(3), Some(1), Some(2)),
        clip_query(ClipSort::CreateDate, None, Some(1), None),
        clip_query(ClipSort::CreateDate, None, None, Some(2)),
        clip_query(ClipSort::CreateDate, None, None, None),
    ];
    for q in cases {
        let r = get_movie_clips_with_query(q, missing_json());
        assert_eq!(r, Err(invalid()));
        assert_eq!(r.unwrap_err().status_code(), 400);
    }
}

#[test]
fn movie_clip_rejections_come_first() {
    let r = get_movie_clips_with_query::<String, u32>(Err(query_rejection()), with_reference("c"));
    assert!(matches!(r, Err(AppCommonError::QueryStringRejectionError(ref t)) if t.starts_with("Failed to deserialize query string")));
    let r = get_movie_clips_with_query::<String, u32>(clip_query(ClipSort::Like, Some(1), None, None), broken_json());
    assert!(matches!(r, Err(AppCommonError::JsonRejectionError(_))));
    // a broken body is refused even when the query itself is invalid
    let r = get_movie_clips_with_query::<String, u32>(clip_query(ClipSort::Like, None, None, None), broken_json());
    assert!(matches!(r, Err(AppCommonError::JsonRejectionError(_))));
}

#[test]
fn video_queries() {
    let q = |sort_type, length| Ok(VideoQuery { sort_type, length });
    assert_eq!(
        get_videos_with_query(q(VideoSort::Like, Some(100)), missing_json()),
        Ok(VideoQueryCommand::OrderByLike { length: 100 })
    );
    assert_eq!(
        get_videos_with_query(q(VideoSort::Like, Some(100)), with_reference("v")),
        Ok(VideoQueryCommand::OrderByLikeLater { reference: "v".to_string(), length: 100 })
    );
    assert_eq!(
        get_videos_with_query(q(VideoSort::Date, Some(100)), without_reference()),
        Ok(VideoQueryCommand::OrderByDate { length: 100 })
    );
    assert_eq!(
        get_videos_with_query(q(VideoSort::Date, Some(100)), with_reference("v")),
        Ok(VideoQueryCommand::OrderByDateLater { reference: "v".to_string(), length: 100 })
    );
    assert_eq!(get_videos_with_query(q(VideoSort::Date, None), missing_json()), Err(invalid()));
    assert_eq!(get_videos_with_query(q(VideoSort::Like, None), with_reference("v")), Err(invalid()));
    let r = get_videos_with_query::<String>(Err(query_rejection()), missing_json());
    assert!(matches!(r, Err(AppCommonError::QueryStringRejectionError(_))));
    let r = get_videos_with_query::<String>(q(VideoSort::Like, Some(1)), broken_json());
    assert!(matches!(r, Err(AppCommonError::JsonRejectionError(_))));
}

#[test]
fn kirinuki_and_original_queries() {
    assert_eq!(
        get_kirinukis_with_query(Ok(KirinukiQuery { sort_type: VideoSort::Like, length: Some(10) }), with_reference("k")),
        Ok(VideoQueryCommand::OrderByLikeLater { reference: "k".to_string(), length: 10 })
    );
    assert_eq!(
        get_kirinukis_with_query(Ok(KirinukiQuery { sort_type: VideoSort::Date, length: None }), missing_json()),
        Err(invalid())
    );
    assert_eq!(
        get_originals_with_query(Ok(OriginalQuery { sort_type: VideoSort::Date, length: Some(10) }), missing_json()),
        Ok(VideoQueryCommand::OrderByDate { length: 10 })
    );
    let r = get_originals_with_query::<String>(Err(query_rejection()), missing_json());
    assert!(matches!(r, Err(AppCommonError::QueryStringRejectionError(_))));
}

#[test]
fn episode_queries() {
    let q = |start, end| Ok(EpisodeQuery { start, end, sort_type: EpisodeSort::Date });
    assert_eq!(
        get_episodes_with_query(q(Some("2022-11-19"), Some("2022-11-22"))),
        Ok(OrderByDateRangeEpisodeCommand { start: "2022-11-19", end: "2022-11-22" })
    );
    assert_eq!(get_episodes_with_query(q(Some("2022-11-19"), None)), Err(invalid()));
    assert_eq!(get_episodes_with_query::<&str>(q(None, None)), Err(invalid()));
    let r = get_episodes_with_query::<&str>(Err(query_rejection()));
    assert!(matches!(r, Err(AppCommonError::QueryStringRejectionError(_))));
}

#[test]
fn query_references() {
    assert_eq!(query_reference(with_reference("r")), Ok(Some("r".to_string())));
    assert_eq!(query_reference(without_reference()), Ok(None));
    assert_eq!(query_reference(missing_json()), Ok(None));
    assert!(matches!(query_reference::<String>(broken_json()), Err(AppCommonError::JsonRejectionError(_))));
    assert_eq!(reference_after_rejection::<u8>(true, AppCommonError::NoRecordError), Ok(None));
    assert_eq!(
        reference_after_rejection::<u8>(false, AppCommonError::NoRecordError),
        Err(AppCommonError::NoRecordError)
    );
}

#[test]
fn client_listing_request_is_answered_by_the_server() {
    let request = order_by_like_movie_clips_request("http://h/api", &OrderByLikeMovieClipsCommand::new(25));
    let query = request.url.split_once('?').unwrap().1;
    let params: HashMap<&str, &str> = query.split('&').map(|kv| kv.split_once('=').unwrap()).collect();
    let sort_type = ClipSort::try_from(params["sort_type"].to_string()).unwrap();
    let length: usize = params["length"].parse().unwrap();
    assert_eq!(
        get_movie_clips_with_query::<String, u32>(clip_query(sort_type, Some(length), None, None), missing_json()),
        Ok(MovieClipQueryCommand::OrderByLike { length: 25 })
    );
}
