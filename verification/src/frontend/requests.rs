use vstd::prelude::*;
use vstd::string::*;
use crate::config::Config;
use crate::decimal::{decimal, is_digit, lemma_decimal_reads_back, push_decimal, read_decimal};
use crate::frontend::commands::{AllEpisodesCommand, AllMovieClipsCommand, AllVideosCommand, OrderByCreateDateLaterMovieClipsCommand, OrderByCreateDateMovieClipsCommand, OrderByDateLaterVideosCommand, OrderByDateVideosCommand, OrderByLikeLaterMovieClipsCommand, OrderByLikeLaterVideosCommand, OrderByLikeMovieClipsCommand, OrderByLikeVideosCommand};
use crate::query_info::QueryInfoRef;

verus! {

/// The HTTP method of a request.
#[derive(Debug, Clone, Copy, PartialEq, Eq)]
pub enum HttpMethod {
    Get,
    Put,
    Patch,
    Post,
    Delete,
}

/// What a request carries as its JSON body.
#[derive(Debug, Clone, Copy, PartialEq, Eq)]
pub enum RequestBody {
    /// No body.
    Empty,
    /// The item that the command holds (to save or to edit).
    Item,
    /// The `QueryInfoRef` that comes with the request.
    QueryInfo,
}

/// A request to the API, ready to be sent.
#[derive(Debug, Clone, PartialEq, Eq)]
pub struct ApiRequest {
    pub method: HttpMethod,
    pub url: String,
    pub body: RequestBody,
}

/// The query string of a listing of `length` items in the order `sort`.
pub open spec fn listing_query(sort: Seq<char>, length: nat) -> Seq<char> {
    "?sort_type="@ + sort + "&length="@ + decimal(length)
}

/// The query string of a listing in the order `sort` between `start` and `end`.
pub open spec fn range_query(sort: Seq<char>, start: Seq<char>, end: Seq<char>) -> Seq<char> {
    "?sort_type="@ + sort + "&start="@ + start + "&end="@ + end
}

/// Law: a range query carries all three parameters, each exactly as given and
/// in its place, for every sort, start and end (start equal to end too): it
/// reads `?sort_type=`, the sort, `&start=`, the start, `&end=`, the end, and
/// nothing else.
pub proof fn lemma_range_query_carries_both_dates(sort: Seq<char>, start: Seq<char>, end: Seq<char>)
    ensures
        ({
            let q = range_query(sort, start, end);
            let a: int = 11 + sort.len() as int;
            let b: int = a + 7 + start.len() as int;
            &&& q.len() == b + 5 + end.len()
            &&& q.subrange(0, 11) == "?sort_type="@
            &&& q.subrange(11, a) == sort
            &&& q.subrange(a, a + 7) == "&start="@
            &&& q.subrange(a + 7, b) == start
            &&& q.subrange(b, b + 5) == "&end="@
            &&& q.subrange(b + 5, q.len() as int) == end
        }),
{
    reveal_strlit("?sort_type=");
    reveal_strlit("&start=");
    reveal_strlit("&end=");
    let q = range_query(sort, start, end);
    let a: int = 11 + sort.len() as int;
    let b: int = a + 7 + start.len() as int;
    assert(q.subrange(0, 11) =~= "?sort_type="@);
    assert(q.subrange(11, a) =~= sort);
    assert(q.subrange(a, a + 7) =~= "&start="@);
    assert(q.subrange(a + 7, b) =~= start);
    assert(q.subrange(b, b + 5) =~= "&end="@);
    assert(q.subrange(b + 5, q.len() as int) =~= end);
}

/// Law: a listing query carries the sort as given and the length as its
/// base-10 text: it reads `?sort_type=`, the sort, `&length=`, then digits
/// that read back as the length.
pub proof fn lemma_listing_query_carries_length(sort: Seq<char>, length: nat)
    ensures
        ({
            let q = listing_query(sort, length);
            let a: int = 11 + sort.len() as int;
            &&& q.subrange(0, 11) == "?sort_type="@
            &&& q.subrange(11, a) == sort
            &&& q.subrange(a, a + 8) == "&length="@
            &&& read_decimal(q.subrange(a + 8, q.len() as int)) == length
            &&& forall|i: int| a + 8 <= i < q.len() ==> is_digit(#[trigger] q[i])
        }),
{
    reveal_strlit("?sort_type=");
    reveal_strlit("&length=");
    lemma_decimal_reads_back(length);
    let q = listing_query(sort, length);
    let a: int = 11 + sort.len() as int;
    assert(q.subrange(0, 11) =~= "?sort_type="@);
    assert(q.subrange(11, a) =~= sort);
    assert(q.subrange(a, a + 8) =~= "&length="@);
    assert(q.subrange(a + 8, q.len() as int) =~= decimal(length));
    assert forall|i: int| a + 8 <= i < q.len() implies is_digit(#[trigger] q[i]) by {
        assert(q[i] == decimal(length)[i - (a + 8)]);
    }
}

/// The API root that the client talks to: the test server's in test builds,
/// otherwise the API path under the page's origin.
pub fn api_base_url(test_api: bool, origin: &str) -> (url: String)
    ensures
        test_api ==> url@ == "http://127.0.0.1:8000/api"@,
        !test_api ==> url@ == origin@ + "/api"@,
{
    let config = Config::default();
    if test_api {
        String::from_str(config.test_api_domain)
    } else {
        String::from_str(origin).concat(config.api_domain)
    }
}

fn url_of(base: &str, path: &str) -> (url: String)
    ensures
        url@ == base@ + path@,
{
    String::from_str(base).concat(path)
}

fn url_with_id(base: &str, path: &str, id: &str) -> (url: String)
    ensures
        url@ == base@ + path@ + id@,
{
    String::from_str(base).concat(path).concat(id)
}

fn listing_url(base: &str, path: &str, sort: &str, length: usize) -> (url: String)
    ensures
        url@ == base@ + path@ + listing_query(sort@, length as nat),
{
    let mut url = String::from_str(base).concat(path).concat("?sort_type=").concat(sort).concat("&length=");
    push_decimal(&mut url, length);
    proof {
        assert(url@ =~= base@ + path@ + listing_query(sort@, length as nat));
    }
    url
}

fn range_url(base: &str, path: &str, sort: &str, start: &str, end: &str) -> (url: String)
    ensures
        url@ == base@ + path@ + range_query(sort@, start@, end@),
{
    let url = String::from_str(base).concat(path).concat("?sort_type=").concat(sort).concat("&start=").concat(start).concat("&end=").concat(end);
    proof {
        assert(url@ =~= base@ + path@ + range_query(sort@, start@, end@));
    }
    url
}

fn request(method: HttpMethod, url: String, body: RequestBody) -> (r: ApiRequest)
    ensures
        r.method == method,
        r.url == url,
        r.body == body,
{
    ApiRequest { method, url, body }
}

// ------------------------------------------------------------------------------------------------
// Episodes

/// Save an episode: `PUT {url}/episode` with the episode as body.
pub fn save_episode_request(url: &str) -> (r: ApiRequest)
    ensures
        r.method == HttpMethod::Put,
        r.url@ == url@ + "/episode"@,
        r.body == RequestBody::Item,
{
    request(HttpMethod::Put, url_of(url, "/episode"), RequestBody::Item)
}

/// Edit an episode: `PATCH {url}/episode` with the episode as body.
pub fn edit_episode_request(url: &str) -> (r: ApiRequest)
    ensures
        r.method == HttpMethod::Patch,
        r.url@ == url@ + "/episode"@,
        r.body == RequestBody::Item,
{
    request(HttpMethod::Patch, url_of(url, "/episode"), RequestBody::Item)
}

/// List every episode: `GET {url}/episode`.
pub fn all_episodes_request(url: &str, _cmd: &AllEpisodesCommand) -> (r: ApiRequest)
    ensures
        r.method == HttpMethod::Get,
        r.url@ == url@ + "/episode"@,
        r.body == RequestBody::Empty,
{
    request(HttpMethod::Get, url_of(url, "/episode"), RequestBody::Empty)
}

/// List the episodes between two dates, given as they display:
/// `GET {url}/episode/query?sort_type=date&start={start}&end={end}`.
pub fn order_by_date_range_episodes_request(url: &str, start: &str, end: &str) -> (r: ApiRequest)
    ensures
        r.method == HttpMethod::Get,
        r.url@ == url@ + "/episode/query"@ + range_query("date"@, start@, end@),
        r.body == RequestBody::Empty,
{
    request(HttpMethod::Get, range_url(url, "/episode/query", "date", start, end), RequestBody::Empty)
}

/// Remove the episode with the given id, as it displays: `DELETE {url}/episode/{id}`.
pub fn remove_episode_request(url: &str, id: &str) -> (r: ApiRequest)
    ensures
        r.method == HttpMethod::Delete,
        r.url@ == url@ + "/episode/"@ + id@,
        r.body == RequestBody::Empty,
{
    request(HttpMethod::Delete, url_with_id(url, "/episode/", id), RequestBody::Empty)
}

// ------------------------------------------------------------------------------------------------
// Movie clips

/// Save a movie clip: `PUT {url}/movie_clip` with the clip as body.
pub fn save_movie_clip_request(url: &str) -> (r: ApiRequest)
    ensures
        r.method == HttpMethod::Put,
        r.url@ == url@ + "/movie_clip"@,
        r.body == RequestBody::Item,
{
    request(HttpMethod::Put, url_of(url, "/movie_clip"), RequestBody::Item)
}

/// Edit a movie clip: `PATCH {url}/movie_clip` with the clip as body.
pub fn edit_movie_clip_request(url: &str) -> (r: ApiRequest)
    ensures
        r.method == HttpMethod::Patch,
        r.url@ == url@ + "/movie_clip"@,
        r.body == RequestBody::Item,
{
    request(HttpMethod::Patch, url_of(url, "/movie_clip"), RequestBody::Item)
}

/// Add a like to the movie clip with the given id:
/// `PATCH {url}/movie_clip/increment_like/{id}`.
pub fn increment_like_movie_clip_request(url: &str, id: &str) -> (r: ApiRequest)
    ensures
        r.method == HttpMethod::Patch,
        r.url@ == url@ + "/movie_clip/increment_like/"@ + id@,
        r.body == RequestBody::Empty,
{
    request(HttpMethod::Patch, url_with_id(url, "/movie_clip/increment_like/", id), RequestBody::Empty)
}

/// List every movie clip: `GET {url}/movie_clip`.
pub fn all_movie_clips_request(url: &str, _cmd: &AllMovieClipsCommand) -> (r: ApiRequest)
    ensures
        r.method == HttpMethod::Get,
        r.url@ == url@ + "/movie_clip"@,
        r.body == RequestBody::Empty,
{
    request(HttpMethod::Get, url_of(url, "/movie_clip"), RequestBody::Empty)
}

/// List the most liked movie clips:
/// `GET {url}/movie_clip/query?sort_type=like&length={length}`.
pub fn order_by_like_movie_clips_request(url: &str, cmd: &OrderByLikeMovieClipsCommand) -> (r: ApiRequest)
    ensures
        r.method == HttpMethod::Get,
        r.url@ == url@ + "/movie_clip/query"@ + listing_query("like"@, cmd.length as nat),
        r.body == RequestBody::Empty,
{
    request(HttpMethod::Get, listing_url(url, "/movie_clip/query", "like", cmd.length), RequestBody::Empty)
}

/// List the movie clips after a reference in order of likes:
/// `POST {url}/movie_clip/query?sort_type=like&length={length}` with a body
/// that names the reference.
pub fn order_by_like_later_movie_clips_request<'a, M>(url: &str, cmd: &OrderByLikeLaterMovieClipsCommand<'a, M>) -> (r: (ApiRequest, QueryInfoRef<'a, M>))
    ensures
        r.0.method == HttpMethod::Post,
        r.0.url@ == url@ + "/movie_clip/query"@ + listing_query("like"@, cmd.length as nat),
        r.0.body == RequestBody::QueryInfo,
        r.1.reference == Some(cmd.reference),
{
    (request(HttpMethod::Post, listing_url(url, "/movie_clip/query", "like", cmd.length), RequestBody::QueryInfo),
     QueryInfoRef::new(cmd.reference))
}

/// List the movie clips created between two dates, given as they display:
/// `GET {url}/movie_clip/query?sort_type=create_date&start={start}&end={end}`.
pub fn order_by_create_date_range_movie_clips_request(url: &str, start: &str, end: &str) -> (r: ApiRequest)
    ensures
        r.method == HttpMethod::Get,
        r.url@ == url@ + "/movie_clip/query"@ + range_query("create_date"@, start@, end@),
        r.body == RequestBody::Empty,
{
    request(HttpMethod::Get, range_url(url, "/movie_clip/query", "create_date", start, end), RequestBody::Empty)
}

/// List the newest movie clips:
/// `GET {url}/movie_clip/query?sort_type=create_date&length={length}`.
pub fn order_by_create_date_movie_clips_request(url: &str, cmd: &OrderByCreateDateMovieClipsCommand) -> (r: ApiRequest)
    ensures
        r.method == HttpMethod::Get,
        r.url@ == url@ + "/movie_clip/query"@ + listing_query("create_date"@, cmd.length as nat),
        r.body == RequestBody::Empty,
{
    request(HttpMethod::Get, listing_url(url, "/movie_clip/query", "create_date", cmd.length), RequestBody::Empty)
}

/// List the movie clips after a reference in order of creation date:
/// `POST {url}/movie_clip/query?sort_type=create_date&length={length}` with a
/// body that names the reference.
pub fn order_by_create_date_later_movie_clips_request<'a, M>(url: &str, cmd: &OrderByCreateDateLaterMovieClipsCommand<'a, M>) -> (r: (ApiRequest, QueryInfoRef<'a, M>))
    ensures
        r.0.method == HttpMethod::Post,
        r.0.url@ == url@ + "/movie_clip/query"@ + listing_query("create_date"@, cmd.length as nat),
        r.0.body == RequestBody::QueryInfo,
        r.1.reference == Some(cmd.reference),
{
    (request(HttpMethod::Post, listing_url(url, "/movie_clip/query", "create_date", cmd.length), RequestBody::QueryInfo),
     QueryInfoRef::new(cmd.reference))
}

/// Remove the movie clip with the given id: `DELETE {url}/movie_clip/{id}`.
pub fn remove_movie_clip_request(url: &str, id: &str) -> (r: ApiRequest)
    ensures
        r.method == HttpMethod::Delete,
        r.url@ == url@ + "/movie_clip/"@ + id@,
        r.body == RequestBody::Empty,
{
    request(HttpMethod::Delete, url_with_id(url, "/movie_clip/", id), RequestBody::Empty)
}

// ------------------------------------------------------------------------------------------------
// Videos; `kind` is the snake-case name of the video type ("original", "kirinuki").

fn video_path(kind: &str, rest: &str) -> (p: String)
    ensures
        p@ == "/"@ + kind@ + rest@,
{
    String::from_str("/").concat(kind).concat(rest)
}

/// Save a video: `PUT {url}/{kind}` with the video as body.
pub fn save_video_request(url: &str, kind: &str) -> (r: ApiRequest)
    ensures
        r.method == HttpMethod::Put,
        r.url@ == url@ + "/"@ + kind@,
        r.body == RequestBody::Item,
{
    let path = video_path(kind, "");
    let r = request(HttpMethod::Put, url_of(url, path.as_str()), RequestBody::Item);
    proof {
        reveal_strlit("");
        assert(r.url@ =~= url@ + "/"@ + kind@);
    }
    r
}

/// Edit a video: `PATCH {url}/{kind}` with the video as body.
pub fn edit_video_request(url: &str, kind: &str) -> (r: ApiRequest)
    ensures
        r.method == HttpMethod::Patch,
        r.url@ == url@ + "/"@ + kind@,
        r.body == RequestBody::Item,
{
    let path = video_path(kind, "");
    let r = request(HttpMethod::Patch, url_of(url, path.as_str()), RequestBody::Item);
    proof {
        reveal_strlit("");
        assert(r.url@ =~= url@ + "/"@ + kind@);
    }
    r
}

/// Add a like to the video with the given id:
/// `PATCH {url}/{kind}/increment_like/{id}`.
pub fn increment_like_video_request(url: &str, kind: &str, id: &str) -> (r: ApiRequest)
    ensures
        r.method == HttpMethod::Patch,
        r.url@ == url@ + "/"@ + kind@ + "/increment_like/"@ + id@,
        r.body == RequestBody::Empty,
{
    let path = video_path(kind, "/increment_like/");
    let r = request(HttpMethod::Patch, url_with_id(url, path.as_str(), id), RequestBody::Empty);
    proof { assert(r.url@ =~= url@ + "/"@ + kind@ + "/increment_like/"@ + id@); }
    r
}

/// List every video of a kind: `GET {url}/{kind}`.
pub fn all_videos_request(url: &str, kind: &str, _cmd: &AllVideosCommand) -> (r: ApiRequest)
    ensures
        r.method == HttpMethod::Get,
        r.url@ == url@ + "/"@ + kind@,
        r.body == RequestBody::Empty,
{
    let path = video_path(kind, "");
    let r = request(HttpMethod::Get, url_of(url, path.as_str()), RequestBody::Empty);
    proof {
        reveal_strlit("");
        assert(r.url@ =~= url@ + "/"@ + kind@);
    }
    r
}

/// List the most liked videos:
/// `GET {url}/{kind}/query?sort_type=like&length={length}`.
pub fn order_by_like_videos_request(url: &str, kind: &str, cmd: &OrderByLikeVideosCommand) -> (r: ApiRequest)
    ensures
        r.method == HttpMethod::Get,
        r.url@ == url@ + "/"@ + kind@ + "/query"@ + listing_query("like"@, cmd.length as nat),
        r.body == RequestBody::Empty,
{
    let path = video_path(kind, "/query");
    let r = request(HttpMethod::Get, listing_url(url, path.as_str(), "like", cmd.length), RequestBody::Empty);
    proof { assert(r.url@ =~= url@ + "/"@ + kind@ + "/query"@ + listing_query("like"@, cmd.length as nat)); }
    r
}

/// List the videos after a reference in order of likes:
/// `POST {url}/{kind}/query?sort_type=like&length={length}` with a body that
/// names the reference.
pub fn order_by_like_later_videos_request<'a, V>(url: &str, kind: &str, cmd: &OrderByLikeLaterVideosCommand<'a, V>) -> (r: (ApiRequest, QueryInfoRef<'a, V>))
    ensures
        r.0.method == HttpMethod::Post,
        r.0.url@ == url@ + "/"@ + kind@ + "/query"@ + listing_query("like"@, cmd.length as nat),
        r.0.body == RequestBody::QueryInfo,
        r.1.reference == Some(cmd.reference),
{
    let path = video_path(kind, "/query");
    let r = request(HttpMethod::Post, listing_url(url, path.as_str(), "like", cmd.length), RequestBody::QueryInfo);
    proof { assert(r.url@ =~= url@ + "/"@ + kind@ + "/query"@ + listing_query("like"@, cmd.length as nat)); }
    (r, QueryInfoRef::new(cmd.reference))
}

/// List the newest videos:
/// `GET {url}/{kind}/query?sort_type=date&length={length}`.
pub fn order_by_date_videos_request(url: &str, kind: &str, cmd: &OrderByDateVideosCommand) -> (r: ApiRequest)
    ensures
        r.method == HttpMethod::Get,
        r.url@ == url@ + "/"@ + kind@ + "/query"@ + listing_query("date"@, cmd.length as nat),
        r.body == RequestBody::Empty,
{
    let path = video_path(kind, "/query");
    let r = request(HttpMethod::Get, listing_url(url, path.as_str(), "date", cmd.length), RequestBody::Empty);
    proof { assert(r.url@ =~= url@ + "/"@ + kind@ + "/query"@ + listing_query("date"@, cmd.length as nat)); }
    r
}

/// List the videos after a reference in order of date:
/// `POST {url}/{kind}/query?sort_type=date&length={length}` with a body that
/// names the reference.
pub fn order_by_date_later_videos_request<'a, V>(url: &str, kind: &str, cmd: &OrderByDateLaterVideosCommand<'a, V>) -> (r: (ApiRequest, QueryInfoRef<'a, V>))
    ensures
        r.0.method == HttpMethod::Post,
        r.0.url@ == url@ + "/"@ + kind@ + "/query"@ + listing_query("date"@, cmd.length as nat),
        r.0.body == RequestBody::QueryInfo,
        r.1.reference == Some(cmd.reference),
{
    let path = video_path(kind, "/query");
    let r = request(HttpMethod::Post, listing_url(url, path.as_str(), "date", cmd.length), RequestBody::QueryInfo);
    proof { assert(r.url@ =~= url@ + "/"@ + kind@ + "/query"@ + listing_query("date"@, cmd.length as nat)); }
    (r, QueryInfoRef::new(cmd.reference))
}

/// Remove the video with the given id: `DELETE {url}/{kind}/{id}`.
pub fn remove_video_request(url: &str, kind: &str, id: &str) -> (r: ApiRequest)
    ensures
        r.method == HttpMethod::Delete,
        r.url@ == url@ + "/"@ + kind@ + "/"@ + id@,
        r.body == RequestBody::Empty,
{
    let path = video_path(kind, "/");
    let r = request(HttpMethod::Delete, url_with_id(url, path.as_str(), id), RequestBody::Empty);
    proof { assert(r.url@ =~= url@ + "/"@ + kind@ + "/"@ + id@); }
    r
}

} // verus!
