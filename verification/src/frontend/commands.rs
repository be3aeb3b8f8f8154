use vstd::prelude::*;

verus! {

/// Ask for every episode.
pub struct AllEpisodesCommand;

/// Ask for every movie clip.
pub struct AllMovieClipsCommand;

/// Ask for the `length` movie clips with the most likes.
pub struct OrderByLikeMovieClipsCommand {
    pub length: usize,
}

/// Ask for the `length` movie clips that follow `reference` in order of likes.
pub struct OrderByLikeLaterMovieClipsCommand<'a, M> {
    pub reference: &'a M,
    pub length: usize,
}

/// Ask for the `length` newest movie clips.
pub struct OrderByCreateDateMovieClipsCommand {
    pub length: usize,
}

/// Ask for the `length` movie clips that follow `reference` in order of
/// creation date.
pub struct OrderByCreateDateLaterMovieClipsCommand<'a, M> {
    pub reference: &'a M,
    pub length: usize,
}

/// Ask for every video of one kind.
pub struct AllVideosCommand;

/// Ask for the `length` videos with the most likes.
pub struct OrderByLikeVideosCommand {
    pub length: usize,
}

/// Ask for the `length` videos that follow `reference` in order of likes.
pub struct OrderByLikeLaterVideosCommand<'a, V> {
    pub reference: &'a V,
    pub length: usize,
}

/// Ask for the `length` newest videos.
pub struct OrderByDateVideosCommand {
    pub length: usize,
}

/// Ask for the `length` videos that follow `reference` in order of date.
pub struct OrderByDateLaterVideosCommand<'a, V> {
    pub reference: &'a V,
    pub length: usize,
}

impl OrderByLikeMovieClipsCommand {
    pub fn new(length: usize) -> (c: Self)
        ensures
            c.length == length,
    {
        OrderByLikeMovieClipsCommand { length }
    }
}

impl<'a, M> OrderByLikeLaterMovieClipsCommand<'a, M> {
    pub fn new(reference: &'a M, length: usize) -> (c: Self)
        ensures
            c.reference == reference,
            c.length == length,
    {
        OrderByLikeLaterMovieClipsCommand { reference, length }
    }
}

impl OrderByCreateDateMovieClipsCommand {
    pub fn new(length: usize) -> (c: Self)
        ensures
            c.length == length,
    {
        OrderByCreateDateMovieClipsCommand { length }
    }
}

impl<'a, M> OrderByCreateDateLaterMovieClipsCommand<'a, M> {
    pub fn new(reference: &'a M, length: usize) -> (c: Self)
        ensures
            c.reference == reference,
            c.length == length,
    {
        OrderByCreateDateLaterMovieClipsCommand { reference, length }
    }
}

impl AllVideosCommand {
    pub fn new() -> (c: Self) {
        AllVideosCommand
    }
}

impl OrderByLikeVideosCommand {
    pub fn new(length: usize) -> (c: Self)
        ensures
            c.length == length,
    {
        OrderByLikeVideosCommand { length }
    }
}

impl<'a, V> OrderByLikeLaterVideosCommand<'a, V> {
    pub fn new(reference: &'a V, length: usize) -> (c: Self)
        ensures
            c.reference == reference,
            c.length == length,
    {
        OrderByLikeLaterVideosCommand { reference, length }
    }
}

impl OrderByDateVideosCommand {
    pub fn new(length: usize) -> (c: Self)
        ensures
            c.length == length,
    {
        OrderByDateVideosCommand { length }
    }
}

impl<'a, V> OrderByDateLaterVideosCommand<'a, V> {
    pub fn new(reference: &'a V, length: usize) -> (c: Self)
        ensures
            c.reference == reference,
            c.length == length,
    {
        OrderByDateLaterVideosCommand { reference, length }
    }
}

/// Save `episode`.
pub struct SaveEpisodeCommand<'a, E> {
    pub episode: &'a E,
}

impl<'a, E> SaveEpisodeCommand<'a, E> {
    pub fn new(episode: &'a E) -> (c: Self)
        ensures
            c.episode == episode,
    {
        SaveEpisodeCommand { episode }
    }
}

/// Replace the stored episode with the same id by `episode`.
pub struct EditEpisodeCommand<'a, E> {
    pub episode: &'a E,
}

impl<'a, E> EditEpisodeCommand<'a, E> {
    pub fn new(episode: &'a E) -> (c: Self)
        ensures
            c.episode == episode,
    {
        EditEpisodeCommand { episode }
    }
}

/// Remove the episode with id `id`.
pub struct RemoveEpisodeCommand<I> {
    pub id: I,
}

impl<I> RemoveEpisodeCommand<I> {
    pub fn new(id: I) -> (c: Self)
        ensures
            c.id == id,
    {
        RemoveEpisodeCommand { id }
    }
}

/// Save `movie_clip`.
pub struct SaveMovieClipCommand<'a, M> {
    pub movie_clip: &'a M,
}

impl<'a, M> SaveMovieClipCommand<'a, M> {
    pub fn new(movie_clip: &'a M) -> (c: Self)
        ensures
            c.movie_clip == movie_clip,
    {
        SaveMovieClipCommand { movie_clip }
    }
}

/// Replace the stored movie clip with the same id by `movie_clip`.
pub struct EditMovieClipCommand<'a, M> {
    pub movie_clip: &'a M,
}

impl<'a, M> EditMovieClipCommand<'a, M> {
    pub fn new(movie_clip: &'a M) -> (c: Self)
        ensures
            c.movie_clip == movie_clip,
    {
        EditMovieClipCommand { movie_clip }
    }
}

/// Add a like to the movie clip with id `id`.
pub struct IncrementLikeMovieClipCommand<I> {
    pub id: I,
}

impl<I> IncrementLikeMovieClipCommand<I> {
    pub fn new(id: I) -> (c: Self)
        ensures
            c.id == id,
    {
        IncrementLikeMovieClipCommand { id }
    }
}

/// Remove the movie clip with id `id`.
pub struct RemoveMovieClipCommand<I> {
    pub id: I,
}

impl<I> RemoveMovieClipCommand<I> {
    pub fn new(id: I) -> (c: Self)
        ensures
            c.id == id,
    {
        RemoveMovieClipCommand { id }
    }
}

/// Save `video`.
pub struct SaveVideoCommand<'a, V> {
    pub video: &'a V,
}

impl<'a, V> SaveVideoCommand<'a, V> {
    pub fn new(video: &'a V) -> (c: Self)
        ensures
            c.video == video,
    {
        SaveVideoCommand { video }
    }
}

/// Replace the stored video with the same id by `video`.
pub struct EditVideoCommand<'a, V> {
    pub video: &'a V,
}

impl<'a, V> EditVideoCommand<'a, V> {
    pub fn new(video: &'a V) -> (c: Self)
        ensures
            c.video == video,
    {
        EditVideoCommand { video }
    }
}

/// Add a like to the video with id `id`.
pub struct IncrementLikeVideoCommand<I> {
    pub id: I,
}

impl<I> IncrementLikeVideoCommand<I> {
    pub fn new(id: I) -> (c: Self)
        ensures
            c.id == id,
    {
        IncrementLikeVideoCommand { id }
    }
}

/// Remove the video with id `id`.
pub struct RemoveVideoCommand<I> {
    pub id: I,
}

impl<I> RemoveVideoCommand<I> {
    pub fn new(id: I) -> (c: Self)
        ensures
            c.id == id,
    {
        RemoveVideoCommand { id }
    }
}

/// Ask for the episodes dated between `start` and `end`.
pub struct OrderByDateRangeEpisodesCommand<D> {
    pub start: D,
    pub end: D,
}

impl<D> OrderByDateRangeEpisodesCommand<D> {
    pub fn new(start: D, end: D) -> (c: Self)
        ensures
            c.start == start,
            c.end == end,
    {
        OrderByDateRangeEpisodesCommand { start, end }
    }
}

/// Ask for the movie clips created between `start` and `end`.
pub struct OrderByCreateDateRangeMovieClipsCommand<D> {
    pub start: D,
    pub end: D,
}

impl<D> OrderByCreateDateRangeMovieClipsCommand<D> {
    pub fn new(start: D, end: D) -> (c: Self)
        ensures
            c.start == start,
            c.end == end,
    {
        OrderByCreateDateRangeMovieClipsCommand { start, end }
    }
}

} // verus!
