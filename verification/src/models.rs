//! The records that the renaming works with. Paths are held as Unix path text.
use vstd::prelude::*;

verus! {

/// A movie as found on TMDB.
#[derive(Debug, Clone)]
pub struct Movie {
    pub title: String,
    pub year: String,
    pub tmdb_id: u64,
}

/// A file with the place it is to be moved to, and whether the move was approved.
#[derive(Debug, Clone)]
pub struct ProcessedFile {
    pub src: String,
    pub dst: String,
    pub approved: bool,
}

/// A processed file together with the movie it was matched to.
#[derive(Debug, Clone)]
pub struct ProcessedMovieFile {
    pub inner: ProcessedFile,
    pub movie: Movie,
}

/// A season of a TV show.
#[derive(Debug, Clone)]
pub struct TVSeason {
    pub name: String,
    pub season_number: u32,
    pub episode_count: u32,
    pub year: String,
    pub tmdb_id: u64,
}

/// The database a show was looked up in.
#[derive(Debug, Clone, Copy, PartialEq, Eq, Structural)]
pub enum LookupSource {
    Tmdb,
    Tvdb,
}

/// The name a lookup database goes by in destination paths.
pub open spec fn source_name(s: LookupSource) -> Seq<char> {
    match s {
        LookupSource::Tmdb => "tmdbid"@,
        LookupSource::Tvdb => "tvdbid"@,
    }
}

impl LookupSource {
    /// The name the database goes by in destination paths: "tmdbid" or "tvdbid".
    pub fn name(&self) -> (r: String)
        ensures
            r@ == source_name(*self),
    {
        match self {
            LookupSource::Tmdb => crate::text::owned("tmdbid"),
            LookupSource::Tvdb => crate::text::owned("tvdbid"),
        }
    }
}

/// Where a show's lookups go: TVDB when a TVDB series id is given, else TMDB
/// with the show's TMDB id.
pub fn lookup_source(tvdb_id: Option<u64>, tmdb_id: u64) -> (r: (LookupSource, u64))
    ensures
        r == match tvdb_id {
            Some(id) => (LookupSource::Tvdb, id),
            None => (LookupSource::Tmdb, tmdb_id),
        },
{
    match tvdb_id {
        Some(id) => (LookupSource::Tvdb, id),
        None => (LookupSource::Tmdb, tmdb_id),
    }
}

/// A TV show with its seasons, and the database and id it was looked up by.
#[derive(Debug, Clone)]
pub struct TVShow {
    pub name: String,
    pub seasons: Vec<TVSeason>,
    pub episodes: u32,
    pub tmdb_id: u64,
    pub first_year: String,
    pub last_year: String,
    pub source: LookupSource,
    pub source_id: u64,
}

/// An episode of a TV show.
#[derive(Debug, Clone)]
pub struct TVEpisode {
    pub name: String,
    pub episode_number: u32,
    pub air_date: String,
    pub overview: String,
    pub tmdb_id: u64,
}

/// A processed file together with the show it was matched to.
#[derive(Debug, Clone)]
pub struct ProcessedTvFile {
    pub inner: ProcessedFile,
    pub show: TVShow,
}

/// What is read from an MKV file: its title, and the size of its first video track.
#[derive(Debug, Clone)]
pub struct MkvMetadata {
    pub title: Option<String>,
    pub resolution: Option<(u64, u64)>,
}

/// A movie in TMDB's search results.
#[derive(Debug, Clone)]
pub struct MovieSearchResult {
    pub title: String,
    pub year: String,
    pub tmdb_id: u64,
    pub original_language: Option<String>,
}

/// A TV show in TMDB's search results.
#[derive(Debug, Clone)]
pub struct TvSearchResult {
    pub name: String,
    pub first_year: String,
    pub last_year: String,
    pub tmdb_id: u64,
    pub seasons: Vec<TvSeasonResult>,
    pub episodes: u32,
}

/// A season of a TV show in TMDB's results.
#[derive(Debug, Clone)]
pub struct TvSeasonResult {
    pub name: String,
    pub season_number: u32,
    pub episode_count: u32,
    pub year: String,
    pub tmdb_id: u64,
}

/// An episode in TMDB's results.
#[derive(Debug, Clone)]
pub struct EpisodeResult {
    pub name: String,
    pub episode_number: u32,
    pub air_date: String,
    pub overview: String,
    pub tmdb_id: u64,
}

/// What search results are narrowed to.
#[derive(Debug, Clone)]
pub struct Filters {
    pub lang: Option<String>,
}

} // verus!
