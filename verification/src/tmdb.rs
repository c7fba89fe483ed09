//! TMDB answers turned into the records of this library. The requests themselves
//! are made by the application; these functions take what came back as plain values.
use vstd::prelude::*;
use crate::models::{EpisodeResult, MovieSearchResult, TvSearchResult, TvSeasonResult};
use crate::text::owned;

verus! {

/// A year as shown, or the placeholder when the date is unknown.
pub open spec fn year_or(year: Option<String>, placeholder: Seq<char>) -> Seq<char> {
    match year {
        Some(y) => y@,
        None => placeholder,
    }
}

fn year_text(year: Option<String>, placeholder: &str) -> (r: String)
    ensures
        r@ == year_or(year, placeholder@),
{
    match year {
        Some(y) => y,
        None => owned(placeholder),
    }
}

/// A movie search result: the release year, or "..." when there is no release
/// date; the original language is always given.
pub fn movie_search_result(
    title: String,
    release_year: Option<String>,
    tmdb_id: u64,
    original_language: String,
) -> (r: MovieSearchResult)
    ensures
        r.title == title,
        r.year@ == year_or(release_year, "..."@),
        r.tmdb_id == tmdb_id,
        r.original_language == Some(original_language),
{
    MovieSearchResult {
        title,
        year: year_text(release_year, "..."),
        tmdb_id,
        original_language: Some(original_language),
    }
}

/// A season of a show's details. Its year and id are not part of the answer used,
/// so they are left empty and zero.
pub fn tv_season_result(name: String, season_number: u32, episode_count: u32) -> (r: TvSeasonResult)
    ensures
        r.name == name,
        r.season_number == season_number,
        r.episode_count == episode_count,
        r.year@ == Seq::<char>::empty(),
        r.tmdb_id == 0,
{
    TvSeasonResult { name, season_number, episode_count, year: String::new(), tmdb_id: 0 }
}

/// A show from its details: first and last air years, or "..." when unknown. The
/// episode total is not part of the answer used, so it is zero.
pub fn tv_search_result(
    name: String,
    first_year: Option<String>,
    last_year: Option<String>,
    tmdb_id: u64,
    seasons: Vec<TvSeasonResult>,
) -> (r: TvSearchResult)
    ensures
        r.name == name,
        r.first_year@ == year_or(first_year, "..."@),
        r.last_year@ == year_or(last_year, "..."@),
        r.tmdb_id == tmdb_id,
        r.seasons@ == seasons@,
        r.episodes == 0,
{
    TvSearchResult {
        name,
        first_year: year_text(first_year, "..."),
        last_year: year_text(last_year, "..."),
        tmdb_id,
        seasons,
        episodes: 0,
    }
}

/// An episode of a season: the air year, or "N/A" when unknown. Its overview and
/// id are not part of the answer used, so they are left empty and zero.
pub fn episode_result(name: String, episode_number: u32, air_year: Option<String>) -> (r:
    EpisodeResult)
    ensures
        r.name == name,
        r.episode_number == episode_number,
        r.air_date@ == year_or(air_year, "N/A"@),
        r.overview@ == Seq::<char>::empty(),
        r.tmdb_id == 0,
{
    EpisodeResult {
        name,
        episode_number,
        air_date: year_text(air_year, "N/A"),
        overview: String::new(),
        tmdb_id: 0,
    }
}

} // verus!
