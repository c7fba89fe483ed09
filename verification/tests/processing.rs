use jellyname::cli::{DEFAULT_MOVIE_FORMAT, DEFAULT_TV_FORMAT};
use jellyname::format::join_path;
use jellyname::models::{lookup_source, Filters, LookupSource, Movie, MovieSearchResult, TVSeason, TVShow};
use jellyname::processor::{
    compute_episode_dst, compute_movie_dst, eq_ignore_ascii_case, filter_movie_results,
    tag_from_siblings, to_movie,
};

fn result(title: &str, lang: Option<&str>) -> MovieSearchResult {
    MovieSearchResult {
        title: title.to_string(),
        year: "2000".to_string(),
        tmdb_id: 1,
        original_language: lang.map(|l| l.to_string()),
    }
}

#[test]
fn filter_keeps_matching_language_in_order() {
    let rs = vec![result("a", Some("en")), result("b", Some("FR")), result("c", None), result("d", Some("EN"))];
    let f = Filters { lang: Some("En".to_string()) };
    let out = filter_movie_results(rs.clone(), &f);
    let titles: Vec<&str> = out.iter().map(|r| r.title.as_str()).collect();
    assert_eq!(titles, vec!["a", "d"]);
    let again = filter_movie_results(out.clone(), &f);
    assert_eq!(again.len(), out.len());
    let none = filter_movie_results(rs.clone(), &Filters { lang: None });
    assert_eq!(none.len(), 4);
}

#[test]
fn ascii_case_only() {
    assert!(eq_ignore_ascii_case("EN", "en"));
    assert!(!eq_ignore_ascii_case("É", "é"));
    assert!(!eq_ignore_ascii_case("en", "eng"));
}

#[test]
fn to_movie_copies_fields() {
    let r = MovieSearchResult { title: "Heat".into(), year: "1995".into(), tmdb_id: 949, original_language: None };
    let m = to_movie(&r);
    assert_eq!((m.title.as_str(), m.year.as_str(), m.tmdb_id), ("Heat", "1995", 949));
}

#[test]
fn movie_destination_with_default_format() {
    let m = Movie { title: "Heat".into(), year: "1995".into(), tmdb_id: 949 };
    assert_eq!(
        compute_movie_dst("/out", DEFAULT_MOVIE_FORMAT, &m, "", "mkv"),
        Ok("/out/Heat (1995) [tmdbid-949]/Heat (1995) [tmdbid-949].mkv".to_string())
    );
    assert_eq!(
        compute_movie_dst("/out/", "{title}{tag}.{ext}", &m, " - CD1", "mkv"),
        Ok("/out/Heat - CD1.mkv".to_string())
    );
    assert_eq!(compute_movie_dst("/out", "/abs/{title}", &m, "", "mkv"), Ok("/abs/Heat".to_string()));
}

#[test]
fn movie_destination_errors() {
    let m = Movie { title: "Heat".into(), year: "1995".into(), tmdb_id: 949 };
    assert_eq!(
        compute_movie_dst("/out", "{missing}", &m, "", "mkv"),
        Err("KeyError(Invalid key: missing)".to_string())
    );
    assert_eq!(compute_movie_dst("/out", "{{{title}}}", &m, "", "mkv"), Ok("/out/{Heat}".to_string()));
    assert!(compute_movie_dst("/out", "{ti{tle}", &m, "", "mkv").is_err());
}

#[test]
fn episode_destination_with_default_format() {
    let season = TVSeason { name: "Season 1".into(), season_number: 1, episode_count: 25, year: "2004".into(), tmdb_id: 1 };
    let show = TVShow {
        name: "Lost".into(),
        seasons: vec![season.clone()],
        episodes: 121,
        tmdb_id: 4607,
        first_year: "2004".into(),
        last_year: "2010".into(),
        source: LookupSource::Tmdb,
        source_id: 4607,
    };
    assert_eq!(
        compute_episode_dst("/tv", DEFAULT_TV_FORMAT, &show, &season, 3, "mkv"),
        Ok("/tv/Lost (2004) [tmdbid-4607]/Season 01/Lost S01E03.mkv".to_string())
    );
    let s12 = TVSeason { season_number: 12, ..season.clone() };
    assert_eq!(
        compute_episode_dst("tv", DEFAULT_TV_FORMAT, &show, &s12, 104, "mkv"),
        Ok("tv/Lost (2004) [tmdbid-4607]/Season 12/Lost S12E104.mkv".to_string())
    );
}

#[test]
fn join_like_pathbuf() {
    assert_eq!(join_path("", "a"), "a");
    assert_eq!(join_path("/x", "a/b"), "/x/a/b");
    assert_eq!(join_path("/x/", "a"), "/x/a");
    assert_eq!(join_path("/x", "/a"), "/a");
    for (b, r) in [("/x", "a"), ("", "b"), ("y/", "c"), ("z", "/d")] {
        assert_eq!(join_path(b, r), std::path::Path::new(b).join(r).to_str().unwrap());
    }
}

#[test]
fn part_tags() {
    let sib = |s: &str, e: &str| (Some(s.to_string()), Some(e.to_string()));
    assert_eq!(tag_from_siblings("Movie", "mkv", &vec![]), "");
    assert_eq!(tag_from_siblings("Movie", "mkv", &vec![sib("Movie", "mkv")]), "");
    assert_eq!(
        tag_from_siblings("Movie", "mkv", &vec![sib("Movie", "mkv"), sib("Other", "mkv"), sib("x", "srt"), (None, None)]),
        "CD1"
    );
    let many: Vec<_> = (0..12).map(|i| sib(&format!("p{i}"), "mkv")).collect();
    assert_eq!(tag_from_siblings("Movie", "mkv", &many), "CD12");
}

#[test]
fn episode_destination_names_the_lookup_database() {
    let season = TVSeason { name: "Season 2".into(), season_number: 2, episode_count: 10, year: "1999".into(), tmdb_id: 7 };
    let (source, source_id) = lookup_source(Some(12345), 1396);
    let show = TVShow {
        name: "Some Show".into(),
        seasons: vec![season.clone()],
        episodes: 10,
        tmdb_id: 1396,
        first_year: "1999".into(),
        last_year: "2001".into(),
        source,
        source_id,
    };
    assert_eq!(
        compute_episode_dst("/jellyfin/Shows/", DEFAULT_TV_FORMAT, &show, &season, 5, "mkv"),
        Ok("/jellyfin/Shows/Some Show (1999) [tvdbid-12345]/Season 02/Some Show S02E05.mkv".to_string())
    );
    assert_eq!(
        compute_episode_dst("/o", "{source}:{source_id}:{tmdb_id}", &show, &season, 5, "mkv"),
        Ok("/o/tvdbid:12345:1396".to_string())
    );
}

#[test]
fn lookup_source_prefers_tvdb_id() {
    assert_eq!(lookup_source(None, 4607), (LookupSource::Tmdb, 4607));
    assert_eq!(lookup_source(Some(81189), 4607), (LookupSource::Tvdb, 81189));
    assert_eq!(LookupSource::Tmdb.name(), "tmdbid");
    assert_eq!(LookupSource::Tvdb.name(), "tvdbid");
}
