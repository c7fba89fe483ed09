//! The command line: a dry-run switch, a language filter, the TMDB key and a
//! subcommand for movies, shows or conversion.
use vstd::prelude::*;

verus! {

/// The default destination of a movie file.
pub const DEFAULT_MOVIE_FORMAT: &'static str = "{title} ({year}) [tmdbid-{tmdb_id}]/{title} ({year}) [tmdbid-{tmdb_id}]{tag}.{ext}";

/// The default destination of an episode file.
pub const DEFAULT_TV_FORMAT: &'static str = "{name} ({first_year}) [{source}-{source_id}]/Season {season_num:02}/{name} S{season_num:02}E{episode_num:02}.{ext}";

/// The parsed command line.
#[derive(Debug)]
pub struct Cli {
    pub dry_run: bool,
    pub filter_lang: Option<String>,
    pub api_key: Option<String>,
    pub cmd: Command,
}

/// The subcommands.
#[derive(Debug)]
pub enum Command {
    Movies { format: String, output: String, files: Vec<String> },
    Shows {
        format: String,
        output: String,
        mixed: bool,
        same_show: bool,
        tvdb_id: Option<u64>,
        directories: Vec<String>,
    },
    Conv { folder: String, profiles: String },
}

} // verus!
