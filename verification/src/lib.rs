pub mod cli;
pub mod conv;
pub mod conv_view;
pub mod convert;
pub mod ffmpeg;
pub mod format;
pub mod models;
pub mod numfmt;
pub mod path_order;
pub mod paths;
pub mod probe;
pub mod processor;
pub mod profiles;
pub mod strings;
pub mod text;
pub mod title;
pub mod tmdb;
pub mod tui;
