use jellyname::conv::{conv_step, fresh_entries, ConvKey, ConvScreen, ConvStep, KeyInput};
use jellyname::convert::{conversion_result, expand_pattern};
use jellyname::ffmpeg::{advance_progress, build_cmd, progress_args};
use jellyname::format::place_formatted;
use jellyname::models::{Filters, MovieSearchResult};
use jellyname::numfmt::human_size;
use jellyname::paths::file_parts;
use jellyname::processor::filter_movie_results;
use jellyname::profiles::Profile;
use jellyname::text::{chars_of, string_of, trim_text};
use jellyname::tui::{list_window_start, log_window};

fn bare() -> Profile {
    Profile {
        description: None,
        video_codec: None,
        audio_codec: None,
        preset: None,
        crf: None,
        video_bitrate: None,
        audio_bitrate: None,
        extra_flags: None,
        hwaccel: None,
    }
}

#[test]
fn trimming_twice_is_trimming_once() {
    for s in ["  a b  ", "\u{2003}x\u{85}", "", "   ", "q"] {
        let once = trim_text(&chars_of(s));
        let twice = trim_text(&once);
        assert_eq!(string_of(&once), s.trim());
        assert_eq!(once, twice);
    }
}

#[test]
fn pattern_expansion_is_stable() {
    for p in ["/a", "/a/", "x*", ""] {
        let once = expand_pattern(p);
        assert_eq!(expand_pattern(&once), once);
    }
}

#[test]
fn relative_destinations_stay_under_output() {
    let d = place_formatted("/media/Movies", Ok("A (2000)/A.mkv".to_string())).unwrap();
    assert!(d.starts_with("/media/Movies"));
    assert_eq!(place_formatted("/m", Err("Invalid(x)".to_string())), Err("Invalid(x)".to_string()));
}

#[test]
fn stem_dot_extension_rebuilds_the_name() {
    for p in ["/a/movie.part1.mkv", "x.y", "a."] {
        let (stem, ext) = file_parts(p);
        let name = std::path::Path::new(p).file_name().unwrap().to_str().unwrap().to_string();
        assert_eq!(format!("{}.{}", stem.unwrap(), ext.unwrap()), name);
    }
}

#[test]
fn command_shape() {
    let mut p = bare();
    p.hwaccel = Some("cuda".into());
    p.video_codec = Some("h264".into());
    let c = build_cmd(&p, "IN", "OUT");
    assert_eq!(c[0], "ffmpeg");
    assert_eq!(c.last().unwrap(), "OUT");
    let i = c.iter().position(|a| a == "-i").unwrap();
    assert_eq!(c[i + 1], "IN");
    assert!(!build_cmd(&bare(), "a", "b").contains(&"-hwaccel".to_string()));
    let pa = progress_args(&c[1..].to_vec());
    assert_eq!(pa.last().unwrap(), "OUT");
    assert_eq!(pa.len(), c.len() - 1 + 3);
}

#[test]
fn progress_bounded_monotone() {
    let (n1, _) = advance_progress(3, 40, 30);
    assert!(3 <= n1 && n1 <= 30);
    let (n2, moved) = advance_progress(n1, 40, 30);
    assert_eq!((n2, moved), (n1, 0));
}

#[test]
fn small_sizes_in_bytes() {
    for b in [0u64, 5, 999, 1023] {
        assert_eq!(human_size(b), format!("{}.0B", b));
    }
}

#[test]
fn saved_space_adds_up() {
    let r = conversion_result("f".into(), 900, 300);
    assert_eq!(r.saved + r.new_size, r.original_size);
    assert_eq!(conversion_result("f".into(), 300, 900).saved, 0);
}

#[test]
fn window_and_log() {
    for (cur, rows) in [(0usize, 1usize), (5, 4), (100, 7), (3, 10)] {
        let start = list_window_start(cur, rows);
        assert!(start <= cur && cur < start + rows);
    }
    let log: Vec<String> = (0..4).map(|i| i.to_string()).collect();
    assert_eq!(log_window(&log, 3), vec!["1", "2", "3"]);
}

#[test]
fn language_filter_idempotent() {
    let r = |l: Option<&str>| MovieSearchResult {
        title: "t".into(),
        year: "y".into(),
        tmdb_id: 0,
        original_language: l.map(|x| x.to_string()),
    };
    let f = Filters { lang: Some("ja".into()) };
    let once = filter_movie_results(vec![r(Some("JA")), r(None), r(Some("en"))], &f);
    let twice = filter_movie_results(once.clone(), &f);
    assert_eq!(once.len(), 1);
    assert_eq!(twice.len(), 1);
}

#[test]
fn chooser_finishes_with_files() {
    let ps = vec![("p".to_string(), bare())];
    let key = |code| KeyInput { code, press: true, ctrl: false };
    let mut s = ConvScreen::SelectFiles { entries: fresh_entries(vec!["/a.mkv".into()], vec![1]), idx: 0 };
    for code in [ConvKey::Enter, ConvKey::Enter, ConvKey::Enter] {
        s = match conv_step(s, &key(code), &ps) {
            ConvStep::Show(n) => n,
            _ => panic!(),
        };
    }
    match conv_step(s, &key(ConvKey::Enter), &ps) {
        ConvStep::Done(sel) => assert!(!sel.files.is_empty()),
        _ => panic!(),
    }
}
