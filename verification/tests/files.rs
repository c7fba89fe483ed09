use jellyname::convert::{backup_file_name, conversion_result, display_name, expand_pattern};
use jellyname::path_order::{mkv_files_sorted, mkv_paths, path_precedes, sort_paths};
use jellyname::paths::{file_name_of, file_parts, is_mkv_path};
use std::path::{Path, PathBuf};

#[test]
fn file_names_like_std() {
    for p in ["/a/b.mkv", "a", "", "/", "a/..", "a/.", "./", ".", "a//b//", "/x/.hidden", "dir/a.b.c", "x/y.", "..", "a/b/../"] {
        let std_name = Path::new(p).file_name().map(|s| s.to_str().unwrap().to_string());
        assert_eq!(file_name_of(p), std_name, "path {:?}", p);
        let std_stem = Path::new(p).file_stem().map(|s| s.to_str().unwrap().to_string());
        let std_ext = Path::new(p).extension().map(|s| s.to_str().unwrap().to_string());
        assert_eq!(file_parts(p), (std_stem, std_ext), "path {:?}", p);
    }
}

#[test]
fn mkv_path_names() {
    assert!(is_mkv_path("/rips/x/title_t00.mkv"));
    assert!(!is_mkv_path("/rips/x/title.MKV"));
    assert!(!is_mkv_path("/rips/.mkv"));
    assert!(!is_mkv_path("/rips/x.mkv.bak"));
}

#[test]
fn glob_patterns() {
    assert_eq!(expand_pattern("/rips/"), "/rips/*.mkv");
    assert_eq!(expand_pattern("/rips"), "/rips/**/*.mkv");
    assert_eq!(expand_pattern("/rips/**/*.mkv"), "/rips/**/*.mkv");
    assert_eq!(expand_pattern(""), "/**/*.mkv");
    assert_eq!(expand_pattern(&expand_pattern("/rips")), "/rips/**/*.mkv");
}

#[test]
fn conversion_reports() {
    let r = conversion_result("a.mkv".to_string(), 1000, 400);
    assert_eq!((r.original_size, r.new_size, r.saved), (1000, 400, 600));
    let r = conversion_result("a.mkv".to_string(), 400, 1000);
    assert_eq!(r.saved, 0);
    assert_eq!(backup_file_name("a.mkv"), "a.mkv.bak");
    assert_eq!(display_name(None), "?");
    assert_eq!(display_name(Some("x".into())), "x");
}

fn owned(v: &[&str]) -> Vec<String> {
    v.iter().map(|s| s.to_string()).collect()
}

const MIXED: [&str; 16] = [
    "/rips/b/t01.mkv", "/rips/a/t10.mkv", "/rips/a/t02.mkv", "rel/x.mkv", "./rel/x.mkv", "../up.mkv",
    "/rips/a//t02.mkv", "/rips/A/t00.mkv", "/rips/é.mkv", "/rips/z.mkv", "/rips/a/t02.mkv/", "/rips/a b.mkv",
    "/rips/ab.mkv", "/rips/a.srt", "/rips", "/",
];

#[test]
fn paths_sort_as_pathbufs_do() {
    let mut expected: Vec<PathBuf> = MIXED.iter().map(PathBuf::from).collect();
    expected.sort();
    let sorted: Vec<PathBuf> = sort_paths(&owned(&MIXED)).into_iter().map(PathBuf::from).collect();
    assert_eq!(sorted, expected);
    let texts: Vec<String> = sort_paths(&owned(&MIXED));
    let expected_texts: Vec<String> = expected.iter().map(|p| p.to_str().unwrap().to_string()).collect();
    assert_eq!(texts, expected_texts);
}

#[test]
fn path_order_like_std() {
    for a in MIXED {
        for b in MIXED {
            assert_eq!(path_precedes(a, b), Path::new(a) < Path::new(b), "{:?} < {:?}", a, b);
        }
    }
}

#[test]
fn resolved_files_are_the_sorted_mkv_files() {
    let found = owned(&["/rips/b.mkv", "/rips/a.srt", "/rips/c/", "/rips/a.mkv", "/rips//a.mkv", "/rips/x.mkv.bak"]);
    assert_eq!(mkv_paths(&found), owned(&["/rips/b.mkv", "/rips/a.mkv", "/rips//a.mkv"]));
    assert_eq!(mkv_files_sorted(&found), owned(&["/rips/a.mkv", "/rips//a.mkv", "/rips/b.mkv"]));
    let swapped = owned(&["/rips//a.mkv", "/rips/a.mkv"]);
    assert_eq!(mkv_files_sorted(&swapped), swapped);
    assert_eq!(mkv_files_sorted(&Vec::new()), Vec::<String>::new());
}
