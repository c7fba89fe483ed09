use jellyname::title::{fix_title, guess_title, normalize_title};

#[test]
fn test_fix_title_lowercases() {
    assert_eq!(fix_title("The Movie"), "the movie");
}

#[test]
fn test_fix_title_moves_the() {
    assert_eq!(fix_title("Movie, The"), "the movie");
}

#[test]
fn test_fix_title_removes_bluray() {
    assert_eq!(fix_title("Movie - blu-ray"), "movie ");
    assert_eq!(fix_title("Movie blu-ray"), "movie ");
}

#[test]
fn test_fix_title_movie_with_the() {
    assert_eq!(fix_title("Dark Knight, The"), "the dark knight");
}

#[test]
fn test_guess_title() {
    let path = "/rips/My_Movie_2020/file.mkv";
    assert_eq!(guess_title(path), "my movie 2020");
}

#[test]
fn fix_title_lowercases_non_ascii() {
    assert_eq!(fix_title("ÉCOLE"), "école");
}

#[test]
fn normalize_title_removes_each_mark() {
    assert_eq!(normalize_title("a blu-ray b blu-ray"), "a  b ");
    assert_eq!(normalize_title("x - blu-ray, the"), "the x - blu-ray".replace("- blu-ray", ""));
    assert_eq!(normalize_title("blu-blu-rayray"), "blu-ray");
    assert_eq!(normalize_title(""), "");
}

#[test]
fn normalize_title_moves_only_a_trailing_article() {
    assert_eq!(normalize_title("the end, the"), "the the end");
    assert_eq!(normalize_title(", the"), "the ");
    assert_eq!(normalize_title("movie, them"), "movie, them");
}

#[test]
fn guess_title_edge_paths() {
    assert_eq!(guess_title("file.mkv"), "");
    assert_eq!(guess_title(""), "");
    assert_eq!(guess_title("/file.mkv"), "/");
    assert_eq!(guess_title("./file.mkv"), ".");
    assert_eq!(guess_title("a//B_c/./file.mkv"), "b c");
    assert_eq!(guess_title("dir/Sub_Dir/"), "dir");
    assert_eq!(guess_title("x/../f.mkv"), "..");
}
