//! Title normalisation and title guessing from a rip's folder.
use vstd::prelude::*;
use crate::paths::{components, path_components, views};
use crate::text::{chars_of, replace_all, replace_char, replace_char_text, replace_text, string_of, text_ends_with, ends_with};

verus! {

/// What `str::to_lowercase` returns for `s`: its Unicode lowercase mapping.
pub uninterp spec fn lowercase_of(s: Seq<char>) -> Seq<char>;

/// Calls `str::to_lowercase`; the result is named by `lowercase_of`, as a function
/// of the argument's chars alone.
#[verifier::external_body]
fn to_lowercase(s: &str) -> (r: String)
    ensures
        r@ == lowercase_of(s@),
{
    s.to_lowercase()
}

/// A trailing ", the" moved to the front as "the ".
pub open spec fn article_moved(t: Seq<char>) -> Seq<char> {
    if ends_with(t, ", the"@) {
        "the "@ + t.subrange(0, t.len() - ", the"@.len())
    } else {
        t
    }
}

/// A lowercased title with its article moved and the "blu-ray" marks removed.
pub open spec fn normalized_title(lowered: Seq<char>) -> Seq<char> {
    replace_all(replace_all(article_moved(lowered), "- blu-ray"@, ""@), "blu-ray"@, ""@)
}

/// The title guessed from a rip's path: the name of the folder holding the file,
/// lowercased, with underscores turned into spaces.
pub open spec fn guessed_title(path: Seq<char>) -> Seq<char> {
    let c = components(path);
    if c.len() >= 2 {
        replace_char(lowercase_of(c[c.len() - 2]), '_', ' ')
    } else {
        Seq::<char>::empty()
    }
}

/// Normalises an already lowercased title: a trailing ", the" becomes a leading
/// "the ", then every "- blu-ray" and after that every "blu-ray" is removed.
pub fn normalize_title(lowered: &str) -> (r: String)
    ensures
        r@ == normalized_title(lowered@),
{
    let t = chars_of(lowered);
    let suffix = chars_of(", the");
    let mut moved: Vec<char>;
    if text_ends_with(&t, &suffix) {
        moved = chars_of("the ");
        let mut i: usize = 0;
        let keep = t.len() - suffix.len();
        while i < keep
            invariant
                i <= keep,
                keep == t.len() - suffix.len(),
                keep <= t.len(),
                moved@ == "the "@ + t@.subrange(0, i as int),
            decreases keep - i,
        {
            moved.push(t[i]);
            i = i + 1;
            assert(moved@ =~= "the "@ + t@.subrange(0, i as int));
        }
    } else {
        moved = t;
    }
    assert(moved@ == article_moved(lowered@));
    let dash = chars_of("- blu-ray");
    let bluray = chars_of("blu-ray");
    let empty: Vec<char> = Vec::new();
    proof {
        reveal_strlit("- blu-ray");
        reveal_strlit("blu-ray");
        reveal_strlit("");
        assert(empty@ =~= ""@);
    }
    let once = replace_text(&moved, &dash, &empty);
    let twice = replace_text(&once, &bluray, &empty);
    string_of(&twice)
}

/// Normalises a title for searching: lowercased, a trailing ", the" moved to the
/// front, "blu-ray" marks removed.
pub fn fix_title(title: &str) -> (r: String)
    ensures
        r@ == normalized_title(lowercase_of(title@)),
{
    let lowered = to_lowercase(title);
    normalize_title(lowered.as_str())
}

/// Guesses a title from the path of a rip: the name of the folder that holds it,
/// lowercased, underscores turned into spaces; empty when there is no such folder.
pub fn guess_title(filename: &str) -> (r: String)
    ensures
        r@ == guessed_title(filename@),
{
    let c = path_components(filename);
    if c.len() >= 2 {
        let folder = string_of(&c[c.len() - 2]);
        assert(views(c@)[c.len() - 2] == c@[c.len() - 2]@);
        let lowered = to_lowercase(folder.as_str());
        let lc = chars_of(lowered.as_str());
        let spaced = replace_char_text(&lc, '_', ' ');
        string_of(&spaced)
    } else {
        String::new()
    }
}

} // verus!

verus! {

/// The guessed title depends only on the folder that holds the file: any two
/// files in the same folder give the same title, that of the folder's name.
pub proof fn law_guess_depends_on_folder_only(p: Seq<char>, a: Seq<char>, b: Seq<char>)
    requires
        crate::paths::file_name(p) is Some,
        crate::paths::is_plain_name(a),
        crate::paths::is_plain_name(b),
    ensures
        guessed_title(crate::paths::join(p, a)) == guessed_title(crate::paths::join(p, b)),
        guessed_title(crate::paths::join(p, a)) == replace_char(
            lowercase_of(crate::paths::file_name(p).unwrap()),
            '_',
            ' ',
        ),
{
    crate::paths::lemma_join_adds_component(p, a);
    crate::paths::lemma_join_adds_component(p, b);
    let c = components(p);
    assert(c.push(a)[c.len() - 1] == c.last());
    assert(c.push(b)[c.len() - 1] == c.last());
}

} // verus!
