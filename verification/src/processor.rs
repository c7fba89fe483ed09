//! Choosing among search results and computing where a file goes.
use vstd::prelude::*;
use crate::format::{format_under, pair_views, placed, result_view, strfmt_outcome};
use crate::models::{source_name, Filters, Movie, MovieSearchResult, TVSeason, TVShow};
use crate::numfmt::{dec, dec2, decimal2_string, decimal_string, push_decimal};
use crate::text::{chars_of, owned, string_of};

verus! {

/// The code of `c` with ASCII capitals (codes 65 to 90, A-Z) mapped to small
/// letters.
pub open spec fn ascii_lower_code(c: char) -> u32 {
    if 65 <= c as u32 && c as u32 <= 90 {
        (c as u32 + 32) as u32
    } else {
        c as u32
    }
}

/// Two texts that are equal up to the case of ASCII letters (`eq_ignore_ascii_case`).
pub open spec fn same_ignoring_ascii_case(a: Seq<char>, b: Seq<char>) -> bool {
    a.len() == b.len() && forall|i: int|
        0 <= i < a.len() ==> #[trigger] ascii_lower_code(a[i]) == ascii_lower_code(b[i])
}

/// A result whose original language is `lang`, up to ASCII case.
pub open spec fn in_language(r: MovieSearchResult, lang: Seq<char>) -> bool {
    match r.original_language {
        Some(l) => same_ignoring_ascii_case(l@, lang),
        None => false,
    }
}

/// The results in `lang`, in their order.
pub open spec fn in_language_only(s: Seq<MovieSearchResult>, lang: Seq<char>) -> Seq<
    MovieSearchResult,
>
    decreases s.len(),
{
    if s.len() == 0 {
        s
    } else {
        let r = in_language_only(s.drop_last(), lang);
        if in_language(s.last(), lang) {
            r.push(s.last())
        } else {
            r
        }
    }
}

/// What the filters keep of the results.
pub open spec fn filtered(s: Seq<MovieSearchResult>, f: Filters) -> Seq<MovieSearchResult> {
    match f.lang {
        Some(l) => in_language_only(s, l@),
        None => s,
    }
}

fn lower_code(c: char) -> (r: u32)
    ensures
        r == ascii_lower_code(c),
{
    let code = c as u32;
    if 65 <= code && code <= 90 {
        code + 32
    } else {
        code
    }
}

/// Whether two texts are equal up to the case of ASCII letters.
pub fn eq_ignore_ascii_case(a: &str, b: &str) -> (r: bool)
    ensures
        r == same_ignoring_ascii_case(a@, b@),
{
    let x = chars_of(a);
    let y = chars_of(b);
    if x.len() != y.len() {
        return false;
    }
    let mut i: usize = 0;
    while i < x.len()
        invariant
            i <= x.len(),
            x.len() == y.len(),
            x@ == a@,
            y@ == b@,
            forall|k: int| 0 <= k < i ==> #[trigger] ascii_lower_code(x@[k]) == ascii_lower_code(
                y@[k],
            ),
        decreases x.len() - i,
    {
        if lower_code(x[i]) != lower_code(y[i]) {
            return false;
        }
        i = i + 1;
    }
    true
}

/// Keeps the results in the language of the filters (all of them when there is none).
pub fn filter_movie_results(results: Vec<MovieSearchResult>, filters: &Filters) -> (r: Vec<
    MovieSearchResult,
>)
    ensures
        r@ == filtered(results@, *filters),
{
    match &filters.lang {
        None => results,
        Some(lang) => {
            let mut out: Vec<MovieSearchResult> = Vec::new();
            let ghost all = results@;
            for x in it: results.into_iter()
                invariant
                    it.seq() == all,
                    out@ == in_language_only(all.take(it.index() as int), lang@),
            {
                let keep = match &x.original_language {
                    Some(l) => eq_ignore_ascii_case(l.as_str(), lang.as_str()),
                    None => false,
                };
                proof {
                    assert(all.take(it.index() + 1).drop_last() =~= all.take(it.index() as int));
                }
                if keep {
                    out.push(x);
                }
            }
            assert(all.take(all.len() as int) =~= all);
            out
        },
    }
}

/// The template variables of a movie's destination.
pub open spec fn movie_vars(movie: Movie, tag: Seq<char>, ext: Seq<char>) -> Seq<
    (Seq<char>, Seq<char>),
> {
    seq![
        ("title"@, movie.title@),
        ("year"@, movie.year@),
        ("tmdb_id"@, dec(movie.tmdb_id as nat)),
        ("tag"@, tag),
        ("ext"@, ext),
    ]
}

/// The template variables of an episode's destination.
pub open spec fn episode_vars(show: TVShow, season: TVSeason, episode_num: u32, ext: Seq<char>) -> Seq<
    (Seq<char>, Seq<char>),
> {
    seq![
        ("name"@, show.name@),
        ("first_year"@, show.first_year@),
        ("tmdb_id"@, dec(show.tmdb_id as nat)),
        ("season_num"@, dec2(season.season_number as nat)),
        ("episode_num"@, dec2(episode_num as nat)),
        ("ext"@, ext),
        ("source"@, source_name(show.source)),
        ("source_id"@, dec(show.source_id as nat)),
    ]
}

/// The movie of a search result.
pub fn to_movie(r: &MovieSearchResult) -> (m: Movie)
    ensures
        m.title == r.title,
        m.year == r.year,
        m.tmdb_id == r.tmdb_id,
{
    Movie { title: r.title.clone(), year: r.year.clone(), tmdb_id: r.tmdb_id }
}

fn push_var(vars: &mut Vec<(String, String)>, key: &str, value: String)
    ensures
        pair_views(final(vars)@) == pair_views(old(vars)@).push((key@, value@)),
{
    let k = owned(key);
    vars.push((k, value));
    assert(pair_views(vars@) =~= pair_views(old(vars)@).push((key@, value@)));
}

/// Where a movie file goes: the template filled with the movie's title, year and
/// TMDB id, the tag and the extension, placed under `output_dir`. A template that
/// strfmt refuses gives the text of its error.
pub fn compute_movie_dst(output_dir: &str, template: &str, movie: &Movie, tag: &str, ext: &str) -> (r:
    Result<String, String>)
    ensures
        result_view(r) == placed(
            output_dir@,
            strfmt_outcome(template@, movie_vars(*movie, tag@, ext@)),
        ),
{
    let mut vars: Vec<(String, String)> = Vec::new();
    push_var(&mut vars, "title", movie.title.clone());
    push_var(&mut vars, "year", movie.year.clone());
    push_var(&mut vars, "tmdb_id", decimal_string(movie.tmdb_id));
    push_var(&mut vars, "tag", owned(tag));
    push_var(&mut vars, "ext", owned(ext));
    assert(pair_views(vars@) =~= movie_vars(*movie, tag@, ext@));
    format_under(output_dir, template, &vars)
}

/// Where an episode file goes: the template filled with the show's name, first
/// year and TMDB id, the season and episode numbers (two digits at least), the
/// extension, and the lookup database (`source`) with the show's id there
/// (`source_id`), placed under `output_dir`. A template that strfmt refuses gives the
/// text of its error.
pub fn compute_episode_dst(
    output_dir: &str,
    template: &str,
    show: &TVShow,
    season: &TVSeason,
    episode_num: u32,
    ext: &str,
) -> (r: Result<String, String>)
    ensures
        result_view(r) == placed(
            output_dir@,
            strfmt_outcome(template@, episode_vars(*show, *season, episode_num, ext@)),
        ),
{
    let mut vars: Vec<(String, String)> = Vec::new();
    push_var(&mut vars, "name", show.name.clone());
    push_var(&mut vars, "first_year", show.first_year.clone());
    push_var(&mut vars, "tmdb_id", decimal_string(show.tmdb_id));
    push_var(&mut vars, "season_num", decimal2_string(season.season_number as u64));
    push_var(&mut vars, "episode_num", decimal2_string(episode_num as u64));
    push_var(&mut vars, "ext", owned(ext));
    push_var(&mut vars, "source", show.source.name());
    push_var(&mut vars, "source_id", decimal_string(show.source_id));
    assert(pair_views(vars@) =~= episode_vars(*show, *season, episode_num, ext@));
    format_under(output_dir, template, &vars)
}

/// A sibling file that counts as another part: same extension, other stem.
pub open spec fn is_other_part(sibling: (Option<Seq<char>>, Option<Seq<char>>), stem: Seq<char>, ext: Seq<char>) -> bool {
    sibling.1 == Some(ext) && sibling.0 != Some(stem)
}

/// How many siblings are other parts.
pub open spec fn other_parts(s: Seq<(Option<Seq<char>>, Option<Seq<char>>)>, stem: Seq<char>, ext: Seq<char>) -> nat
    decreases s.len(),
{
    if s.len() == 0 {
        0
    } else {
        other_parts(s.drop_last(), stem, ext) + if is_other_part(s.last(), stem, ext) {
            1nat
        } else {
            0nat
        }
    }
}

/// The text of each (stem, extension) pair.
pub open spec fn sibling_views(s: Seq<(Option<String>, Option<String>)>) -> Seq<
    (Option<Seq<char>>, Option<Seq<char>>),
> {
    s.map_values(
        |p: (Option<String>, Option<String>)|
            (crate::strings::opt_str(p.0), crate::strings::opt_str(p.1)),
    )
}

/// The tag suggested for a destination: "CD" and the number of other parts,
/// when there are any, else nothing.
pub open spec fn part_tag(count: nat) -> Seq<char> {
    if count > 0 {
        "CD"@ + dec(count)
    } else {
        Seq::<char>::empty()
    }
}

fn opt_eq(a: &Option<String>, b: &str) -> (r: bool)
    ensures
        r == (crate::strings::opt_str(*a) == Some(b@)),
{
    match a {
        Some(x) => crate::text::same_text(x.as_str(), b),
        None => false,
    }
}

/// The tag to suggest for a destination with this stem and extension, given the
/// stems and extensions of the files already in its folder: "CD" and the number
/// of files with the same extension and another stem, or nothing when there are
/// none.
pub fn tag_from_siblings(stem: &str, ext: &str, siblings: &Vec<(Option<String>, Option<String>)>) -> (r:
    String)
    ensures
        r@ == part_tag(other_parts(sibling_views(siblings@), stem@, ext@)),
{
    let mut count: u64 = 0;
    let mut i: usize = 0;
    while i < siblings.len()
        invariant
            i <= siblings.len(),
            count == other_parts(sibling_views(siblings@).take(i as int), stem@, ext@),
            count <= i,
        decreases siblings.len() - i,
    {
        let (s, e) = &siblings[i];
        let other = opt_eq(e, ext) && !opt_eq(s, stem);
        proof {
            assert(sibling_views(siblings@).take(i + 1).drop_last() =~= sibling_views(siblings@).take(i as int));
        }
        if other {
            count = count + 1;
        }
        i = i + 1;
    }
    assert(sibling_views(siblings@).take(siblings.len() as int) =~= sibling_views(siblings@));
    if count > 0 {
        let mut v = chars_of("CD");
        push_decimal(&mut v, count);
        string_of(&v)
    } else {
        String::new()
    }
}

/// Keeping only the results in a language twice keeps the same results as once.
pub proof fn law_language_filter_idempotent(s: Seq<MovieSearchResult>, f: Filters)
    ensures
        filtered(filtered(s, f), f) == filtered(s, f),
{
    if let Some(l) = f.lang {
        lemma_in_language_only_idempotent(s, l@);
    }
}

proof fn lemma_in_language_only_idempotent(s: Seq<MovieSearchResult>, lang: Seq<char>)
    ensures
        in_language_only(in_language_only(s, lang), lang) == in_language_only(s, lang),
    decreases s.len(),
{
    if s.len() > 0 {
        lemma_in_language_only_idempotent(s.drop_last(), lang);
        let r = in_language_only(s.drop_last(), lang);
        if in_language(s.last(), lang) {
            assert(r.push(s.last()).drop_last() =~= r);
        }
    }
}

/// Every result that the filters keep is in their language, and no result in
/// their language is dropped.
pub proof fn law_language_filter_exact(s: Seq<MovieSearchResult>, lang: Seq<char>)
    ensures
        forall|i: int| 0 <= i < in_language_only(s, lang).len() ==> #[trigger] in_language(in_language_only(s, lang)[i], lang),
        forall|i: int| 0 <= i < s.len() && in_language(s[i], lang) ==> in_language_only(s, lang).contains(#[trigger] s[i]),
    decreases s.len(),
{
    if s.len() > 0 {
        law_language_filter_exact(s.drop_last(), lang);
        let r = in_language_only(s.drop_last(), lang);
        assert forall|i: int| 0 <= i < s.len() && in_language(s[i], lang) implies in_language_only(s, lang).contains(#[trigger] s[i]) by {
            if i < s.len() - 1 {
                assert(s.drop_last()[i] == s[i]);
                let j = choose|j: int| 0 <= j < r.len() && r[j] == s[i];
                if in_language(s.last(), lang) {
                    assert(in_language_only(s, lang)[j] == s[i]);
                }
            } else {
                assert(in_language_only(s, lang).last() == s[i]);
            }
        }
    }
}

/// Two chars that are the same up to the case of an ASCII letter: the same
/// code, or a capital A-Z and its small letter (32 codes higher).
pub open spec fn case_variants(x: char, y: char) -> bool {
    let a = x as u32;
    let b = y as u32;
    a == b || (65 <= a <= 90 && b == a + 32) || (65 <= b <= 90 && a == b + 32)
}

/// Two texts are equal up to ASCII case exactly when they are equally long and
/// every position holds the same char or the same ASCII letter in the other
/// case; one differing position makes them different.
pub proof fn law_ascii_case_equality(a: Seq<char>, b: Seq<char>)
    ensures
        same_ignoring_ascii_case(a, b) <==> (a.len() == b.len() && forall|i: int|
            0 <= i < a.len() ==> case_variants(#[trigger] a[i], b[i])),
        a.len() == b.len() && (exists|i: int| 0 <= i < a.len() && !case_variants(#[trigger] a[i], b[i]))
            ==> !same_ignoring_ascii_case(a, b),
{
    assert forall|x: char, y: char| #[trigger] case_variants(x, y) <==> ascii_lower_code(x) == ascii_lower_code(y) by {}
    if same_ignoring_ascii_case(a, b) {
        assert forall|i: int| 0 <= i < a.len() implies case_variants(#[trigger] a[i], b[i]) by {
            assert(ascii_lower_code(a[i]) == ascii_lower_code(b[i]));
        }
    }
    if a.len() == b.len() && forall|i: int| 0 <= i < a.len() ==> case_variants(#[trigger] a[i], b[i]) {
        assert forall|i: int| 0 <= i < a.len() implies #[trigger] ascii_lower_code(a[i]) == ascii_lower_code(b[i]) by {
            assert(case_variants(a[i], b[i]));
        }
    }
}

/// A language filter keeps only results whose original language is the
/// filter's, char for char up to ASCII case: as long as it, and at every
/// position the same char or the same letter in the other case.
pub proof fn law_language_filter_keeps_case_variants_only(s: Seq<MovieSearchResult>, lang: Seq<char>)
    ensures
        forall|i: int|
            0 <= i < in_language_only(s, lang).len() ==> ((#[trigger] in_language_only(s, lang)[i]).original_language
                matches Some(l) && l@.len() == lang.len() && forall|j: int|
                0 <= j < lang.len() ==> case_variants(#[trigger] l@[j], lang[j])),
{
    law_language_filter_exact(s, lang);
    assert forall|i: int| 0 <= i < in_language_only(s, lang).len() implies ((#[trigger] in_language_only(
        s,
        lang,
    )[i]).original_language matches Some(l) && l@.len() == lang.len() && forall|j: int|
        0 <= j < lang.len() ==> case_variants(#[trigger] l@[j], lang[j])) by {
        let r = in_language_only(s, lang)[i];
        assert(in_language(r, lang));
        if let Some(l) = r.original_language {
            law_ascii_case_equality(l@, lang);
        }
    }
}

} // verus!
