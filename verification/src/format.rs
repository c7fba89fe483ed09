//! Destination paths from format templates such as `{title} ({year})/{title}.{ext}`.
use vstd::prelude::*;
use crate::paths::join;
use crate::text::{chars_of, starts_with, string_of};

verus! {

/// What `strfmt::strfmt` gives for a template and the variables (the HashMap made
/// of these pairs): the formatted text, or the text of the format error.
pub uninterp spec fn strfmt_outcome(template: Seq<char>, vars: Seq<(Seq<char>, Seq<char>)>) -> Result<
    Seq<char>,
    Seq<char>,
>;

/// The text of each pair of strings.
pub open spec fn pair_views(v: Seq<(String, String)>) -> Seq<(Seq<char>, Seq<char>)> {
    v.map_values(|p: (String, String)| (p.0@, p.1@))
}

/// The text of a result of strings.
pub open spec fn result_view(r: Result<String, String>) -> Result<Seq<char>, Seq<char>> {
    match r {
        Ok(s) => Ok(s@),
        Err(e) => Err(e@),
    }
}

/// A formatted path placed under `output_dir`; a format error is passed on.
pub open spec fn placed(output_dir: Seq<char>, formatted: Result<Seq<char>, Seq<char>>) -> Result<
    Seq<char>,
    Seq<char>,
> {
    match formatted {
        Ok(p) => Ok(join(output_dir, p)),
        Err(e) => Err(e),
    }
}

/// Calls `strfmt::strfmt` with the pairs collected into a HashMap; a format
/// error is given as its display text. The result is named by `strfmt_outcome`.
#[verifier::external_body]
fn apply_format(template: &str, vars: &Vec<(String, String)>) -> (r: Result<String, String>)
    ensures
        result_view(r) == strfmt_outcome(template@, pair_views(vars@)),
{
    let ctx: std::collections::HashMap<String, String> = vars.iter().cloned().collect();
    strfmt::strfmt(template, &ctx).map_err(|e| e.to_string())
}

/// `rel` pushed onto `base` as `PathBuf::push` does on Unix: an absolute `rel`
/// replaces `base`, else a separator is put between them when needed.
pub fn join_path(base: &str, rel: &str) -> (r: String)
    ensures
        r@ == join(base@, rel@),
{
    let b = chars_of(base);
    let rc = chars_of(rel);
    let root: Vec<char> = vec!['/'];
    assert(root@ =~= seq!['/']);
    if crate::text::text_starts_with(&rc, &root) {
        return string_of(&rc);
    }
    let mut out = b;
    if out.len() > 0 && out[out.len() - 1] != '/' {
        out.push('/');
    }
    crate::text::append_chars(&mut out, &rc);
    assert(out@ =~= join(base@, rel@));
    string_of(&out)
}

/// Places an already formatted path under `output_dir`; a format error is passed on.
pub fn place_formatted(output_dir: &str, formatted: Result<String, String>) -> (r: Result<
    String,
    String,
>)
    ensures
        result_view(r) == placed(output_dir@, result_view(formatted)),
{
    match formatted {
        Ok(p) => Ok(join_path(output_dir, p.as_str())),
        Err(e) => Err(e),
    }
}

/// Formats `template` with the variables and places the result under `output_dir`.
pub fn format_under(output_dir: &str, template: &str, vars: &Vec<(String, String)>) -> (r: Result<
    String,
    String,
>)
    ensures
        result_view(r) == placed(output_dir@, strfmt_outcome(template@, pair_views(vars@))),
{
    let formatted = apply_format(template, vars);
    place_formatted(output_dir, formatted)
}

} // verus!

verus! {

/// A formatted path that is relative lands inside the output folder: the
/// destination starts with the folder's path.
pub proof fn law_relative_paths_stay_under_output(output_dir: Seq<char>, formatted: Seq<char>)
    requires
        !starts_with(formatted, seq!['/']),
    ensures
        placed(output_dir, Ok(formatted)) matches Ok(d) && starts_with(d, output_dir),
{
    let d = join(output_dir, formatted);
    if output_dir.len() == 0 || output_dir.last() == '/' {
        assert(d.subrange(0, output_dir.len() as int) =~= output_dir);
    } else {
        assert(d.subrange(0, output_dir.len() as int) =~= output_dir);
    }
}

/// A format error reaches the caller unchanged.
pub proof fn law_format_errors_pass_through(output_dir: Seq<char>, e: Seq<char>)
    ensures
        placed(output_dir, Err(e)) == Err::<Seq<char>, Seq<char>>(e),
{
}

} // verus!
