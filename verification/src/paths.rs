//! Unix path text: components, file names, extensions and joining.
use vstd::prelude::*;
use crate::text::{chars_of, matches_at, starts_with, string_of, text_starts_with};

verus! {

/// `s` cut at every `sep`, as `str::split` does (always at least one piece).
pub open spec fn split_on(s: Seq<char>, sep: char) -> Seq<Seq<char>>
    decreases s.len(),
{
    if s.len() == 0 {
        seq![Seq::<char>::empty()]
    } else {
        let r = split_on(s.drop_last(), sep);
        if s.last() == sep {
            r.push(Seq::<char>::empty())
        } else {
            r.update(r.len() - 1, r.last().push(s.last()))
        }
    }
}

/// The pieces that name a component: empty pieces and `.` pieces are dropped.
pub open spec fn kept_pieces(ps: Seq<Seq<char>>) -> Seq<Seq<char>>
    decreases ps.len(),
{
    if ps.len() == 0 {
        Seq::<Seq<char>>::empty()
    } else {
        let r = kept_pieces(ps.drop_last());
        let x = ps.last();
        if x.len() == 0 || x == seq!['.'] {
            r
        } else {
            r.push(x)
        }
    }
}

/// The component that stands before the named pieces: the root `/`, or a leading `.`.
pub open spec fn leading_component(p: Seq<char>) -> Seq<Seq<char>> {
    if starts_with(p, seq!['/']) {
        seq![seq!['/']]
    } else if p == seq!['.'] || starts_with(p, seq!['.', '/']) {
        seq![seq!['.']]
    } else {
        Seq::<Seq<char>>::empty()
    }
}

/// The components of a Unix path, each given by its text (`/` for the root,
/// `.` for a leading current directory, `..` for a parent, else the name).
pub open spec fn components(p: Seq<char>) -> Seq<Seq<char>> {
    leading_component(p) + kept_pieces(split_on(p, '/'))
}

/// A component that is a plain name.
pub open spec fn is_name_component(c: Seq<char>) -> bool {
    c != seq!['/'] && c != seq!['.'] && c != seq!['.', '.']
}

/// The last component of `p` when it is a plain name (`Path::file_name`).
pub open spec fn file_name(p: Seq<char>) -> Option<Seq<char>> {
    let c = components(p);
    if c.len() > 0 && is_name_component(c.last()) {
        Some(c.last())
    } else {
        None
    }
}

/// The position of the last `.` in `name`, or -1 when there is none.
pub open spec fn last_dot(name: Seq<char>) -> int
    decreases name.len(),
{
    if name.len() == 0 {
        -1
    } else if name.last() == '.' {
        name.len() - 1
    } else {
        last_dot(name.drop_last())
    }
}

/// The extension of a file name (`Path::extension`): what follows its last `.`,
/// when that dot is not its first char.
pub open spec fn extension(name: Seq<char>) -> Option<Seq<char>> {
    let d = last_dot(name);
    if d > 0 {
        Some(name.subrange(d + 1, name.len() as int))
    } else {
        None
    }
}

/// The name of a file without its extension (`Path::file_stem`).
pub open spec fn stem(name: Seq<char>) -> Seq<char> {
    match extension(name) {
        Some(e) => name.subrange(0, name.len() - e.len() - 1),
        None => name,
    }
}

/// `rel` pushed onto `base` as `PathBuf::push` does on Unix.
pub open spec fn join(base: Seq<char>, rel: Seq<char>) -> Seq<char> {
    if starts_with(rel, seq!['/']) {
        rel
    } else if base.len() == 0 || base.last() == '/' {
        base + rel
    } else {
        base + seq!['/'] + rel
    }
}

/// The views of a sequence of char vectors.
pub open spec fn views(v: Seq<Vec<char>>) -> Seq<Seq<char>> {
    v.map_values(|x: Vec<char>| x@)
}

/// Splitting always gives at least one piece.
pub proof fn lemma_split_nonempty(s: Seq<char>, sep: char)
    ensures
        split_on(s, sep).len() >= 1,
    decreases s.len(),
{
    if s.len() > 0 {
        lemma_split_nonempty(s.drop_last(), sep);
    }
}

/// The pieces of `s` between `sep` chars.
pub fn split_text(s: &Vec<char>, sep: char) -> (r: Vec<Vec<char>>)
    ensures
        views(r@) == split_on(s@, sep),
{
    let mut pieces: Vec<Vec<char>> = Vec::new();
    let mut cur: Vec<char> = Vec::new();
    let mut i: usize = 0;
    assert(s@.take(0) =~= Seq::<char>::empty());
    assert(views(pieces@).push(cur@) =~= split_on(s@.take(0), sep));
    while i < s.len()
        invariant
            i <= s.len(),
            views(pieces@).push(cur@) == split_on(s@.take(i as int), sep),
        decreases s.len() - i,
    {
        let c = s[i];
        let ghost prev = split_on(s@.take(i as int), sep);
        proof {
            lemma_split_nonempty(s@.take(i as int), sep);
            assert(s@.take(i + 1).drop_last() =~= s@.take(i as int));
            assert(s@.take(i + 1).last() == c);
        }
        if c == sep {
            pieces.push(cur);
            cur = Vec::new();
            assert(views(pieces@).push(cur@) =~= prev.push(Seq::<char>::empty()));
        } else {
            cur.push(c);
            assert(views(pieces@).push(cur@) =~= prev.update(prev.len() - 1, prev.last().push(c)));
        }
        i = i + 1;
    }
    assert(s@.take(s.len() as int) =~= s@);
    pieces.push(cur);
    assert(views(pieces@) =~= split_on(s@, sep));
    pieces
}

fn is_dot(x: &Vec<char>) -> (r: bool)
    ensures
        r == (x@ == seq!['.']),
{
    if x.len() != 1 {
        return false;
    }
    let r = x[0] == '.';
    assert(r ==> x@ =~= seq!['.']);
    r
}

/// The components of a Unix path, each given by its text.
pub fn path_components(p: &str) -> (r: Vec<Vec<char>>)
    ensures
        views(r@) == components(p@),
{
    let cs = chars_of(p);
    let pieces = split_text(&cs, '/');
    let mut out: Vec<Vec<char>> = Vec::new();
    let root: Vec<char> = vec!['/'];
    let dot_slash: Vec<char> = vec!['.', '/'];
    let dot: Vec<char> = vec!['.'];
    assert(root@ =~= seq!['/']);
    assert(dot_slash@ =~= seq!['.', '/']);
    assert(dot@ =~= seq!['.']);
    if text_starts_with(&cs, &root) {
        out.push(vec!['/']);
    } else if is_dot(&cs) || text_starts_with(&cs, &dot_slash) {
        out.push(vec!['.']);
    }
    let ghost lead = views(out@);
    assert(lead =~= leading_component(p@));
    let mut i: usize = 0;
    assert(views(pieces@).take(0) =~= Seq::<Seq<char>>::empty());
    assert(views(out@) =~= lead + kept_pieces(views(pieces@).take(0)));
    while i < pieces.len()
        invariant
            i <= pieces.len(),
            views(out@) == lead + kept_pieces(views(pieces@).take(i as int)),
        decreases pieces.len() - i,
    {
        proof {
            assert(views(pieces@).take(i + 1).drop_last() =~= views(pieces@).take(i as int));
            assert(views(pieces@).take(i + 1).last() == pieces@[i as int]@);
        }
        let x = &pieces[i];
        if x.len() == 0 || is_dot(x) {
        } else {
            let ghost before = views(out@);
            out.push(x.clone());
            assert(views(out@) =~= before.push(pieces@[i as int]@));
        }
        i = i + 1;
    }
    assert(views(pieces@).take(pieces.len() as int) =~= views(pieces@));
    out
}

/// The file name of `p`, if its last component is a plain name.
pub fn file_name_of(p: &str) -> (r: Option<String>)
    ensures
        match r {
            Some(s) => file_name(p@) == Some(s@),
            None => file_name(p@) is None,
        },
{
    let cs = path_components(p);
    if cs.len() == 0 {
        return None;
    }
    let last = &cs[cs.len() - 1];
    let root: Vec<char> = vec!['/'];
    let dot: Vec<char> = vec!['.'];
    let dotdot: Vec<char> = vec!['.', '.'];
    assert(root@ =~= seq!['/']);
    assert(dot@ =~= seq!['.']);
    assert(dotdot@ =~= seq!['.', '.']);
    assert(views(cs@).last() == last@);
    if same_chars(last, &root) || same_chars(last, &dot) || same_chars(last, &dotdot) {
        None
    } else {
        Some(string_of(last))
    }
}

/// Whether two char vectors are equal.
pub fn same_chars(a: &Vec<char>, b: &Vec<char>) -> (r: bool)
    ensures
        r == (a@ == b@),
{
    if a.len() != b.len() {
        return false;
    }
    let r = matches_at(a, 0, b);
    assert(a@.subrange(0, b.len() as int) =~= a@);
    r
}

/// The stem and the extension of the file name of `path` (`Path::file_stem` and
/// `Path::extension`).
pub fn file_parts(path: &str) -> (r: (Option<String>, Option<String>))
    ensures
        r.0 matches Some(s) ==> file_name(path@) matches Some(n) && s@ == stem(n),
        r.0 is None ==> file_name(path@) is None,
        r.1 matches Some(e) ==> file_name(path@) matches Some(n) && extension(n) == Some(e@),
        r.1 is None ==> (file_name(path@) matches Some(n) ==> extension(n) is None),
{
    let name = match file_name_of(path) {
        Some(n) => n,
        None => return (None, None),
    };
    let v = chars_of(name.as_str());
    let mut i: usize = v.len();
    proof {
        assert(v@.subrange(0, i as int) =~= v@);
    }
    while i > 0 && v[i - 1] != '.'
        invariant
            i <= v.len(),
            last_dot(v@) == last_dot(v@.subrange(0, i as int)),
        decreases i,
    {
        assert(v@.subrange(0, i as int).drop_last() =~= v@.subrange(0, i - 1));
        i = i - 1;
    }
    proof {
        if i > 0 {
            assert(v@.subrange(0, i as int).last() == '.');
        }
    }
    if i > 1 {
        let d = i - 1;
        let mut st: Vec<char> = Vec::new();
        let mut k: usize = 0;
        while k < d
            invariant
                k <= d,
                d < v.len(),
                st@ == v@.subrange(0, k as int),
            decreases d - k,
        {
            st.push(v[k]);
            k = k + 1;
            assert(st@ =~= v@.subrange(0, k as int));
        }
        let mut ex: Vec<char> = Vec::new();
        let mut k: usize = i;
        while k < v.len()
            invariant
                i <= k <= v.len(),
                ex@ == v@.subrange(i as int, k as int),
            decreases v.len() - k,
        {
            ex.push(v[k]);
            k = k + 1;
            assert(ex@ =~= v@.subrange(i as int, k as int));
        }
        (Some(string_of(&st)), Some(string_of(&ex)))
    } else {
        (Some(name), None)
    }
}

/// Whether the file name of `path` has the extension `mkv`.
pub fn is_mkv_path(path: &str) -> (r: bool)
    ensures
        r == (file_name(path@) matches Some(n) && extension(n) == Some("mkv"@)),
{
    let (_, ext) = file_parts(path);
    match ext {
        Some(e) => crate::text::same_text(e.as_str(), "mkv"),
        None => false,
    }
}

} // verus!

verus! {

/// A file name with an extension is its stem, a dot, and the extension.
pub proof fn law_stem_dot_extension(name: Seq<char>)
    requires
        extension(name) is Some,
    ensures
        stem(name) + seq!['.'] + extension(name).unwrap() == name,
{
    lemma_last_dot_is_dot(name);
    assert(stem(name) + seq!['.'] + extension(name).unwrap() =~= name);
}

proof fn lemma_last_dot_is_dot(name: Seq<char>)
    ensures
        last_dot(name) < name.len(),
        last_dot(name) >= 0 ==> name[last_dot(name)] == '.',
    decreases name.len(),
{
    if name.len() > 0 && name.last() != '.' {
        lemma_last_dot_is_dot(name.drop_last());
    }
}

} // verus!

verus! {

proof fn lemma_split_append_plain(s: Seq<char>, t: Seq<char>, sep: char)
    requires
        !t.contains(sep),
    ensures
        split_on(s + t, sep) == split_on(s, sep).update(
            split_on(s, sep).len() - 1,
            split_on(s, sep).last() + t,
        ),
    decreases t.len(),
{
    lemma_split_nonempty(s, sep);
    let r0 = split_on(s, sep);
    if t.len() == 0 {
        assert(s + t =~= s);
        assert(r0.last() + t =~= r0.last());
        assert(r0.update(r0.len() - 1, r0.last()) =~= r0);
    } else {
        let u = t.drop_last();
        let c = t.last();
        assert(!u.contains(sep)) by {
            assert forall|i: int| 0 <= i < u.len() implies u[i] != sep by {
                assert(u[i] == t[i]);
            }
        }
        assert(c != sep) by {
            assert(t[t.len() - 1] == c);
        }
        lemma_split_append_plain(s, u, sep);
        assert((s + t).drop_last() =~= s + u);
        assert((s + t).last() == c);
        lemma_split_nonempty(s + u, sep);
        assert(r0.last() + u + seq![c] =~= r0.last() + t);
        let r1 = split_on(s + u, sep);
        assert(r1 == r0.update(r0.len() - 1, r0.last() + u));
        assert(r1.len() == r0.len());
        assert(r1.last() == r0.last() + u);
        assert(split_on(s + t, sep) == r1.update(r1.len() - 1, r1.last().push(c)));
        assert(r1.last().push(c) =~= r0.last() + t);
        assert(split_on(s + t, sep) =~= r0.update(r0.len() - 1, r0.last() + t));
    }
}

proof fn lemma_kept_push(ps: Seq<Seq<char>>, x: Seq<char>)
    ensures
        kept_pieces(ps.push(x)) == if x.len() == 0 || x == seq!['.'] {
            kept_pieces(ps)
        } else {
            kept_pieces(ps).push(x)
        },
{
    assert(ps.push(x).drop_last() =~= ps);
}

/// A plain name: not empty, no separator, not `.`.
pub open spec fn is_plain_name(a: Seq<char>) -> bool {
    a.len() > 0 && !a.contains('/') && a != seq!['.']
}

/// Joining a plain name onto a path that names a file or folder adds exactly
/// that name as the last component.
pub proof fn lemma_join_adds_component(p: Seq<char>, a: Seq<char>)
    requires
        file_name(p) is Some,
        is_plain_name(a),
    ensures
        components(join(p, a)) == components(p).push(a),
{
    let j = join(p, a);
    // p is neither empty nor ".".
    if p.len() == 0 {
        assert(split_on(p, '/') =~= seq![Seq::<char>::empty()]);
        assert(kept_pieces(seq![Seq::<char>::empty()]) =~= Seq::<Seq<char>>::empty()) by {
            lemma_kept_push(Seq::<Seq<char>>::empty(), Seq::<char>::empty());
            assert(Seq::<Seq<char>>::empty().push(Seq::<char>::empty()) =~= seq![Seq::<char>::empty()]);
        }
        assert(components(p).len() == 0);
        assert(false);
    }
    if p == seq!['.'] {
        assert(p.drop_last() =~= Seq::<char>::empty());
        assert(split_on(p.drop_last(), '/') =~= seq![Seq::<char>::empty()]);
        assert(split_on(p, '/') =~= seq![seq!['.']]);
        assert(kept_pieces(seq![seq!['.']]) =~= Seq::<Seq<char>>::empty()) by {
            lemma_kept_push(Seq::<Seq<char>>::empty(), seq!['.']);
            assert(Seq::<Seq<char>>::empty().push(seq!['.']) =~= seq![seq!['.']]);
        }
        assert(components(p) =~= seq![seq!['.']]);
        assert(false);
    }
    assert(!starts_with(a, seq!['/'])) by {
        if starts_with(a, seq!['/']) {
            assert(a.subrange(0, 1)[0] == a[0]);
            assert(a.contains('/'));
        }
    }
    lemma_split_nonempty(p, '/');
    if p.last() == '/' {
        assert(j == p + a);
        lemma_split_append_plain(p, a, '/');
        let q = p.drop_last();
        assert(q.push('/') =~= p);
        let rq = split_on(q, '/');
        assert(split_on(p, '/') == rq.push(Seq::<char>::empty()));
        assert(split_on(j, '/') =~= rq.push(Seq::<char>::empty() + a));
        assert(Seq::<char>::empty() + a =~= a);
        lemma_kept_push(rq, a);
        lemma_kept_push(rq, Seq::<char>::empty());
    } else {
        assert(j == p + seq!['/'] + a);
        let ps = p + seq!['/'];
        assert(ps.drop_last() =~= p);
        assert(split_on(ps, '/') == split_on(p, '/').push(Seq::<char>::empty()));
        lemma_split_append_plain(ps, a, '/');
        assert(split_on(j, '/') =~= split_on(p, '/').push(a)) by {
            assert(Seq::<char>::empty() + a =~= a);
        }
        lemma_kept_push(split_on(p, '/'), a);
    }
    // The leading component is that of p.
    assert(j.subrange(0, p.len() as int) =~= p);
    if starts_with(p, seq!['/']) {
        assert(j.subrange(0, 1) =~= p.subrange(0, 1));
    } else if starts_with(p, seq!['.', '/']) {
        assert(j.subrange(0, 2) =~= p.subrange(0, 2));
    } else {
        assert(!starts_with(j, seq!['/'])) by {
            if starts_with(j, seq!['/']) {
                assert(j.subrange(0, 1) =~= p.subrange(0, 1));
            }
        }
        assert(j != seq!['.']) by {
            assert(j.len() >= 2);
        }
        assert(!starts_with(j, seq!['.', '/'])) by {
            if starts_with(j, seq!['.', '/']) {
                if p.len() >= 2 {
                    assert(j.subrange(0, 2) =~= p.subrange(0, 2));
                } else {
                    assert(p[0] == j[0]);
                    assert(p =~= seq!['.']);
                }
            }
        }
    }
    assert(components(j) =~= components(p).push(a));
}

} // verus!
