//! The order of paths (`PathBuf`'s, component by component) and the sorted list
//! of the MKV files among given paths.
use vstd::prelude::*;
use crate::paths::{components, extension, file_name, is_mkv_path, path_components, same_chars, views};
use crate::strings::strs;

verus! {

/// Text in code-point order, a prefix first (the order of `str`, which is that
/// of its UTF-8 bytes).
pub open spec fn text_less(a: Seq<char>, b: Seq<char>) -> bool
    decreases a.len(),
{
    if a.len() == 0 {
        b.len() > 0
    } else if b.len() == 0 {
        false
    } else if a[0] != b[0] {
        a[0] < b[0]
    } else {
        text_less(a.drop_first(), b.drop_first())
    }
}

/// The place of a component's kind in the order of path components: the root,
/// a current directory, a parent directory, then names.
pub open spec fn component_rank(c: Seq<char>) -> int {
    if c == seq!['/'] {
        0
    } else if c == seq!['.'] {
        1
    } else if c == seq!['.', '.'] {
        2
    } else {
        3
    }
}

/// The order of two components: by kind, and names by their text.
pub open spec fn component_less(a: Seq<char>, b: Seq<char>) -> bool {
    component_rank(a) < component_rank(b) || (component_rank(a) == 3 && component_rank(b) == 3
        && text_less(a, b))
}

/// Component lists in lexicographic order, a prefix first.
pub open spec fn components_less(a: Seq<Seq<char>>, b: Seq<Seq<char>>) -> bool
    decreases a.len(),
{
    if a.len() == 0 {
        b.len() > 0
    } else if b.len() == 0 {
        false
    } else if a[0] != b[0] {
        component_less(a[0], b[0])
    } else {
        components_less(a.drop_first(), b.drop_first())
    }
}

/// Whether path `a` comes before path `b` (`PathBuf`'s order).
pub open spec fn path_less(a: Seq<char>, b: Seq<char>) -> bool {
    components_less(components(a), components(b))
}

/// Whether a path names an MKV file.
pub open spec fn is_mkv_text(p: Seq<char>) -> bool {
    file_name(p) matches Some(n) && extension(n) == Some("mkv"@)
}

/// The test of `is_mkv_text` as a predicate.
pub open spec fn mkv_pred() -> spec_fn(Seq<char>) -> bool {
    |q: Seq<char>| is_mkv_text(q)
}

/// The MKV paths among `s`, in their order.
pub open spec fn mkv_only(s: Seq<Seq<char>>) -> Seq<Seq<char>> {
    s.filter(mkv_pred())
}

/// The paths that have the same components as `p`: those that no order tells apart from it.
pub open spec fn same_place(p: Seq<char>) -> spec_fn(Seq<char>) -> bool {
    |q: Seq<char>| components(q) == components(p)
}

proof fn lemma_text_irreflexive(a: Seq<char>)
    ensures
        !text_less(a, a),
    decreases a.len(),
{
    if a.len() > 0 {
        lemma_text_irreflexive(a.drop_first());
    }
}

proof fn lemma_text_total(a: Seq<char>, b: Seq<char>)
    requires
        a != b,
    ensures
        text_less(a, b) || text_less(b, a),
    decreases a.len(),
{
    if a.len() > 0 && b.len() > 0 {
        if a[0] == b[0] {
            if a.drop_first() == b.drop_first() {
                assert(a =~= seq![a[0]] + a.drop_first());
                assert(b =~= seq![b[0]] + b.drop_first());
            }
            lemma_text_total(a.drop_first(), b.drop_first());
        }
    } else if a.len() == 0 && b.len() == 0 {
        assert(a =~= b);
    }
}

proof fn lemma_text_transitive(a: Seq<char>, b: Seq<char>, c: Seq<char>)
    requires
        text_less(a, b),
        text_less(b, c),
    ensures
        text_less(a, c),
    decreases a.len(),
{
    if a.len() > 0 && b.len() > 0 && c.len() > 0 && a[0] == b[0] && b[0] == c[0] {
        lemma_text_transitive(a.drop_first(), b.drop_first(), c.drop_first());
    }
}

proof fn lemma_component_facts(a: Seq<char>, b: Seq<char>, c: Seq<char>)
    ensures
        !component_less(a, a),
        a != b ==> component_less(a, b) || component_less(b, a),
        component_less(a, b) && component_less(b, c) ==> component_less(a, c),
{
    lemma_text_irreflexive(a);
    if a != b {
        if component_rank(a) == 3 && component_rank(b) == 3 {
            lemma_text_total(a, b);
        }
    }
    if component_less(a, b) && component_less(b, c) && component_rank(a) == 3 && component_rank(c) == 3 {
        lemma_text_transitive(a, b, c);
    }
}

/// No component list comes before itself.
pub proof fn lemma_components_irreflexive(a: Seq<Seq<char>>)
    ensures
        !components_less(a, a),
    decreases a.len(),
{
    if a.len() > 0 {
        lemma_components_irreflexive(a.drop_first());
    }
}

/// Of two different component lists, one comes first.
pub proof fn lemma_components_total(a: Seq<Seq<char>>, b: Seq<Seq<char>>)
    requires
        a != b,
    ensures
        components_less(a, b) || components_less(b, a),
    decreases a.len(),
{
    if a.len() > 0 && b.len() > 0 {
        if a[0] == b[0] {
            if a.drop_first() == b.drop_first() {
                assert(a =~= seq![a[0]] + a.drop_first());
                assert(b =~= seq![b[0]] + b.drop_first());
            }
            lemma_components_total(a.drop_first(), b.drop_first());
        } else {
            lemma_component_facts(a[0], b[0], a[0]);
        }
    } else if a.len() == 0 && b.len() == 0 {
        assert(a =~= b);
    }
}

/// The order of component lists is transitive.
pub proof fn lemma_components_transitive(a: Seq<Seq<char>>, b: Seq<Seq<char>>, c: Seq<Seq<char>>)
    requires
        components_less(a, b),
        components_less(b, c),
    ensures
        components_less(a, c),
    decreases a.len(),
{
    if a.len() > 0 && b.len() > 0 && c.len() > 0 {
        lemma_component_facts(a[0], b[0], c[0]);
        lemma_component_facts(b[0], a[0], c[0]);
        lemma_component_facts(c[0], a[0], b[0]);
        if a[0] == b[0] && b[0] == c[0] {
            lemma_components_transitive(a.drop_first(), b.drop_first(), c.drop_first());
        }
    }
}

/// "Not after" is transitive: if `b` is not before `a` and `c` not before `b`,
/// `c` is not before `a`.
proof fn lemma_not_less_transitive(a: Seq<Seq<char>>, b: Seq<Seq<char>>, c: Seq<Seq<char>>)
    requires
        !components_less(b, a),
        !components_less(c, b),
    ensures
        !components_less(c, a),
{
    if components_less(c, a) {
        if a != b {
            lemma_components_total(a, b);
            lemma_components_transitive(c, a, b);
            if b != c {
                lemma_components_total(b, c);
                lemma_components_transitive(b, c, b);
                lemma_components_irreflexive(b);
            } else {
                lemma_components_irreflexive(b);
            }
        }
    }
}

proof fn lemma_filter_push(s: Seq<Seq<char>>, x: Seq<char>, pred: spec_fn(Seq<char>) -> bool)
    ensures
        s.push(x).filter(pred) == if pred(x) {
            s.filter(pred).push(x)
        } else {
            s.filter(pred)
        },
{
    reveal(Seq::filter);
    assert(s.push(x).drop_last() =~= s);
}

fn chars_less(a: &Vec<char>, b: &Vec<char>) -> (r: bool)
    ensures
        r == text_less(a@, b@),
{
    let mut i: usize = 0;
    assert(a@.skip(0) =~= a@);
    assert(b@.skip(0) =~= b@);
    while i < a.len() && i < b.len() && a[i] == b[i]
        invariant
            i <= a.len(),
            i <= b.len(),
            text_less(a@, b@) == text_less(a@.skip(i as int), b@.skip(i as int)),
        decreases a.len() - i,
    {
        assert(a@.skip(i as int).drop_first() =~= a@.skip(i + 1));
        assert(b@.skip(i as int).drop_first() =~= b@.skip(i + 1));
        i = i + 1;
    }
    assert(i < a.len() ==> a@.skip(i as int)[0] == a@[i as int]);
    assert(i < b.len() ==> b@.skip(i as int)[0] == b@[i as int]);
    if i == a.len() {
        i < b.len()
    } else if i == b.len() {
        false
    } else {
        a[i] < b[i]
    }
}

fn rank_of(c: &Vec<char>) -> (r: u8)
    ensures
        r == component_rank(c@),
{
    if c.len() == 1 && c[0] == '/' {
        assert(c@ =~= seq!['/']);
        0
    } else if c.len() == 1 && c[0] == '.' {
        assert(c@ =~= seq!['.']);
        1
    } else if c.len() == 2 && c[0] == '.' && c[1] == '.' {
        assert(c@ =~= seq!['.', '.']);
        2
    } else {
        3
    }
}

fn component_precedes(a: &Vec<char>, b: &Vec<char>) -> (r: bool)
    ensures
        r == component_less(a@, b@),
{
    let ra = rank_of(a);
    let rb = rank_of(b);
    if ra < rb {
        true
    } else {
        ra == 3 && rb == 3 && chars_less(a, b)
    }
}

fn components_precede(a: &Vec<Vec<char>>, b: &Vec<Vec<char>>) -> (r: bool)
    ensures
        r == components_less(views(a@), views(b@)),
{
    let mut i: usize = 0;
    assert(views(a@).skip(0) =~= views(a@));
    assert(views(b@).skip(0) =~= views(b@));
    while i < a.len() && i < b.len() && same_chars(&a[i], &b[i])
        invariant
            i <= a.len(),
            i <= b.len(),
            components_less(views(a@), views(b@)) == components_less(
                views(a@).skip(i as int),
                views(b@).skip(i as int),
            ),
        decreases a.len() - i,
    {
        assert(views(a@).skip(i as int).drop_first() =~= views(a@).skip(i + 1));
        assert(views(b@).skip(i as int).drop_first() =~= views(b@).skip(i + 1));
        i = i + 1;
    }
    assert(i < a.len() ==> views(a@).skip(i as int)[0] == a@[i as int]@);
    assert(i < b.len() ==> views(b@).skip(i as int)[0] == b@[i as int]@);
    if i == a.len() {
        i < b.len()
    } else if i == b.len() {
        false
    } else {
        component_precedes(&a[i], &b[i])
    }
}

/// Whether path `a` comes before path `b` in `PathBuf`'s order.
pub fn path_precedes(a: &str, b: &str) -> (r: bool)
    ensures
        r == path_less(a@, b@),
{
    let ca = path_components(a);
    let cb = path_components(b);
    components_precede(&ca, &cb)
}

/// No path of `s` comes after one that comes before it.
pub open spec fn paths_sorted(s: Seq<Seq<char>>) -> bool {
    forall|a: int, b: int| 0 <= a < b < s.len() ==> !path_less(#[trigger] s[b], #[trigger] s[a])
}

/// The MKV paths among `paths`, in their order.
pub fn mkv_paths(paths: &Vec<String>) -> (r: Vec<String>)
    ensures
        strs(r@) == mkv_only(strs(paths@)),
{
    let mut out: Vec<String> = Vec::new();
    let mut i: usize = 0;
    while i < paths.len()
        invariant
            i <= paths.len(),
            strs(out@) == mkv_only(strs(paths@).take(i as int)),
        decreases paths.len() - i,
    {
        proof {
            assert(strs(paths@).take(i + 1) =~= strs(paths@).take(i as int).push(paths@[i as int]@));
            lemma_filter_push(strs(paths@).take(i as int), paths@[i as int]@, mkv_pred());
        }
        if is_mkv_path(paths[i].as_str()) {
            let ghost o = out@;
            out.push(paths[i].clone());
            assert(strs(out@) =~= strs(o).push(paths@[i as int]@));
        }
        i = i + 1;
    }
    assert(strs(paths@).take(paths.len() as int) =~= strs(paths@));
    out
}

/// `paths` sorted as `PathBuf`s sort: no path after one that comes before it,
/// and the paths that are the same place kept in the order they were given
/// (the sort is stable).
pub fn sort_paths(paths: &Vec<String>) -> (r: Vec<String>)
    ensures
        paths_sorted(strs(r@)),
        forall|p: Seq<char>| #[trigger] strs(r@).filter(same_place(p)) == strs(paths@).filter(same_place(p)),
{
    let mut out: Vec<String> = Vec::new();
    let mut i: usize = 0;
    while i < paths.len()
        invariant
            i <= paths.len(),
            forall|a: int, b: int| 0 <= a < b < out.len() ==> !path_less(#[trigger] out@[b]@, #[trigger] out@[a]@),
            forall|p: Seq<char>|
                #[trigger] strs(out@).filter(same_place(p)) == strs(paths@).take(i as int).filter(same_place(p)),
        decreases paths.len() - i,
    {
        assert(strs(paths@).take(i + 1) =~= strs(paths@).take(i as int).push(paths@[i as int]@));
        let x = paths[i].clone();
        let mut k = out.len();
        while k > 0 && path_precedes(x.as_str(), out[k - 1].as_str())
            invariant
                k <= out.len(),
                forall|j: int| k <= j < out.len() ==> path_less(x@, #[trigger] out@[j]@),
            decreases k,
        {
            k = k - 1;
        }
        let ghost before = out@;
        proof {
            assert forall|a: int| 0 <= a < k implies !path_less(x@, #[trigger] before[a]@) by {
                if a < k - 1 {
                    assert(!path_less(out@[k - 1]@, out@[a]@));
                    lemma_not_less_transitive(components(before[a]@), components(before[k - 1]@), components(x@));
                }
            }
        }
        out.insert(k, x);
        proof {
            let s0 = strs(before);
            let xs = x@;
            assert(strs(out@) =~= s0.take(k as int).push(xs) + s0.skip(k as int));
            assert(s0 =~= s0.take(k as int) + s0.skip(k as int));
            assert forall|a: int, b: int| 0 <= a < b < out.len() implies !path_less(
                #[trigger] out@[b]@,
                #[trigger] out@[a]@,
            ) by {
                if b == k {
                    assert(out@[a] == before[a]);
                } else if a == k {
                    assert(out@[b] == before[b - 1]);
                    if path_less(before[b - 1]@, xs) {
                        lemma_components_transitive(components(xs), components(before[b - 1]@), components(xs));
                        lemma_components_irreflexive(components(xs));
                    }
                } else if a < k {
                    if b < k {
                        assert(out@[b] == before[b]);
                    } else {
                        assert(out@[b] == before[b - 1]);
                    }
                    assert(out@[a] == before[a]);
                } else {
                    assert(out@[a] == before[a - 1]);
                    assert(out@[b] == before[b - 1]);
                }
            }
            assert forall|p: Seq<char>|
                #[trigger] strs(out@).filter(same_place(p)) == strs(paths@).take(i + 1).filter(same_place(p)) by {
                let pred = same_place(p);
                let lo = s0.take(k as int);
                let hi = s0.skip(k as int);
                Seq::filter_distributes_over_add(lo.push(xs), hi, pred);
                Seq::filter_distributes_over_add(lo, hi, pred);
                lemma_filter_push(lo, xs, pred);
                lemma_filter_push(strs(paths@).take(i as int), xs, pred);
                if pred(xs) {
                    assert forall|j: int| 0 <= j < hi.len() implies !pred(#[trigger] hi[j]) by {
                        assert(hi[j] == before[k + j]@);
                        lemma_components_irreflexive(components(xs));
                    }
                    hi.lemma_all_neg_filter_empty(pred);
                    assert(hi.filter(pred) =~= Seq::<Seq<char>>::empty());
                    assert(lo.filter(pred) + Seq::<Seq<char>>::empty() =~= lo.filter(pred));
                    assert(lo.filter(pred).push(xs) + Seq::<Seq<char>>::empty() =~= lo.filter(pred).push(xs));
                }
            }
        }
        i = i + 1;
    }
    assert(strs(paths@).take(paths.len() as int) =~= strs(paths@));
    assert forall|a: int, b: int| 0 <= a < b < out.len() implies !path_less(
        #[trigger] strs(out@)[b],
        #[trigger] strs(out@)[a],
    ) by {
        assert(!path_less(out@[b]@, out@[a]@));
    }
    out
}

/// The MKV files among `paths`, sorted as `PathBuf`s sort (stably).
pub fn mkv_files_sorted(paths: &Vec<String>) -> (r: Vec<String>)
    ensures
        paths_sorted(strs(r@)),
        forall|p: Seq<char>|
            #[trigger] strs(r@).filter(same_place(p)) == mkv_only(strs(paths@)).filter(same_place(p)),
{
    let found = mkv_paths(paths);
    sort_paths(&found)
}

} // verus!
