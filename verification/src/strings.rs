//! Vectors of strings, viewed as sequences of char sequences.
use vstd::prelude::*;
use crate::text::owned;

verus! {

/// The chars of each string.
pub open spec fn strs(v: Seq<String>) -> Seq<Seq<char>> {
    v.map_values(|s: String| s@)
}

/// The chars of an optional string.
pub open spec fn opt_str(o: Option<String>) -> Option<Seq<char>> {
    match o {
        Some(s) => Some(s@),
        None => None,
    }
}

/// A copy of an optional string.
pub fn clone_opt(o: &Option<String>) -> (r: Option<String>)
    ensures
        r == *o,
{
    match o {
        Some(s) => Some(s.clone()),
        None => None,
    }
}

/// A copy of a vector of strings.
pub fn clone_strings(v: &Vec<String>) -> (r: Vec<String>)
    ensures
        r@ == v@,
        strs(r@) == strs(v@),
{
    let mut r: Vec<String> = Vec::new();
    let mut i: usize = 0;
    while i < v.len()
        invariant
            i <= v.len(),
            r@ == v@.take(i as int),
        decreases v.len() - i,
    {
        r.push(v[i].clone());
        i = i + 1;
        assert(r@ =~= v@.take(i as int));
    }
    assert(v@.take(v.len() as int) =~= v@);
    r
}

/// Appends an owned copy of `s` to `v`.
pub fn push_text(v: &mut Vec<String>, s: &str)
    ensures
        strs(final(v)@) == strs(old(v)@).push(s@),
{
    let t = owned(s);
    v.push(t);
    assert(strs(v@) =~= strs(old(v)@).push(s@));
}

/// Appends every string of `w` to `v`, in order.
pub fn extend_strings(v: &mut Vec<String>, w: Vec<String>)
    ensures
        strs(final(v)@) == strs(old(v)@) + strs(w@),
{
    let mut i: usize = 0;
    while i < w.len()
        invariant
            i <= w.len(),
            strs(v@) == strs(old(v)@) + strs(w@).take(i as int),
        decreases w.len() - i,
    {
        let ghost before = v@;
        let c = w[i].clone();
        v.push(c);
        assert(strs(v@) =~= strs(before).push(w@[i as int]@));
        assert(strs(w@).take(i + 1) =~= strs(w@).take(i as int).push(w@[i as int]@));
        i = i + 1;
        assert(strs(v@) =~= strs(old(v)@) + strs(w@).take(i as int));
    }
    assert(strs(w@).take(w.len() as int) =~= strs(w@));
}

} // verus!

verus! {

/// The strings joined with `sep` between them (`[..].join(sep)`).
pub open spec fn joined(v: Seq<Seq<char>>, sep: Seq<char>) -> Seq<char>
    decreases v.len(),
{
    if v.len() == 0 {
        Seq::<char>::empty()
    } else if v.len() == 1 {
        v[0]
    } else {
        joined(v.drop_last(), sep) + sep + v.last()
    }
}

/// The strings joined with `sep` between them.
pub fn join_strings(v: &Vec<String>, sep: &str) -> (r: String)
    ensures
        r@ == joined(strs(v@), sep@),
{
    let mut out: Vec<char> = Vec::new();
    let mut i: usize = 0;
    while i < v.len()
        invariant
            i <= v.len(),
            out@ == joined(strs(v@).take(i as int), sep@),
        decreases v.len() - i,
    {
        proof {
            assert(strs(v@).take(i + 1).drop_last() =~= strs(v@).take(i as int));
        }
        if i > 0 {
            crate::text::append_str(&mut out, sep);
        }
        crate::text::append_str(&mut out, v[i].as_str());
        proof {
            if i == 0 {
                assert(out@ =~= strs(v@).take(1)[0]);
            }
        }
        i = i + 1;
    }
    assert(strs(v@).take(v.len() as int) =~= strs(v@));
    crate::text::string_of(&out)
}

} // verus!
