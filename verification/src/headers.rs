//! Header lists: ordered name/value pairs, duplicates allowed. The effective
//! value of a header name is the value of its last occurrence, so appending
//! caller-supplied pairs after the client's defaults gives the caller's value
//! precedence on a name collision.

use vstd::prelude::*;
use vstd::string::StringExecFns;

verus! {

/// The mathematical view of a header list: the sequence of its pairs'
/// character sequences, in order.
pub open spec fn pairs_view(s: Seq<(String, String)>) -> Seq<(Seq<char>, Seq<char>)> {
    Seq::new(s.len(), |i: int| (s[i].0@, s[i].1@))
}

/// The effective value of `name` in `hs`: the value of the last pair whose
/// name is `name`, if any.
pub open spec fn spec_lookup(hs: Seq<(Seq<char>, Seq<char>)>, name: Seq<char>) -> Option<
    Seq<char>,
>
    decreases hs.len(),
{
    if hs.len() == 0 {
        None
    } else if hs.last().0 == name {
        Some(hs.last().1)
    } else {
        spec_lookup(hs.drop_last(), name)
    }
}

/// Appending a pair to a list appends its view to the list's view.
pub proof fn lemma_pairs_view_push(s: Seq<(String, String)>, p: (String, String))
    ensures
        pairs_view(s.push(p)) == pairs_view(s).push((p.0@, p.1@)),
{
    assert(pairs_view(s.push(p)) =~= pairs_view(s).push((p.0@, p.1@)));
}

/// The effective value of `name` in `hs` (last occurrence wins).
pub fn lookup_header<'a>(hs: &'a Vec<(String, String)>, name: &str) -> (r: Option<&'a String>)
    ensures
        match r {
            Some(v) => spec_lookup(pairs_view(hs@), name@) == Some(v@),
            None => spec_lookup(pairs_view(hs@), name@) is None,
        },
{
    let needle = String::from_str(name);
    let mut i: usize = hs.len();
    proof {
        assert(pairs_view(hs@).subrange(0, i as int) =~= pairs_view(hs@));
    }
    while i > 0
        invariant
            i <= hs.len(),
            needle@ == name@,
            spec_lookup(pairs_view(hs@), name@) == spec_lookup(
                pairs_view(hs@).subrange(0, i as int),
                name@,
            ),
        decreases i,
    {
        proof {
            let sub = pairs_view(hs@).subrange(0, i as int);
            assert(sub.last() == pairs_view(hs@)[i - 1]);
            assert(sub.drop_last() =~= pairs_view(hs@).subrange(0, i as int - 1));
        }
        i = i - 1;
        if hs[i].0 == needle {
            proof {
                assert(pairs_view(hs@)[i as int] == (hs@[i as int].0@, hs@[i as int].1@));
            }
            return Some(&hs[i].1);
        }
    }
    proof {
        assert(pairs_view(hs@).subrange(0, 0) =~= Seq::<(Seq<char>, Seq<char>)>::empty());
    }
    None
}

/// A copy of a header list, pair by pair.
pub fn clone_pairs(src: &Vec<(String, String)>) -> (r: Vec<(String, String)>)
    ensures
        pairs_view(r@) == pairs_view(src@),
{
    let mut r: Vec<(String, String)> = Vec::new();
    proof {
        assert(pairs_view(r@) =~= pairs_view(src@).subrange(0, 0));
    }
    let mut i: usize = 0;
    while i < src.len()
        invariant
            i <= src.len(),
            pairs_view(r@) == pairs_view(src@).subrange(0, i as int),
        decreases src.len() - i,
    {
        let pair = (src[i].0.clone(), src[i].1.clone());
        let ghost prev = r@;
        r.push(pair);
        proof {
            lemma_pairs_view_push(prev, pair);
            assert((pair.0@, pair.1@) == pairs_view(src@)[i as int]);
            assert(pairs_view(r@) =~= pairs_view(src@).subrange(0, i + 1));
        }
        i = i + 1;
    }
    proof {
        assert(pairs_view(src@).subrange(0, src@.len() as int) =~= pairs_view(src@));
    }
    r
}

/// Appends a copy of every pair of `src` to `dst`, in order.
pub fn append_pairs(dst: &mut Vec<(String, String)>, src: &Vec<(String, String)>)
    ensures
        pairs_view(final(dst)@) == pairs_view(old(dst)@) + pairs_view(src@),
{
    proof {
        assert(pairs_view(dst@) + pairs_view(src@).subrange(0, 0) =~= pairs_view(dst@));
    }
    let mut i: usize = 0;
    while i < src.len()
        invariant
            i <= src.len(),
            pairs_view(dst@) == pairs_view(old(dst)@) + pairs_view(src@).subrange(0, i as int),
        decreases src.len() - i,
    {
        let pair = (src[i].0.clone(), src[i].1.clone());
        let ghost prev = dst@;
        dst.push(pair);
        proof {
            lemma_pairs_view_push(prev, pair);
            assert((pair.0@, pair.1@) == pairs_view(src@)[i as int]);
            assert(pairs_view(dst@) =~= pairs_view(old(dst)@) + pairs_view(src@).subrange(
                0,
                i + 1,
            ));
        }
        i = i + 1;
    }
    proof {
        assert(pairs_view(old(dst)@) + pairs_view(src@).subrange(0, src@.len() as int)
            =~= pairs_view(old(dst)@) + pairs_view(src@));
    }
}

/// Appending a single pair — as the authentication capability's contribution
/// is appended — takes effect only for that pair's own name: it becomes the
/// effective value for that name and leaves every other name's value alone.
pub proof fn lemma_lookup_after_append_one(
    hs: Seq<(Seq<char>, Seq<char>)>,
    p: (Seq<char>, Seq<char>),
    name: Seq<char>,
)
    ensures
        name == p.0 ==> spec_lookup(hs.push(p), name) == Some(p.1),
        name != p.0 ==> spec_lookup(hs.push(p), name) == spec_lookup(hs, name),
{
    assert(hs.push(p).drop_last() =~= hs);
}

/// Last-wins merge: in `defaults + overrides`, a name that occurs among the
/// overrides takes the overrides' effective value, and a name that does not
/// keeps the defaults' effective value.
pub proof fn lemma_merge_last_wins(
    defaults: Seq<(Seq<char>, Seq<char>)>,
    overrides: Seq<(Seq<char>, Seq<char>)>,
    name: Seq<char>,
)
    ensures
        spec_lookup(defaults + overrides, name) == if spec_lookup(overrides, name) is Some {
            spec_lookup(overrides, name)
        } else {
            spec_lookup(defaults, name)
        },
    decreases overrides.len(),
{
    if overrides.len() == 0 {
        assert(defaults + overrides =~= defaults);
    } else {
        let merged = defaults + overrides;
        assert(merged.last() == overrides.last());
        assert(merged.drop_last() =~= defaults + overrides.drop_last());
        lemma_merge_last_wins(defaults, overrides.drop_last(), name);
    }
}

} // verus!
