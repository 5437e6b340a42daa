//! Base-URL normalisation: a client is constructed from a base URL whose
//! trailing slashes are stripped before the URL is parsed.

use vstd::prelude::*;

verus! {

/// The string `s` without its maximal suffix of `'/'` characters.
pub open spec fn spec_strip_trailing_slashes(s: Seq<char>) -> Seq<char>
    decreases s.len(),
{
    if s.len() > 0 && s.last() == '/' {
        spec_strip_trailing_slashes(s.drop_last())
    } else {
        s
    }
}

/// Whether a string parses as a valid absolute URL. The parser's verdict is a
/// function of the string alone; it is not spelled out here.
pub uninterp spec fn spec_url_ok(s: Seq<char>) -> bool;

/// Relies on reqwest::Url::parse (the url crate's parser): success depends on
/// the string alone; on failure the parser's diagnostic text is returned.
#[verifier::external_body]
pub(crate) fn parse_url_check(s: &str) -> (r: Result<(), String>)
    ensures
        r is Ok <==> spec_url_ok(s@),
{
    match reqwest::Url::parse(s) {
        Ok(_) => Ok(()),
        Err(e) => Err(e.to_string()),
    }
}

/// Stripping is exact: what remains is a prefix of `s`, it does not end in
/// `'/'`, and every character removed was a `'/'`.
pub proof fn lemma_strip_trailing_slashes(s: Seq<char>)
    ensures
        spec_strip_trailing_slashes(s).len() <= s.len(),
        spec_strip_trailing_slashes(s) == s.subrange(
            0,
            spec_strip_trailing_slashes(s).len() as int,
        ),
        spec_strip_trailing_slashes(s).len() > 0 ==> spec_strip_trailing_slashes(s).last() != '/',
        forall|i: int|
            spec_strip_trailing_slashes(s).len() <= i < s.len() ==> s[i] == '/',
    decreases s.len(),
{
    if s.len() > 0 && s.last() == '/' {
        let t = s.drop_last();
        lemma_strip_trailing_slashes(t);
        let k = spec_strip_trailing_slashes(t).len() as int;
        assert(t.subrange(0, k) =~= s.subrange(0, k));
        assert(forall|i: int| k <= i < t.len() ==> s[i] == t[i] && t[i] == '/');
    } else {
        assert(spec_strip_trailing_slashes(s) =~= s.subrange(0, s.len() as int));
    }
}

/// Removes every trailing `'/'` from `s`, and nothing else.
pub fn strip_trailing_slashes(s: &str) -> (r: &str)
    ensures
        r@ == spec_strip_trailing_slashes(s@),
{
    let mut end: usize = s.unicode_len();
    proof {
        assert(s@.subrange(0, end as int) =~= s@);
    }
    while end > 0 && s.get_char(end - 1) == '/'
        invariant
            end <= s@.len(),
            spec_strip_trailing_slashes(s@) == spec_strip_trailing_slashes(
                s@.subrange(0, end as int),
            ),
        decreases end,
    {
        proof {
            let sub = s@.subrange(0, end as int);
            assert(sub.last() == s@[end as int - 1]);
            assert(sub.drop_last() =~= s@.subrange(0, end as int - 1));
        }
        end = end - 1;
    }
    proof {
        let sub = s@.subrange(0, end as int);
        if end > 0 {
            assert(sub.last() == s@[end as int - 1]);
        }
        assert(sub == spec_strip_trailing_slashes(sub));
    }
    s.substring_char(0, end)
}

} // verus!
