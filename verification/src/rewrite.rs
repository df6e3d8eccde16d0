use vstd::prelude::*;
use crate::strutil::{chars_of, chars_start_with, copy_range, string_of_chars};

verus! {

// Pure path transformations shared by the capture pipelines. The dynamic
// ingress keeps exactly one trailing slash, while static registration keys
// keep none: the two normalizations are deliberately distinct.

/// The whitespace characters stripped from the ends of a configured path.
pub open spec fn is_ws(c: char) -> bool {
    c == ' ' || c == '\t' || c == '\n' || c == '\r'
}

/// `s` without its leading whitespace.
pub open spec fn trim_start_ws(s: Seq<char>) -> Seq<char>
    decreases s.len(),
{
    if s.len() > 0 && is_ws(s[0]) {
        trim_start_ws(s.drop_first())
    } else {
        s
    }
}

/// `s` without its trailing whitespace.
pub open spec fn trim_end_ws(s: Seq<char>) -> Seq<char>
    decreases s.len(),
{
    if s.len() > 0 && is_ws(s[s.len() - 1]) {
        trim_end_ws(s.drop_last())
    } else {
        s
    }
}

/// `s` without leading or trailing whitespace.
pub open spec fn spec_trim(s: Seq<char>) -> Seq<char> {
    trim_end_ws(trim_start_ws(s))
}

/// `s` without its leading slashes.
pub open spec fn trim_start_slashes(s: Seq<char>) -> Seq<char>
    decreases s.len(),
{
    if s.len() > 0 && s[0] == '/' {
        trim_start_slashes(s.drop_first())
    } else {
        s
    }
}

/// `s` without its trailing slashes.
pub open spec fn trim_end_slashes(s: Seq<char>) -> Seq<char>
    decreases s.len(),
{
    if s.len() > 0 && s[s.len() - 1] == '/' {
        trim_end_slashes(s.drop_last())
    } else {
        s
    }
}

/// `s` with every run of consecutive slashes shortened to one slash.
pub open spec fn collapse_slashes(s: Seq<char>) -> Seq<char>
    decreases s.len(),
{
    if s.len() == 0 {
        Seq::empty()
    } else if s.len() >= 2 && s[0] == '/' && s[1] == '/' {
        collapse_slashes(s.drop_first())
    } else {
        seq![s[0]] + collapse_slashes(s.drop_first())
    }
}

/// Removes leading and trailing whitespace characters.
pub fn trim_chars(v: &[char]) -> (r: Vec<char>)
    ensures
        r@ == spec_trim(v@),
{
    let mut lo: usize = 0;
    assert(v@.skip(0) =~= v@);
    while lo < v.len() && is_ws_exec(v[lo])
        invariant
            lo <= v@.len(),
            trim_start_ws(v@) == trim_start_ws(v@.skip(lo as int)),
        decreases v@.len() - lo,
    {
        assert(v@.skip(lo as int)[0] == v@[lo as int]);
        assert(v@.skip(lo as int).drop_first() =~= v@.skip(lo + 1));
        lo = lo + 1;
    }
    assert(trim_start_ws(v@.skip(lo as int)) == v@.skip(lo as int));
    let ghost t = v@.skip(lo as int);
    let mut hi: usize = v.len();
    assert(t.take(t.len() as int) =~= t);
    while hi > lo && is_ws_exec(v[hi - 1])
        invariant
            lo <= hi <= v@.len(),
            t == v@.skip(lo as int),
            trim_end_ws(t) == trim_end_ws(t.take(hi - lo as int)),
        decreases hi,
    {
        assert(t.take(hi - lo as int)[hi - lo - 1] == v@[hi - 1]);
        assert(t.take(hi - lo as int).drop_last() =~= t.take(hi - 1 - lo as int));
        hi = hi - 1;
    }
    assert(trim_end_ws(t.take(hi - lo as int)) == t.take(hi - lo as int));
    let r = copy_range(v, lo, hi);
    assert(r@ =~= t.take(hi - lo as int));
    r
}

fn is_ws_exec(c: char) -> (r: bool)
    ensures
        r == is_ws(c),
{
    c == ' ' || c == '\t' || c == '\n' || c == '\r'
}

/// Shortens every run of consecutive slashes to one slash.
pub fn collapse_chars(v: &[char]) -> (r: Vec<char>)
    ensures
        r@ == collapse_slashes(v@),
{
    let mut out: Vec<char> = Vec::new();
    let mut i: usize = 0;
    assert(v@.skip(0) =~= v@);
    while i < v.len()
        invariant
            i <= v@.len(),
            collapse_slashes(v@) == out@ + collapse_slashes(v@.skip(i as int)),
        decreases v@.len() - i,
    {
        let ghost s = v@.skip(i as int);
        assert(s[0] == v@[i as int]);
        assert(s.drop_first() =~= v@.skip(i + 1));
        if v[i] == '/' && i + 1 < v.len() && v[i + 1] == '/' {
            assert(s[1] == v@[i + 1]);
            assert(collapse_slashes(s) == collapse_slashes(v@.skip(i + 1)));
        } else {
            out.push(v[i]);
            assert(s.len() < 2 || s[0] != '/' || s[1] != '/') by {
                if s.len() >= 2 {
                    assert(s[1] == v@[i + 1]);
                }
            }
            assert(collapse_slashes(s) == seq![s[0]] + collapse_slashes(s.drop_first()));
            assert(out@ + collapse_slashes(v@.skip(i + 1)) =~= collapse_slashes(v@));
        }
        i = i + 1;
    }
    assert(collapse_slashes(v@.skip(i as int)) =~= Seq::<char>::empty());
    assert(out@ =~= collapse_slashes(v@));
    out
}

/// The dynamic-capture ingress form of a configured path: trimmed, with a
/// single leading slash and exactly one trailing slash.
pub open spec fn spec_normalize_ingress(s: Seq<char>) -> Seq<char> {
    let t = spec_trim(s);
    let u = if t.len() == 0 || t[0] != '/' {
        seq!['/'] + t
    } else {
        t
    };
    if u[u.len() - 1] != '/' {
        u.push('/')
    } else {
        u
    }
}

/// Normalizes a dynamic-capture ingress path: a single leading slash and
/// exactly one trailing slash, whitespace trimmed.
pub fn normalize_ingress(value: &str) -> (r: String)
    ensures
        r@ == spec_normalize_ingress(value@),
{
    let v = chars_of(value);
    let t = trim_chars(v.as_slice());
    let mut out: Vec<char> = Vec::new();
    if t.len() == 0 || t[0] != '/' {
        out.push('/');
        let mut i: usize = 0;
        while i < t.len()
            invariant
                i <= t@.len(),
                out@ == seq!['/'] + t@.take(i as int),
            decreases t@.len() - i,
        {
            out.push(t[i]);
            assert(out@ =~= seq!['/'] + t@.take(i + 1));
            i = i + 1;
        }
        assert(out@ =~= seq!['/'] + t@);
    } else {
        let mut i: usize = 0;
        while i < t.len()
            invariant
                i <= t@.len(),
                out@ == t@.take(i as int),
            decreases t@.len() - i,
        {
            out.push(t[i]);
            assert(out@ =~= t@.take(i + 1));
            i = i + 1;
        }
        assert(out@ =~= t@);
    }
    if out[out.len() - 1] != '/' {
        out.push('/');
    }
    string_of_chars(out.as_slice())
}

/// The static-registration form of a capture path: one trailing slash is
/// dropped when the path is longer than a bare slash.
pub open spec fn spec_normalize_capture_path(s: Seq<char>) -> Seq<char> {
    if s.len() > 1 && s[s.len() - 1] == '/' {
        s.drop_last()
    } else {
        s
    }
}

/// Normalizes a static-capture registration path: drops a single trailing
/// slash when the path is longer than a bare slash.
pub fn normalize_capture_path(path: &str) -> (r: String)
    ensures
        r@ == spec_normalize_capture_path(path@),
{
    let mut v = chars_of(path);
    if v.len() > 1 && v[v.len() - 1] == '/' {
        v.pop();
        assert(v@ =~= spec_normalize_capture_path(path@));
    }
    string_of_chars(v.as_slice())
}

/// The handler-prefix form of a configured UI path: trimmed, with a single
/// leading slash and no trailing slash; degenerate inputs become a bare
/// slash.
pub open spec fn spec_normalize_prefix(s: Seq<char>) -> Seq<char> {
    let t = spec_trim(s);
    if t.len() == 0 || t == seq!['/'] {
        seq!['/']
    } else {
        let u = if t[0] != '/' {
            seq!['/'] + t
        } else {
            t
        };
        let w = trim_end_slashes(u);
        if w.len() == 0 {
            seq!['/']
        } else {
            w
        }
    }
}

/// Normalizes a UI handler prefix: a single leading slash, no trailing
/// slash; empty or all-slash inputs become a bare slash.
pub fn normalize_prefix(prefix: &str) -> (r: String)
    ensures
        r@ == spec_normalize_prefix(prefix@),
{
    let v = chars_of(prefix);
    let t = trim_chars(v.as_slice());
    if t.len() == 0 || (t.len() == 1 && t[0] == '/') {
        assert(t@.len() == 1 ==> (t@ =~= seq!['/']) == (t@[0] == '/'));
        let mut out: Vec<char> = Vec::new();
        out.push('/');
        assert(out@ =~= seq!['/']);
        return string_of_chars(out.as_slice());
    }
    assert(t@ != seq!['/']) by {
        if t@.len() == 1 && t@ =~= seq!['/'] {
            assert(t@[0] == '/');
        }
    }
    let mut u: Vec<char> = Vec::new();
    if t[0] != '/' {
        u.push('/');
        let mut i: usize = 0;
        while i < t.len()
            invariant
                i <= t@.len(),
                u@ == seq!['/'] + t@.take(i as int),
            decreases t@.len() - i,
        {
            u.push(t[i]);
            assert(u@ =~= seq!['/'] + t@.take(i + 1));
            i = i + 1;
        }
        assert(u@ =~= seq!['/'] + t@);
    } else {
        let mut i: usize = 0;
        while i < t.len()
            invariant
                i <= t@.len(),
                u@ == t@.take(i as int),
            decreases t@.len() - i,
        {
            u.push(t[i]);
            assert(u@ =~= t@.take(i + 1));
            i = i + 1;
        }
        assert(u@ =~= t@);
    }
    let ghost uv = u@;
    let mut hi: usize = u.len();
    assert(uv.take(uv.len() as int) =~= uv);
    while hi > 0 && u[hi - 1] == '/'
        invariant
            hi <= uv.len(),
            u@ == uv,
            trim_end_slashes(uv) == trim_end_slashes(uv.take(hi as int)),
        decreases hi,
    {
        assert(uv.take(hi as int)[hi - 1] == uv[hi - 1]);
        assert(uv.take(hi as int).drop_last() =~= uv.take(hi - 1));
        hi = hi - 1;
    }
    assert(trim_end_slashes(uv.take(hi as int)) == uv.take(hi as int));
    let w = copy_range(u.as_slice(), 0, hi);
    assert(w@ =~= uv.take(hi as int));
    if w.len() == 0 {
        let mut out: Vec<char> = Vec::new();
        out.push('/');
        assert(out@ =~= seq!['/']);
        string_of_chars(out.as_slice())
    } else {
        string_of_chars(w.as_slice())
    }
}

/// What the handler prefix strips off a request path: the whole path under
/// the bare-slash prefix, a bare slash for the prefix itself, otherwise the
/// slash-led remainder; `None` when the path lies outside the prefix.
pub open spec fn spec_strip_prefix(prefix: Seq<char>, path: Seq<char>) -> Option<Seq<char>> {
    if prefix == seq!['/'] {
        Some(path)
    } else if path == prefix {
        Some(seq!['/'])
    } else if path.len() > prefix.len() && path.take(prefix.len() as int) == prefix && path[
        prefix.len() as int
    ] == '/' {
        Some(path.skip(prefix.len() as int))
    } else {
        None
    }
}

/// Strips a normalized handler prefix off a request path, keeping the
/// leading slash of the remainder.
pub fn strip_prefix(prefix: &str, path: &str) -> (r: Option<String>)
    ensures
        match r {
            Some(s) => spec_strip_prefix(prefix@, path@) == Some(s@),
            None => spec_strip_prefix(prefix@, path@) is None,
        },
{
    let pv = chars_of(prefix);
    let tv = chars_of(path);
    if pv.len() == 1 && pv[0] == '/' {
        assert(pv@ =~= seq!['/']);
        return Some(string_of_chars(tv.as_slice()));
    }
    assert(pv@ != seq!['/']) by {
        if pv@.len() == 1 && pv@ =~= seq!['/'] {
            assert(pv@[0] == '/');
        }
    }
    if crate::strutil::chars_eq(tv.as_slice(), pv.as_slice()) {
        let mut out: Vec<char> = Vec::new();
        out.push('/');
        assert(out@ =~= seq!['/']);
        return Some(string_of_chars(out.as_slice()));
    }
    if chars_start_with(tv.as_slice(), pv.as_slice()) && tv.len() > pv.len() && tv[pv.len()]
        == '/' {
        let rem = copy_range(tv.as_slice(), pv.len(), tv.len());
        assert(rem@ =~= tv@.skip(pv@.len() as int));
        return Some(string_of_chars(rem.as_slice()));
    }
    assert(!(tv@.len() > pv@.len() && tv@.take(pv@.len() as int) == pv@ && tv@[
        pv@.len() as int
    ] == '/')) by {
        if tv@.len() > pv@.len() && tv@.take(pv@.len() as int) == pv@ {
            assert(pv@.len() <= tv@.len());
        }
    }
    None
}

/// The capture-ingress rewrite of a prefixed path: the remainder after the
/// ingress, re-rooted at a single leading slash, slash runs collapsed, and
/// the query string re-appended verbatim.
pub open spec fn spec_rewritten_path(
    ingress: Seq<char>,
    path: Seq<char>,
    query: Option<Seq<char>>,
) -> Seq<char> {
    let rem = path.skip(ingress.len() as int);
    let norm = seq!['/'] + trim_start_slashes(rem);
    let collapsed = collapse_slashes(norm);
    match query {
        Some(q) => collapsed + seq!['?'] + q,
        None => collapsed,
    }
}

/// Rewrites a dynamic-capture request path against the ingress prefix.
/// Returns `None`, leaving the request as it came, when the path does not
/// start with the ingress.
pub fn rewrite_capture_path(ingress: &str, path: &str, query: Option<&str>) -> (r: Option<
    String,
>)
    ensures
        r is Some <==> (path@.len() >= ingress@.len() && path@.take(ingress@.len() as int)
            == ingress@),
        r matches Some(s) ==> s@ == spec_rewritten_path(
            ingress@,
            path@,
            match query {
                Some(q) => Some(q@),
                None => None,
            },
        ),
{
    let pv = chars_of(path);
    let iv = chars_of(ingress);
    if !chars_start_with(pv.as_slice(), iv.as_slice()) {
        return None;
    }
    let rem = copy_range(pv.as_slice(), iv.len(), pv.len());
    assert(rem@ =~= pv@.skip(iv@.len() as int));
    let mut j: usize = 0;
    assert(rem@.skip(0) =~= rem@);
    while j < rem.len() && rem[j] == '/'
        invariant
            j <= rem@.len(),
            trim_start_slashes(rem@) == trim_start_slashes(rem@.skip(j as int)),
        decreases rem@.len() - j,
    {
        assert(rem@.skip(j as int)[0] == rem@[j as int]);
        assert(rem@.skip(j as int).drop_first() =~= rem@.skip(j + 1));
        j = j + 1;
    }
    assert(trim_start_slashes(rem@.skip(j as int)) == rem@.skip(j as int));
    let mut norm: Vec<char> = Vec::new();
    norm.push('/');
    let mut k: usize = j;
    while k < rem.len()
        invariant
            j <= k <= rem@.len(),
            norm@ == seq!['/'] + rem@.subrange(j as int, k as int),
        decreases rem@.len() - k,
    {
        norm.push(rem[k]);
        assert(norm@ =~= seq!['/'] + rem@.subrange(j as int, k + 1));
        k = k + 1;
    }
    assert(rem@.subrange(j as int, rem@.len() as int) =~= rem@.skip(j as int));
    assert(norm@ =~= seq!['/'] + trim_start_slashes(rem@));
    let mut collapsed = collapse_chars(norm.as_slice());
    match query {
        Some(q) => {
            collapsed.push('?');
            let qv = chars_of(q);
            let mut i: usize = 0;
            let ghost base = collapsed@;
            while i < qv.len()
                invariant
                    i <= qv@.len(),
                    collapsed@ == base + qv@.take(i as int),
                decreases qv@.len() - i,
            {
                collapsed.push(qv[i]);
                assert(collapsed@ =~= base + qv@.take(i + 1));
                i = i + 1;
            }
            assert(collapsed@ =~= base + qv@);
            assert(collapsed@ =~= spec_rewritten_path(ingress@, path@, Some(q@)));
        },
        None => {},
    }
    Some(string_of_chars(collapsed.as_slice()))
}

/// A slash-led path run of slashes collapses around its head: collapsing
/// a slash followed by a remainder that does not itself start with a slash
/// keeps the head and collapses the remainder.
pub proof fn lemma_collapse_after_slash(r: Seq<char>)
    requires
        r.len() == 0 || r[0] != '/',
    ensures
        collapse_slashes(seq!['/'] + r) == seq!['/'] + collapse_slashes(r),
{
    let s = seq!['/'] + r;
    assert(s[0] == '/');
    assert(s.drop_first() =~= r);
    if r.len() == 0 {
        assert(collapse_slashes(r) =~= Seq::<char>::empty());
        assert(collapse_slashes(s) =~= seq!['/'] + collapse_slashes(r));
    } else {
        assert(s[1] == r[0]);
        assert(collapse_slashes(s) == seq![s[0]] + collapse_slashes(r));
        assert(seq![s[0]] + collapse_slashes(r) =~= seq!['/'] + collapse_slashes(r));
    }
}

/// The rewrite is loss-free on prefixed paths: for a prefix ending in a
/// slash and a remainder not starting with one, rewriting the joined path
/// against the prefix yields the remainder re-rooted at a single slash with
/// its slash runs collapsed, and the query string appended unchanged.
pub proof fn lemma_rewrite_prefixed(prefix: Seq<char>, rest: Seq<char>, query: Option<Seq<char>>)
    requires
        prefix.len() > 0,
        prefix[prefix.len() - 1] == '/',
        rest.len() == 0 || rest[0] != '/',
    ensures
        (prefix + rest).len() >= prefix.len(),
        (prefix + rest).take(prefix.len() as int) == prefix,
        spec_rewritten_path(prefix, prefix + rest, query) == match query {
            Some(q) => seq!['/'] + collapse_slashes(rest) + seq!['?'] + q,
            None => seq!['/'] + collapse_slashes(rest),
        },
{
    let path = prefix + rest;
    assert(path.take(prefix.len() as int) =~= prefix);
    assert(path.skip(prefix.len() as int) =~= rest);
    assert(trim_start_slashes(rest) == rest);
    lemma_collapse_after_slash(rest);
}

} // verus!
