use vstd::prelude::*;
use vstd::string::StrSliceExecFns;
use vstd::string::StringSliceAdditionalSpecFns;
use vstd::utf8::encode_utf8;
use crate::rewrite::{
    normalize_prefix, spec_normalize_prefix, spec_strip_prefix, strip_prefix, trim_end_slashes,
    trim_start_slashes,
};
use crate::strutil::{chars_of, copy_range, str_eq, string_of_chars};

verus! {

// Serves a plugin's web UI out of an in-memory asset set: a list of
// (virtual path, contents) pairs that the embedding application extracts
// from wherever the files are compiled in or loaded from.

/// The byte sequence of the CSRF placeholder, `{{.csrfToken}}`.
pub open spec fn spec_csrf_pattern() -> Seq<u8> {
    seq![123u8, 123u8, 46u8, 99u8, 115u8, 114u8, 102u8, 84u8, 111u8, 107u8, 101u8, 110u8, 125u8, 125u8]
}

fn csrf_pattern() -> (r: Vec<u8>)
    ensures
        r@ == spec_csrf_pattern(),
{
    let mut r: Vec<u8> = Vec::new();
    r.push(123);
    r.push(123);
    r.push(46);
    r.push(99);
    r.push(115);
    r.push(114);
    r.push(102);
    r.push(84);
    r.push(111);
    r.push(107);
    r.push(101);
    r.push(110);
    r.push(125);
    r.push(125);
    assert(r@ =~= spec_csrf_pattern());
    r
}

/// `s` with every occurrence of `pat` replaced by `rep`, scanning left to
/// right without overlap.
pub open spec fn spec_replace(s: Seq<u8>, pat: Seq<u8>, rep: Seq<u8>) -> Seq<u8>
    decreases s.len(),
{
    if pat.len() > 0 && s.len() >= pat.len() && s.take(pat.len() as int) == pat {
        rep + spec_replace(s.skip(pat.len() as int), pat, rep)
    } else if s.len() == 0 {
        s
    } else {
        seq![s[0]] + spec_replace(s.drop_first(), pat, rep)
    }
}

#[verifier::loop_isolation(false)]
fn bytes_match_at(v: &[u8], start: usize, p: &[u8]) -> (r: bool)
    requires
        start <= v@.len(),
    ensures
        r == (start + p@.len() <= v@.len() && v@.subrange(
            start as int,
            start + p@.len(),
        ) == p@),
{
    if p.len() > v.len() - start {
        return false;
    }
    let mut i: usize = 0;
    while i < p.len()
        invariant
            i <= p@.len(),
            start + p@.len() <= v@.len(),
            forall|j: int| 0 <= j < i ==> v@[start + j] == p@[j],
        decreases p@.len() - i,
    {
        if v[start + i] != p[i] {
            assert(v@.subrange(start as int, start + p@.len())[i as int] != p@[i as int]);
            return false;
        }
        i = i + 1;
    }
    assert(v@.subrange(start as int, start + p@.len()) =~= p@);
    true
}

/// Substitutes the CSRF token into an HTML template: every occurrence of
/// the placeholder is replaced by `csrf`; other bytes pass through
/// unchanged.
#[verifier::loop_isolation(false)]
pub fn render_html(bytes: &[u8], csrf: &str) -> (r: Vec<u8>)
    ensures
        r@ == spec_replace(bytes@, spec_csrf_pattern(), encode_utf8(csrf@)),
{
    let pat = csrf_pattern();
    let rep = csrf.as_bytes_vec();
    assert(rep@ == encode_utf8(csrf@));
    let mut out: Vec<u8> = Vec::new();
    let mut i: usize = 0;
    assert(bytes@.skip(0) =~= bytes@);
    while i < bytes.len()
        invariant
            i <= bytes@.len(),
            spec_replace(bytes@, pat@, rep@) == out@ + spec_replace(
                bytes@.skip(i as int),
                pat@,
                rep@,
            ),
        decreases bytes@.len() - i,
    {
        let ghost s = bytes@.skip(i as int);
        if bytes_match_at(bytes, i, pat.as_slice()) {
            proof {
                assert(s.take(pat@.len() as int) =~= bytes@.subrange(i as int, i + pat@.len()));
                assert(s.skip(pat@.len() as int) =~= bytes@.skip(i + pat@.len()));
            }
            let mut j: usize = 0;
            let ghost mid = out@;
            while j < rep.len()
                invariant
                    j <= rep@.len(),
                    out@ == mid + rep@.take(j as int),
                decreases rep@.len() - j,
            {
                out.push(rep[j]);
                assert(out@ =~= mid + rep@.take(j + 1));
                j = j + 1;
            }
            assert(out@ =~= mid + rep@);
            i = i + pat.len();
        } else {
            proof {
                assert(!(pat@.len() > 0 && s.len() >= pat@.len() && s.take(pat@.len() as int)
                    == pat@)) by {
                    if pat@.len() <= s.len() {
                        assert(s.take(pat@.len() as int) =~= bytes@.subrange(
                            i as int,
                            i + pat@.len(),
                        ));
                    }
                }
                assert(s[0] == bytes@[i as int]);
                assert(s.drop_first() =~= bytes@.skip(i + 1));
            }
            out.push(bytes[i]);
            i = i + 1;
        }
    }
    assert(spec_replace(bytes@.skip(i as int), pat@, rep@) =~= Seq::<u8>::empty());
    assert(out@ =~= spec_replace(bytes@, pat@, rep@));
    out
}

/// The index of the first slash in `s`, or its length when it has none.
pub open spec fn first_slash_at(s: Seq<char>) -> int
    decreases s.len(),
{
    if s.len() == 0 {
        0
    } else if s[0] == '/' {
        0
    } else {
        1 + first_slash_at(s.drop_first())
    }
}

proof fn lemma_first_slash_at(s: Seq<char>, i: int)
    requires
        0 <= i <= s.len(),
        forall|j: int| 0 <= j < i ==> s[j] != '/',
        i < s.len() ==> s[i] == '/',
        i == s.len() ==> forall|j: int| 0 <= j < s.len() ==> s[j] != '/',
    ensures
        first_slash_at(s) == i,
    decreases s.len(),
{
    if s.len() == 0 {
    } else if i == 0 {
    } else {
        assert(s[0] != '/');
        assert(forall|j: int| 0 <= j < s.drop_first().len() ==> s.drop_first()[j] == s[j + 1]);
        lemma_first_slash_at(s.drop_first(), i - 1);
    }
}

/// Whether one path segment, between slashes, is kept, dropped, or refused.
pub open spec fn spec_combine_seg(seg: Seq<char>, rest: Option<Seq<char>>) -> Option<Seq<char>> {
    if seg =~= seq!['.', '.'] {
        None
    } else if seg.len() == 0 || seg =~= seq!['.'] {
        rest
    } else {
        match rest {
            Some(r) => if r.len() == 0 {
                Some(seg)
            } else {
                Some(seg + seq!['/'] + r)
            },
            None => None,
        }
    }
}

/// The sanitized form of a virtual path: empty segments and current-dir
/// segments are dropped, a parent-dir segment refuses the whole path, and
/// the kept segments are joined by single slashes.
pub open spec fn spec_sanitize(s: Seq<char>) -> Option<Seq<char>>
    decreases s.len(),
{
    let k0 = first_slash_at(s);
    let k = if 0 <= k0 < s.len() {
        k0
    } else {
        s.len() as int
    };
    if k == s.len() {
        spec_combine_seg(s, Some(Seq::empty()))
    } else {
        spec_combine_seg(s.take(k), spec_sanitize(s.skip(k + 1)))
    }
}

fn seg_is(v: &[char], start: usize, end: usize, a: char) -> (r: bool)
    requires
        start <= end <= v@.len(),
    ensures
        r == (v@.subrange(start as int, end as int) =~= seq![a]),
{
    if end - start == 1 && v[start] == a {
        assert(v@.subrange(start as int, end as int) =~= seq![a]);
        true
    } else {
        assert(v@.subrange(start as int, end as int).len() == end - start);
        if end - start == 1 {
            assert(v@.subrange(start as int, end as int)[0] == v@[start as int]);
        }
        false
    }
}

#[verifier::loop_isolation(false)]
fn sanitize_rec(v: &[char], start: usize) -> (r: Option<Vec<char>>)
    requires
        start <= v@.len(),
    ensures
        match r {
            Some(out) => spec_sanitize(v@.skip(start as int)) == Some(out@),
            None => spec_sanitize(v@.skip(start as int)) is None,
        },
    decreases v@.len() - start,
{
    let ghost s = v@.skip(start as int);
    let mut k: usize = start;
    while k < v.len() && v[k] != '/'
        invariant
            start <= k <= v@.len(),
            forall|j: int| start <= j < k ==> v@[j] != '/',
        decreases v@.len() - k,
    {
        k = k + 1;
    }
    proof {
        assert(forall|j: int| 0 <= j < s.len() ==> s[j] == v@[start + j]);
        lemma_first_slash_at(s, k - start);
    }
    let seg = copy_range(v, start, k);
    let is_dotdot = seg.len() == 2 && seg[0] == '.' && seg[1] == '.';
    proof {
        if seg@.len() == 2 {
            assert((seg@ =~= seq!['.', '.']) == (seg@[0] == '.' && seg@[1] == '.'));
        }
        assert(s.take(k - start) =~= seg@);
    }
    let is_dot = seg_is(v, start, k, '.');
    let is_empty = k == start;
    if k == v.len() {
        assert(s =~= seg@);
        if is_dotdot {
            None
        } else if is_empty || is_dot {
            let out: Vec<char> = Vec::new();
            assert(out@ =~= Seq::<char>::empty());
            Some(out)
        } else {
            Some(seg)
        }
    } else {
        assert(s.skip(k - start + 1) =~= v@.skip(k + 1));
        let rest = sanitize_rec(v, k + 1);
        if is_dotdot {
            None
        } else if is_empty || is_dot {
            rest
        } else {
            match rest {
                Some(r) => {
                    if r.len() == 0 {
                        Some(seg)
                    } else {
                        let mut out = seg;
                        out.push('/');
                        let mut j: usize = 0;
                        let ghost mid = out@;
                        while j < r.len()
                            invariant
                                j <= r@.len(),
                                out@ == mid + r@.take(j as int),
                            decreases r@.len() - j,
                        {
                            out.push(r[j]);
                            assert(out@ =~= mid + r@.take(j + 1));
                            j = j + 1;
                        }
                        assert(out@ =~= s.take(k - start) + seq!['/'] + r@);
                        Some(out)
                    }
                },
                None => None,
            }
        }
    }
}

/// Sanitizes a virtual asset path: empty and current-dir segments are
/// dropped, any parent-dir segment refuses the path, and the rest is
/// re-joined with single slashes.
pub fn sanitize_virtual_path(path: &str) -> (r: Option<String>)
    ensures
        match r {
            Some(out) => spec_sanitize(path@) == Some(out@),
            None => spec_sanitize(path@) is None,
        },
{
    let v = chars_of(path);
    assert(v@.skip(0) =~= path@);
    match sanitize_rec(v.as_slice(), 0) {
        Some(out) => Some(string_of_chars(out.as_slice())),
        None => None,
    }
}

/// The asset paths tried for a sanitized request path: the path itself and
/// its directory index, or the root index for the empty path.
pub fn candidate_paths(sanitized: &str) -> (r: Vec<String>)
    ensures
        sanitized@.len() == 0 ==> r@.len() == 1 && r@[0]@ == "index.html"@,
        sanitized@.len() > 0 ==> r@.len() == 2 && r@[0]@ == sanitized@ && r@[1]@ == sanitized@
            + "/index.html"@,
{
    let mut r: Vec<String> = Vec::new();
    if sanitized.is_empty() {
        r.push(String::from_str("index.html"));
    } else {
        r.push(sanitized.to_owned());
        r.push(sanitized.to_owned().concat("/index.html"));
    }
    r
}

/// The last index of `c` in `s`, if it occurs.
pub open spec fn last_idx_of(s: Seq<char>, c: char) -> Option<int>
    decreases s.len(),
{
    if s.len() == 0 {
        None
    } else if s[s.len() - 1] == c {
        Some(s.len() - 1)
    } else {
        last_idx_of(s.drop_last(), c)
    }
}

/// The lower-case form of an ASCII letter; other characters are unchanged.
pub open spec fn spec_ascii_lower(c: char) -> char {
    if 'A' <= c && c <= 'Z' {
        (((c as u8) + 32) as char)
    } else {
        c
    }
}

/// Whether a path names an HTML file: the extension of its final segment
/// is `html`, compared without regard to ASCII case.
pub open spec fn spec_is_html_path(p: Seq<char>) -> bool {
    let name = match last_idx_of(p, '/') {
        Some(k) => p.skip(k + 1),
        None => p,
    };
    match last_idx_of(name, '.') {
        Some(d) => {
            &&& d > 0
            &&& name.len() - d - 1 == 4
            &&& spec_ascii_lower(name[d + 1]) == 'h'
            &&& spec_ascii_lower(name[d + 2]) == 't'
            &&& spec_ascii_lower(name[d + 3]) == 'm'
            &&& spec_ascii_lower(name[d + 4]) == 'l'
        },
        None => false,
    }
}

fn ascii_lower(c: char) -> (r: char)
    ensures
        r == spec_ascii_lower(c),
{
    if c >= 'A' && c <= 'Z' {
        (((c as u8) + 32) as char)
    } else {
        c
    }
}

#[verifier::loop_isolation(false)]
fn last_idx_scan(v: &[char], from: usize, to: usize, c: char) -> (r: Option<usize>)
    requires
        from <= to <= v@.len(),
    ensures
        match r {
            Some(k) => from <= k < to && last_idx_of(
                v@.subrange(from as int, to as int),
                c,
            ) == Some(k - from),
            None => last_idx_of(v@.subrange(from as int, to as int), c) is None,
        },
{
    let ghost s = v@.subrange(from as int, to as int);
    let mut j: usize = to;
    assert(s.take(s.len() as int) =~= s);
    while j > from
        invariant
            from <= j <= to,
            last_idx_of(s, c) == last_idx_of(s.take(j - from), c),
        decreases j,
    {
        proof {
            assert(s.take(j - from)[j - from - 1] == v@[j - 1]);
            assert(s.take(j - from).drop_last() =~= s.take(j - 1 - from));
        }
        if v[j - 1] == c {
            return Some(j - 1);
        }
        j = j - 1;
    }
    assert(s.take(0) =~= Seq::<char>::empty());
    None
}

/// Whether a path names an HTML file, by its final segment's extension.
pub fn is_html_path(path: &str) -> (r: bool)
    ensures
        r == spec_is_html_path(path@),
{
    let v = chars_of(path);
    assert(v@.subrange(0, v@.len() as int) =~= v@);
    let name_start: usize = match last_idx_scan(v.as_slice(), 0, v.len(), '/') {
        Some(k) => k + 1,
        None => 0,
    };
    let ghost name = match last_idx_of(path@, '/') {
        Some(k) => path@.skip(k + 1),
        None => path@,
    };
    assert(name =~= v@.subrange(name_start as int, v@.len() as int));
    match last_idx_scan(v.as_slice(), name_start, v.len(), '.') {
        Some(d) => {
            let dn: usize = d - name_start;
            if dn > 0 && v.len() - d - 1 == 4 {
                assert(name[dn + 1] == v@[d + 1]);
                assert(name[dn + 2] == v@[d + 2]);
                assert(name[dn + 3] == v@[d + 3]);
                assert(name[dn + 4] == v@[d + 4]);
                ascii_lower(v[d + 1]) == 'h' && ascii_lower(v[d + 2]) == 't' && ascii_lower(
                    v[d + 3],
                ) == 'm' && ascii_lower(v[d + 4]) == 'l'
            } else {
                false
            }
        },
        None => false,
    }
}

/// The contents stored under an exact asset path, if any.
pub open spec fn spec_asset_lookup(assets: Seq<(String, Vec<u8>)>, path: Seq<char>) -> Option<
    Seq<u8>,
>
    decreases assets.len(),
{
    if assets.len() == 0 {
        None
    } else if assets[0].0@ == path {
        Some(assets[0].1@)
    } else {
        spec_asset_lookup(assets.drop_first(), path)
    }
}

#[verifier::loop_isolation(false)]
fn find_asset<'a>(assets: &'a Vec<(String, Vec<u8>)>, path: &str) -> (r: Option<&'a Vec<u8>>)
    ensures
        match r {
            Some(c) => spec_asset_lookup(assets@, path@) == Some(c@),
            None => spec_asset_lookup(assets@, path@) is None,
        },
{
    let mut i: usize = 0;
    assert(assets@.skip(0) =~= assets@);
    while i < assets.len()
        invariant
            i <= assets@.len(),
            spec_asset_lookup(assets@, path@) == spec_asset_lookup(assets@.skip(i as int), path@),
        decreases assets@.len() - i,
    {
        assert(assets@.skip(i as int)[0] == assets@[i as int]);
        if str_eq(assets[i].0.as_str(), path) {
            return Some(&assets[i].1);
        }
        assert(assets@.skip(i as int).drop_first() =~= assets@.skip(i + 1));
        i = i + 1;
    }
    assert(assets@.skip(i as int).len() == 0);
    None
}

/// What the UI router would serve for the normalized prefix and request
/// path: the chosen asset path and contents, or nothing.
pub open spec fn spec_ui_target(
    assets: Seq<(String, Vec<u8>)>,
    prefix: Seq<char>,
    path: Seq<char>,
) -> Option<(Seq<char>, Seq<u8>)> {
    match spec_strip_prefix(prefix, path) {
        None => None,
        Some(stripped) => match spec_sanitize(
            trim_end_slashes(trim_start_slashes(stripped)),
        ) {
            None => None,
            Some(san) => if san.len() == 0 {
                match spec_asset_lookup(assets, "index.html"@) {
                    Some(c) => Some(("index.html"@, c)),
                    None => None,
                }
            } else {
                match spec_asset_lookup(assets, san) {
                    Some(c) => Some((san, c)),
                    None => match spec_asset_lookup(assets, san + "/index.html"@) {
                        Some(c) => Some((san + "/index.html"@, c)),
                        None => None,
                    },
                }
            },
        },
    }
}

/// What the UI asset ultimately served holds: an HTML asset has the CSRF
/// placeholder substituted; any other asset is served verbatim.
pub open spec fn spec_rendered(path: Seq<char>, contents: Seq<u8>, csrf: Seq<char>) -> Seq<u8> {
    if spec_is_html_path(path) {
        spec_replace(contents, spec_csrf_pattern(), encode_utf8(csrf))
    } else {
        contents
    }
}

/// What the served content type of an asset path is. Relies on
/// mime_guess::from_path below; the result depends on the path alone.
pub uninterp spec fn mime_of(path: Seq<char>) -> Seq<char>;

/// Relies on mime_guess::from_path, whose guess is a pure function of the
/// path's extension, falling back to the octet-stream type.
#[verifier::external_body]
fn mime_for_path(path: &str) -> (r: String)
    ensures
        r@ == mime_of(path@),
{
    let mime = mime_guess::from_path(path).first_or_octet_stream();
    let s: &str = mime.as_ref();
    s.to_owned()
}

/// A response of the UI router: the embedding application turns it into
/// its transport's response form.
#[derive(Debug)]
pub struct UiResponse {
    /// The status answered: success, or not-found.
    pub status: u16,
    /// The content type, when an asset was found.
    pub content_type: Option<String>,
    /// The length of the full rendered contents, also for a head-only
    /// request whose body is left empty.
    pub content_length: usize,
    /// The body bytes.
    pub body: Vec<u8>,
}

/// Serves a plugin's web UI from an in-memory asset set under a normalized
/// handler prefix.
#[derive(Debug)]
pub struct PluginUiRouter {
    /// The normalized prefix requests are served under.
    pub handler_prefix: String,
    /// The assets served: virtual path and contents.
    pub assets: Vec<(String, Vec<u8>)>,
    /// Whether debug logging is switched on.
    pub debug_enabled: bool,
}

impl PluginUiRouter {
    /// A router serving `assets` under the normalized form of
    /// `handler_prefix`, debug logging off.
    pub fn new(assets: Vec<(String, Vec<u8>)>, handler_prefix: &str) -> (r: Self)
        ensures
            r.handler_prefix@ == spec_normalize_prefix(handler_prefix@),
            r.assets == assets,
            !r.debug_enabled,
    {
        PluginUiRouter {
            handler_prefix: normalize_prefix(handler_prefix),
            assets,
            debug_enabled: false,
        }
    }

    /// The normalized prefix requests are served under.
    pub fn handler_prefix(&self) -> (r: &str)
        ensures
            r@ == self.handler_prefix@,
    {
        self.handler_prefix.as_str()
    }

    /// Switches debug logging on or off.
    pub fn set_debug(&mut self, enable: bool)
        ensures
            final(self).handler_prefix == old(self).handler_prefix,
            final(self).assets == old(self).assets,
            final(self).debug_enabled == enable,
    {
        self.debug_enabled = enable;
    }

    /// Whether debug logging is switched on.
    pub fn debug_enabled(&self) -> (r: bool)
        ensures
            r == self.debug_enabled,
    {
        self.debug_enabled
    }

    /// The request path's remainder under the handler prefix, if the path
    /// lies under it.
    pub fn strip_handler_prefix(&self, path: &str) -> (r: Option<String>)
        ensures
            match r {
                Some(s) => spec_strip_prefix(self.handler_prefix@, path@) == Some(s@),
                None => spec_strip_prefix(self.handler_prefix@, path@) is None,
            },
    {
        strip_prefix(self.handler_prefix.as_str(), path)
    }

    /// Serves one request: resolves the path under the handler prefix to an
    /// asset, renders HTML assets with the CSRF token (or its fixed
    /// stand-in when the host sent none), and answers not-found otherwise.
    /// A head request is answered with an empty body but the full length.
    pub fn serve_request(&self, method: &str, path: &str, csrf: Option<&str>) -> (r: UiResponse)
        ensures
            ({
                let csrf_chars = match csrf {
                    Some(c) => c@,
                    None => "missing-csrf-token"@,
                };
                match spec_ui_target(self.assets@, self.handler_prefix@, path@) {
                    None => {
                        &&& r.status == 404
                        &&& r.content_type is None
                        &&& r.body@ == encode_utf8(path@ + " not found"@)
                        &&& r.content_length == r.body@.len()
                    },
                    Some(t) => {
                        let full = spec_rendered(t.0, t.1, csrf_chars);
                        &&& r.status == 200
                        &&& (r.content_type matches Some(ct) && ct@ == mime_of(t.0))
                        &&& r.content_length == full.len()
                        &&& r.body@ == (if method@ == "HEAD"@ {
                            Seq::<u8>::empty()
                        } else {
                            full
                        })
                    },
                }
            }),
    {
        let csrf_token: &str = match csrf {
            Some(c) => c,
            None => "missing-csrf-token",
        };
        let stripped = match self.strip_handler_prefix(path) {
            Some(s) => s,
            None => {
                return not_found(path);
            },
        };
        let trimmed = trim_slashes(stripped.as_str());
        let sanitized = match sanitize_virtual_path(trimmed.as_str()) {
            Some(s) => s,
            None => {
                return not_found(path);
            },
        };
        let chosen: (String, &Vec<u8>) = if sanitized.as_str().is_empty() {
            let index = String::from_str("index.html");
            match find_asset(&self.assets, index.as_str()) {
                Some(c) => (index, c),
                None => {
                    return not_found(path);
                },
            }
        } else {
            match find_asset(&self.assets, sanitized.as_str()) {
                Some(c) => (sanitized, c),
                None => {
                    let alt = sanitized.concat("/index.html");
                    match find_asset(&self.assets, alt.as_str()) {
                        Some(c) => (alt, c),
                        None => {
                            return not_found(path);
                        },
                    }
                },
            }
        };
        build_response(chosen.0.as_str(), chosen.1, method, csrf_token)
    }
}

/// Removes leading and trailing slashes.
fn trim_slashes(s: &str) -> (r: String)
    ensures
        r@ == trim_end_slashes(trim_start_slashes(s@)),
{
    let v = chars_of(s);
    let mut lo: usize = 0;
    assert(v@.skip(0) =~= v@);
    #[verifier::loop_isolation(false)]
    while lo < v.len() && v[lo] == '/'
        invariant
            lo <= v@.len(),
            trim_start_slashes(v@) == trim_start_slashes(v@.skip(lo as int)),
        decreases v@.len() - lo,
    {
        assert(v@.skip(lo as int)[0] == v@[lo as int]);
        assert(v@.skip(lo as int).drop_first() =~= v@.skip(lo + 1));
        lo = lo + 1;
    }
    assert(trim_start_slashes(v@.skip(lo as int)) == v@.skip(lo as int));
    let ghost t = v@.skip(lo as int);
    let mut hi: usize = v.len();
    assert(t.take(t.len() as int) =~= t);
    #[verifier::loop_isolation(false)]
    while hi > lo && v[hi - 1] == '/'
        invariant
            lo <= hi <= v@.len(),
            trim_end_slashes(t) == trim_end_slashes(t.take(hi - lo as int)),
        decreases hi,
    {
        assert(t.take(hi - lo as int)[hi - lo - 1] == v@[hi - 1]);
        assert(t.take(hi - lo as int).drop_last() =~= t.take(hi - 1 - lo as int));
        hi = hi - 1;
    }
    assert(trim_end_slashes(t.take(hi - lo as int)) == t.take(hi - lo as int));
    let w = copy_range(v.as_slice(), lo, hi);
    assert(w@ =~= t.take(hi - lo as int));
    string_of_chars(w.as_slice())
}

/// The not-found answer for a request path.
fn not_found(path: &str) -> (r: UiResponse)
    ensures
        r.status == 404,
        r.content_type is None,
        r.body@ == encode_utf8(path@ + " not found"@),
        r.content_length == r.body@.len(),
{
    let msg = path.to_owned().concat(" not found");
    assert(msg@ == path@ + " not found"@);
    let body = msg.as_str().as_bytes_vec();
    let content_length = body.len();
    UiResponse { status: 404, content_type: None, content_length, body }
}

fn build_response(asset_path: &str, contents: &Vec<u8>, method: &str, csrf: &str) -> (r:
    UiResponse)
    ensures
        ({
            let full = spec_rendered(asset_path@, contents@, csrf@);
            &&& r.status == 200
            &&& (r.content_type matches Some(ct) && ct@ == mime_of(asset_path@))
            &&& r.content_length == full.len()
            &&& r.body@ == (if method@ == "HEAD"@ {
                Seq::<u8>::empty()
            } else {
                full
            })
        }),
{
    let mime = mime_for_path(asset_path);
    let full: Vec<u8> = if is_html_path(asset_path) {
        render_html(contents.as_slice(), csrf)
    } else {
        let mut c: Vec<u8> = Vec::new();
        let mut i: usize = 0;
        #[verifier::loop_isolation(false)]
        while i < contents.len()
            invariant
                i <= contents@.len(),
                c@ == contents@.take(i as int),
            decreases contents@.len() - i,
        {
            c.push(contents[i]);
            assert(c@ =~= contents@.take(i + 1));
            i = i + 1;
        }
        assert(c@ =~= contents@);
        c
    };
    let content_length = full.len();
    if str_eq(method, "HEAD") {
        UiResponse {
            status: 200,
            content_type: Some(mime),
            content_length,
            body: Vec::new(),
        }
    } else {
        UiResponse { status: 200, content_type: Some(mime), content_length, body: full }
    }
}

} // verus!
