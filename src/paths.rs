//! Mathematical model of the path and URL text handled by the server.

use vstd::prelude::*;

verus! {

/// `s` without any of its leading `/` characters.
pub open spec fn trim_leading_slashes(s: Seq<char>) -> Seq<char>
    decreases s.len(),
{
    if s.len() > 0 && s[0] == '/' {
        trim_leading_slashes(s.drop_first())
    } else {
        s
    }
}

/// `s` without any of its trailing `/` characters.
pub open spec fn trim_trailing_slashes(s: Seq<char>) -> Seq<char>
    decreases s.len(),
{
    if s.len() > 0 && s.last() == '/' {
        trim_trailing_slashes(s.drop_last())
    } else {
        s
    }
}

/// The file-system path that a URL path names under the static root.
pub open spec fn static_path_of(root: Seq<char>, uri_path: Seq<char>) -> Seq<char> {
    root + "/"@ + trim_leading_slashes(uri_path)
}

/// A path, with the index file appended when it names a directory.
pub open spec fn index_fallback(path: Seq<char>, is_dir: bool) -> Seq<char> {
    if is_dir {
        path + "/index.html"@
    } else {
        path
    }
}

/// The view of an optional string.
pub open spec fn opt_view(q: Option<&str>) -> Option<Seq<char>> {
    match q {
        Some(s) => Some(s@),
        None => None,
    }
}

/// The upstream URL for a proxied path and optional query string.
pub open spec fn api_url(
    base: Seq<char>,
    prefix: Seq<char>,
    path: Seq<char>,
    query: Option<Seq<char>>,
) -> Seq<char> {
    let target = base + prefix + "/"@ + trim_leading_slashes(path);
    match query {
        Some(q) => target + "?"@ + q,
        None => target,
    }
}

/// Trimming leading slashes leaves a text that does not start with one.
pub proof fn lemma_trimmed_has_no_leading_slash(s: Seq<char>)
    ensures
        trim_leading_slashes(s).len() == 0 || trim_leading_slashes(s)[0] != '/',
        trim_leading_slashes(s).len() <= s.len(),
    decreases s.len(),
{
    if s.len() > 0 && s[0] == '/' {
        lemma_trimmed_has_no_leading_slash(s.drop_first());
    }
}

/// Trimming trailing slashes leaves a text that does not end with one.
pub proof fn lemma_trimmed_has_no_trailing_slash(s: Seq<char>)
    ensures
        trim_trailing_slashes(s).len() == 0 || trim_trailing_slashes(s).last() != '/',
    decreases s.len(),
{
    if s.len() > 0 && s.last() == '/' {
        lemma_trimmed_has_no_trailing_slash(s.drop_last());
    }
}

/// The upstream URL holds exactly one `/` between the prefix and the path
/// segment, whatever slashes the proxied path starts with.
pub proof fn lemma_api_url_single_separator(
    base: Seq<char>,
    prefix: Seq<char>,
    path: Seq<char>,
    query: Option<Seq<char>>,
)
    ensures
        ({
            let segment = trim_leading_slashes(path);
            let url = api_url(base, prefix, path, query);
            let k = (base.len() + prefix.len()) as int;
            let end = k + 1 + segment.len() as int;
            &&& url.subrange(0, k) == base + prefix
            &&& url[k] == '/'
            &&& url.subrange(k + 1, end) == segment
            &&& (segment.len() == 0 || segment[0] != '/')
            &&& url.len() > end ==> url[end] == '?'
        }),
{
    reveal_strlit("/");
    reveal_strlit("?");
    lemma_trimmed_has_no_leading_slash(path);
    let segment = trim_leading_slashes(path);
    let target = base + prefix + "/"@ + segment;
    let k = (base.len() + prefix.len()) as int;
    let end = k + 1 + segment.len() as int;
    assert(target.subrange(0, k) =~= base + prefix);
    assert(target.subrange(k + 1, end) =~= segment);
    match query {
        Some(q) => {
            let url = target + "?"@ + q;
            assert(url.subrange(0, k) =~= base + prefix);
            assert(url.subrange(k + 1, end) =~= segment);
            assert(url[end] == '?');
        },
        None => {},
    }
}

/// Leading slashes on the proxied path do not change the upstream URL.
pub proof fn lemma_api_url_ignores_leading_slash(
    base: Seq<char>,
    prefix: Seq<char>,
    path: Seq<char>,
    query: Option<Seq<char>>,
)
    ensures
        api_url(base, prefix, seq!['/'] + path, query) == api_url(base, prefix, path, query),
{
    assert((seq!['/'] + path).drop_first() =~= path);
}

/// Skipping one more leading slash does not change what trimming yields.
proof fn lemma_trim_leading_step(s: Seq<char>, i: int)
    requires
        0 <= i < s.len(),
        s[i] == '/',
    ensures
        trim_leading_slashes(s.subrange(i, s.len() as int)) == trim_leading_slashes(
            s.subrange(i + 1, s.len() as int),
        ),
{
    assert(s.subrange(i, s.len() as int).drop_first() =~= s.subrange(i + 1, s.len() as int));
}

/// Dropping one more trailing slash does not change what trimming yields.
proof fn lemma_trim_trailing_step(s: Seq<char>, j: int)
    requires
        0 < j <= s.len(),
        s[j - 1] == '/',
    ensures
        trim_trailing_slashes(s.subrange(0, j)) == trim_trailing_slashes(s.subrange(0, j - 1)),
{
    assert(s.subrange(0, j).drop_last() =~= s.subrange(0, j - 1));
}

/// Whether `s` starts with `prefix`.
pub fn starts_with(s: &str, prefix: &str) -> (r: bool)
    ensures
        r == prefix@.is_prefix_of(s@),
{
    let n = prefix.unicode_len();
    if n > s.unicode_len() {
        return false;
    }
    let mut i: usize = 0;
    while i < n
        invariant
            n == prefix@.len(),
            n <= s@.len(),
            i <= n,
            forall|j: int| 0 <= j < i ==> prefix@[j] == s@[j],
        decreases n - i,
    {
        if prefix.get_char(i) != s.get_char(i) {
            return false;
        }
        i = i + 1;
    }
    assert(prefix@ =~= s@.subrange(0, n as int));
    true
}

/// Returns `s` without its leading `/` characters.
pub fn strip_leading_slashes(s: &str) -> (r: &str)
    ensures
        r@ == trim_leading_slashes(s@),
{
    let n = s.unicode_len();
    let mut i: usize = 0;
    assert(s@.subrange(0, n as int) =~= s@);
    while i < n && s.get_char(i) == '/'
        invariant
            n == s@.len(),
            i <= n,
            trim_leading_slashes(s@) == trim_leading_slashes(s@.subrange(i as int, n as int)),
        decreases n - i,
    {
        proof {
            lemma_trim_leading_step(s@, i as int);
        }
        i = i + 1;
    }
    s.substring_char(i, n)
}

/// Returns `s` without its trailing `/` characters.
pub fn strip_trailing_slashes(s: &str) -> (r: &str)
    ensures
        r@ == trim_trailing_slashes(s@),
{
    let n = s.unicode_len();
    let mut j: usize = n;
    assert(s@.subrange(0, n as int) =~= s@);
    while j > 0 && s.get_char(j - 1) == '/'
        invariant
            n == s@.len(),
            j <= n,
            trim_trailing_slashes(s@) == trim_trailing_slashes(s@.subrange(0, j as int)),
        decreases j,
    {
        proof {
            lemma_trim_trailing_step(s@, j as int);
        }
        j = j - 1;
    }
    s.substring_char(0, j)
}

} // verus!
