use vstd::prelude::*;
use crate::pathops::path_exists;
use crate::urlparse::{parse_url, parsed_url, UrlParts};

verus! {

/// Position of the first occurrence of `c` in `s`.
pub open spec fn first_index_of(s: Seq<char>, c: char) -> Option<int> {
    if exists|i: int| 0 <= i < s.len() && s[i] == c {
        Some(choose|i: int| 0 <= i < s.len() && s[i] == c && forall|j: int| 0 <= j < i ==> s[j] != c)
    } else {
        None
    }
}

/// Positions of `@` and `:` in a `user@host:path` reference: both occur,
/// the first `@` before the first `:`.
pub open spec fn scp_split(s: Seq<char>) -> Option<(int, int)> {
    match (first_index_of(s, '@'), first_index_of(s, ':')) {
        (Some(a), Some(c)) => if a < c { Some((a, c)) } else { None },
        _ => None,
    }
}

pub open spec fn starts_with(s: Seq<char>, prefix: Seq<char>) -> bool {
    prefix.len() <= s.len() && s.subrange(0, prefix.len() as int) == prefix
}

/// Whether a repository reference names a local repository, given what the
/// URL parser made of it and whether it exists as a path on the local file
/// system. Text that is neither a URL nor a `user@host:path` reference
/// counts as local, so a malformed remote reference is taken for a local
/// path.
pub open spec fn is_local_given(parsed: Option<(Seq<char>, Option<Seq<char>>, Seq<char>)>, u: Seq<char>, exists_on_disk: bool) -> bool {
    match parsed {
        Some(parts) => parts.0 == seq!['f', 'i', 'l', 'e'],
        None => starts_with(u, seq!['.', '/']) || starts_with(u, seq!['/']) || scp_split(u) is None
            || exists_on_disk,
    }
}

/// Whether a repository reference names a local repository, given whether
/// it exists as a path on the local file system (see `is_local_given`).
pub open spec fn is_local(u: Seq<char>, exists_on_disk: bool) -> bool {
    is_local_given(parsed_url(u), u, exists_on_disk)
}

pub open spec fn parts_view(parts: Option<&UrlParts>) -> Option<(Seq<char>, Option<Seq<char>>, Seq<char>)> {
    match parts {
        Some(p) => Some(p.view_tuple()),
        None => None,
    }
}

proof fn lemma_first_index_bounds(s: Seq<char>, c: char)
    ensures
        first_index_of(s, c) matches Some(i) ==> 0 <= i < s.len() && s[i] == c,
{
    if exists|i: int| 0 <= i < s.len() && s[i] == c {
        let w = choose|i: int| 0 <= i < s.len() && s[i] == c;
        assert(exists|k: int| 0 <= k < s.len() && s[k] == c && forall|j: int| 0 <= j < k ==> s[j] != c) by {
            lemma_least_index(s, c, w);
        }
    }
}

proof fn lemma_least_index(s: Seq<char>, c: char, w: int)
    requires
        0 <= w < s.len(),
        s[w] == c,
    ensures
        exists|k: int| 0 <= k < s.len() && s[k] == c && forall|j: int| 0 <= j < k ==> s[j] != c,
    decreases w,
{
    if exists|j: int| 0 <= j < w && s[j] == c {
        let j = choose|j: int| 0 <= j < w && s[j] == c;
        lemma_least_index(s, c, j);
    } else {
        assert(forall|j: int| 0 <= j < w ==> s[j] != c);
    }
}

fn find_char(s: &str, c: char) -> (r: Option<usize>)
    ensures
        match r {
            Some(i) => first_index_of(s@, c) == Some(i as int),
            None => first_index_of(s@, c) is None,
        },
{
    let n = s.unicode_len();
    let mut i: usize = 0;
    while i < n
        invariant
            n == s@.len(),
            i <= n,
            forall|j: int| 0 <= j < i ==> s@[j] != c,
        decreases n - i,
    {
        if s.get_char(i) == c {
            proof {
                let w = choose|k: int| 0 <= k < s@.len() && s@[k] == c && forall|j: int| 0 <= j < k ==> s@[j] != c;
                assert(0 <= w < s@.len() && s@[w] == c && forall|j: int| 0 <= j < w ==> s@[j] != c);
                if w < i { assert(s@[w] != c); }
                if (i as int) < w { assert(s@[i as int] != c); }
            }
            return Some(i);
        }
        i = i + 1;
    }
    None
}

/// Splits a `user@host:path` reference at its `@` and its `:`, or `None`
/// where it is not one.
pub fn url_split_scp_scheme(url: &str) -> (r: Option<(usize, usize)>)
    ensures
        match r {
            Some((a, c)) => scp_split(url@) == Some((a as int, c as int)),
            None => scp_split(url@) is None,
        },
{
    let at = find_char(url, '@');
    let colon = find_char(url, ':');
    match colon {
        Some(colon_pos) => match at {
            Some(at_pos) => {
                if at_pos < colon_pos {
                    Some((at_pos, colon_pos))
                } else {
                    None
                }
            },
            None => None,
        },
        None => None,
    }
}

/// Whether `url` is a `user@host:path` reference.
pub fn url_is_scp_scheme(url: &str) -> (r: bool)
    ensures
        r == scp_split(url@) is Some,
{
    url_split_scp_scheme(url).is_some()
}

/// A `user@host:path` reference taken apart.
pub struct ScpScheme {
    pub user: String,
    pub host: String,
    pub path: String,
}

/// The user, host and path of a `user@host:path` reference.
pub open spec fn scp_parts(s: Seq<char>) -> Option<(Seq<char>, Seq<char>, Seq<char>)> {
    match scp_split(s) {
        Some((a, c)) => Some((s.subrange(0, a), s.subrange(a + 1, c), s.subrange(c + 1, s.len() as int))),
        None => None,
    }
}

impl ScpScheme {
    /// Takes `value` apart as `user@host:path`, or fails where it is not of
    /// that shape.
    pub fn try_from(value: &str) -> (r: Result<ScpScheme, ()>)
        ensures
            match r {
                Ok(s) => scp_parts(value@) == Some((s.user@, s.host@, s.path@)),
                Err(_) => scp_parts(value@) is None,
            },
    {
        match url_split_scp_scheme(value) {
            Some((at_pos, colon_pos)) => {
                proof {
                    lemma_first_index_bounds(value@, '@');
                    lemma_first_index_bounds(value@, ':');
                }
                let n = value.unicode_len();
                let user = value.substring_char(0, at_pos).to_string();
                let host = value.substring_char(at_pos + 1, colon_pos).to_string();
                let path = value.substring_char(colon_pos + 1, n).to_string();
                Ok(ScpScheme { user, host, path })
            },
            None => Err(()),
        }
    }
}

fn str_starts_with(s: &str, prefix: &str) -> (r: bool)
    ensures
        r == starts_with(s@, prefix@),
{
    let n = s.unicode_len();
    let m = prefix.unicode_len();
    if m > n {
        return false;
    }
    let mut i: usize = 0;
    while i < m
        invariant
            n == s@.len(),
            m == prefix@.len(),
            m <= n,
            i <= m,
            forall|j: int| 0 <= j < i ==> s@[j] == prefix@[j],
        decreases m - i,
    {
        if s.get_char(i) != prefix.get_char(i) {
            assert(s@.subrange(0, m as int)[i as int] != prefix@[i as int]);
            return false;
        }
        i = i + 1;
    }
    assert(s@.subrange(0, m as int) =~= prefix@);
    true
}

/// Whether `url` names a local repository, given what the URL parser made
/// of it (`parts`) and whether it exists as a path on disk (see
/// `is_local_given`).
pub fn is_local_parsed(parts: Option<&UrlParts>, url: &str, path_exists_on_disk: bool) -> (r: bool)
    ensures
        r == is_local_given(parts_view(parts), url@, path_exists_on_disk),
{
    match parts {
        Some(parts) => {
            proof { reveal_strlit("file"); }
            let file = "file".to_string();
            let r = parts.scheme == file;
            proof {
                assert(file@ =~= seq!['f', 'i', 'l', 'e']);
            }
            r
        },
        None => {
            proof { reveal_strlit("./"); reveal_strlit("/"); }
            let dot = str_starts_with(url, "./");
            let slash = str_starts_with(url, "/");
            assert("./"@ =~= seq!['.', '/']);
            assert("/"@ =~= seq!['/']);
            dot || slash || !url_is_scp_scheme(url) || path_exists_on_disk
        },
    }
}

/// Whether `url` names a local repository, `path_exists_on_disk` telling
/// whether it exists as a path here. A reference that the URL parser accepts
/// is local exactly when its scheme is `file`; any other is local when it
/// starts with `./` or `/`, is no `user@host:path` reference, or exists on
/// disk.
pub fn repo_is_local_with(url: &str, path_exists_on_disk: bool) -> (r: bool)
    ensures
        r == is_local(url@, path_exists_on_disk),
{
    let parts = parse_url(url);
    is_local_parsed(parts.as_ref(), url, path_exists_on_disk)
}

/// Whether `url` names a local repository, asking the file system only
/// where the text alone does not decide.
pub fn repo_is_local(url: &str) -> (r: bool)
    ensures
        is_local(url@, false) ==> r,
        !is_local(url@, true) ==> !r,
{
    if repo_is_local_with(url, false) {
        true
    } else {
        repo_is_local_with(url, path_exists(url))
    }
}

} // verus!

verus! {

pub open spec fn dot_git() -> Seq<char> {
    seq!['.', 'g', 'i', 't']
}

pub open spec fn ends_with(s: Seq<char>, suffix: Seq<char>) -> bool {
    suffix.len() <= s.len() && s.subrange(s.len() - suffix.len(), s.len() as int) == suffix
}

/// A path without its trailing `.git`, if it has one.
pub open spec fn strip_git(p: Seq<char>) -> Seq<char> {
    if ends_with(p, dot_git()) { p.subrange(0, p.len() - 4) } else { p }
}

/// The host and the path that a remote reference names: for a URL its
/// host and its path without the leading `/`; for a `user@host:path`
/// reference the host and the path after `:`. `None` for a `file` URL, a URL
/// without a host or with an empty path, and for text of neither shape.
pub open spec fn key_parts(parsed: Option<(Seq<char>, Option<Seq<char>>, Seq<char>)>, u: Seq<char>) -> Option<(Seq<char>, Seq<char>)> {
    match parsed {
        Some((scheme, host, path)) => match host {
            Some(h) => if scheme != seq!['f', 'i', 'l', 'e'] && path.len() > 0 {
                Some((h, path.drop_first()))
            } else {
                None
            },
            None => None,
        },
        None => match scp_parts(u) {
            Some((_user, h, p)) => Some((h, p)),
            None => None,
        },
    }
}

/// The cache directory of a host and a path: `host/path.git`, where a
/// trailing `.git` of the path is not doubled.
pub open spec fn key_of(h: Seq<char>, p: Seq<char>) -> Seq<char> {
    h + seq!['/'] + strip_git(p) + dot_git()
}

/// A `..` component starts at position `i` of `k`.
pub open spec fn dotdot_at(k: Seq<char>, i: int) -> bool {
    &&& 0 <= i && i + 2 <= k.len()
    &&& k[i] == '.' && k[i + 1] == '.'
    &&& (i == 0 || k[i - 1] == '/')
    &&& (i + 2 == k.len() || k[i + 2] == '/')
}

pub open spec fn has_dotdot(k: Seq<char>) -> bool {
    exists|i: int| dotdot_at(k, i)
}

/// A host and a path give a cache directory that stays below the cache
/// base: the host is not empty and holds no `/`, the path is not empty once
/// `.git` is taken off, and no component of the result is `..`.
pub open spec fn safe_key(h: Seq<char>, p: Seq<char>) -> bool {
    &&& h.len() > 0
    &&& forall|i: int| 0 <= i < h.len() ==> h[i] != '/'
    &&& strip_git(p).len() > 0
    &&& !has_dotdot(key_of(h, p))
}

/// The cache directory of a remote reference, relative to the cache base,
/// given what the URL parser made of it (see `key_parts`, `key_of` and
/// `safe_key`); `None` where it names no remote, or none that is safe.
pub open spec fn cache_key_given(parsed: Option<(Seq<char>, Option<Seq<char>>, Seq<char>)>, u: Seq<char>) -> Option<Seq<char>> {
    match key_parts(parsed, u) {
        Some((h, p)) => if safe_key(h, p) { Some(key_of(h, p)) } else { None },
        None => None,
    }
}

/// The cache directory of a remote reference (see `cache_key_given`).
pub open spec fn cache_key(u: Seq<char>) -> Option<Seq<char>> {
    cache_key_given(parsed_url(u), u)
}

fn has_slash(s: &str) -> (r: bool)
    ensures
        r == exists|i: int| 0 <= i < s@.len() && s@[i] == '/',
{
    let n = s.unicode_len();
    let mut i: usize = 0;
    while i < n
        invariant
            n == s@.len(),
            i <= n,
            forall|j: int| 0 <= j < i ==> s@[j] != '/',
        decreases n - i,
    {
        if s.get_char(i) == '/' {
            return true;
        }
        i = i + 1;
    }
    false
}

fn find_dotdot(k: &str) -> (r: bool)
    ensures
        r == has_dotdot(k@),
{
    let n = k.unicode_len();
    let mut i: usize = 0;
    while n >= 2 && i <= n - 2
        invariant
            n == k@.len(),
            i <= n,
            forall|j: int| 0 <= j < i ==> !dotdot_at(k@, j),
        decreases n - i,
    {
        let at_start = i == 0 || k.get_char(i - 1) == '/';
        let at_end = i + 2 == n || k.get_char(i + 2) == '/';
        if k.get_char(i) == '.' && k.get_char(i + 1) == '.' && at_start && at_end {
            assert(dotdot_at(k@, i as int));
            return true;
        }
        i = i + 1;
    }
    assert forall|j: int| !dotdot_at(k@, j) by {
        if 0 <= j < i {
        } else {
            assert(!(0 <= j && j + 2 <= k@.len()));
        }
    }
    false
}

fn strip_git_suffix(p: &str) -> (r: String)
    ensures
        r@ == strip_git(p@),
{
    proof { reveal_strlit(".git"); }
    assert(".git"@ =~= dot_git());
    let n = p.unicode_len();
    if n >= 4 && str_starts_with(p.substring_char(n - 4, n), ".git") {
        assert(p@.subrange(n - 4, n as int) =~= dot_git());
        p.substring_char(0, n - 4).to_string()
    } else {
        assert(!ends_with(p@, dot_git())) by {
            if n >= 4 {
                assert(!starts_with(p@.subrange(n - 4, n as int), dot_git()));
                assert(p@.subrange(n - 4, n as int).subrange(0, 4) =~= p@.subrange(n - 4, n as int));
            }
        }
        p.to_string()
    }
}

/// The cache directory of a host and a path (see `key_of`), or `None`
/// where it would not be safe (see `safe_key`).
fn key_from_host_path(host: &str, path: &str) -> (r: Option<String>)
    ensures
        match r {
            Some(k) => safe_key(host@, path@) && k@ == key_of(host@, path@),
            None => !safe_key(host@, path@),
        },
{
    if host.unicode_len() == 0 || has_slash(host) {
        return None;
    }
    let stripped = strip_git_suffix(path);
    if stripped.unicode_len() == 0 {
        return None;
    }
    proof { reveal_strlit("/"); reveal_strlit(".git"); }
    let key = host.to_string().concat("/").concat(stripped.as_str()).concat(".git");
    assert("/"@ =~= seq!['/']);
    assert(".git"@ =~= dot_git());
    assert(key@ =~= key_of(host@, path@));
    if find_dotdot(key.as_str()) {
        return None;
    }
    Some(key)
}

/// The cache directory of `url`, given what the URL parser made of it (see
/// `cache_key_given`).
pub fn key_from_parts(parts: Option<&UrlParts>, url: &str) -> (r: Option<String>)
    ensures
        match r {
            Some(k) => cache_key_given(parts_view(parts), url@) == Some(k@),
            None => cache_key_given(parts_view(parts), url@) is None,
        },
{
    proof { reveal_strlit("file"); }
    match parts {
        Some(parts) => {
            let file = "file".to_string();
            assert(file@ =~= seq!['f', 'i', 'l', 'e']);
            if parts.scheme == file {
                return None;
            }
            match &parts.host {
                Some(host) => {
                    let n = parts.path.unicode_len();
                    if n == 0 {
                        return None;
                    }
                    let rest = parts.path.as_str().substring_char(1, n);
                    assert(rest@ =~= parts.path@.drop_first());
                    key_from_host_path(host.as_str(), rest)
                },
                None => None,
            }
        },
        None => match ScpScheme::try_from(url) {
            Ok(scp) => key_from_host_path(scp.host.as_str(), scp.path.as_str()),
            Err(_) => None,
        },
    }
}

/// The cache directory of `url` relative to the cache base (see
/// `cache_key`), or `None` where `url` names no cacheable remote. A key is
/// relative, has no `..` component, and ends in `.git`.
#[verifier::rlimit(60)]
pub fn repo_path_from_url(url: &str) -> (r: Option<String>)
    ensures
        match r {
            Some(k) => cache_key(url@) == Some(k@),
            None => cache_key(url@) is None,
        },
        r matches Some(k) ==> k@.len() > 0 && k@[0] != '/' && !has_dotdot(k@) && ends_with(k@, dot_git()),
{
    let parts = parse_url(url);
    let r = key_from_parts(parts.as_ref(), url);
    proof {
        if r is Some {
            let k = r->0;
            let (h, p) = key_parts(parsed_url(url@), url@)->0;
            assert(k@[0] == h[0]);
            assert(k@.subrange(k@.len() - 4, k@.len() as int) =~= dot_git());
        }
    }
    r
}

/// The same reference always gives the same cache directory: the key is a
/// function of the reference's text.
pub proof fn lemma_cache_key_deterministic(u1: Seq<char>, u2: Seq<char>)
    requires
        u1 == u2,
    ensures
        cache_key(u1) == cache_key(u2),
{
}

proof fn lemma_key_of_injective(h1: Seq<char>, p1: Seq<char>, h2: Seq<char>, p2: Seq<char>)
    requires
        safe_key(h1, p1),
        safe_key(h2, p2),
        key_of(h1, p1) == key_of(h2, p2),
    ensures
        h1 == h2,
        strip_git(p1) == strip_git(p2),
{
    let k = key_of(h1, p1);
    assert(k[h1.len() as int] == '/');
    assert(key_of(h2, p2)[h2.len() as int] == '/');
    if h1.len() < h2.len() {
        assert(key_of(h2, p2)[h1.len() as int] == h2[h1.len() as int]);
    }
    if h2.len() < h1.len() {
        assert(k[h2.len() as int] == h1[h2.len() as int]);
    }
    assert(h1 =~= k.subrange(0, h1.len() as int));
    assert(h2 =~= key_of(h2, p2).subrange(0, h2.len() as int));
    let q1 = strip_git(p1);
    let q2 = strip_git(p2);
    assert(q1 =~= k.subrange(h1.len() as int + 1, (h1.len() + 1 + q1.len()) as int));
    assert(q2 =~= key_of(h2, p2).subrange(h2.len() as int + 1, (h2.len() + 1 + q2.len()) as int));
}

/// The host that a remote reference names (see `key_parts`).
pub open spec fn key_host(u: Seq<char>) -> Seq<char> {
    match key_parts(parsed_url(u), u) {
        Some((h, _p)) => h,
        None => seq![],
    }
}

/// The path that a remote reference names (see `key_parts`).
pub open spec fn key_path(u: Seq<char>) -> Seq<char> {
    match key_parts(parsed_url(u), u) {
        Some((_h, p)) => p,
        None => seq![],
    }
}

/// Remote references that name different hosts, or different paths once a
/// trailing `.git` is set aside, get different cache directories.
pub proof fn lemma_cache_key_injective(u1: Seq<char>, u2: Seq<char>)
    requires
        cache_key(u1) is Some,
        cache_key(u2) is Some,
        key_host(u1) != key_host(u2) || strip_git(key_path(u1)) != strip_git(key_path(u2)),
    ensures
        cache_key(u1) != cache_key(u2),
{
    let (h1, p1) = key_parts(parsed_url(u1), u1)->0;
    let (h2, p2) = key_parts(parsed_url(u2), u2)->0;
    if cache_key(u1) == cache_key(u2) {
        lemma_key_of_injective(h1, p1, h2, p2);
    }
}

/// A `user@host:path` reference that the URL parser rejects and that does
/// not start with `./` or `/` is remote unless it exists as a path on disk.
pub proof fn lemma_scp_reference_is_remote(u: Seq<char>)
    requires
        parsed_url(u) is None,
        scp_split(u) is Some,
        !starts_with(u, seq!['.', '/']),
        !starts_with(u, seq!['/']),
    ensures
        !is_local(u, false),
        is_local(u, true),
{
}

/// A reference that the URL parser accepts is local exactly when its scheme
/// is `file`, whatever is on disk.
pub proof fn lemma_parsed_url_local_by_scheme(u: Seq<char>, exists_on_disk: bool)
    requires
        parsed_url(u) is Some,
    ensures
        parsed_url(u) matches Some(parts) && is_local(u, exists_on_disk) == (parts.0 == seq!['f', 'i', 'l', 'e']),
{
}

} // verus!
