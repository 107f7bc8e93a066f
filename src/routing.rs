//! Deciding what a request is: the reload handshake, a static file, or a page.
//!
//! Paths are handled as text relative to the served root. File names and
//! extensions follow the rules of `std::path` on Unix: trailing separators and
//! `.` components are not part of the file name, `..` has no file name, and a
//! name that starts with its only dot has no extension.

use vstd::prelude::*;
use crate::text::{has_prefix, same_text};

verus! {

/// The path on which browsers open the reload WebSocket.
pub const RELOAD_PATH: &'static str = "/__live_reload";

/// Requests under this prefix are served from the root itself.
pub const STATIC_PREFIX: &'static str = "/static/";

/// Every other request is served from this directory under the root.
pub const PAGES_DIR: &'static str = "pages/";

/// The file served for a directory.
pub const INDEX_FILE: &'static str = "index.html";

/// The extension given to a page path that has none.
pub const HTML_SUFFIX: &'static str = ".html";

/// Whether live reload is on, from the value of the `PROD` setting: it is on
/// unless the setting is present with a value other than `dev`.
pub fn is_livereload(prod: Option<&str>) -> (r: bool)
    ensures
        r == match prod {
            None => true,
            Some(v) => v@ == "dev"@,
        },
{
    match prod {
        None => true,
        Some(v) => same_text(v, "dev"),
    }
}

/// `s` without its leading `/` characters.
pub open spec fn trim_slashes(s: Seq<char>) -> Seq<char>
    decreases s.len(),
{
    if s.len() > 0 && s[0] == '/' {
        trim_slashes(s.subrange(1, s.len() as int))
    } else {
        s
    }
}

/// `s` without the trailing separators and `.` components that follow its
/// last named component.
pub open spec fn trim_tail(s: Seq<char>) -> Seq<char>
    decreases s.len(),
{
    if s.len() > 0 && s.last() == '/' {
        trim_tail(s.drop_last())
    } else if s.len() >= 2 && s.last() == '.' && s[s.len() - 2] == '/' {
        trim_tail(s.drop_last())
    } else {
        s
    }
}

/// Where the last component of `s` starts: just after its last `/`, or 0.
pub open spec fn segment_start(s: Seq<char>) -> int
    decreases s.len(),
{
    if s.len() == 0 {
        0
    } else if s.last() == '/' {
        s.len() as int
    } else {
        segment_start(s.drop_last())
    }
}

/// The index of the last `.` in `s`, or -1.
pub open spec fn last_dot(s: Seq<char>) -> int
    decreases s.len(),
{
    if s.len() == 0 {
        -1
    } else if s.last() == '.' {
        s.len() - 1
    } else {
        last_dot(s.drop_last())
    }
}

/// The file name of path `s`, as `Path::file_name` gives it.
pub open spec fn file_name(s: Seq<char>) -> Option<Seq<char>> {
    let t = trim_tail(s);
    let n = t.subrange(segment_start(t), t.len() as int);
    if n.len() == 0 || n == seq!['.'] || n == seq!['.', '.'] {
        None
    } else {
        Some(n)
    }
}

/// The extension of path `s`, as `Path::extension` gives it.
pub open spec fn extension(s: Seq<char>) -> Option<Seq<char>> {
    match file_name(s) {
        None => None,
        Some(n) => if last_dot(n) <= 0 {
            None
        } else {
            Some(n.subrange(last_dot(n) + 1, n.len() as int))
        },
    }
}

/// `s` with `name` added as a last component, as `PathBuf::push` does.
pub open spec fn push_name(s: Seq<char>, name: Seq<char>) -> Seq<char> {
    if s.len() == 0 || s.last() == '/' {
        s + name
    } else {
        s.push('/') + name
    }
}

/// `s` given the extension `html` in place of none, as
/// `PathBuf::set_extension` does to a path whose extension is absent.
pub open spec fn with_html(s: Seq<char>) -> Seq<char> {
    match file_name(s) {
        None => s,
        Some(_) => trim_tail(s) + HTML_SUFFIX@,
    }
}

/// Whether a request asks for the reload handshake.
pub open spec fn wants_handshake(live: bool, path: Seq<char>, upgrade: Option<&str>) -> bool {
    live && path == RELOAD_PATH@ && match upgrade {
        Some(u) => u@ == "websocket"@,
        None => false,
    }
}

/// The directory under the root that holds page `path`, before any index file
/// or extension is added.
pub open spec fn page_base(path: Seq<char>) -> Seq<char> {
    PAGES_DIR@ + trim_slashes(path)
}

/// The file, relative to the root, that answers page `path`; `is_dir` tells
/// whether `page_base(path)` names a directory.
pub open spec fn page_file_of(path: Seq<char>, is_dir: bool) -> Seq<char> {
    let base = page_base(path);
    let p = if path == seq!['/'] || is_dir {
        push_name(base, INDEX_FILE@)
    } else {
        base
    };
    if extension(p) is None {
        with_html(p)
    } else {
        p
    }
}

/// The two disjoint outcomes of a request, and where a file request points.
pub enum Route {
    /// Upgrade the connection to a reload session.
    Handshake,
    /// Serve this file, relative to the root.
    Static(String),
    /// Serve a page; this is its directory relative to the root (see `page_file`).
    Page(String),
}

/// The index of the first character of `s` that is not `/`.
fn leading_slashes(s: &str) -> (k: usize)
    ensures
        k <= s@.len(),
        trim_slashes(s@) == s@.subrange(k as int, s@.len() as int),
{
    let n = s.unicode_len();
    let mut i: usize = 0;
    assert(s@.subrange(0, n as int) =~= s@);
    while i < n && s.get_char(i) == '/'
        invariant
            n == s@.len(),
            i <= n,
            trim_slashes(s@) == trim_slashes(s@.subrange(i as int, n as int)),
        decreases n - i,
    {
        assert(s@.subrange(i as int, n as int).subrange(1, (n - i) as int) =~= s@.subrange(
            i + 1,
            n as int,
        ));
        i = i + 1;
    }
    proof {
        lemma_trim_slashes_stops(s@, i as int);
    }
    i
}

proof fn lemma_trim_slashes_stops(s: Seq<char>, i: int)
    requires
        0 <= i <= s.len(),
        i == s.len() || s[i] != '/',
    ensures
        trim_slashes(s.subrange(i, s.len() as int)) == s.subrange(i, s.len() as int),
{
}

/// Decides what a request is, from the live-reload flag, its path and its
/// `Upgrade` header.
pub fn route(live: bool, path: &str, upgrade: Option<&str>) -> (r: Route)
    ensures
        match r {
            Route::Handshake => wants_handshake(live, path@, upgrade),
            Route::Static(rel) => !wants_handshake(live, path@, upgrade)
                && STATIC_PREFIX@.is_prefix_of(path@) && rel@ == trim_slashes(path@),
            Route::Page(dir) => !wants_handshake(live, path@, upgrade)
                && !STATIC_PREFIX@.is_prefix_of(path@) && dir@ == page_base(path@),
        },
{
    let upgrade_ok = match upgrade {
        Some(u) => same_text(u, "websocket"),
        None => false,
    };
    if live && same_text(path, RELOAD_PATH) && upgrade_ok {
        return Route::Handshake;
    }
    let k = leading_slashes(path);
    let rest = path.substring_char(k, path.unicode_len());
    if has_prefix(path, STATIC_PREFIX) {
        Route::Static(rest.to_owned())
    } else {
        let mut dir = PAGES_DIR.to_owned();
        dir.append(rest);
        Route::Page(dir)
    }
}


/// The length of `trim_tail(s@)`.
fn tail_end(s: &str) -> (e: usize)
    ensures
        e <= s@.len(),
        trim_tail(s@) == s@.subrange(0, e as int),
{
    let n = s.unicode_len();
    let mut i: usize = n;
    assert(s@.subrange(0, n as int) =~= s@);
    while i > 0 && (s.get_char(i - 1) == '/' || (i >= 2 && s.get_char(i - 1) == '.'
        && s.get_char(i - 2) == '/'))
        invariant
            n == s@.len(),
            i <= n,
            trim_tail(s@) == trim_tail(s@.subrange(0, i as int)),
        decreases i,
    {
        assert(s@.subrange(0, i as int).drop_last() =~= s@.subrange(0, i - 1));
        i = i - 1;
    }
    i
}

/// `segment_start` of the first `e` characters of `s`.
fn segment_start_in(s: &str, e: usize) -> (b: usize)
    requires
        e <= s@.len(),
    ensures
        b <= e,
        b == segment_start(s@.subrange(0, e as int)),
{
    let mut j: usize = e;
    while j > 0 && s.get_char(j - 1) != '/'
        invariant
            e <= s@.len(),
            j <= e,
            segment_start(s@.subrange(0, e as int)) == segment_start(s@.subrange(0, j as int)),
        decreases j,
    {
        assert(s@.subrange(0, j as int).drop_last() =~= s@.subrange(0, j - 1));
        j = j - 1;
    }
    j
}

/// Scans `s[b..e]` from its end for a dot: the result is `b` where there is
/// none, and one past the last dot otherwise.
fn after_last_dot(s: &str, b: usize, e: usize) -> (j: usize)
    requires
        b <= e <= s@.len(),
    ensures
        b <= j <= e,
        j == b ==> last_dot(s@.subrange(b as int, e as int)) == -1,
        j > b ==> last_dot(s@.subrange(b as int, e as int)) == j - 1 - b,
{
    let mut j: usize = e;
    while j > b && s.get_char(j - 1) != '.'
        invariant
            b <= j <= e <= s@.len(),
            last_dot(s@.subrange(b as int, e as int)) == last_dot(s@.subrange(b as int, j as int)),
        decreases j,
    {
        assert(s@.subrange(b as int, j as int).drop_last() =~= s@.subrange(b as int, j - 1));
        j = j - 1;
    }
    j
}

/// Where the file name of `s` stands in it, if it has one; `e` is also the
/// length of `trim_tail(s@)`.
fn file_name_span(s: &str) -> (r: Option<(usize, usize)>)
    ensures
        match r {
            None => file_name(s@) is None,
            Some((b, e)) => b < e <= s@.len() && file_name(s@) == Some(s@.subrange(b as int, e as int))
                && trim_tail(s@) == s@.subrange(0, e as int),
        },
{
    let e = tail_end(s);
    let b = segment_start_in(s, e);
    let ghost t = s@.subrange(0, e as int);
    assert(t.subrange(b as int, e as int) =~= s@.subrange(b as int, e as int));
    let ghost n = s@.subrange(b as int, e as int);
    if e == b {
        assert(n.len() == 0);
        return None;
    }
    if e - b == 1 && s.get_char(b) == '.' {
        assert(n =~= seq!['.']);
        return None;
    }
    if e - b == 2 && s.get_char(b) == '.' && s.get_char(b + 1) == '.' {
        assert(n =~= seq!['.', '.']);
        return None;
    }
    assert(n != seq!['.'] && n != seq!['.', '.']) by {
        if n.len() == 1 {
            assert(n[0] == s@[b as int]);
        }
        if n.len() == 2 {
            assert(n[0] == s@[b as int] && n[1] == s@[b + 1]);
        }
    }
    Some((b, e))
}

/// The extension of path `s`, as `Path::extension` gives it.
pub fn extension_of(s: &str) -> (r: Option<&str>)
    ensures
        match r {
            None => extension(s@) is None,
            Some(x) => extension(s@) == Some(x@),
        },
{
    match file_name_span(s) {
        None => None,
        Some((b, e)) => {
            let j = after_last_dot(s, b, e);
            if j <= b + 1 {
                None
            } else {
                let x = s.substring_char(j, e);
                let ghost n = s@.subrange(b as int, e as int);
                assert(n.subrange(j - b, n.len() as int) =~= x@);
                Some(x)
            }
        },
    }
}

/// `s` given the extension `html` where it has a file name.
fn set_html(s: &str) -> (r: String)
    ensures
        r@ == with_html(s@),
{
    match file_name_span(s) {
        None => s.to_owned(),
        Some((_b, e)) => {
            let mut r = s.substring_char(0, e).to_owned();
            r.append(HTML_SUFFIX);
            r
        },
    }
}

/// `s` with the index file added as a last component.
fn push_index(s: String) -> (r: String)
    ensures
        r@ == push_name(s@, INDEX_FILE@),
{
    let n = s.as_str().unicode_len();
    let mut r = s;
    if n == 0 || r.as_str().get_char(n - 1) == '/' {
        r.append(INDEX_FILE);
    } else {
        r.append("/");
        proof {
            reveal_strlit("/");
        }
        r.append(INDEX_FILE);
    }
    r
}

/// The file, relative to the root, that answers page `path`; `is_dir` tells
/// whether the directory that `route` gave for it exists as a directory.
pub fn page_file(path: &str, is_dir: bool) -> (r: String)
    ensures
        r@ == page_file_of(path@, is_dir),
{
    let k = leading_slashes(path);
    let rest = path.substring_char(k, path.unicode_len());
    let mut base = PAGES_DIR.to_owned();
    base.append(rest);
    assert(base@ == page_base(path@));
    proof {
        reveal_strlit("/");
    }
    assert("/"@ =~= seq!['/']);
    let p = if same_text(path, "/") || is_dir {
        push_index(base)
    } else {
        base
    };
    if extension_of(p.as_str()).is_none() {
        set_html(p.as_str())
    } else {
        p
    }
}

} // verus!
