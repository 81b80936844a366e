//! Exact-match routing with path normalization, method negotiation and
//! response finalization.

use vstd::prelude::*;

use crate::mime::MimeType;
use crate::servable::{Servable, ServableWithRoute, header_value_ok, spec_header_value_ok};
use crate::strutil::{spec_decimal, spec_str_contains, str_contains, str_eq, u64_to_string};
use crate::types::{ClientInfo, RenderContext, RenderMeta, Rendered, RenderedBody, StrMap};

verus! {

/// The request methods the router distinguishes: `GET`, `HEAD`, and
/// everything else, which is rejected uniformly.
#[derive(Debug, Clone, Copy, PartialEq, Eq, Structural)]
pub enum RequestMethod {
    /// An http GET request
    Get,
    /// An http HEAD request
    Head,
    /// Any other http method
    Other,
}

/// Whether a path must be rewritten before serving: a trailing separator
/// (except on the root path) or a repeated separator.
pub open spec fn spec_needs_redirect(route: Seq<char>) -> bool {
    (route.len() > 0 && route.last() == '/' && route != "/"@) || spec_str_contains(route, "//"@)
}

/// `s` with every run of repeated `/` collapsed to one, dropping each `/`
/// that directly follows another.
pub open spec fn spec_collapse_from(s: Seq<char>, i: int) -> Seq<char>
    decreases s.len() - i,
{
    if i < 0 || i >= s.len() {
        Seq::empty()
    } else if i > 0 && s[i] == '/' && s[i - 1] == '/' {
        spec_collapse_from(s, i + 1)
    } else {
        seq![s[i]] + spec_collapse_from(s, i + 1)
    }
}

/// `s` with leading and trailing `/` removed.
pub open spec fn spec_trim_slash(s: Seq<char>) -> Seq<char>
    decreases s.len(),
{
    if s.len() > 0 && s[0] == '/' {
        spec_trim_slash(s.drop_first())
    } else if s.len() > 0 && s.last() == '/' {
        spec_trim_slash(s.drop_last())
    } else {
        s
    }
}

/// The normalized form of a path: repeated separators collapsed, the
/// surrounding separators trimmed, and a single leading `/` restored.
pub open spec fn spec_normalize(route: Seq<char>) -> Seq<char> {
    "/"@ + spec_trim_slash(spec_collapse_from(route, 0))
}

/// Collapse repeated `/` in `s`.
fn collapse_slashes(s: &str) -> (r: String)
    ensures
        r@ == spec_collapse_from(s@, 0),
{
    let n = s.unicode_len();
    let mut out = String::new();
    let mut i: usize = 0;
    while i < n
        invariant
            n == s@.len(),
            0 <= i <= n,
            out@ + spec_collapse_from(s@, i as int) == spec_collapse_from(s@, 0),
        decreases n - i,
    {
        let c = s.get_char(i);
        let skip = c == '/' && i > 0 && s.get_char(i - 1) == '/';
        if !skip {
            let ghost before = out@;
            out.append(s.substring_char(i, i + 1));
            proof {
                assert(s@.subrange(i as int, i + 1) =~= seq![s@[i as int]]);
                assert(before + seq![s@[i as int]] + spec_collapse_from(s@, i + 1)
                    =~= before + (seq![s@[i as int]] + spec_collapse_from(s@, i + 1)));
            }
        }
        i += 1;
    }
    proof {
        assert(out@ + Seq::<char>::empty() =~= out@);
    }
    out
}

/// A valid route key: starts with `/`, has no `//`, and does not end with
/// `/` unless it is exactly `/`.
pub open spec fn spec_valid_route(route: Seq<char>) -> bool {
    route.len() > 0 && route[0] == '/' && !spec_str_contains(route, "//"@) && (route.last() != '/'
        || route == "/"@)
}

/// A valid route key is served directly: it never triggers a normalization
/// redirect, so a route registered with [`ServableRouter::add_page`] always
/// reaches its page.
pub proof fn lemma_valid_route_not_redirected(route: Seq<char>)
    requires
        spec_valid_route(route),
    ensures
        !spec_needs_redirect(route),
{
}

/// Whether `route` can be used as a route key. Checking this before
/// [`ServableRouter::add_page`] mirrors the configuration-time validation a
/// server performs at startup.
pub fn valid_route(route: &str) -> (r: bool)
    ensures
        r == spec_valid_route(route@),
{
    let n = route.unicode_len();
    if n == 0 {
        return false;
    }
    if route.get_char(0) != '/' {
        return false;
    }
    if str_contains(route, "//") {
        return false;
    }
    if route.get_char(n - 1) == '/' && !str_eq(route, "/") {
        return false;
    }
    true
}

/// Normalize a request path: collapse repeated `/`, trim surrounding `/`,
/// and restore the single leading `/`.
pub fn normalize_route(route: &str) -> (r: String)
    ensures
        r@ == spec_normalize(route@),
{
    let collapsed = collapse_slashes(route);
    let n = collapsed.as_str().unicode_len();
    proof {
        assert(collapsed@.subrange(0, n as int) =~= collapsed@);
    }
    let mut a: usize = 0;
    let mut b: usize = n;
    while a < b && collapsed.as_str().get_char(a) == '/'
        invariant
            0 <= a <= b <= n == collapsed@.len(),
            spec_trim_slash(collapsed@) == spec_trim_slash(
                collapsed@.subrange(a as int, b as int),
            ),
        decreases b - a,
    {
        proof {
            assert(collapsed@.subrange(a as int, b as int).drop_first() =~= collapsed@.subrange(
                a + 1,
                b as int,
            ));
        }
        a += 1;
    }
    while b > a && collapsed.as_str().get_char(b - 1) == '/'
        invariant
            0 <= a <= b <= n == collapsed@.len(),
            spec_trim_slash(collapsed@) == spec_trim_slash(
                collapsed@.subrange(a as int, b as int),
            ),
            a == b || collapsed@[a as int] != '/',
        decreases b,
    {
        proof {
            assert(collapsed@.subrange(a as int, b as int).drop_last() =~= collapsed@.subrange(
                a as int,
                b - 1,
            ));
        }
        b -= 1;
    }
    proof {
        assert(spec_trim_slash(collapsed@.subrange(a as int, b as int)) == collapsed@.subrange(
            a as int,
            b as int,
        ));
    }
    let mut out = String::from_str("/");
    out.append(collapsed.as_str().substring_char(a, b));
    out
}

/// No two adjacent characters of `s` are both `/`.
pub open spec fn spec_no_adjacent_slash(s: Seq<char>) -> bool {
    forall|j: int| 0 < j < s.len() ==> !(#[trigger] s[j] == '/' && s[j - 1] == '/')
}

proof fn lemma_collapse_no_adjacent(s: Seq<char>, i: int)
    ensures
        spec_no_adjacent_slash(spec_collapse_from(s, i)),
        (0 < i < s.len() && s[i - 1] == '/' && spec_collapse_from(s, i).len() > 0)
            ==> spec_collapse_from(s, i)[0] != '/',
    decreases s.len() - i,
{
    if i < 0 || i >= s.len() {
    } else {
        lemma_collapse_no_adjacent(s, i + 1);
        let rest = spec_collapse_from(s, i + 1);
        if i > 0 && s[i] == '/' && s[i - 1] == '/' {
        } else {
            let whole = seq![s[i]] + rest;
            assert(whole[0] == s[i]);
            assert(forall|j: int| 0 < j < whole.len() ==> whole[j] == rest[j - 1]);
            assert forall|j: int| 0 < j < whole.len() implies !(#[trigger] whole[j] == '/'
                && whole[j - 1] == '/') by {
                if j == 1 {
                    if whole[0] == '/' && rest.len() > 0 {
                        assert(rest[0] != '/');
                    }
                }
            }
        }
    }
}

proof fn lemma_trim_slash_clean(s: Seq<char>)
    requires
        spec_no_adjacent_slash(s),
    ensures
        spec_no_adjacent_slash(spec_trim_slash(s)),
        spec_trim_slash(s).len() > 0 ==> spec_trim_slash(s)[0] != '/',
        spec_trim_slash(s).len() > 0 ==> spec_trim_slash(s).last() != '/',
    decreases s.len(),
{
    if s.len() > 0 && s[0] == '/' {
        assert(forall|j: int|
            0 <= j < s.drop_first().len() ==> #[trigger] s.drop_first()[j] == s[j + 1]);
        lemma_trim_slash_clean(s.drop_first());
    } else if s.len() > 0 && s.last() == '/' {
        assert(forall|j: int|
            0 <= j < s.drop_last().len() ==> #[trigger] s.drop_last()[j] == s[j]);
        lemma_trim_slash_clean(s.drop_last());
    }
}

/// Normalizing any path yields a valid route key: it starts with `/`, holds
/// no `//`, and does not end with `/` unless it is the root path itself. So
/// a normalization redirect always points at a path the router serves
/// directly.
pub proof fn lemma_normalize_valid(route: Seq<char>)
    ensures
        spec_valid_route(spec_normalize(route)),
{
    reveal_strlit("/");
    reveal_strlit("//");
    let t = spec_trim_slash(spec_collapse_from(route, 0));
    let n = spec_normalize(route);
    lemma_collapse_no_adjacent(route, 0);
    lemma_trim_slash_clean(spec_collapse_from(route, 0));
    assert(n.len() == 1 + t.len());
    assert(n[0] == '/');
    assert(forall|j: int| 0 < j < n.len() ==> #[trigger] n[j] == t[j - 1]);
    // no `//` anywhere
    assert forall|i: int| 0 <= i && i + 2 <= n.len() implies #[trigger] n.subrange(i, i + 2)
        != "//"@ by {
        if n.subrange(i, i + 2) == "//"@ {
            assert(n.subrange(i, i + 2)[0] == '/' && n.subrange(i, i + 2)[1] == '/');
            assert(n[i] == '/' && n[i + 1] == '/');
            if i == 0 {
                assert(t[0] == '/');
            } else {
                assert(t[i] == '/' && t[i - 1] == '/');
            }
        }
    }
    assert(!crate::strutil::spec_str_contains(n, "//"@));
    // the last character
    if t.len() == 0 {
        assert(n =~= "/"@);
    } else {
        assert(n.last() == t.last());
    }
}

/// The `Cache-Control` value synthesized from a response's ttl and
/// immutability: a public cacheability with a max age of at least one
/// second, marked immutable when the content never changes.
pub open spec fn spec_cache_control(ttl: Option<i64>, immutable: bool) -> Seq<char> {
    let age = match ttl {
        Some(t) => if t >= 1 {
            t as int
        } else {
            1
        },
        None => 1,
    };
    if immutable {
        "immutable, public, max-age="@ + spec_decimal(age)
    } else {
        "public, max-age="@ + spec_decimal(age)
    }
}

/// Build the `Cache-Control` value for a response.
pub fn make_cache_control(ttl: Option<i64>, immutable: bool) -> (r: String)
    ensures
        r@ == spec_cache_control(ttl, immutable),
{
    let age: u64 = match ttl {
        Some(t) => if t >= 1 {
            t as u64
        } else {
            1
        },
        None => 1,
    };
    let mut out = if immutable {
        String::from_str("immutable, public, max-age=")
    } else {
        String::from_str("public, max-age=")
    };
    let digits = u64_to_string(age);
    out.append(digits.as_str());
    out
}

/// The headers of a finalized response: `Cache-Control`, `Accept-CH` and
/// `Content-Type` filled in where the route left them unset, never
/// overwriting ones it set.
pub open spec fn spec_finalize_headers(h: Map<Seq<char>, Seq<char>>, meta: RenderMeta) -> Map<
    Seq<char>,
    Seq<char>,
> {
    let h1 = if h.contains_key("cache-control"@) {
        h
    } else {
        h.insert("cache-control"@, spec_cache_control(meta.ttl, meta.immutable))
    };
    let h2 = if h1.contains_key("accept-ch"@) {
        h1
    } else {
        h1.insert("accept-ch"@, "Sec-CH-UA-Mobile"@)
    };
    match meta.mime {
        Some(m) => if h2.contains_key("content-type"@) {
            h2
        } else {
            h2.insert("content-type"@, m.spec_canonical())
        },
        None => h2,
    }
}

/// The built-in "not found" page: an http 404, cacheable for one day,
/// immutable, reported as html.
struct Default404 {}

impl Servable for Default404 {
    open spec fn head_meta(&self, ctx: &RenderContext) -> RenderMeta {
        RenderMeta { code: 404u16, mime: Some(MimeType::Html), ttl: Some(86400), immutable: true }
    }

    open spec fn head_headers(&self, ctx: &RenderContext) -> Map<Seq<char>, Seq<char>> {
        Map::<Seq<char>, Seq<char>>::empty()
    }

    fn head(&self, ctx: &RenderContext) -> (r: Rendered<()>) {
        Rendered {
            code: 404,
            body: (),
            ttl: Some(86400),
            immutable: true,
            headers: StrMap::new(),
            mime: Some(MimeType::Html),
        }
    }

    fn render(&self, ctx: &RenderContext) -> (r: Rendered<RenderedBody>)
        ensures
            r.body is Empty,
    {
        let head = self.head(ctx);
        head.with_body(RenderedBody::Empty)
    }
}

/// The first page registered under `route`, scanning from the front.
pub open spec fn spec_find_page<P>(pages: Seq<(String, P)>, route: Seq<char>) -> Option<P>
    decreases pages.len(),
{
    if pages.len() == 0 {
        None
    } else if pages[0].0@ == route {
        Some(pages[0].1)
    } else {
        spec_find_page(pages.drop_first(), route)
    }
}

proof fn lemma_find_page_at<P>(pages: Seq<(String, P)>, route: Seq<char>, i: int)
    requires
        0 <= i < pages.len(),
        forall|j: int| 0 <= j < i ==> (#[trigger] pages[j]).0@ != route,
        pages[i].0@ == route,
    ensures
        spec_find_page(pages, route) == Some(pages[i].1),
    decreases pages.len(),
{
    if i > 0 {
        assert(pages[0].0@ != route);
        assert(forall|j: int|
            0 <= j < i - 1 ==> (#[trigger] pages.drop_first()[j]) == pages[j + 1]);
        assert(forall|j: int|
            0 <= j < i - 1 ==> (#[trigger] pages.drop_first()[j]).0@ != route);
        lemma_find_page_at(pages.drop_first(), route, i - 1);
        assert(pages.drop_first()[i - 1] == pages[i]);
    }
}

proof fn lemma_find_page_none<P>(pages: Seq<(String, P)>, route: Seq<char>)
    requires
        forall|j: int| 0 <= j < pages.len() ==> (#[trigger] pages[j]).0@ != route,
    ensures
        spec_find_page(pages, route) is None,
    decreases pages.len(),
{
    if pages.len() > 0 {
        assert(forall|j: int|
            0 <= j < pages.len() - 1 ==> (#[trigger] pages.drop_first()[j]) == pages[j + 1]);
        assert(forall|j: int|
            0 <= j < pages.len() - 1 ==> (#[trigger] pages.drop_first()[j]).0@ != route);
        lemma_find_page_none(pages.drop_first(), route);
    }
}

proof fn lemma_find_push<P>(pages: Seq<(String, P)>, entry: (String, P), route: Seq<char>)
    requires
        entry.0@ == route,
        forall|j: int| 0 <= j < pages.len() ==> (#[trigger] pages[j]).0@ != route,
    ensures
        spec_find_page(pages.push(entry), route) == Some(entry.1),
    decreases pages.len(),
{
    let whole = pages.push(entry);
    if pages.len() == 0 {
        assert(whole[0] == entry);
    } else {
        assert(whole[0] == pages[0]);
        assert(pages[0].0@ != route);
        assert(whole.drop_first() =~= pages.drop_first().push(entry));
        assert(forall|j: int|
            0 <= j < pages.len() - 1 ==> (#[trigger] pages.drop_first()[j]) == pages[j + 1]);
        assert(forall|j: int|
            0 <= j < pages.len() - 1 ==> (#[trigger] pages.drop_first()[j]).0@ != route);
        lemma_find_push(pages.drop_first(), entry, route);
    }
}

proof fn lemma_find_skip_other<P>(pages: Seq<(String, P)>, entry: (String, P), route: Seq<char>)
    requires
        entry.0@ != route,
    ensures
        spec_find_page(pages.push(entry), route) == spec_find_page(pages, route),
    decreases pages.len(),
{
    let whole = pages.push(entry);
    if pages.len() == 0 {
        assert(whole[0] == entry);
        assert(whole.drop_first() =~= Seq::<(String, P)>::empty());
    } else {
        assert(whole[0] == pages[0]);
        assert(whole.drop_first() =~= pages.drop_first().push(entry));
        lemma_find_skip_other(pages.drop_first(), entry, route);
    }
}

/// Removing an entry cannot change the lookup of a key that entry does not
/// carry.
proof fn lemma_find_remove<P>(pages: Seq<(String, P)>, i: int, r2: Seq<char>)
    requires
        0 <= i < pages.len(),
        pages[i].0@ != r2,
    ensures
        spec_find_page(pages.remove(i), r2) == spec_find_page(pages, r2),
    decreases pages.len(),
{
    let removed = pages.remove(i);
    if i == 0 {
        assert(removed =~= pages.drop_first());
    } else {
        assert(removed[0] == pages[0]);
        if pages[0].0@ != r2 {
            assert(removed.drop_first() =~= pages.drop_first().remove(i - 1));
            assert(forall|j: int|
                0 <= j < pages.len() - 1 ==> (#[trigger] pages.drop_first()[j]) == pages[j + 1]);
            lemma_find_remove(pages.drop_first(), i - 1, r2);
        }
    }
}

/// The index of the first entry keyed `route`, or the length if none is.
fn find_page_index<P>(pages: &Vec<(String, P)>, route: &str) -> (r: usize)
    ensures
        r <= pages@.len(),
        r < pages@.len() ==> pages@[r as int].0@ == route@,
        forall|j: int| 0 <= j < r ==> (#[trigger] pages@[j]).0@ != route@,
        r == pages@.len() ==> forall|j: int|
            0 <= j < pages@.len() ==> (#[trigger] pages@[j]).0@ != route@,
{
    let n = pages.len();
    let mut i: usize = 0;
    while i < n
        invariant
            n == pages@.len(),
            0 <= i <= n,
            forall|j: int| 0 <= j < i ==> (#[trigger] pages@[j]).0@ != route@,
        decreases n - i,
    {
        if str_eq(pages[i].0.as_str(), route) {
            return i;
        }
        i += 1;
    }
    n
}

/// The metadata of the built-in "not found" page, served when no route
/// matches and no fallback page was configured: an http 404, cacheable for
/// one day, immutable, reported as html.
pub open spec fn spec_default_404_meta() -> RenderMeta {
    RenderMeta { code: 404u16, mime: Some(MimeType::Html), ttl: Some(86400), immutable: true }
}

/// A set of related [`Servable`]s under exact-match routes, with a fallback
/// page for unmatched paths.
pub struct ServableRouter<P: Servable> {
    /// The route table, keyed by exact path.
    pages: Vec<(String, P)>,
    /// The page served when no route matches; `None` means the built-in 404
    /// page.
    notfound: Option<P>,
}

impl<P: Servable> ServableRouter<P> {
    #[verifier::type_invariant]
    spec fn wf(&self) -> bool {
        forall|i: int, j: int|
            0 <= i < j < self.pages@.len() ==> (#[trigger] self.pages@[i]).0@ != (
            #[trigger] self.pages@[j]).0@
    }

    /// The page registered under `route`, if any.
    pub closed spec fn spec_lookup(&self, route: Seq<char>) -> Option<P> {
        spec_find_page(self.pages@, route)
    }

    /// The configured fallback page, if one was set.
    pub closed spec fn spec_notfound(&self) -> Option<P> {
        self.notfound
    }

    /// Create a new, empty [`ServableRouter`], with the built-in 404 page as
    /// fallback.
    pub fn new() -> (r: Self)
        ensures
            forall|route: Seq<char>| r.spec_lookup(route) is None,
            r.spec_notfound() is None,
    {
        let r = ServableRouter { pages: Vec::new(), notfound: None };
        proof {
            assert forall|route: Seq<char>| r.spec_lookup(route) is None by {
                assert(r.pages@.len() == 0);
            }
        }
        r
    }

    /// Set this server's "not found" page.
    pub fn with_404(self, page: P) -> (r: Self)
        ensures
            forall|route: Seq<char>| r.spec_lookup(route) == self.spec_lookup(route),
            r.spec_notfound() == Some(page),
    {
        proof {
            use_type_invariant(&self);
        }
        let ServableRouter { pages, notfound: _ } = self;
        ServableRouter { pages, notfound: Some(page) }
    }

    /// Add a [`Servable`] to this server at the given route.
    ///
    /// The route must start with `/`, must not end with `/` (except the root
    /// path itself) and must not contain `//`: paths are normalized before
    /// lookup, so other keys would never be served. Overwrites an existing
    /// page at the same route.
    pub fn add_page(self, route: &str, page: P) -> (r: Self)
        requires
            spec_valid_route(route@),
        ensures
            r.spec_lookup(route@) == Some(page),
            forall|r2: Seq<char>| r2 != route@ ==> r.spec_lookup(r2) == self.spec_lookup(r2),
            r.spec_notfound() == self.spec_notfound(),
    {
        proof {
            use_type_invariant(&self);
        }
        let ServableRouter { mut pages, notfound } = self;
        let ghost old_pages = pages@;
        let i = find_page_index(&pages, route);
        let ghost removed_at = i as int;
        if i < pages.len() {
            let _ = pages.remove(i);
        }
        let ghost mid_pages = pages@;
        proof {
            if removed_at < old_pages.len() {
                assert(mid_pages =~= old_pages.remove(removed_at));
            }
            assert forall|j: int| 0 <= j < mid_pages.len() implies (#[trigger] mid_pages[j]).0@
                != route@ by {
                if removed_at < old_pages.len() {
                    if j < removed_at {
                        assert(mid_pages[j] == old_pages[j]);
                    } else {
                        assert(mid_pages[j] == old_pages[j + 1]);
                        assert(old_pages[removed_at].0@ == route@);
                    }
                }
            }
            assert forall|x: int, y: int| 0 <= x < y < mid_pages.len() implies (
            #[trigger] mid_pages[x]).0@ != (#[trigger] mid_pages[y]).0@ by {
                if removed_at < old_pages.len() {
                    if y < removed_at {
                        assert(mid_pages[x] == old_pages[x] && mid_pages[y] == old_pages[y]);
                    } else if x < removed_at {
                        assert(mid_pages[x] == old_pages[x] && mid_pages[y] == old_pages[y + 1]);
                    } else {
                        assert(mid_pages[x] == old_pages[x + 1] && mid_pages[y] == old_pages[y
                            + 1]);
                    }
                }
            }
        }
        pages.push((route.to_owned(), page));
        proof {
            let final_pages = pages@;
            assert(final_pages.drop_last() =~= mid_pages);
            assert(final_pages.last().0@ == route@);
            assert forall|x: int, y: int| 0 <= x < y < final_pages.len() implies (
            #[trigger] final_pages[x]).0@ != (#[trigger] final_pages[y]).0@ by {
                if y == final_pages.len() - 1 {
                    assert(final_pages[x] == mid_pages[x]);
                } else {
                    assert(final_pages[x] == mid_pages[x] && final_pages[y] == mid_pages[y]);
                }
            }
            lemma_find_push(mid_pages, final_pages.last(), route@);
            assert forall|r2: Seq<char>| r2 != route@ implies spec_find_page(final_pages, r2)
                == spec_find_page(old_pages, r2) by {
                lemma_find_skip_other(mid_pages, final_pages.last(), r2);
                if removed_at < old_pages.len() {
                    lemma_find_remove(old_pages, removed_at, r2);
                }
            }
        }
        let r = ServableRouter { pages, notfound };
        r
    }

    /// What a dispatched response must look like: its metadata and headers
    /// come from the page that answers for the route (the registered one,
    /// the configured fallback, or the built-in 404), with the caching
    /// headers finalized; and a `GET` answer's body is the body of an actual
    /// render result of that page, while a `HEAD` answer carries none.
    pub open spec fn spec_dispatch_ok(
        &self,
        method: RequestMethod,
        ctx: &RenderContext,
        r: Rendered<RenderedBody>,
    ) -> bool {
        let meta = r.spec_meta();
        &&& (method is Head ==> r.body is Empty)
        &&& match self.spec_lookup(ctx.route@) {
            Some(p) => (meta == p.head_meta(ctx) && r.headers@ == spec_finalize_headers(
                p.head_headers(ctx),
                meta,
            )) || (method is Get && p.render_fallback(ctx, meta) && r.headers@
                == spec_finalize_headers(Map::<Seq<char>, Seq<char>>::empty(), meta)),
            None => match self.spec_notfound() {
                Some(p) => (meta == p.head_meta(ctx) && r.headers@ == spec_finalize_headers(
                    p.head_headers(ctx),
                    meta,
                )) || (method is Get && p.render_fallback(ctx, meta) && r.headers@
                    == spec_finalize_headers(Map::<Seq<char>, Seq<char>>::empty(), meta)),
                None => meta == spec_default_404_meta() && r.headers@ == spec_finalize_headers(
                    Map::<Seq<char>, Seq<char>>::empty(),
                    meta,
                ),
            },
        }
        &&& (method is Get ==> match self.spec_lookup(ctx.route@) {
            Some(p) => exists|rr: Rendered<RenderedBody>|
                #[trigger] call_ensures(P::render, (&p, ctx), rr) && r.body == rr.body
                    && r.spec_meta() == rr.spec_meta() && r.headers@ == spec_finalize_headers(
                    rr.headers@,
                    rr.spec_meta(),
                ),
            None => match self.spec_notfound() {
                Some(p) => exists|rr: Rendered<RenderedBody>|
                    #[trigger] call_ensures(P::render, (&p, ctx), rr) && r.body == rr.body
                        && r.spec_meta() == rr.spec_meta() && r.headers@ == spec_finalize_headers(
                        rr.headers@,
                        rr.spec_meta(),
                    ),
                None => r.body is Empty,
            },
        })
    }

    /// Decide the complete response for one request: reject methods other
    /// than `GET` and `HEAD`, redirect unnormalized paths, dispatch to the
    /// matching page (or the fallback), and finalize the caching headers.
    pub fn respond(&self, method: RequestMethod, ctx: &RenderContext) -> (r: Rendered<
        RenderedBody,
    >)
        ensures
            method is Other ==> r.code == 405 && r.mime is None && r.ttl is None && !r.immutable
                && r.headers@ == Map::<Seq<char>, Seq<char>>::empty().insert(
                "allow"@,
                "GET,HEAD"@,
            ) && r.body is Empty,
            !(method is Other) && spec_needs_redirect(ctx.route@) && spec_header_value_ok(
                spec_normalize(ctx.route@),
            ) ==> r.code == 308 && r.headers@ == Map::<Seq<char>, Seq<char>>::empty().insert(
                "location"@,
                spec_normalize(ctx.route@),
            ) && r.body is Empty,
            !(method is Other) && spec_needs_redirect(ctx.route@) && !spec_header_value_ok(
                spec_normalize(ctx.route@),
            ) ==> r.code == 400 && r.headers@ == Map::<Seq<char>, Seq<char>>::empty() && r.body
                is Empty,
            !(method is Other) && !spec_needs_redirect(ctx.route@) ==> self.spec_dispatch_ok(
                method,
                ctx,
                r,
            ),
    {
        if let RequestMethod::Other = method {
            let headers = StrMap::new().insert("allow", String::from_str("GET,HEAD"));
            return Rendered {
                code: 405,
                headers,
                body: RenderedBody::Empty,
                mime: None,
                ttl: None,
                immutable: false,
            };
        }
        // Normalize the path with a redirect
        let route_len = ctx.route.as_str().unicode_len();
        let trailing = route_len > 0 && ctx.route.as_str().get_char(route_len - 1) == '/'
            && !str_eq(ctx.route.as_str(), "/");
        let doubled = str_contains(ctx.route.as_str(), "//");
        if trailing || doubled {
            let target = normalize_route(ctx.route.as_str());
            if header_value_ok(target.as_str()) {
                let headers = StrMap::new().insert("location", target);
                return Rendered {
                    code: 308,
                    headers,
                    body: RenderedBody::Empty,
                    mime: None,
                    ttl: None,
                    immutable: false,
                };
            } else {
                return Rendered {
                    code: 400,
                    headers: StrMap::new(),
                    body: RenderedBody::Empty,
                    mime: None,
                    ttl: None,
                    immutable: false,
                };
            }
        }
        // Exact-match lookup, with the fallback page on a miss
        let n = self.pages.len();
        let found = find_page_index(&self.pages, ctx.route.as_str());
        let mut rend: Rendered<RenderedBody>;
        if found < n {
            proof {
                lemma_find_page_at(self.pages@, ctx.route@, found as int);
            }
            let page = &self.pages[found].1;
            rend = match method {
                RequestMethod::Head => {
                    let h = page.head(ctx);
                    h.with_body(RenderedBody::Empty)
                },
                _ => page.render(ctx),
            };
        } else {
            proof {
                lemma_find_page_none(self.pages@, ctx.route@);
            }
            match &self.notfound {
                Some(page) => {
                    rend = match method {
                        RequestMethod::Head => {
                            let h = page.head(ctx);
                            h.with_body(RenderedBody::Empty)
                        },
                        _ => page.render(ctx),
                    };
                },
                None => {
                    let d = Default404 {  };
                    rend = match method {
                        RequestMethod::Head => {
                            let h = d.head(ctx);
                            h.with_body(RenderedBody::Empty)
                        },
                        _ => d.render(ctx),
                    };
                },
            }
        }
        let ghost rend0 = rend;
        // Fill in headers the page left unset
        if !rend.headers.contains_key("cache-control") {
            let value = make_cache_control(rend.ttl, rend.immutable);
            rend.headers = rend.headers.insert("cache-control", value);
        }
        if !rend.headers.contains_key("accept-ch") {
            rend.headers = rend.headers.insert("accept-ch", String::from_str("Sec-CH-UA-Mobile"));
        }
        if !rend.headers.contains_key("content-type") {
            if let Some(m) = &rend.mime {
                let value = m.to_string();
                rend.headers = rend.headers.insert("content-type", value);
            }
        }
        proof {
            assert(rend.headers@ == spec_finalize_headers(rend0.headers@, rend0.spec_meta()));
            if method is Get {
                match self.spec_lookup(ctx.route@) {
                    Some(p) => {
                        assert(call_ensures(P::render, (&p, ctx), rend0));
                    },
                    None => {
                        match self.spec_notfound() {
                            Some(p) => {
                                assert(call_ensures(P::render, (&p, ctx), rend0));
                            },
                            None => {
                                assert(rend.body is Empty);
                            },
                        }
                    },
                }
            }
        }
        rend
    }
}

/// What the form-urlencoded query string decodes to: a key-unique map of
/// parameter names to values.
pub uninterp spec fn query_pairs_of(s: Seq<char>) -> Map<Seq<char>, Seq<char>>;

/// Relies on `serde_urlencoded::from_str`, which decodes a form-urlencoded
/// string into key/value pairs; collecting into a `BTreeMap` keeps one value
/// per key. A malformed query decodes to the empty map (`unwrap_or_default`).
#[verifier::external_body]
fn parse_query(s: &str) -> (r: StrMap)
    ensures
        r@ == query_pairs_of(s@),
{
    let pairs: std::collections::BTreeMap<String, String> = serde_urlencoded::from_str(
        s,
    ).unwrap_or_default();
    StrMap { entries: pairs.into_iter().collect() }
}

impl<P: Servable> ServableRouter<P> {
    /// Serve one raw request: classify the client from its header values,
    /// decode the query string, and decide the response with
    /// [`ServableRouter::respond`].
    pub fn handle(
        &self,
        method: RequestMethod,
        path: &str,
        raw_query: &str,
        ua: &str,
        ch_mobile: &str,
    ) -> (r: Rendered<RenderedBody>)
        ensures
            method is Other ==> r.code == 405 && r.headers@ == Map::<
                Seq<char>,
                Seq<char>,
            >::empty().insert("allow"@, "GET,HEAD"@) && r.body is Empty,
            !(method is Other) && spec_needs_redirect(path@) && spec_header_value_ok(
                spec_normalize(path@),
            ) ==> r.code == 308 && r.headers@ == Map::<Seq<char>, Seq<char>>::empty().insert(
                "location"@,
                spec_normalize(path@),
            ) && r.body is Empty,
            !(method is Other) && spec_needs_redirect(path@) && !spec_header_value_ok(
                spec_normalize(path@),
            ) ==> r.code == 400 && r.headers@ == Map::<Seq<char>, Seq<char>>::empty() && r.body
                is Empty,
            !(method is Other) && !spec_needs_redirect(path@) ==> r.headers@.contains_key(
                "cache-control"@,
            ) && r.headers@.contains_key("accept-ch"@),
            !(method is Other) && !spec_needs_redirect(path@) ==> exists|ctx: RenderContext|
                #[trigger] self.spec_dispatch_ok(method, &ctx, r) && ctx.client_info
                    == ClientInfo::spec_from_header_values(ua@, ch_mobile@) && ctx.route@ == path@
                    && ctx.query@ == query_pairs_of(raw_query@),
    {
        let client_info = ClientInfo::from_header_values(ua, ch_mobile);
        let query = parse_query(raw_query);
        let ctx = RenderContext { client_info, route: path.to_owned(), query };
        let r = self.respond(method, &ctx);
        proof {
            if !(method is Other) && !spec_needs_redirect(path@) {
                assert(self.spec_dispatch_ok(method, &ctx, r));
            }
        }
        r
    }
}

impl<S: Servable> ServableRouter<&'static ServableWithRoute<S>> {
    /// Add a [`ServableWithRoute`] to this server under its own route.
    /// Behaves exactly like [`ServableRouter::add_page`].
    pub fn add_page_with_route(self, servable_with_route: &'static ServableWithRoute<S>) -> (r:
        Self)
        requires
            spec_valid_route(servable_with_route.spec_route()),
        ensures
            r.spec_lookup(servable_with_route.spec_route()) == Some(servable_with_route),
            forall|r2: Seq<char>|
                r2 != servable_with_route.spec_route() ==> r.spec_lookup(r2) == self.spec_lookup(
                    r2,
                ),
    {
        let route = servable_with_route.route();
        self.add_page(route, servable_with_route)
    }
}

} // verus!
