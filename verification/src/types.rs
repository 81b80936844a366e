//! The response contract shared by every route: [`Rendered`] values, their
//! header collection, and the per-request [`RenderContext`].

use vstd::prelude::*;

use crate::mime::MimeType;
use crate::strutil::{str_contains, str_eq};

verus! {

//
// A key-unique string mapping, used both for response headers and for query
// parameters. Keys are compared exactly (header names are expected in their
// lowercase form, as HTTP/2 and axum normalize them).
//

/// The abstract content of a key-unique string mapping: later entries win.
pub open spec fn spec_as_map(s: Seq<(Seq<char>, Seq<char>)>) -> Map<Seq<char>, Seq<char>>
    decreases s.len(),
{
    if s.len() == 0 {
        Map::empty()
    } else {
        spec_as_map(s.drop_last()).insert(s.last().0, s.last().1)
    }
}

/// The views of a sequence of owned string pairs.
pub open spec fn spec_pair_views(s: Seq<(String, String)>) -> Seq<(Seq<char>, Seq<char>)> {
    s.map_values(|p: (String, String)| (p.0@, p.1@))
}

/// No two entries share a key.
pub open spec fn spec_keys_unique(s: Seq<(Seq<char>, Seq<char>)>) -> bool {
    forall|i: int, j: int| 0 <= i < j < s.len() ==> s[i].0 != s[j].0
}

proof fn lemma_as_map_contains(s: Seq<(Seq<char>, Seq<char>)>, k: Seq<char>)
    ensures
        spec_as_map(s).contains_key(k) <==> exists|i: int| 0 <= i < s.len() && s[i].0 == k,
    decreases s.len(),
{
    if s.len() > 0 {
        lemma_as_map_contains(s.drop_last(), k);
        if spec_as_map(s).contains_key(k) {
            if s.last().0 != k {
                let i = choose|i: int| 0 <= i < s.drop_last().len() && s.drop_last()[i].0 == k;
                assert(s[i].0 == k);
            } else {
                assert(s[s.len() - 1].0 == k);
            }
        } else {
            assert(forall|i: int| 0 <= i < s.len() - 1 ==> s.drop_last()[i] == s[i]);
        }
    }
}

proof fn lemma_as_map_get(s: Seq<(Seq<char>, Seq<char>)>, i: int)
    requires
        spec_keys_unique(s),
        0 <= i < s.len(),
    ensures
        spec_as_map(s).contains_key(s[i].0),
        spec_as_map(s)[s[i].0] == s[i].1,
    decreases s.len(),
{
    if i == s.len() - 1 {
        lemma_as_map_contains(s, s[i].0);
    } else {
        assert(forall|j: int| 0 <= j < s.len() - 1 ==> s.drop_last()[j] == s[j]);
        lemma_as_map_get(s.drop_last(), i);
        assert(s.last().0 != s[i].0);
    }
}

/// Removing the one entry that carries key `k` leaves every other key's
/// binding unchanged.
proof fn lemma_as_map_remove_other(s: Seq<(Seq<char>, Seq<char>)>, i: int, k2: Seq<char>)
    requires
        spec_keys_unique(s),
        0 <= i < s.len(),
        k2 != s[i].0,
    ensures
        spec_as_map(s.remove(i)).contains_key(k2) == spec_as_map(s).contains_key(k2),
        spec_as_map(s).contains_key(k2) ==> spec_as_map(s.remove(i))[k2] == spec_as_map(s)[k2],
{
    let mid = s.remove(i);
    assert(forall|x: int| 0 <= x < i ==> #[trigger] mid[x] == s[x]);
    assert(forall|x: int| i <= x < mid.len() ==> #[trigger] mid[x] == s[x + 1]);
    assert forall|x: int, y: int| 0 <= x < y < mid.len() implies (#[trigger] mid[x]).0 != (
    #[trigger] mid[y]).0 by {
        if y < i {
        } else if x < i {
            assert(mid[y] == s[y + 1]);
        } else {
            assert(mid[x] == s[x + 1] && mid[y] == s[y + 1]);
        }
    }
    lemma_as_map_contains(s, k2);
    lemma_as_map_contains(mid, k2);
    if spec_as_map(s).contains_key(k2) {
        let j = choose|j: int| 0 <= j < s.len() && s[j].0 == k2;
        let j2: int = if j < i {
            j
        } else {
            j - 1
        };
        assert(j != i);
        assert(mid[j2] == s[j]);
        lemma_as_map_get(s, j);
        lemma_as_map_get(mid, j2);
    } else {
        if spec_as_map(mid).contains_key(k2) {
            let j2 = choose|j2: int| 0 <= j2 < mid.len() && mid[j2].0 == k2;
            let j: int = if j2 < i {
                j2
            } else {
                j2 + 1
            };
            assert(s[j] == mid[j2]);
        }
    }
}

/// A key-unique mapping from strings to strings, in insertion order.
///
/// Used for a response's header collection and for a request's query
/// parameters.
pub struct StrMap {
    pub(crate) entries: Vec<(String, String)>,
}

impl View for StrMap {
    type V = Map<Seq<char>, Seq<char>>;

    closed spec fn view(&self) -> Map<Seq<char>, Seq<char>> {
        spec_as_map(spec_pair_views(self.entries@))
    }
}

impl StrMap {
    #[verifier::type_invariant]
    spec fn wf(&self) -> bool {
        spec_keys_unique(spec_pair_views(self.entries@))
    }

    /// An empty mapping.
    pub fn new() -> (r: StrMap)
        ensures
            r@ == Map::<Seq<char>, Seq<char>>::empty(),
    {
        StrMap { entries: Vec::new() }
    }

    /// The number of entries.
    pub fn len(&self) -> (r: usize)
        ensures
            r == self@.dom().len(),
    {
        proof {
            use_type_invariant(&*self);
            Self::lemma_len(spec_pair_views(self.entries@));
        }
        self.entries.len()
    }

    proof fn lemma_len(s: Seq<(Seq<char>, Seq<char>)>)
        requires
            spec_keys_unique(s),
        ensures
            spec_as_map(s).dom().len() == s.len(),
            spec_as_map(s).dom().finite(),
        decreases s.len(),
    {
        if s.len() > 0 {
            assert(forall|j: int| 0 <= j < s.len() - 1 ==> s.drop_last()[j] == s[j]);
            Self::lemma_len(s.drop_last());
            lemma_as_map_contains(s.drop_last(), s.last().0);
        }
    }

    /// Whether some entry has the key `name`.
    pub fn contains_key(&self, name: &str) -> (r: bool)
        ensures
            r == self@.contains_key(name@),
    {
        proof {
            use_type_invariant(&*self);
            lemma_as_map_contains(spec_pair_views(self.entries@), name@);
        }
        let n = self.entries.len();
        let mut i: usize = 0;
        while i < n
            invariant
                n == self.entries@.len(),
                0 <= i <= n,
                spec_keys_unique(spec_pair_views(self.entries@)),
                forall|j: int| 0 <= j < i ==> self.entries@[j].0@ != name@,
            decreases n - i,
        {
            if str_eq(self.entries[i].0.as_str(), name) {
                proof {
                    lemma_as_map_get(spec_pair_views(self.entries@), i as int);
                }
                return true;
            }
            i += 1;
        }
        false
    }

    /// Add an entry for a key not yet present.
    pub fn insert(self, name: &str, value: String) -> (r: StrMap)
        requires
            !self@.contains_key(name@),
        ensures
            r@ == self@.insert(name@, value@),
    {
        proof {
            use_type_invariant(&self);
            lemma_as_map_contains(spec_pair_views(self.entries@), name@);
        }
        let ghost old_pairs = spec_pair_views(self.entries@);
        let StrMap { mut entries } = self;
        entries.push((name.to_owned(), value));
        proof {
            assert(spec_pair_views(entries@) =~= old_pairs.push((name@, value@)));
            assert(spec_pair_views(entries@).drop_last() =~= old_pairs);
        }
        StrMap { entries }
    }

    /// Set the value under a key, replacing any existing entry for it.
    pub fn set(self, name: &str, value: String) -> (r: StrMap)
        ensures
            r@ == self@.insert(name@, value@),
    {
        proof {
            use_type_invariant(&self);
        }
        let ghost old_map = self@;
        let StrMap { mut entries } = self;
        let ghost old_pairs = spec_pair_views(entries@);
        let n = entries.len();
        let mut i: usize = 0;
        let mut found = n;
        while i < n && found == n
            invariant
                n == entries@.len(),
                0 <= i <= n,
                found == n || (found < i && entries@[found as int].0@ == name@),
                found == n ==> forall|j: int| 0 <= j < i ==> entries@[j].0@ != name@,
            decreases n - i,
        {
            if str_eq(entries[i].0.as_str(), name) {
                found = i;
            }
            i += 1;
        }
        let ghost pre = entries@;
        if found < n {
            let _ = entries.remove(found);
        }
        let ghost mid_pairs = spec_pair_views(entries@);
        proof {
            assert(old_pairs == spec_pair_views(pre));
            assert(forall|x: int|
                0 <= x < pre.len() ==> (#[trigger] old_pairs[x]).0 == pre[x].0@);
            if found < n {
                assert(entries@ =~= pre.remove(found as int));
                assert(mid_pairs =~= old_pairs.remove(found as int));
                assert(old_pairs[found as int].0 == name@);
            }
            assert forall|j: int| 0 <= j < mid_pairs.len() implies (#[trigger] mid_pairs[j]).0
                != name@ by {
                if found < n {
                    if j < found {
                        assert(mid_pairs[j] == old_pairs[j]);
                        assert(pre[j].0@ != name@);
                    } else {
                        assert(mid_pairs[j] == old_pairs[j + 1]);
                        assert(old_pairs[found as int].0 != old_pairs[j + 1].0);
                    }
                } else {
                    assert(mid_pairs[j] == old_pairs[j]);
                    assert(pre[j].0@ != name@);
                }
            }
            assert forall|x: int, y: int| 0 <= x < y < mid_pairs.len() implies (
            #[trigger] mid_pairs[x]).0 != (#[trigger] mid_pairs[y]).0 by {
                if found < n {
                    if y < found {
                    } else if x < found {
                        assert(mid_pairs[x] == old_pairs[x] && mid_pairs[y] == old_pairs[y + 1]);
                    } else {
                        assert(mid_pairs[x] == old_pairs[x + 1] && mid_pairs[y] == old_pairs[y
                            + 1]);
                    }
                }
            }
            lemma_as_map_contains(mid_pairs, name@);
        }
        entries.push((name.to_owned(), value));
        proof {
            let final_pairs = spec_pair_views(entries@);
            assert(final_pairs.drop_last() =~= mid_pairs);
            assert(final_pairs.last() == (name@, value@));
            assert forall|x: int, y: int| 0 <= x < y < final_pairs.len() implies (
            #[trigger] final_pairs[x]).0 != (#[trigger] final_pairs[y]).0 by {
                if y == final_pairs.len() - 1 {
                    assert(final_pairs[x] == mid_pairs[x]);
                } else {
                    assert(final_pairs[x] == mid_pairs[x] && final_pairs[y] == mid_pairs[y]);
                }
            }
            assert(spec_pair_views(entries@).drop_last() =~= mid_pairs);
            assert(spec_pair_views(entries@).last() == (name@, value@));
            assert(spec_as_map(spec_pair_views(entries@)) == spec_as_map(mid_pairs).insert(
                name@,
                value@,
            ));
            assert forall|k2: Seq<char>|
                #![trigger old_map.contains_key(k2)]
                #![trigger spec_as_map(mid_pairs).contains_key(k2)]
                k2 != name@ implies ({
                let m2 = spec_as_map(mid_pairs);
                m2.contains_key(k2) == old_map.contains_key(k2) && (old_map.contains_key(k2)
                    ==> m2[k2] == old_map[k2])
            }) by {
                if found < n {
                    assert(old_pairs[found as int].0 == name@);
                    lemma_as_map_remove_other(old_pairs, found as int, k2);
                }
            }
            assert(spec_as_map(mid_pairs).insert(name@, value@) =~= old_map.insert(
                name@,
                value@,
            ));
        }
        StrMap { entries }
    }

    /// The value stored under `name`, if any.
    pub fn get(&self, name: &str) -> (r: Option<&String>)
        ensures
            match r {
                Some(v) => self@.contains_key(name@) && self@[name@] == v@,
                None => !self@.contains_key(name@),
            },
    {
        proof {
            use_type_invariant(&*self);
            lemma_as_map_contains(spec_pair_views(self.entries@), name@);
        }
        let n = self.entries.len();
        let mut i: usize = 0;
        while i < n
            invariant
                n == self.entries@.len(),
                0 <= i <= n,
                spec_keys_unique(spec_pair_views(self.entries@)),
                forall|j: int| 0 <= j < i ==> self.entries@[j].0@ != name@,
            decreases n - i,
        {
            if str_eq(self.entries[i].0.as_str(), name) {
                proof {
                    lemma_as_map_get(spec_pair_views(self.entries@), i as int);
                }
                return Some(&self.entries[i].1);
            }
            i += 1;
        }
        None
    }

    /// All entries, in insertion order: exactly the mapping's content, with
    /// no key repeated.
    pub fn pairs(&self) -> (r: &Vec<(String, String)>)
        ensures
            spec_keys_unique(spec_pair_views(r@)),
            spec_as_map(spec_pair_views(r@)) == self@,
            forall|i: int|
                0 <= i < r@.len() ==> self@.contains_key(#[trigger] r@[i].0@) && self@[r@[i].0@]
                    == r@[i].1@,
    {
        proof {
            use_type_invariant(&*self);
            assert forall|i: int| 0 <= i < self.entries@.len() implies self@.contains_key(
                #[trigger] self.entries@[i].0@,
            ) && self@[self.entries@[i].0@] == self.entries@[i].1@ by {
                lemma_as_map_get(spec_pair_views(self.entries@), i);
            }
        }
        &self.entries
    }
}

//
// Rendered responses
//

/// The contents of a response produced by a [`crate::servable::Servable`].
pub enum RenderedBody {
    /// Static raw bytes
    Static(&'static [u8]),
    /// Dynamic raw bytes
    Bytes(Vec<u8>),
    /// A UTF-8 string
    String(String),
    /// No body. Equivalent to `Self::Static(&[])`.
    Empty,
}

/// A utility trait, used to control the kind of body [`Rendered`] contains.
///
/// Only two types are meant to implement it:
/// - `()`, when a request must return an empty body (i.e. HEAD)
/// - [`RenderedBody`], when a request should return a full response (i.e. GET)
pub trait RenderedBodyType {

}

impl RenderedBodyType for () {

}

impl RenderedBodyType for RenderedBody {

}

/// The metadata of a response: everything a `HEAD` answer shares with the
/// full `GET` answer for the same resource.
pub struct RenderMeta {
    /// Status code
    pub code: u16,
    /// Reported MIME type
    pub mime: Option<MimeType>,
    /// Cache time-to-live in seconds
    pub ttl: Option<i64>,
    /// Whether the content never changes
    pub immutable: bool,
}

/// An asset to return from an http route.
pub struct Rendered<T: RenderedBodyType> {
    /// The status code to return
    pub code: u16,
    /// The headers to return
    pub headers: StrMap,
    /// The content to return
    pub body: T,
    /// The type of `self.body`
    pub mime: Option<MimeType>,
    /// How long to cache this response, in seconds. If none, don't cache.
    pub ttl: Option<i64>,
    /// If true, the data at this route will never change.
    pub immutable: bool,
}

impl<T: RenderedBodyType> Rendered<T> {
    /// The response metadata: status, MIME, ttl and immutability.
    pub open spec fn spec_meta(&self) -> RenderMeta {
        RenderMeta { code: self.code, mime: self.mime, ttl: self.ttl, immutable: self.immutable }
    }
}

impl Rendered<()> {
    /// Turn this [`Rendered`] into a [`Rendered`] with a body, keeping all
    /// metadata and headers.
    pub fn with_body(self, body: RenderedBody) -> (r: Rendered<RenderedBody>)
        ensures
            r.spec_meta() == self.spec_meta(),
            r.headers == self.headers,
            r.body == body,
    {
        Rendered {
            code: self.code,
            headers: self.headers,
            body,
            mime: self.mime,
            ttl: self.ttl,
            immutable: self.immutable,
        }
    }
}

//
// Request context
//

/// The type of device that requested a page.
#[derive(Debug, Clone, Copy, PartialEq, Eq, Structural)]
pub enum DeviceType {
    /// This is a mobile device, like a phone.
    Mobile,
    /// This is a device with a large screen and a mouse, like a laptop.
    Desktop,
}

impl Default for DeviceType {
    /// The device type assumed when nothing hints otherwise.
    fn default() -> (r: Self)
        ensures
            r == DeviceType::Desktop,
    {
        DeviceType::Desktop
    }
}

/// Inferred information about the client that requested a certain route.
#[derive(Debug, Clone, Copy, PartialEq, Eq, Structural)]
pub struct ClientInfo {
    /// The type of device that is viewing this page.
    ///
    /// We do our best to detect this value automatically, but we may be wrong.
    pub device_type: DeviceType,
}

impl ClientInfo {
    /// The device type inferred from the `user-agent` and `Sec-CH-UA-Mobile`
    /// header values: mobile when the client hint contains `1` or the user
    /// agent contains `Mobile`, desktop otherwise.
    pub open spec fn spec_from_header_values(ua: Seq<char>, ch_mobile: Seq<char>) -> ClientInfo {
        if crate::strutil::spec_str_contains(ch_mobile, "1"@) || crate::strutil::spec_str_contains(
            ua,
            "Mobile"@,
        ) {
            ClientInfo { device_type: DeviceType::Mobile }
        } else {
            ClientInfo { device_type: DeviceType::Desktop }
        }
    }

    /// Infer client information from the `user-agent` and `Sec-CH-UA-Mobile`
    /// header values. Pass an empty string for a missing header.
    pub fn from_header_values(ua: &str, ch_mobile: &str) -> (r: ClientInfo)
        ensures
            r == Self::spec_from_header_values(ua@, ch_mobile@),
    {
        if str_contains(ch_mobile, "1") || str_contains(ua, "Mobile") {
            ClientInfo { device_type: DeviceType::Mobile }
        } else {
            ClientInfo { device_type: DeviceType::Desktop }
        }
    }
}

/// Additional context available to [`crate::servable::Servable`]s when
/// generating their content.
pub struct RenderContext {
    /// Information about the request
    pub client_info: ClientInfo,
    /// The route that was requested. Starts with a `/`.
    pub route: String,
    /// This request's query parameters
    pub query: StrMap,
}

} // verus!
